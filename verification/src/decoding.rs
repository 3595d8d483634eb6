//! From bytes to text, without ever failing.
//!
//! What the user types and what a command prints both arrive as bytes that
//! claim to be UTF-8. Where they are not, the character U+FFFD stands for
//! each byte sequence that is no text. Keystrokes arrive in pieces that may
//! end within a character: the decoder holds such a beginning back until the
//! next piece completes it.

use vstd::prelude::*;
use vstd::slice::{slice_subrange, slice_to_vec};
use vstd::string::StringExecFns;
use vstd::utf8::{encode_utf8, valid_utf8};

verus! {

/// The text that `String::from_utf8_lossy` makes of these bytes.
pub uninterp spec fn lossy_text(bytes: Seq<u8>) -> Seq<char>;

/// Converts bytes to text with `String::from_utf8_lossy`: valid UTF-8 is
/// taken as the text it encodes, and every byte sequence in between that is
/// no text becomes one U+FFFD. So bytes that are valid UTF-8 come back as
/// the text that they encode, and the text made of other bytes holds U+FFFD.
#[verifier::external_body]
pub(crate) fn decode_lossy(bytes: &[u8]) -> (text: String)
    ensures
        text@ == lossy_text(bytes@),
        valid_utf8(bytes@) ==> encode_utf8(text@) == bytes@,
        !valid_utf8(bytes@) ==> text@.contains('\u{fffd}'),
{
    String::from_utf8_lossy(bytes).into_owned()
}

/// What `utf8::decode` makes of its input.
#[derive(Debug, Clone, PartialEq, Eq)]
pub enum Decoded {
    /// All of the input is this text.
    Text(String),
    /// The input starts with this text; then comes a byte sequence that is
    /// no text; after it, `rest` bytes of the input remain.
    Invalid { text: String, rest: usize },
    /// The input starts with this text; its last `held` bytes begin a
    /// character that the input does not end.
    Incomplete { text: String, held: usize },
}

/// A `Decoded` as a mathematical value.
pub enum DecodedText {
    Text(Seq<char>),
    Invalid { text: Seq<char>, rest: nat },
    Incomplete { text: Seq<char>, held: nat },
}

impl DeepView for Decoded {
    type V = DecodedText;

    open spec fn deep_view(&self) -> DecodedText {
        match self {
            Decoded::Text(text) => DecodedText::Text(text@),
            Decoded::Invalid { text, rest } => DecodedText::Invalid { text: text@, rest: *rest as nat },
            Decoded::Incomplete { text, held } => DecodedText::Incomplete {
                text: text@,
                held: *held as nat,
            },
        }
    }
}

/// The text that was decoded.
pub open spec fn text_of(found: Decoded) -> Seq<char> {
    match found {
        Decoded::Text(text) => text@,
        Decoded::Invalid { text, .. } => text@,
        Decoded::Incomplete { text, .. } => text@,
    }
}

/// How many bytes remain behind an invalid byte sequence.
pub open spec fn rest_of(found: Decoded) -> nat {
    match found {
        Decoded::Invalid { rest, .. } => rest as nat,
        _ => 0,
    }
}

/// How many bytes at the end begin a character.
pub open spec fn held_of(found: Decoded) -> nat {
    match found {
        Decoded::Incomplete { held, .. } => held as nat,
        _ => 0,
    }
}

/// What `utf8::decode` makes of these bytes.
pub uninterp spec fn utf8_decoded(input: Seq<u8>) -> DecodedText;

/// Decodes the start of `input` with `utf8::decode`. Input is returned
/// whole, as the text it encodes, if and only if it is valid UTF-8.
/// Otherwise the text before the first error is returned, and either the
/// number of bytes that remain behind the invalid sequence, which are fewer
/// than the input has, or the number of bytes at the end of the input that
/// begin a character.
#[verifier::external_body]
fn decode(input: &[u8]) -> (found: Decoded)
    ensures
        found.deep_view() == utf8_decoded(input@),
        found is Text <==> valid_utf8(input@),
        found is Text ==> encode_utf8(text_of(found)) == input@,
        found is Invalid ==> rest_of(found) < input@.len(),
        found is Incomplete ==> held_of(found) <= input@.len(),
{
    match utf8::decode(input) {
        Ok(text) => Decoded::Text(text.to_owned()),
        Err(utf8::DecodeError::Invalid { valid_prefix, remaining_input, .. }) => Decoded::Invalid {
            text: valid_prefix.to_owned(),
            rest: remaining_input.len(),
        },
        Err(utf8::DecodeError::Incomplete { valid_prefix, incomplete_suffix }) => {
            Decoded::Incomplete {
                text: valid_prefix.to_owned(),
                held: incomplete_suffix.buffer_len as usize,
            }
        },
    }
}

/// What one decoding settles of its input.
#[derive(Debug, Clone, PartialEq, Eq)]
pub struct Settled {
    /// The text that the start of the input gives.
    pub text: String,
    /// How many bytes at the end of the input are still to be decoded.
    pub rest: usize,
    /// How many bytes at the end of the input begin a character and are
    /// held back.
    pub held: usize,
}

/// The text that the start of the input gives, going by what was decoded
/// there: the text as it is, and U+FFFD for an invalid byte sequence after
/// it.
pub open spec fn settled_text(found: DecodedText) -> Seq<char> {
    match found {
        DecodedText::Text(text) => text,
        DecodedText::Invalid { text, .. } => text.push('\u{fffd}'),
        DecodedText::Incomplete { text, .. } => text,
    }
}

/// How many bytes are still to be decoded: those behind an invalid byte
/// sequence.
pub open spec fn settled_rest(found: DecodedText) -> nat {
    match found {
        DecodedText::Invalid { rest, .. } => rest,
        _ => 0,
    }
}

/// How many bytes are held back: those that begin a character.
pub open spec fn settled_held(found: DecodedText) -> nat {
    match found {
        DecodedText::Incomplete { held, .. } => held,
        _ => 0,
    }
}

/// Settles what `found` means for the text, for the bytes still to decode
/// and for the bytes to hold back.
pub fn settle(found: Decoded) -> (settled: Settled)
    ensures
        settled.text@ == settled_text(found.deep_view()),
        settled.rest == settled_rest(found.deep_view()),
        settled.held == settled_held(found.deep_view()),
{
    match found {
        Decoded::Text(text) => Settled { text, rest: 0, held: 0 },
        Decoded::Invalid { text: mut text, rest } => {
            text.push('\u{fffd}');
            Settled { text, rest, held: 0 }
        },
        Decoded::Incomplete { text, held } => Settled { text, rest: 0, held },
    }
}

/// The text that `input` gives and the bytes that are held back at its end.
/// The input is decoded from its start, and again behind every invalid byte
/// sequence, until nothing is left to decode.
pub open spec fn keys_of(input: Seq<u8>) -> (Seq<char>, Seq<u8>)
    decreases input.len(),
{
    let found = utf8_decoded(input);
    let rest = settled_rest(found);
    if 0 < rest < input.len() {
        let behind = keys_of(input.skip(input.len() - rest));
        (settled_text(found) + behind.0, behind.1)
    } else {
        (settled_text(found), input.skip(input.len() - settled_held(found)))
    }
}

/// The decoder of the keystrokes: the bytes of a character that has begun
/// and not yet ended.
#[derive(Debug)]
pub struct KeyDecoder {
    held: Vec<u8>,
}

impl View for KeyDecoder {
    type V = Seq<u8>;

    closed spec fn view(&self) -> Seq<u8> {
        self.held@
    }
}

impl KeyDecoder {
    /// A decoder that holds nothing back.
    pub fn new() -> (decoder: KeyDecoder)
        ensures
            decoder@ == Seq::<u8>::empty(),
    {
        KeyDecoder { held: Vec::new() }
    }

    /// Decodes the next piece of input: the bytes held back so far and then
    /// `chunk`. Where these together are valid UTF-8, the text they encode
    /// comes out and nothing is held back: a character that was split over
    /// two pieces is put together.
    pub fn feed(&mut self, chunk: &[u8]) -> (text: String)
        ensures
            (text@, final(self)@) == keys_of(old(self)@ + chunk@),
            valid_utf8(old(self)@ + chunk@) ==> encode_utf8(text@) == old(self)@ + chunk@,
            valid_utf8(old(self)@ + chunk@) ==> final(self)@.len() == 0,
    {
        let mut input: Vec<u8> = Vec::new();
        input.append(&mut self.held);
        input.extend_from_slice(chunk);
        assert(input@ == old(self)@ + chunk@);
        let mut text = String::new();
        let mut start: usize = 0;
        proof {
            assert(input@.skip(0) == input@);
            assert(text@ + keys_of(input@).0 == keys_of(input@).0);
        }
        loop
            invariant
                start <= input.len(),
                input@ == old(self)@ + chunk@,
                keys_of(input@) == (
                    text@ + keys_of(input@.skip(start as int)).0,
                    keys_of(input@.skip(start as int)).1,
                ),
                start == 0 ==> text@.len() == 0,
                valid_utf8(input@) ==> start == 0,
            decreases input.len() - start,
        {
            let ghost before = text@;
            let ghost tail = input@.skip(start as int);
            let piece = slice_subrange(input.as_slice(), start, input.len());
            assert(piece@ == tail);
            assert(start == 0 ==> tail == input@);
            let found = decode(piece);
            let ghost seen = found.deep_view();
            proof {
                assert(settled_rest(seen) == rest_of(found));
                assert(settled_held(seen) == held_of(found));
                assert(found is Text ==> settled_text(seen) == text_of(found));
            }
            let settled = settle(found);
            text.append(settled.text.as_str());
            if settled.rest > 0 {
                proof {
                    let rest = tail.skip(tail.len() - settled.rest);
                    assert(rest == input@.skip(input.len() - settled.rest));
                    assert(before + (settled.text@ + keys_of(rest).0) == (before + settled.text@)
                        + keys_of(rest).0);
                }
                start = input.len() - settled.rest;
            } else {
                let from = input.len() - settled.held;
                self.held = slice_to_vec(slice_subrange(input.as_slice(), from, input.len()));
                proof {
                    assert(input@.subrange(from as int, input.len() as int) == tail.skip(
                        tail.len() - settled.held,
                    ));
                    assert(Seq::<char>::empty() + settled.text@ == settled.text@);
                    assert(tail.skip(tail.len() as int).len() == 0);
                }
                return text;
            }
        }
    }

    /// Ends the input: a character that has begun and will not end is one
    /// decoding error, and so one U+FFFD.
    pub fn finish(&mut self) -> (text: String)
        ensures
            final(self)@.len() == 0,
            text@ == if old(self)@.len() > 0 {
                seq!['\u{fffd}']
            } else {
                Seq::<char>::empty()
            },
    {
        let mut text = String::new();
        if self.held.len() > 0 {
            text.push('\u{fffd}');
            self.held = Vec::new();
            assert(text@ == seq!['\u{fffd}']);
        }
        text
    }
}

} // verus!
