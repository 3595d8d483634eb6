//! The command line under edit and its split into program and arguments.
//!
//! Every keystroke edits the line; the edited line is then split on white
//! space into a program name and its arguments. Nothing is quoted, escaped
//! or expanded.

use vstd::prelude::*;

verus! {

/// `String::push` appends one character.
pub assume_specification[ String::push ](text: &mut String, ch: char)
    ensures
        final(text)@ == old(text)@.push(ch),
;

/// `String::pop` removes the last character and returns it; on an empty
/// string it returns `None` and changes nothing.
pub assume_specification[ String::pop ](text: &mut String) -> (last: Option<char>)
    ensures
        old(text)@.len() == 0 ==> last is None && final(text)@ == old(text)@,
        old(text)@.len() > 0 ==> last == Some(old(text)@.last()) && final(text)@ == old(
            text,
        )@.drop_last(),
;

/// Escape, carriage return and line feed: keys that leave the line as it is.
pub open spec fn is_ignored_key(key: char) -> bool {
    key == '\u{1b}' || key == '\r' || key == '\n'
}

/// Backspace and delete: keys that remove the last character.
pub open spec fn is_erase_key(key: char) -> bool {
    key == '\u{8}' || key == '\u{7f}'
}

/// The command line after one keystroke.
pub open spec fn edited(text: Seq<char>, key: char) -> Seq<char> {
    if is_ignored_key(key) {
        text
    } else if is_erase_key(key) {
        if text.len() > 0 {
            text.drop_last()
        } else {
            text
        }
    } else {
        text.push(key)
    }
}

/// The command line after a run of keystrokes, starting from `text`.
pub open spec fn typed(text: Seq<char>, keys: Seq<char>) -> Seq<char>
    decreases keys.len(),
{
    if keys.len() == 0 {
        text
    } else {
        edited(typed(text, keys.drop_last()), keys.last())
    }
}

/// Whether `text` is free of the keys that are never appended: escape,
/// carriage return, line feed, backspace and delete.
pub open spec fn is_plain(text: Seq<char>) -> bool {
    forall|i: int|
        0 <= i < text.len() ==> !is_ignored_key(#[trigger] text[i]) && !is_erase_key(text[i])
}

/// A command line that was typed holds none of the keys that edit it or
/// leave it alone: no escape character ever gets into it.
pub proof fn lemma_typed_is_plain(text: Seq<char>, keys: Seq<char>)
    requires
        is_plain(text),
    ensures
        is_plain(typed(text, keys)),
    decreases keys.len(),
{
    if keys.len() > 0 {
        lemma_typed_is_plain(text, keys.drop_last());
        let before = typed(text, keys.drop_last());
        let after = typed(text, keys);
        assert forall|i: int| 0 <= i < after.len() implies !is_ignored_key(#[trigger] after[i])
            && !is_erase_key(after[i]) by {
            if i < before.len() {
                assert(after[i] == before[i]);
            }
        }
    }
}

/// Applies one keystroke to the command line.
pub fn apply_key(text: &mut String, key: char)
    ensures
        final(text)@ == edited(old(text)@, key),
{
    if key == '\u{1b}' || key == '\r' || key == '\n' {
    } else if key == '\u{8}' || key == '\u{7f}' {
        text.pop();
    } else {
        text.push(key);
    }
}

/// The characters with the Unicode property `White_Space`.
pub open spec fn is_whitespace(c: char) -> bool {
    let u = c as u32;
    ||| 0x09 <= u <= 0x0d
    ||| u == 0x20
    ||| u == 0x85
    ||| u == 0xa0
    ||| u == 0x1680
    ||| 0x2000 <= u <= 0x200a
    ||| u == 0x2028
    ||| u == 0x2029
    ||| u == 0x202f
    ||| u == 0x205f
    ||| u == 0x3000
}

/// Whether `c` separates tokens.
pub fn separates(c: char) -> (b: bool)
    ensures
        b == is_whitespace(c),
{
    let u: u32 = c as u32;
    (0x09 <= u && u <= 0x0d) || u == 0x20 || u == 0x85 || u == 0xa0 || u == 0x1680 || (0x2000 <= u
        && u <= 0x200a) || u == 0x2028 || u == 0x2029 || u == 0x202f || u == 0x205f || u == 0x3000
}

/// Whether `text` ends inside a token.
pub open spec fn ends_in_token(text: Seq<char>) -> bool {
    text.len() > 0 && !is_whitespace(text.last())
}

/// The tokens of a command line: its maximal runs of characters that are not
/// white space, in order. Stated by what the last character does to the
/// tokens of the text before it: white space adds nothing, another character
/// lengthens the token that the text ends in, or starts a new one.
pub open spec fn tokens(text: Seq<char>) -> Seq<Seq<char>>
    decreases text.len(),
{
    if text.len() == 0 {
        Seq::empty()
    } else {
        let before = tokens(text.drop_last());
        if is_whitespace(text.last()) {
            before
        } else if ends_in_token(text.drop_last()) {
            before.drop_last().push(before.last().push(text.last()))
        } else {
            before.push(seq![text.last()])
        }
    }
}

/// Splits a command line into its tokens.
pub fn split_tokens(text: &str) -> (found: Vec<String>)
    ensures
        found.deep_view() == tokens(text@),
{
    let mut found: Vec<String> = Vec::new();
    let mut word = String::new();
    for c in it: text.chars()
        invariant
            it.seq() == text@,
            word@.len() > 0 <==> ends_in_token(text@.take(it.index())),
            tokens(text@.take(it.index())) == if word@.len() > 0 {
                found.deep_view().push(word@)
            } else {
                found.deep_view()
            },
    {
        let ghost seen = text@.take(it.index());
        let ghost next = text@.take(it.index() + 1);
        let ghost done = found.deep_view();
        let ghost run = word@;
        assert(next.drop_last() == seen);
        assert(next.last() == c);
        if separates(c) {
            if !word.as_str().is_empty() {
                found.push(word);
                word = String::new();
                assert(found.deep_view() == done.push(run));
            }
            assert(tokens(next) == tokens(seen));
        } else {
            word.push(c);
            proof {
                if run.len() > 0 {
                    assert(done.push(run).drop_last() == done);
                    assert(done.push(run).last() == run);
                    assert(tokens(next) == done.push(run.push(c)));
                } else {
                    assert(run.push(c) == seq![c]);
                    assert(tokens(next) == done.push(seq![c]));
                }
            }
        }
    }
    assert(text@.take(text@.len() as int) == text@);
    if !word.as_str().is_empty() {
        let ghost done = found.deep_view();
        let ghost run = word@;
        found.push(word);
        assert(found.deep_view() == done.push(run));
    }
    found
}

/// Whether `text` holds no white space.
pub open spec fn is_solid(text: Seq<char>) -> bool {
    forall|i: int| 0 <= i < text.len() ==> !is_whitespace(#[trigger] text[i])
}

/// Whether `text` holds white space only.
pub open spec fn is_blank(text: Seq<char>) -> bool {
    forall|i: int| 0 <= i < text.len() ==> is_whitespace(#[trigger] text[i])
}

/// Text that ends in a token has a token.
proof fn lemma_last_token_exists(text: Seq<char>)
    requires
        ends_in_token(text),
    ensures
        tokens(text).len() > 0,
    decreases text.len(),
{
    if ends_in_token(text.drop_last()) {
        lemma_last_token_exists(text.drop_last());
    }
}

/// Every token has at least one character and no white space in it.
pub proof fn lemma_tokens_are_solid(text: Seq<char>)
    ensures
        forall|i: int|
            0 <= i < tokens(text).len() ==> (#[trigger] tokens(text)[i]).len() > 0 && is_solid(
                tokens(text)[i],
            ),
    decreases text.len(),
{
    if text.len() > 0 {
        let before = tokens(text.drop_last());
        lemma_tokens_are_solid(text.drop_last());
        if !is_whitespace(text.last()) && ends_in_token(text.drop_last()) {
            lemma_last_token_exists(text.drop_last());
            let grown = before.last().push(text.last());
            assert(is_solid(grown)) by {
                assert forall|j: int| 0 <= j < grown.len() implies !is_whitespace(
                    #[trigger] grown[j],
                ) by {
                    if j < before.last().len() {
                        assert(grown[j] == before.last()[j]);
                    }
                }
            }
            assert forall|i: int| 0 <= i < tokens(text).len() implies (#[trigger] tokens(
                text,
            )[i]).len() > 0 && is_solid(tokens(text)[i]) by {
                if i < before.len() - 1 {
                    assert(tokens(text)[i] == before[i]);
                }
            }
        } else if !is_whitespace(text.last()) {
            assert(is_solid(seq![text.last()]));
            assert forall|i: int| 0 <= i < tokens(text).len() implies (#[trigger] tokens(
                text,
            )[i]).len() > 0 && is_solid(tokens(text)[i]) by {
                if i < before.len() {
                    assert(tokens(text)[i] == before[i]);
                }
            }
        }
    }
}

/// A command line has no tokens if and only if it is blank.
pub proof fn lemma_no_tokens_iff_blank(text: Seq<char>)
    ensures
        tokens(text).len() == 0 <==> is_blank(text),
    decreases text.len(),
{
    if text.len() > 0 {
        let before = text.drop_last();
        lemma_no_tokens_iff_blank(before);
        if is_whitespace(text.last()) {
            if is_blank(before) {
                assert forall|i: int| 0 <= i < text.len() implies is_whitespace(
                    #[trigger] text[i],
                ) by {
                    if i < before.len() {
                        assert(text[i] == before[i]);
                    }
                }
            } else {
                let i = choose|i: int| 0 <= i < before.len() && !is_whitespace(#[trigger] before[i]);
                assert(text[i] == before[i]);
            }
        } else {
            assert(text[text.len() - 1] == text.last());
            if ends_in_token(before) {
                lemma_last_token_exists(before);
            }
        }
    }
}

/// A word by itself is its own single token.
pub proof fn lemma_word_is_one_token(word: Seq<char>)
    requires
        word.len() > 0,
        is_solid(word),
    ensures
        tokens(word) == seq![word],
    decreases word.len(),
{
    let before = word.drop_last();
    assert(!is_whitespace(word[word.len() - 1]));
    if before.len() > 0 {
        assert forall|i: int| 0 <= i < before.len() implies !is_whitespace(
            #[trigger] before[i],
        ) by {
            assert(before[i] == word[i]);
        }
        lemma_word_is_one_token(before);
        assert(ends_in_token(before));
        assert(before.push(word.last()) == word);
        assert(seq![before].last() == before);
        assert(seq![before].drop_last().push(word) == seq![word]);
    } else {
        assert(seq![word.last()] == word);
        assert(tokens(before).push(word) == seq![word]);
    }
}

/// White space splits a command line: the tokens of two texts with white
/// space between them are the tokens of the first and then those of the
/// second.
pub proof fn lemma_tokens_split_at_white_space(left: Seq<char>, gap: char, right: Seq<char>)
    requires
        is_whitespace(gap),
    ensures
        tokens(left.push(gap) + right) == tokens(left) + tokens(right),
    decreases right.len(),
{
    let head = left.push(gap);
    if right.len() == 0 {
        assert(head + right == head);
        assert(head.drop_last() == left);
        assert(tokens(left) + tokens(right) == tokens(left));
    } else {
        let text = head + right;
        let before = right.drop_last();
        lemma_tokens_split_at_white_space(left, gap, before);
        assert(text.drop_last() == head + before);
        assert(text.last() == right.last());
        assert(ends_in_token(head + before) <==> ends_in_token(before)) by {
            if before.len() == 0 {
                assert(head + before == head);
            } else {
                assert((head + before).last() == before.last());
            }
        }
        if is_whitespace(right.last()) {
        } else if ends_in_token(before) {
            lemma_last_token_exists(before);
            let joined = tokens(left) + tokens(before);
            assert(joined.last() == tokens(before).last());
            assert(joined.drop_last() == tokens(left) + tokens(before).drop_last());
            assert(joined.drop_last().push(joined.last().push(right.last())) == tokens(left) + (
            tokens(before).drop_last().push(tokens(before).last().push(right.last()))));
        } else {
            assert((tokens(left) + tokens(before)).push(seq![right.last()]) == tokens(left) + (
            tokens(before).push(seq![right.last()])));
        }
    }
}

} // verus!
