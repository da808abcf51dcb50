//! Removal of markup tags from free text.
//!
//! A tag is a `<`, one or more characters other than `>`, and a `>`. Text is
//! scanned once from the left; every tag found is dropped and the scan goes on
//! behind it, so what is left of a dropped tag is never looked at again.

use vstd::prelude::*;

verus! {

/// The pattern that describes one tag.
pub open spec fn tag_pattern() -> Seq<char> {
    "<[^>]+>"@
}

/// The position of the first `>` at or behind `from`, or the length of the
/// text where there is none.
pub open spec fn next_close(s: Seq<char>, from: int) -> int
    decreases s.len() - from,
{
    if from < 0 || from >= s.len() {
        s.len() as int
    } else if s[from] == '>' {
        from
    } else {
        next_close(s, from + 1)
    }
}

/// Whether a tag starts at position `i`.
pub open spec fn tag_at(s: Seq<char>, i: int) -> bool {
    &&& 0 <= i
    &&& i + 1 < s.len()
    &&& s[i] == '<'
    &&& s[i + 1] != '>'
    &&& next_close(s, i + 1) < s.len()
}

/// The position just behind the tag that starts at `i`.
pub open spec fn tag_end(s: Seq<char>, i: int) -> int {
    next_close(s, i + 1) + 1
}

/// What is left of `s` from position `i` on once its tags are dropped.
pub open spec fn without_tags_from(s: Seq<char>, i: int) -> Seq<char>
    decreases s.len() - i,
{
    if i < 0 || i >= s.len() {
        Seq::empty()
    } else if tag_at(s, i) {
        proof {
            lemma_next_close_bounds(s, i + 1);
        }
        without_tags_from(s, tag_end(s, i))
    } else {
        seq![s[i]] + without_tags_from(s, i + 1)
    }
}

/// The text `s` with its tags dropped.
pub open spec fn without_tags(s: Seq<char>) -> Seq<char> {
    without_tags_from(s, 0)
}

/// Whether `s` holds a tag anywhere.
pub open spec fn has_tag(s: Seq<char>) -> bool {
    exists|i: int| tag_at(s, i)
}

/// `next_close` stays between its start and the end of the text, and points
/// at a `>` whenever it stays inside.
pub proof fn lemma_next_close_bounds(s: Seq<char>, from: int)
    requires
        0 <= from <= s.len(),
    ensures
        from <= next_close(s, from) <= s.len(),
        next_close(s, from) < s.len() ==> s[next_close(s, from)] == '>',
        forall|k: int| from <= k < next_close(s, from) ==> s[k] != '>',
    decreases s.len() - from,
{
    if from < s.len() && s[from] != '>' {
        lemma_next_close_bounds(s, from + 1);
    }
}

/// Putting one character in front of a text moves `next_close` by one.
proof fn lemma_next_close_shift(c: char, t: Seq<char>, from: int)
    requires
        0 <= from <= t.len(),
    ensures
        next_close(seq![c] + t, from + 1) == next_close(t, from) + 1,
    decreases t.len() - from,
{
    let u = seq![c] + t;
    assert(u.len() == t.len() + 1);
    if from < t.len() {
        assert(u[from + 1] == t[from]);
        if t[from] != '>' {
            lemma_next_close_shift(c, t, from + 1);
        }
    }
}

/// A tag behind the first character of a text is a tag of the rest.
proof fn lemma_tag_at_shift(c: char, t: Seq<char>, k: int)
    requires
        0 <= k,
    ensures
        tag_at(seq![c] + t, k + 1) == tag_at(t, k),
{
    let u = seq![c] + t;
    assert(u.len() == t.len() + 1);
    if k + 1 < t.len() {
        assert(u[k + 1] == t[k]);
        assert(u[k + 2] == t[k + 1]);
        lemma_next_close_shift(c, t, k + 1);
    }
}

/// Where the text holds no `>` from `i` on, what is left of it holds none.
proof fn lemma_no_close_stays(s: Seq<char>, i: int)
    requires
        0 <= i <= s.len(),
        forall|m: int| i <= m < s.len() ==> s[m] != '>',
    ensures
        forall|k: int|
            0 <= k < without_tags_from(s, i).len() ==> without_tags_from(s, i)[k] != '>',
    decreases s.len() - i,
{
    if i < s.len() {
        if tag_at(s, i) {
            lemma_next_close_bounds(s, i + 1);
            lemma_no_close_stays(s, tag_end(s, i));
        } else {
            lemma_no_close_stays(s, i + 1);
            let w = without_tags_from(s, i);
            let rest = without_tags_from(s, i + 1);
            assert(w == seq![s[i]] + rest);
            assert forall|k: int| 0 <= k < w.len() implies w[k] != '>' by {
                if k >= 1 {
                    assert(w[k] == rest[k - 1]);
                }
            }
        }
    }
}

/// What is left of a text from any position on holds no tag.
proof fn lemma_rest_has_no_tag(s: Seq<char>, i: int)
    requires
        0 <= i <= s.len(),
    ensures
        !has_tag(without_tags_from(s, i)),
    decreases s.len() - i,
{
    let w = without_tags_from(s, i);
    if i == s.len() {
        assert(w.len() == 0);
        assert forall|k: int| !tag_at(w, k) by {}
    } else if tag_at(s, i) {
        lemma_next_close_bounds(s, i + 1);
        lemma_rest_has_no_tag(s, tag_end(s, i));
    } else {
        let rest = without_tags_from(s, i + 1);
        lemma_rest_has_no_tag(s, i + 1);
        assert(w == seq![s[i]] + rest);
        assert forall|k: int| !tag_at(w, k) by {
            if k >= 1 {
                lemma_tag_at_shift(s[i], rest, k - 1);
                assert(!tag_at(rest, k - 1));
            } else if k == 0 && s[i] == '<' && i + 1 < s.len() {
                if s[i + 1] == '>' {
                    assert(!tag_at(s, i + 1));
                    assert(rest == seq![s[i + 1]] + without_tags_from(s, i + 2));
                    assert(w[1] == '>');
                } else {
                    lemma_next_close_bounds(s, i + 1);
                    assert(next_close(s, i + 1) == s.len());
                    lemma_no_close_stays(s, i + 1);
                    lemma_next_close_bounds(rest, 0);
                    lemma_next_close_shift(s[i], rest, 0);
                    assert(next_close(rest, 0) == rest.len());
                }
            }
        }
    }
}

/// A text that holds no tag is left as it is, from any position on.
proof fn lemma_rest_unchanged(s: Seq<char>, i: int)
    requires
        0 <= i <= s.len(),
        !has_tag(s),
    ensures
        without_tags_from(s, i) == s.skip(i),
    decreases s.len() - i,
{
    if i < s.len() {
        assert(!tag_at(s, i));
        lemma_rest_unchanged(s, i + 1);
        assert(seq![s[i]] + s.skip(i + 1) =~= s.skip(i));
    } else {
        assert(s.skip(i) =~= Seq::<char>::empty());
    }
}

/// What is left of a text from a position on is no longer than that rest.
proof fn lemma_rest_is_shorter(s: Seq<char>, i: int)
    requires
        0 <= i <= s.len(),
    ensures
        without_tags_from(s, i).len() <= s.len() - i,
    decreases s.len() - i,
{
    if i < s.len() {
        if tag_at(s, i) {
            lemma_next_close_bounds(s, i + 1);
            lemma_rest_is_shorter(s, tag_end(s, i));
        } else {
            lemma_rest_is_shorter(s, i + 1);
        }
    }
}

/// Stripped text holds no tag: dropping a tag never brings a new one about.
pub proof fn lemma_stripped_has_no_tag(s: Seq<char>)
    ensures
        !has_tag(without_tags(s)),
{
    lemma_rest_has_no_tag(s, 0);
}

/// Text without a tag is left unchanged.
pub proof fn lemma_plain_text_unchanged(s: Seq<char>)
    requires
        !has_tag(s),
    ensures
        without_tags(s) == s,
{
    lemma_rest_unchanged(s, 0);
    assert(s.skip(0) =~= s);
}

/// Stripping twice gives what stripping once gives.
pub proof fn lemma_strip_idempotent(s: Seq<char>)
    ensures
        without_tags(without_tags(s)) == without_tags(s),
{
    lemma_stripped_has_no_tag(s);
    lemma_plain_text_unchanged(without_tags(s));
}

/// Stripping never makes a text longer.
pub proof fn lemma_strip_shortens(s: Seq<char>)
    ensures
        without_tags(s).len() <= s.len(),
{
    lemma_rest_is_shorter(s, 0);
}

/// Compiles `pattern` with `regex::Regex::new` and, where that succeeds, has
/// `Regex::replace_all` put the empty text in place of every match in `text`.
///
/// The contract speaks of the tag pattern only. It claims that the pattern
/// compiles and that the leftmost, non-overlapping matches the crate finds
/// are the tags `without_tags` drops: a match starts at a `<` that is
/// followed by at least one character other than `>` and ends with the first
/// `>` behind it.
#[verifier::external_body]
fn erase_matches(pattern: &str, text: &str) -> (erased: Option<String>)
    ensures
        pattern@ == tag_pattern() ==> erased is Some,
        pattern@ == tag_pattern() ==> erased.unwrap()@ == without_tags(text@),
{
    match regex::Regex::new(pattern) {
        Ok(re) => Some(re.replace_all(text, "").into_owned()),
        Err(_) => None,
    }
}

/// Removes every markup tag from `text`, in one pass from the left.
pub fn strip_markup(text: &str) -> (clean: String)
    ensures
        clean@ == without_tags(text@),
        !has_tag(clean@),
{
    proof {
        lemma_stripped_has_no_tag(text@);
    }
    erase_matches("<[^>]+>", text).unwrap()
}

} // verus!
