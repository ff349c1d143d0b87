//! Stripping the blanks that surround a piece of text.

use vstd::prelude::*;
use vstd::std_specs::iter::IteratorSpec;
use vstd::string::StrSliceExecFns;

verus! {

/// `c` is white space: a character with the Unicode property White_Space,
/// which takes in the blank, the tab, the line breaks and the wider
/// spaces of typography.
pub open spec fn is_white_space(c: char) -> bool {
    let u = c as u32;
    ||| 0x09 <= u <= 0x0d
    ||| u == 0x20
    ||| u == 0x85
    ||| u == 0xa0
    ||| u == 0x1680
    ||| 0x2000 <= u <= 0x200a
    ||| u == 0x2028
    ||| u == 0x2029
    ||| u == 0x202f
    ||| u == 0x205f
    ||| u == 0x3000
}

/// Every character of `s` is white space.
pub open spec fn all_white_space(s: Seq<char>) -> bool {
    forall|i: int| 0 <= i < s.len() ==> is_white_space(#[trigger] s[i])
}

/// `s` without the white space at its two ends.
pub open spec fn trimmed(s: Seq<char>) -> Seq<char>
    decreases s.len(),
{
    if s.len() == 0 {
        s
    } else if is_white_space(s[0]) {
        trimmed(s.drop_first())
    } else if is_white_space(s.last()) {
        trimmed(s.drop_last())
    } else {
        s
    }
}

/// Text that is white space throughout trims to nothing.
pub proof fn lemma_trimmed_blank(s: Seq<char>)
    requires
        all_white_space(s),
    ensures
        trimmed(s) == Seq::<char>::empty(),
    decreases s.len(),
{
    if s.len() > 0 {
        let rest = s.drop_first();
        assert forall|i: int| 0 <= i < rest.len() implies is_white_space(#[trigger] rest[i]) by {
            assert(rest[i] == s[i + 1]);
        }
        lemma_trimmed_blank(rest);
    }
}

/// Where `from` is the place of the first character that is no white space
/// and `to` lies just past the last one, the text between them is what
/// trimming leaves.
pub proof fn lemma_trimmed_between(s: Seq<char>, from: int, to: int)
    requires
        0 <= from < to <= s.len(),
        all_white_space(s.take(from)),
        all_white_space(s.skip(to)),
        !is_white_space(s[from]),
        !is_white_space(s[to - 1]),
    ensures
        trimmed(s) == s.subrange(from, to),
    decreases s.len(),
{
    if from > 0 {
        assert(s.take(from)[0] == s[0]);
        let rest = s.drop_first();
        assert forall|i: int| 0 <= i < rest.take(from - 1).len() implies is_white_space(
            #[trigger] rest.take(from - 1)[i],
        ) by {
            assert(rest.take(from - 1)[i] == s.take(from)[i + 1]);
        }
        assert(rest.skip(to - 1) == s.skip(to));
        lemma_trimmed_between(rest, from - 1, to - 1);
        assert(rest.subrange(from - 1, to - 1) == s.subrange(from, to));
    } else if to < s.len() {
        assert(s.skip(to)[s.len() - to - 1] == s.last());
        let rest = s.drop_last();
        assert forall|i: int| 0 <= i < rest.skip(to).len() implies is_white_space(
            #[trigger] rest.skip(to)[i],
        ) by {
            assert(rest.skip(to)[i] == s.skip(to)[i]);
        }
        assert(rest.take(0) == s.take(0));
        lemma_trimmed_between(rest, 0, to);
        assert(rest.subrange(0, to) == s.subrange(0, to));
    } else {
        assert(s.subrange(0, s.len() as int) == s);
    }
}

/// What trimming leaves neither begins nor ends with white space.
pub proof fn lemma_trimmed_is_tight(s: Seq<char>)
    ensures
        trimmed(s).len() > 0 ==> !is_white_space(trimmed(s)[0]) && !is_white_space(
            trimmed(s).last(),
        ),
    decreases s.len(),
{
    if s.len() == 0 {
    } else if is_white_space(s[0]) {
        lemma_trimmed_is_tight(s.drop_first());
    } else if is_white_space(s.last()) {
        lemma_trimmed_is_tight(s.drop_last());
    }
}

/// A stretch of white space stays one when the white space after it is
/// taken in.
pub proof fn lemma_white_space_extends(s: Seq<char>, from: int, to: int)
    requires
        0 <= from <= to < s.len(),
        all_white_space(s.subrange(from, to)),
        is_white_space(s[to]),
    ensures
        all_white_space(s.subrange(from, to + 1)),
{
    assert forall|i: int| 0 <= i < s.subrange(from, to + 1).len() implies is_white_space(
        #[trigger] s.subrange(from, to + 1)[i],
    ) by {
        if from + i < to {
            assert(s.subrange(from, to + 1)[i] == s.subrange(from, to)[i]);
        }
    }
}

/// Whether `c` is white space.
pub fn is_blank(c: char) -> (b: bool)
    ensures
        b == is_white_space(c),
{
    let u = c as u32;
    (0x09 <= u && u <= 0x0d) || u == 0x20 || u == 0x85 || u == 0xa0 || u == 0x1680 || (0x2000 <= u
        && u <= 0x200a) || u == 0x2028 || u == 0x2029 || u == 0x202f || u == 0x205f || u == 0x3000
}

/// The part of `text` between its leading and its trailing white space.
#[verifier::loop_isolation(false)]
pub fn trim(text: &str) -> (out: &str)
    ensures
        out@ == trimmed(text@),
{
    let len = text.unicode_len();
    let mut chars = text.chars();
    let mut at: usize = 0;
    let mut from: usize = 0;
    let mut to: usize = 0;
    let mut done = false;
    while !done
        invariant
            from <= to <= at <= len,
            chars.remaining() == text@.skip(at as int),
            all_white_space(text@.subrange(to as int, at as int)),
            to > 0 ==> {
                &&& from < to
                &&& all_white_space(text@.subrange(0, from as int))
                &&& !is_white_space(text@[from as int])
                &&& !is_white_space(text@[to - 1])
            },
            done ==> at == len,
        decreases len - at + (if done { 0int } else { 1int }),
    {
        match chars.next() {
            None => {
                done = true;
            },
            Some(c) => {
                assert(c == text@[at as int]);
                assert(text@.skip(at as int).drop_first() == text@.skip(at + 1));
                if is_blank(c) {
                    proof {
                        lemma_white_space_extends(text@, to as int, at as int);
                    }
                } else {
                    if to == 0 {
                        from = at;
                    }
                    to = at + 1;
                }
                at = at + 1;
            },
        }
    }
    proof {
        if to == 0 {
            assert(text@.subrange(0, len as int) == text@);
            lemma_trimmed_blank(text@);
            assert(text@.subrange(0, 0) == Seq::<char>::empty());
        } else {
            assert(text@.take(from as int) == text@.subrange(0, from as int));
            assert(text@.skip(to as int) == text@.subrange(to as int, len as int));
            lemma_trimmed_between(text@, from as int, to as int);
        }
    }
    text.substring_char(from, to)
}

} // verus!
