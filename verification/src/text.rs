//! Measuring and padding text.

use vstd::prelude::*;
use vstd::utf8::{encode_utf8, is_ascii_chars, is_ascii_chars_encode_utf8};

verus! {

/// The width of `text`: the number of bytes in its UTF-8 form, which is what
/// `str::len` measures.
pub open spec fn width(text: Seq<char>) -> nat {
    encode_utf8(text).len()
}

/// `unit` written `count` times in a row.
pub open spec fn repeated(unit: Seq<char>, count: nat) -> Seq<char>
    decreases count,
{
    if count == 0 {
        Seq::empty()
    } else {
        repeated(unit, (count - 1) as nat) + unit
    }
}

/// A run of `count` copies of the character `fill`.
pub open spec fn run(fill: char, count: nat) -> Seq<char> {
    repeated(seq![fill], count)
}

/// `text` right-aligned in a field of `target` bytes: spaces on the left make
/// up the difference, and `text` itself follows whole.
pub open spec fn padded(text: Seq<char>, target: nat) -> Seq<char> {
    run(' ', (target - width(text)) as nat) + text
}

/// The width of a concatenation is the sum of the widths of its parts.
pub proof fn lemma_width_concat(left: Seq<char>, right: Seq<char>)
    ensures
        width(left + right) == width(left) + width(right),
    decreases left.len(),
{
    if left.len() == 0 {
        assert(left + right =~= right);
    } else {
        assert((left + right).drop_first() =~= left.drop_first() + right);
        lemma_width_concat(left.drop_first(), right);
    }
}

/// A run holds `count` characters, each of them `fill`. Where `fill` is an
/// ASCII character, the run is `count` bytes wide.
pub proof fn lemma_run(fill: char, count: nat)
    ensures
        run(fill, count).len() == count,
        forall|i: int| 0 <= i < count ==> run(fill, count)[i] == fill,
        '\0' <= fill <= '\u{7f}' ==> width(run(fill, count)) == count,
    decreases count,
{
    if count > 0 {
        lemma_run(fill, (count - 1) as nat);
    }
    if '\0' <= fill <= '\u{7f}' {
        assert(is_ascii_chars(run(fill, count)));
        is_ascii_chars_encode_utf8(run(fill, count));
    }
}

/// A padded text fills its field exactly, and ends with the text itself.
pub proof fn lemma_padded(text: Seq<char>, target: nat)
    requires
        width(text) <= target,
    ensures
        width(padded(text, target)) == target,
        padded(text, target).len() == target - width(text) + text.len(),
        forall|i: int| 0 <= i < target - width(text) ==> padded(text, target)[i] == ' ',
        padded(text, target).skip(target - width(text)) == text,
{
    let gap = (target - width(text)) as nat;
    lemma_run(' ', gap);
    lemma_width_concat(run(' ', gap), text);
    assert(padded(text, target).skip(gap as int) =~= text);
}

/// Measures the width of `text`.
pub fn measure(text: &str) -> (bytes: usize)
    ensures
        bytes == width(text@),
{
    text.as_bytes().len()
}

/// Builds the text that holds `unit` `count` times in a row.
pub fn repeat(unit: &str, count: usize) -> (out: String)
    ensures
        out@ == repeated(unit@, count as nat),
{
    let mut out = String::new();
    let mut done: usize = 0;
    while done < count
        invariant
            done <= count,
            out@ == repeated(unit@, done as nat),
        decreases count - done,
    {
        out.append(unit);
        done = done + 1;
    }
    out
}

/// Right-aligns `t` in a field of `s` bytes by putting spaces before it.
pub fn set_padding(t: &str, s: usize) -> (out: String)
    requires
        width(t@) <= s,
    ensures
        out@ == padded(t@, s as nat),
        width(out@) == s,
{
    let missing: usize = s - measure(t);
    let mut out = repeat(" ", missing);
    out.append(t);
    proof {
        reveal_strlit(" ");
        assert(" "@ =~= seq![' ']);
        lemma_padded(t@, s as nat);
    }
    out
}

} // verus!
