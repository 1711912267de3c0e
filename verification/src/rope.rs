//! The text rope of the `ropey` crate, as the library sees it: a sequence of
//! chars, with lines as `crate::lines` models them (ropey's default line
//! breaks: LF, VT, FF, CR, NEL, LS, PS, and CR LF as one break).
//!
//! Every function here calls ropey; the contracts are what ropey's
//! documentation and source say of the call, and nothing here is proved.
use vstd::prelude::*;
use ropey::{Rope, RopeSlice};
use crate::lines::{breaks_before, line_chars, line_count, line_start};

verus! {

#[verifier::external_type_specification]
#[verifier::external_body]
pub struct ExRope(Rope);

#[verifier::external_type_specification]
#[verifier::external_body]
pub struct ExRopeSlice<'a>(RopeSlice<'a>);

/// The chars that a rope holds, in order.
pub uninterp spec fn rope_chars(rope: Rope) -> Seq<char>;

/// The chars that a rope slice covers, in order.
pub uninterp spec fn slice_chars(slice: RopeSlice) -> Seq<char>;

/// `Rope::from_str`: a rope that holds exactly the chars of `text`.
#[verifier::external_body]
pub(crate) fn rope_from_str(text: &str) -> (rope: Rope)
    ensures
        rope_chars(rope) == text@,
{
    Rope::from_str(text)
}

/// `Rope::len_chars`: the number of chars.
#[verifier::external_body]
pub(crate) fn rope_len_chars(rope: &Rope) -> (n: usize)
    ensures
        n == rope_chars(*rope).len(),
{
    rope.len_chars()
}

/// `Rope::len_lines`: the number of line breaks plus one.
#[verifier::external_body]
pub(crate) fn rope_len_lines(rope: &Rope) -> (n: usize)
    ensures
        n == line_count(rope_chars(*rope)),
{
    rope.len_lines()
}

/// `Rope::insert_char`: `ch` goes in at char index `char_idx`; it panics past
/// the end, which the precondition rules out.
#[verifier::external_body]
pub(crate) fn rope_insert_char(rope: &mut Rope, char_idx: usize, ch: char)
    requires
        char_idx <= rope_chars(*old(rope)).len(),
    ensures
        rope_chars(*final(rope)) == rope_chars(*old(rope)).take(char_idx as int).push(ch) + rope_chars(
            *old(rope),
        ).skip(char_idx as int),
{
    rope.insert_char(char_idx, ch)
}

/// `Rope::remove` on the range `start..end`: those chars leave, the rest keep
/// their order; it panics on a reversed or overlong range, which the
/// precondition rules out.
#[verifier::external_body]
pub(crate) fn rope_remove(rope: &mut Rope, start: usize, end: usize)
    requires
        start <= end <= rope_chars(*old(rope)).len(),
    ensures
        rope_chars(*final(rope)) == rope_chars(*old(rope)).take(start as int) + rope_chars(
            *old(rope),
        ).skip(end as int),
{
    rope.remove(start..end)
}

/// `Rope::char_to_line`: the number of line breaks before char index
/// `char_idx` (one past the end allowed).
#[verifier::external_body]
pub(crate) fn rope_char_to_line(rope: &Rope, char_idx: usize) -> (line: usize)
    requires
        char_idx <= rope_chars(*rope).len(),
    ensures
        line == breaks_before(rope_chars(*rope), char_idx as int),
{
    rope.char_to_line(char_idx)
}

/// `Rope::line_to_char`: the char index where line `line_idx` starts, or the
/// length for `line_idx == len_lines()`.
#[verifier::external_body]
pub(crate) fn rope_line_to_char(rope: &Rope, line_idx: usize) -> (idx: usize)
    requires
        line_idx <= line_count(rope_chars(*rope)),
    ensures
        idx == line_start(rope_chars(*rope), line_idx as int),
{
    rope.line_to_char(line_idx)
}

/// `Rope::line`: the chars of line `line_idx`, its line break included.
#[verifier::external_body]
pub(crate) fn rope_line(rope: &Rope, line_idx: usize) -> (line: RopeSlice<'_>)
    requires
        line_idx < line_count(rope_chars(*rope)),
    ensures
        slice_chars(line) == line_chars(rope_chars(*rope), line_idx as int),
{
    rope.line(line_idx)
}

/// `Rope`'s `to_string` (through `Display`): a string of its chars.
#[verifier::external_body]
pub(crate) fn rope_to_string(rope: &Rope) -> (text: String)
    ensures
        text@ == rope_chars(*rope),
{
    rope.to_string()
}

/// `Rope::clone`: a rope that holds the same chars.
#[verifier::external_body]
pub(crate) fn rope_clone(rope: &Rope) -> (copy: Rope)
    ensures
        rope_chars(copy) == rope_chars(*rope),
{
    rope.clone()
}

/// `RopeSlice::len_chars`: the number of chars.
#[verifier::external_body]
pub(crate) fn slice_len_chars(slice: &RopeSlice<'_>) -> (n: usize)
    ensures
        n == slice_chars(*slice).len(),
{
    slice.len_chars()
}

/// `RopeSlice::char`: the char at `char_idx`; it panics past the end, which
/// the precondition rules out.
#[verifier::external_body]
pub(crate) fn slice_char(slice: &RopeSlice<'_>, char_idx: usize) -> (c: char)
    requires
        char_idx < slice_chars(*slice).len(),
    ensures
        c == slice_chars(*slice)[char_idx as int],
{
    slice.char(char_idx)
}

/// `RopeSlice::slice` on the range `start..end`: the chars in that range; it
/// panics on a reversed or overlong range, which the precondition rules out.
#[verifier::external_body]
pub(crate) fn slice_slice<'a>(slice: &RopeSlice<'a>, start: usize, end: usize) -> (sub: RopeSlice<'a>)
    requires
        start <= end <= slice_chars(*slice).len(),
    ensures
        slice_chars(sub) == slice_chars(*slice).subrange(start as int, end as int),
{
    slice.slice(start..end)
}

/// `RopeSlice::len_bytes`: the length of the chars in UTF-8.
#[verifier::external_body]
pub(crate) fn slice_len_bytes(slice: &RopeSlice<'_>) -> (n: usize)
    ensures
        n == vstd::utf8::encode_utf8(slice_chars(*slice)).len(),
{
    slice.len_bytes()
}

} // verus!
