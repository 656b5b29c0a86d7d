use vstd::prelude::*;
use ropey::{Rope, RopeSlice};
use crate::types::Point;

verus! {

#[verifier::external_type_specification]
#[verifier::external_body]
pub struct ExRope(Rope);

#[verifier::external_type_specification]
#[verifier::external_body]
pub struct ExRopeSlice<'a>(RopeSlice<'a>);

/// The characters a rope holds.
pub uninterp spec fn rope_text(r: Rope) -> Seq<char>;

/// The characters a rope slice holds.
pub uninterp spec fn slice_text(s: RopeSlice<'_>) -> Seq<char>;

/// Where line `line` of `text` starts, as ropey counts lines; for the count of lines
/// itself it is one past the end.
pub uninterp spec fn line_start(text: Seq<char>, line: nat) -> nat;

/// How many lines ropey counts in `text`.
pub uninterp spec fn line_count(text: Seq<char>) -> nat;

/// The line of `text` that char index `i` falls on, as ropey counts lines.
pub uninterp spec fn line_of(text: Seq<char>, i: nat) -> nat;

/// Relies on `ropey::Rope::char_to_line`: a line index, the last one for one past the
/// end of the text; it panics past that.
#[verifier::external_body]
pub(crate) fn rope_char_to_line(rope: &Rope, i: usize) -> (r: usize)
    requires
        i as nat <= rope_text(*rope).len(),
    ensures
        r as nat == line_of(rope_text(*rope), i as nat),
        (r as nat) < line_count(rope_text(*rope)),
{
    rope.char_to_line(i)
}

/// Relies on `ropey::Rope::new`: an empty rope.
#[verifier::external_body]
pub(crate) fn empty_rope() -> (r: Rope)
    ensures
        rope_text(r) == Seq::<char>::empty(),
{
    Rope::new()
}

/// Relies on `ropey::Rope::len_lines`.
#[verifier::external_body]
pub(crate) fn rope_len_lines(rope: &Rope) -> (r: usize)
    ensures
        r as nat == line_count(rope_text(*rope)),
{
    rope.len_lines()
}

/// Relies on `ropey::Rope::line_to_char`: the char index where a line starts, the
/// length of the text for one past the last line. It panics past that.
#[verifier::external_body]
pub(crate) fn rope_line_to_char(rope: &Rope, line: usize) -> (r: usize)
    requires
        line as nat <= line_count(rope_text(*rope)),
    ensures
        r as nat == line_start(rope_text(*rope), line as nat),
        r as nat <= rope_text(*rope).len(),
        line == 0 ==> r == 0,
        line as nat == line_count(rope_text(*rope)) ==> r as nat == rope_text(*rope).len(),
{
    rope.line_to_char(line)
}

/// Relies on `ropey::RopeSlice::len_lines`.
#[verifier::external_body]
pub(crate) fn slice_len_lines(slice: &RopeSlice) -> (r: usize)
    ensures
        r as nat == line_count(slice_text(*slice)),
{
    slice.len_lines()
}

/// Relies on `ropey::RopeSlice::line_to_char`, which counts as `Rope::line_to_char`
/// does on the same text.
#[verifier::external_body]
pub(crate) fn slice_line_to_char(slice: &RopeSlice, line: usize) -> (r: usize)
    requires
        line as nat <= line_count(slice_text(*slice)),
    ensures
        r as nat == line_start(slice_text(*slice), line as nat),
        r as nat <= slice_text(*slice).len(),
        line == 0 ==> r == 0,
        line as nat == line_count(slice_text(*slice)) ==> r as nat == slice_text(*slice).len(),
{
    slice.line_to_char(line)
}

/// Relies on `ropey::Rope::len_chars`.
#[verifier::external_body]
pub(crate) fn rope_len_chars(rope: &Rope) -> (r: usize)
    ensures
        r as nat == rope_text(*rope).len(),
{
    rope.len_chars()
}

/// Relies on `ropey::Rope::insert_char`: the char goes in at the index; it panics past
/// the end of the text.
#[verifier::external_body]
pub(crate) fn rope_insert_char(rope: &mut Rope, i: usize, c: char)
    requires
        i <= rope_text(*old(rope)).len(),
    ensures
        rope_text(*final(rope)) == rope_text(*old(rope)).insert(i as int, c),
{
    rope.insert_char(i, c)
}

/// Relies on `ropey::Rope::insert`: the text goes in at the index; it panics past the
/// end of the text.
#[verifier::external_body]
pub(crate) fn rope_insert(rope: &mut Rope, i: usize, s: &str)
    requires
        i <= rope_text(*old(rope)).len(),
    ensures
        rope_text(*final(rope)) == rope_text(*old(rope)).take(i as int) + s@ + rope_text(
            *old(rope),
        ).skip(i as int),
{
    rope.insert(i, s)
}

/// Relies on `ropey::Rope::remove`: the chars of the inclusive range go; it panics on a
/// range that is reversed or ends past the text.
#[verifier::external_body]
pub(crate) fn rope_remove(rope: &mut Rope, range: std::ops::RangeInclusive<usize>)
    requires
        range@.start <= range@.end,
        range@.end < rope_text(*old(rope)).len(),
        !range@.exhausted,
    ensures
        rope_text(*final(rope)) == rope_text(*old(rope)).take(range@.start as int) + rope_text(
            *old(rope),
        ).skip(range@.end + 1),
{
    rope.remove(range)
}

/// Relies on `ropey::Rope::slice` and `From<RopeSlice> for String`: the chars of an
/// inclusive range; slicing panics on a range that is reversed or ends past the text.
#[verifier::external_body]
pub(crate) fn rope_text_between(rope: &Rope, first: usize, last: usize) -> (r: String)
    requires
        first <= last,
        last < rope_text(*rope).len(),
    ensures
        r@ == rope_text(*rope).subrange(first as int, last + 1),
{
    String::from(rope.slice(first..=last))
}

/// Relies on `ropey::Rope::slice`: the chars of an inclusive range; it panics on a
/// range that is reversed or ends past the text.
#[verifier::external_body]
pub(crate) fn rope_slice<'a>(rope: &'a Rope, first: usize, last: usize) -> (r: RopeSlice<'a>)
    requires
        first <= last,
        last < rope_text(*rope).len(),
    ensures
        slice_text(r) == rope_text(*rope).subrange(first as int, last + 1),
{
    rope.slice(first..=last)
}

/// The char index of a cursor position: `position.x` counts columns from 1.
pub open spec fn rope_index(text: Seq<char>, position: Point) -> int {
    line_start(text, position.y as nat) + position.x - 1
}

/// Whether a cursor position can be turned into a char index of `text`.
pub open spec fn position_in_range(text: Seq<char>, position: Point) -> bool {
    &&& position.y as nat <= line_count(text)
    &&& position.x >= 1
    &&& rope_index(text, position) <= usize::MAX
}

/// Returns the char index of a cursor position whose column counts from 1.
pub fn get_ropey_index_from_point(position: &Point, rope: &Rope) -> (r: usize)
    requires
        position_in_range(rope_text(*rope), *position),
    ensures
        r as int == rope_index(rope_text(*rope), *position),
{
    rope_line_to_char(rope, position.y as usize) + (position.x as usize - 1)
}

/// Returns the char index of a cursor position, or `None` where the position's line is
/// past the rope's lines, its column is 0 or the index does not fit in `usize`.
pub fn checked_ropey_index(position: &Point, rope: &Rope) -> (r: Option<usize>)
    ensures
        r is Some <==> position_in_range(rope_text(*rope), *position),
        r matches Some(i) ==> i as int == rope_index(rope_text(*rope), *position),
{
    if position.y as usize > rope_len_lines(rope) || position.x == 0 {
        return None;
    }
    let start = rope_line_to_char(rope, position.y as usize);
    if start > usize::MAX - (position.x as usize - 1) {
        return None;
    }
    Some(get_ropey_index_from_point(position, rope))
}

/// Returns the inclusive char range between two cursor positions, in either order.
pub fn get_char_range_from_points(start: &Point, end: &Point, rope: &Rope) -> (r:
    std::ops::RangeInclusive<usize>)
    requires
        position_in_range(rope_text(*rope), *start),
        position_in_range(rope_text(*rope), *end),
    ensures
        r@.start as int == vstd::math::min(
            rope_index(rope_text(*rope), *start),
            rope_index(rope_text(*rope), *end),
        ),
        r@.end as int == vstd::math::max(
            rope_index(rope_text(*rope), *start),
            rope_index(rope_text(*rope), *end),
        ),
        !r@.exhausted,
{
    let start_index = get_ropey_index_from_point(start, rope);
    let end_index = get_ropey_index_from_point(end, rope);
    if start_index < end_index {
        std::ops::RangeInclusive::new(start_index, end_index)
    } else {
        std::ops::RangeInclusive::new(end_index, start_index)
    }
}

/// Returns the inclusive char range between two cursor positions, or `None` where
/// either position cannot be turned into a char index.
pub fn checked_char_range(start: &Point, end: &Point, rope: &Rope) -> (r: Option<
    std::ops::RangeInclusive<usize>,
>)
    ensures
        r is Some <==> (position_in_range(rope_text(*rope), *start) && position_in_range(
            rope_text(*rope),
            *end,
        )),
        r matches Some(range) ==> {
            &&& range@.start as int == vstd::math::min(
                rope_index(rope_text(*rope), *start),
                rope_index(rope_text(*rope), *end),
            )
            &&& range@.end as int == vstd::math::max(
                rope_index(rope_text(*rope), *start),
                rope_index(rope_text(*rope), *end),
            )
        },
{
    if checked_ropey_index(start, rope).is_none() || checked_ropey_index(end, rope).is_none() {
        return None;
    }
    Some(get_char_range_from_points(start, end, rope))
}

} // verus!
