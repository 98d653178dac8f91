//! One-hot weekday codec.
//!
//! The chip stores a day of the week as a 7-bit one-hot mask: bit 0 is
//! Sunday through bit 6 Saturday. A byte with zero or several bits set is
//! not a weekday; decoding it is an error, never a silent guess.
//!
//! The week-alarm register holds a whole set of weekdays in the same bits;
//! the driver hands such a set around in a fixed-capacity `heapless` vector
//! of at most seven entries, matching the hardware's capacity.

use vstd::prelude::*;

use crate::error::Rx8900Error;

verus! {

/// A day of the week.
#[derive(Clone, Copy, Debug, PartialEq, Eq, Structural)]
pub enum Weekday {
    Sun,
    Mon,
    Tue,
    Wed,
    Thu,
    Fri,
    Sat,
}

/// The one-hot byte for a weekday: bit 0 for Sunday through bit 6 for
/// Saturday.
pub open spec fn spec_to_week(data: Weekday) -> u8 {
    match data {
        Weekday::Sun => 0x01,
        Weekday::Mon => 0x02,
        Weekday::Tue => 0x04,
        Weekday::Wed => 0x08,
        Weekday::Thu => 0x10,
        Weekday::Fri => 0x20,
        Weekday::Sat => 0x40,
    }
}

/// Whether a byte is a legal weekday encoding: exactly one of the low seven
/// bits set, and nothing else.
pub open spec fn spec_is_one_hot_week(data: u8) -> bool {
    data == 0x01 || data == 0x02 || data == 0x04 || data == 0x08 || data == 0x10 || data == 0x20
        || data == 0x40
}

/// The weekday a legal one-hot byte stands for.
pub open spec fn spec_from_week(data: u8) -> Weekday
    recommends
        spec_is_one_hot_week(data),
{
    if data == 0x01 {
        Weekday::Sun
    } else if data == 0x02 {
        Weekday::Mon
    } else if data == 0x04 {
        Weekday::Tue
    } else if data == 0x08 {
        Weekday::Wed
    } else if data == 0x10 {
        Weekday::Thu
    } else if data == 0x20 {
        Weekday::Fri
    } else {
        Weekday::Sat
    }
}

/// The weekday numbered `i`, with 0 Sunday through 6 Saturday.
pub open spec fn spec_weekday_from_index(i: int) -> Weekday
    recommends
        0 <= i < 7,
{
    if i == 0 {
        Weekday::Sun
    } else if i == 1 {
        Weekday::Mon
    } else if i == 2 {
        Weekday::Tue
    } else if i == 3 {
        Weekday::Wed
    } else if i == 4 {
        Weekday::Thu
    } else if i == 5 {
        Weekday::Fri
    } else {
        Weekday::Sat
    }
}

/// Decodes a one-hot weekday byte; a byte with zero or several bits set is
/// invalid data.
pub fn from_week(data: u8) -> (r: Result<Weekday, Rx8900Error>)
    ensures
        r is Ok <==> spec_is_one_hot_week(data),
        r is Ok ==> r->Ok_0 == spec_from_week(data),
        r is Err ==> r->Err_0 == Rx8900Error::InvalidData,
{
    match data {
        0x01 => Ok(Weekday::Sun),
        0x02 => Ok(Weekday::Mon),
        0x04 => Ok(Weekday::Tue),
        0x08 => Ok(Weekday::Wed),
        0x10 => Ok(Weekday::Thu),
        0x20 => Ok(Weekday::Fri),
        0x40 => Ok(Weekday::Sat),
        _ => Err(Rx8900Error::InvalidData),
    }
}

/// Encodes a weekday as its one-hot byte.
pub fn to_week(data: Weekday) -> (r: u8)
    ensures
        r == spec_to_week(data),
        spec_is_one_hot_week(r),
{
    match data {
        Weekday::Sun => 0x01,
        Weekday::Mon => 0x02,
        Weekday::Tue => 0x04,
        Weekday::Wed => 0x08,
        Weekday::Thu => 0x10,
        Weekday::Fri => 0x20,
        Weekday::Sat => 0x40,
    }
}

/// The weekday numbered `i`, with 0 Sunday through 6 Saturday.
pub fn weekday_from_index(i: u8) -> (r: Weekday)
    requires
        i < 7,
    ensures
        r == spec_weekday_from_index(i as int),
{
    if i == 0 {
        Weekday::Sun
    } else if i == 1 {
        Weekday::Mon
    } else if i == 2 {
        Weekday::Tue
    } else if i == 3 {
        Weekday::Wed
    } else if i == 4 {
        Weekday::Thu
    } else if i == 5 {
        Weekday::Fri
    } else {
        Weekday::Sat
    }
}

/// Encoding a weekday and decoding the byte gives the weekday back, for all
/// seven weekdays.
pub proof fn lemma_week_round_trip(w: Weekday)
    ensures
        spec_is_one_hot_week(spec_to_week(w)),
        spec_from_week(spec_to_week(w)) == w,
{
}

#[verifier::external_type_specification]
#[verifier::external_body]
#[verifier::reject_recursive_types(T)]
pub struct ExHeaplessVec<T, const N: usize>(heapless::Vec<T, N>);

/// The weekdays a fixed-capacity weekday vector holds, in order.
pub uninterp spec fn weekday_vec_view(v: heapless::Vec<Weekday, 7>) -> Seq<Weekday>;

/// Relies on heapless::Vec::new: a freshly constructed vector holds nothing.
#[verifier::external_body]
pub fn weekday_vec_new() -> (r: heapless::Vec<Weekday, 7>)
    ensures
        weekday_vec_view(r) == Seq::<Weekday>::empty(),
{
    heapless::Vec::new()
}

/// Relies on heapless::Vec::push: below the fixed capacity the item is
/// appended at the back; at capacity nothing changes and the push reports
/// failure.
#[verifier::external_body]
pub fn weekday_vec_push(v: &mut heapless::Vec<Weekday, 7>, day: Weekday) -> (r: bool)
    ensures
        weekday_vec_view(*old(v)).len() < 7 ==> r && weekday_vec_view(*final(v))
            == weekday_vec_view(*old(v)).push(day),
        weekday_vec_view(*old(v)).len() >= 7 ==> !r && weekday_vec_view(*final(v))
            == weekday_vec_view(*old(v)),
{
    v.push(day).is_ok()
}

/// Relies on heapless::Vec::as_slice: the slice of all items held, whose
/// length is the number of items.
#[verifier::external_body]
pub fn weekday_vec_len(v: &heapless::Vec<Weekday, 7>) -> (r: usize)
    ensures
        r == weekday_vec_view(*v).len(),
{
    v.as_slice().len()
}

/// Relies on heapless::Vec::as_slice: item `i` of the items held, in order.
#[verifier::external_body]
pub fn weekday_vec_get(v: &heapless::Vec<Weekday, 7>, i: usize) -> (r: Weekday)
    requires
        i < weekday_vec_view(*v).len(),
    ensures
        r == weekday_vec_view(*v)[i as int],
{
    v.as_slice()[i]
}

} // verus!
