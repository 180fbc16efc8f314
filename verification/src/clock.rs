//! What the clock shows.

use arrayvec::ArrayVec;
use vstd::prelude::*;
use vstd::slice::slice_to_vec;
use vstd::utf8::{encode_utf8, valid_utf8};

verus! {

/// The short vector of `arrayvec`.
#[verifier::external_type_specification]
#[verifier::external_body]
#[verifier::reject_recursive_types(T)]
pub struct ExArrayVec<T, const CAP: usize>(arrayvec::ArrayVec<T, CAP>);

/// The bytes that a date is made of.
pub uninterp spec fn date_bytes(date: ArrayVec<u8, 12>) -> Seq<u8>;

/// `ArrayVec::as_slice` gives the elements in their order.
#[verifier::external_body]
fn date_slice(date: &ArrayVec<u8, 12>) -> (res: &[u8])
    ensures
        res@ == date_bytes(*date),
{
    date.as_slice()
}

/// Date, time and day of the week, written out.
pub struct ClockFace {
    pub date: ArrayVec<u8, 12>,
    pub time: [u8; 8],
    pub weekday: &'static str,
}

/// The model of a [`ClockFace`].
pub struct ClockView {
    pub date: Seq<u8>,
    pub time: Seq<u8>,
    pub weekday: Seq<char>,
}

impl View for ClockFace {
    type V = ClockView;

    open spec fn view(&self) -> ClockView {
        ClockView { date: date_bytes(self.date), time: self.time@, weekday: self.weekday@ }
    }
}

/// Whether date and time are texts.
pub open spec fn legible(clock: ClockView) -> bool {
    valid_utf8(clock.date) && valid_utf8(clock.time)
}

/// The text that bytes encode.
fn text(bytes: &[u8]) -> (res: String)
    requires
        valid_utf8(bytes@),
    ensures
        encode_utf8(res@) == bytes@,
{
    String::from_utf8(slice_to_vec(bytes)).unwrap()
}

/// Whether bytes are a text.
fn is_text(bytes: &[u8]) -> (res: bool)
    ensures
        res == valid_utf8(bytes@),
{
    match String::from_utf8(slice_to_vec(bytes)) {
        Ok(_) => true,
        Err(_) => false,
    }
}

impl ClockFace {
    /// Whether date and time are texts.
    pub fn is_legible(&self) -> (res: bool)
        ensures
            res == legible(self@),
    {
        is_text(date_slice(&self.date)) && is_text(self.time.as_slice())
    }

    /// The date as a text.
    pub fn date_text(&self) -> (res: String)
        requires
            legible(self@),
        ensures
            encode_utf8(res@) == self@.date,
    {
        text(date_slice(&self.date))
    }

    /// The time as a text.
    pub fn time_text(&self) -> (res: String)
        requires
            legible(self@),
        ensures
            encode_utf8(res@) == self@.time,
    {
        text(self.time.as_slice())
    }
}

} // verus!
