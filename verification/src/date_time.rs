use crate::object::NativeDateTime;
use vstd::prelude::*;

verus! {

/// The milliseconds since the Unix epoch of a moment of the proleptic
/// Gregorian calendar in universal time, or nothing where the fields name no
/// such moment.
pub uninterp spec fn calendar_millis(
    year: i32,
    month: u8,
    day: u8,
    hour: u8,
    minute: u8,
    second: u8,
    millisecond: u16,
) -> Option<i64>;

/// The moment that `bson::DateTime::builder` builds from calendar fields,
/// in milliseconds since the epoch as `timestamp_millis` gives them. The
/// builder refuses fields that name no moment; it reads no clock and no time
/// zone, so the same fields always give the same answer.
#[verifier::external_body]
fn millis_of_calendar(
    year: i32,
    month: u8,
    day: u8,
    hour: u8,
    minute: u8,
    second: u8,
    millisecond: u16,
) -> (millis: Option<i64>)
    ensures
        millis == calendar_millis(year, month, day, hour, minute, second, millisecond),
{
    let built = mongodb::bson::DateTime::builder().year(year).month(month).day(day).hour(hour)
        .minute(minute).second(second).millisecond(millisecond).build();
    match built {
        Ok(moment) => Some(moment.timestamp_millis()),
        Err(_) => None,
    }
}

impl NativeDateTime {
    /// The moment that lies the given milliseconds after the epoch.
    pub fn from_millis(millis: i64) -> (moment: NativeDateTime)
        ensures
            moment.millis == millis,
    {
        NativeDateTime { millis }
    }

    /// The milliseconds since the epoch.
    pub fn timestamp_millis(&self) -> (millis: i64)
        ensures
            millis == self.millis,
    {
        self.millis
    }

    /// The moment that the calendar fields of a host date-time name, kept to
    /// the millisecond, or nothing where they name none.
    pub fn from_calendar(
        year: i32,
        month: u8,
        day: u8,
        hour: u8,
        minute: u8,
        second: u8,
        millisecond: u16,
    ) -> (moment: Option<NativeDateTime>)
        ensures
            moment == match calendar_millis(year, month, day, hour, minute, second, millisecond) {
                Some(millis) => Some(NativeDateTime { millis }),
                None => None,
            },
    {
        match millis_of_calendar(year, month, day, hour, minute, second, millisecond) {
            Some(millis) => Some(NativeDateTime::from_millis(millis)),
            None => None,
        }
    }
}

} // verus!
