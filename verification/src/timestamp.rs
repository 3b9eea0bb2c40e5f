//! The instant of a signing operation, and its two renderings.
//!
//! One instant is read once and handed in; the full rendering goes into the
//! date header and the text that is signed, the date-only rendering into the
//! credential scope and the key derivation.

use crate::errors::SigningError;
use crate::text::{
    all_digits, lemma_padded_decimal_text_is_digits, padded_decimal_text, push_padded_decimal,
};
use vstd::prelude::*;

verus! {

/// A UTC instant, to the second, as fields of the proleptic Gregorian calendar.
#[derive(Clone, Copy, Debug, PartialEq, Eq, Structural)]
pub struct Timestamp {
    pub year: i32,
    pub month: u32,
    pub day: u32,
    pub hour: u32,
    pub minute: u32,
    pub second: u32,
}

/// Whether `year` has a 29th of February.
pub open spec fn is_leap_year(year: int) -> bool {
    year % 4 == 0 && (year % 100 != 0 || year % 400 == 0)
}

/// The number of days of `month` in `year`; 0 where `month` is no month.
pub open spec fn days_in_month(year: int, month: int) -> int {
    if month == 2 {
        if is_leap_year(year) {
            29
        } else {
            28
        }
    } else if month == 4 || month == 6 || month == 9 || month == 11 {
        30
    } else if 1 <= month <= 12 {
        31
    } else {
        0
    }
}

/// The rendering `YYYYMMDD` of the fields of `t`.
pub open spec fn date_stamp_text(t: Timestamp) -> Seq<char> {
    padded_decimal_text(t.year as nat, 4) + padded_decimal_text(t.month as nat, 2)
        + padded_decimal_text(t.day as nat, 2)
}

/// The rendering `YYYYMMDDTHHMMSSZ` of the fields of `t`.
pub open spec fn amz_date_text(t: Timestamp) -> Seq<char> {
    date_stamp_text(t) + seq!['T'] + padded_decimal_text(t.hour as nat, 2) + padded_decimal_text(
        t.minute as nat,
        2,
    ) + padded_decimal_text(t.second as nat, 2) + seq!['Z']
}

impl Timestamp {
    /// Whether the fields name an instant: a day of the calendar in the
    /// years 0 to 9999, and a second of that day.
    pub open spec fn is_valid(self) -> bool {
        &&& 0 <= self.year <= 9999
        &&& 1 <= self.month <= 12
        &&& 1 <= self.day <= days_in_month(self.year as int, self.month as int)
        &&& self.hour <= 23
        &&& self.minute <= 59
        &&& self.second <= 59
    }

    /// The instant with these fields, or `Clock` where they name none.
    pub fn new(year: i32, month: u32, day: u32, hour: u32, minute: u32, second: u32) -> (made:
        Result<Timestamp, SigningError>)
        ensures
            made == (if (Timestamp { year, month, day, hour, minute, second }).is_valid() {
                Ok(Timestamp { year, month, day, hour, minute, second })
            } else {
                Err(SigningError::Clock)
            }),
    {
        let t = Timestamp { year, month, day, hour, minute, second };
        if t.check() {
            Ok(t)
        } else {
            Err(SigningError::Clock)
        }
    }

    /// Tests `is_valid`.
    pub fn check(&self) -> (valid: bool)
        ensures
            valid == self.is_valid(),
    {
        if self.year < 0 || self.year > 9999 || self.month < 1 || self.month > 12 {
            return false;
        }
        let leap: bool = self.year % 4 == 0 && (self.year % 100 != 0 || self.year % 400 == 0);
        let days: u32 = if self.month == 2 {
            if leap {
                29
            } else {
                28
            }
        } else if self.month == 4 || self.month == 6 || self.month == 9 || self.month == 11 {
            30
        } else {
            31
        };
        1 <= self.day && self.day <= days && self.hour <= 23 && self.minute <= 59 && self.second
            <= 59
    }

    /// The date-only rendering, `YYYYMMDD`; `Clock` where the fields name no instant.
    pub fn date_stamp(&self) -> (stamp: Result<String, SigningError>)
        ensures
            self.is_valid() ==> stamp is Ok,
            stamp matches Ok(s) ==> self.is_valid() && s@ == date_stamp_text(*self),
            stamp matches Err(e) ==> e == SigningError::Clock,
    {
        if !self.check() {
            return Err(SigningError::Clock);
        }
        let mut out = String::new();
        push_padded_decimal(&mut out, self.year as u32, 4);
        push_padded_decimal(&mut out, self.month, 2);
        push_padded_decimal(&mut out, self.day, 2);
        Ok(out)
    }

    /// The full rendering, `YYYYMMDDTHHMMSSZ`; `Clock` where the fields name no instant.
    pub fn amz_date(&self) -> (stamp: Result<String, SigningError>)
        ensures
            self.is_valid() ==> stamp is Ok,
            stamp matches Ok(s) ==> self.is_valid() && s@ == amz_date_text(*self),
            stamp matches Err(e) ==> e == SigningError::Clock,
    {
        if !self.check() {
            return Err(SigningError::Clock);
        }
        let mut out = String::new();
        push_padded_decimal(&mut out, self.year as u32, 4);
        push_padded_decimal(&mut out, self.month, 2);
        push_padded_decimal(&mut out, self.day, 2);
        out.push('T');
        push_padded_decimal(&mut out, self.hour, 2);
        push_padded_decimal(&mut out, self.minute, 2);
        push_padded_decimal(&mut out, self.second, 2);
        out.push('Z');
        Ok(out)
    }
}

/// Both renderings of one instant agree on the day: the date-only rendering
/// is the first eight characters of the full one.
pub proof fn lemma_renderings_agree(t: Timestamp)
    ensures
        date_stamp_text(t).len() == 8,
        amz_date_text(t).len() == 16,
        amz_date_text(t).subrange(0, 8) == date_stamp_text(t),
{
    lemma_padded_decimal_text_is_digits(t.year as nat, 4);
    lemma_padded_decimal_text_is_digits(t.month as nat, 2);
    lemma_padded_decimal_text_is_digits(t.day as nat, 2);
    lemma_padded_decimal_text_is_digits(t.hour as nat, 2);
    lemma_padded_decimal_text_is_digits(t.minute as nat, 2);
    lemma_padded_decimal_text_is_digits(t.second as nat, 2);
}

/// Both renderings are made of digits, but for the letters `T` and `Z` of
/// the full one: neither holds a separator of the canonical texts.
pub proof fn lemma_renderings_are_plain(t: Timestamp)
    ensures
        all_digits(date_stamp_text(t)),
        forall|i: int|
            0 <= i < amz_date_text(t).len() ==> {
                let c = #[trigger] amz_date_text(t)[i];
                ('0' <= c <= '9') || c == 'T' || c == 'Z'
            },
{
    lemma_padded_decimal_text_is_digits(t.year as nat, 4);
    lemma_padded_decimal_text_is_digits(t.month as nat, 2);
    lemma_padded_decimal_text_is_digits(t.day as nat, 2);
    lemma_padded_decimal_text_is_digits(t.hour as nat, 2);
    lemma_padded_decimal_text_is_digits(t.minute as nat, 2);
    lemma_padded_decimal_text_is_digits(t.second as nat, 2);
}

} // verus!
