//! Calendar dates.

use vstd::prelude::*;
use serde_json::Value;
use crate::error::DecodeError;
use crate::json::{
    Json, find, fits_i32, fits_u32, i32_field, i32_in, is_object, member, tree, u32_field, u32_in,
};

verus! {

/// A calendar date of which any part may be unknown.
#[derive(Debug, Clone, Copy, PartialEq, Eq, Hash)]
pub struct Date {
    /// The year.
    pub year: Option<i32>,
    /// The month of the year.
    pub month: Option<u32>,
    /// The day of the month.
    pub day: Option<u32>,
}

impl DeepView for Date {
    type V = Date;

    open spec fn deep_view(&self) -> Date {
        *self
    }
}

impl View for Date {
    type V = Date;

    open spec fn view(&self) -> Date {
        self.deep_view()
    }
}

impl Date {
    /// A date in which nothing is given.
    pub open spec fn default_view() -> Date {
        Date {
            year: None,
            month: None,
            day: None,
        }
    }

    /// Whether every member of the object `v` that a date reads, where it
    /// is present, has the shape expected of it.
    pub open spec fn shaped(v: Json) -> bool {
        &&& fits_i32(member(v, "year"@))
        &&& fits_u32(member(v, "month"@))
        &&& fits_u32(member(v, "day"@))
    }

    /// The date that the object `v` describes, member by member.
    pub open spec fn view_of(v: Json) -> Date {
        Date {
            year: i32_in(member(v, "year"@)),
            month: u32_in(member(v, "month"@)),
            day: u32_in(member(v, "day"@)),
        }
    }

    /// What decoding the tree `v` gives: a date, or the reason why `v`
    /// describes none.
    pub open spec fn decode(v: Json) -> Result<Date, DecodeError> {
        if !(v is Object) {
            Err(DecodeError::WrongShape)
        } else if !Date::shaped(v) {
            Err(DecodeError::WrongShape)
        } else {
            Ok(Date::view_of(v))
        }
    }

    /// Whether a member, where there is one, decodes.
    pub open spec fn fits(m: Option<Json>) -> bool {
        m matches Some(x) ==> Date::decode(x) is Ok
    }

    /// What a member that decodes holds.
    pub open spec fn held(m: Option<Json>) -> Option<Date> {
        match m {
            Some(x) => match Date::decode(x) {
                Ok(x) => Some(x),
                Err(_) => None,
            },
            None => None,
        }
    }

    /// Decodes the tree `v` into a date. Members that the record does not
    /// know are passed over.
    pub fn from_value(v: &Value) -> (r: Result<Date, DecodeError>)
        ensures
            match Date::decode(tree(*v)) {
                Ok(decoded) => r matches Ok(x) && x@ == decoded,
                Err(reason) => r matches Err(e) && e == reason,
            },
    {
        if !is_object(v) {
            return Err(DecodeError::WrongShape);
        }
        let year = i32_field(v, "year")?;
        let month = u32_field(v, "month")?;
        let day = u32_field(v, "day")?;
        Ok(Date {
            year,
            month,
            day,
        })
    }

    /// Reads a date from the member of `v` under `key`, where it is
    /// present.
    pub(crate) fn field(v: &Value, key: &str) -> (r: Result<Option<Date>, DecodeError>)
        ensures
            match r {
                Ok(x) => Date::fits(member(tree(*v), key@)) && x.deep_view()
                    == Date::held(member(tree(*v), key@)),
                Err(e) => e == DecodeError::WrongShape && !Date::fits(
                    member(tree(*v), key@),
                ),
            },
    {
        match find(v, key) {
            Some(m) => match Date::from_value(m) {
                Ok(x) => Ok(Some(x)),
                Err(_) => Err(DecodeError::WrongShape),
            },
            None => Ok(None),
        }
    }
}

impl Default for Date {
    /// A date in which nothing is given.
    fn default() -> (r: Date)
        ensures
            r.deep_view() == Date::default_view(),
    {
        Date {
            year: None,
            month: None,
            day: None,
        }
    }
}

} // verus!
