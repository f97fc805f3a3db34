//! The release status of a work.

use vstd::prelude::*;
use serde_json::Value;
use crate::error::DecodeError;
use crate::json::{fits_text, member, text_field, text_in, tree, Json};
use crate::text::{fold, folded, same_text};

verus! {

/// How far the release of a work has come.
#[derive(Debug, Clone, PartialEq, Eq, Hash, Structural)]
pub enum Status {
    /// The release is complete.
    Finished,
    /// The work is being released.
    Releasing,
    /// The release has not begun.
    NotYetReleased,
    /// The release was ended before it was complete.
    Cancelled,
    /// The release is paused.
    Hiatus,
}

impl Status {
    /// The displayed name of each status.
    pub open spec fn name_text(self) -> Seq<char> {
        match self {
            Status::Finished => "Finished"@,
            Status::Releasing => "Releasing"@,
            Status::NotYetReleased => "Not Yet Released"@,
            Status::Cancelled => "Cancelled"@,
            Status::Hiatus => "Hiatus"@,
        }
    }

    /// The status that an upper-case key stands for; `NotYetReleased` where the
    /// key is none of the table's.
    pub open spec fn of_key(key: Seq<char>) -> Status {
        if key == "FINISHED"@ {
            Status::Finished
        } else if key == "RELEASING"@ {
            Status::Releasing
        } else if key == "NOT_YET_RELEASED"@ {
            Status::NotYetReleased
        } else if key == "CANCELLED"@ {
            Status::Cancelled
        } else if key == "HIATUS"@ {
            Status::Hiatus
        } else {
            Status::NotYetReleased
        }
    }

    /// The status that a text names: the text is trimmed and put in upper
    /// case, and the result looked up.
    pub open spec fn parse(text: Seq<char>) -> Status {
        Status::of_key(folded(text))
    }

    /// The displayed name of the status.
    pub fn name(&self) -> (r: &'static str)
        ensures
            r@ == self.name_text(),
    {
        match self {
            Status::Finished => "Finished",
            Status::Releasing => "Releasing",
            Status::NotYetReleased => "Not Yet Released",
            Status::Cancelled => "Cancelled",
            Status::Hiatus => "Hiatus",
        }
    }

    /// The displayed name of the status as an owned string.
    pub fn to_string(&self) -> (r: String)
        ensures
            r@ == self.name_text(),
    {
        self.name().to_owned()
    }

    /// The status that an upper-case key stands for.
    pub fn from_key(key: &str) -> (r: Status)
        ensures
            r == Status::of_key(key@),
    {
        if same_text(key, "FINISHED") {
            Status::Finished
        } else if same_text(key, "RELEASING") {
            Status::Releasing
        } else if same_text(key, "NOT_YET_RELEASED") {
            Status::NotYetReleased
        } else if same_text(key, "CANCELLED") {
            Status::Cancelled
        } else if same_text(key, "HIATUS") {
            Status::Hiatus
        } else {
            Status::NotYetReleased
        }
    }

    /// The status that a member names, where there is one and it is a string.
    pub open spec fn held(m: Option<Json>) -> Option<Status> {
        match text_in(m) {
            Some(t) => Some(Status::parse(t)),
            None => None,
        }
    }

    /// Reads the status that the member of `v` under `key` names, where it is
    /// present.
    pub(crate) fn field(v: &Value, key: &str) -> (r: Result<Option<Status>, DecodeError>)
        ensures
            match r {
                Ok(e) => fits_text(member(tree(*v), key@)) && e == Status::held(
                    member(tree(*v), key@),
                ),
                Err(e) => e == DecodeError::WrongShape && !fits_text(member(tree(*v), key@)),
            },
    {
        match text_field(v, key)? {
            Some(s) => Ok(Some(Status::from(s.as_str()))),
            None => Ok(None),
        }
    }
}

impl Default for Status {
    fn default() -> (r: Status)
        ensures
            r == Status::NotYetReleased,
    {
        Status::NotYetReleased
    }
}

impl From<&str> for Status {
    /// The status that `value` names, whatever its case and the white space
    /// around it; `NotYetReleased` where it names none.
    fn from(value: &str) -> (r: Status)
        ensures
            r == Status::parse(value@),
    {
        let key = fold(value);
        Status::from_key(key.as_str())
    }
}

impl vstd::std_specs::convert::FromSpecImpl<&str> for Status {
    open spec fn obeys_from_spec() -> bool {
        true
    }

    open spec fn from_spec(v: &str) -> Status {
        Status::parse(v@)
    }
}

impl From<String> for Status {
    /// The status that `value` names, whatever its case and the white space
    /// around it; `NotYetReleased` where it names none.
    fn from(value: String) -> (r: Status)
        ensures
            r == Status::parse(value@),
    {
        let key = fold(value.as_str());
        Status::from_key(key.as_str())
    }
}

impl vstd::std_specs::convert::FromSpecImpl<String> for Status {
    open spec fn obeys_from_spec() -> bool {
        true
    }

    open spec fn from_spec(v: String) -> Status {
        Status::parse(v@)
    }
}

} // verus!
