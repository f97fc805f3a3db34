//! The seasons of the broadcasting year.

use vstd::prelude::*;
use serde_json::Value;
use crate::error::DecodeError;
use crate::json::{fits_text, member, text_field, text_in, tree, Json};
use crate::text::{fold, folded, same_text};

verus! {

/// A season of the broadcasting year.
#[derive(Debug, Clone, PartialEq, Eq, Hash, Structural)]
pub enum Season {
    /// December to February.
    Winter,
    /// March to May.
    Spring,
    /// June to August.
    Summer,
    /// September to November.
    Fall,
}

impl Season {
    /// The displayed name of each season.
    pub open spec fn name_text(self) -> Seq<char> {
        match self {
            Season::Winter => "Winter"@,
            Season::Spring => "Spring"@,
            Season::Summer => "Summer"@,
            Season::Fall => "Fall"@,
        }
    }

    /// The season that an upper-case key stands for; `Winter` where the
    /// key is none of the table's.
    pub open spec fn of_key(key: Seq<char>) -> Season {
        if key == "WINTER"@ {
            Season::Winter
        } else if key == "SPRING"@ {
            Season::Spring
        } else if key == "SUMMER"@ {
            Season::Summer
        } else if key == "FALL"@ {
            Season::Fall
        } else {
            Season::Winter
        }
    }

    /// The season that a text names: the text is trimmed and put in upper
    /// case, and the result looked up.
    pub open spec fn parse(text: Seq<char>) -> Season {
        Season::of_key(folded(text))
    }

    /// The displayed name of the season.
    pub fn name(&self) -> (r: &'static str)
        ensures
            r@ == self.name_text(),
    {
        match self {
            Season::Winter => "Winter",
            Season::Spring => "Spring",
            Season::Summer => "Summer",
            Season::Fall => "Fall",
        }
    }

    /// The displayed name of the season as an owned string.
    pub fn to_string(&self) -> (r: String)
        ensures
            r@ == self.name_text(),
    {
        self.name().to_owned()
    }

    /// The season that an upper-case key stands for.
    pub fn from_key(key: &str) -> (r: Season)
        ensures
            r == Season::of_key(key@),
    {
        if same_text(key, "WINTER") {
            Season::Winter
        } else if same_text(key, "SPRING") {
            Season::Spring
        } else if same_text(key, "SUMMER") {
            Season::Summer
        } else if same_text(key, "FALL") {
            Season::Fall
        } else {
            Season::Winter
        }
    }

    /// The season that a member names, where there is one and it is a string.
    pub open spec fn held(m: Option<Json>) -> Option<Season> {
        match text_in(m) {
            Some(t) => Some(Season::parse(t)),
            None => None,
        }
    }

    /// Reads the season that the member of `v` under `key` names, where it is
    /// present.
    pub(crate) fn field(v: &Value, key: &str) -> (r: Result<Option<Season>, DecodeError>)
        ensures
            match r {
                Ok(e) => fits_text(member(tree(*v), key@)) && e == Season::held(
                    member(tree(*v), key@),
                ),
                Err(e) => e == DecodeError::WrongShape && !fits_text(member(tree(*v), key@)),
            },
    {
        match text_field(v, key)? {
            Some(s) => Ok(Some(Season::from(s.as_str()))),
            None => Ok(None),
        }
    }
}

impl Default for Season {
    fn default() -> (r: Season)
        ensures
            r == Season::Winter,
    {
        Season::Winter
    }
}

impl From<&str> for Season {
    /// The season that `value` names, whatever its case and the white space
    /// around it; `Winter` where it names none.
    fn from(value: &str) -> (r: Season)
        ensures
            r == Season::parse(value@),
    {
        let key = fold(value);
        Season::from_key(key.as_str())
    }
}

impl vstd::std_specs::convert::FromSpecImpl<&str> for Season {
    open spec fn obeys_from_spec() -> bool {
        true
    }

    open spec fn from_spec(v: &str) -> Season {
        Season::parse(v@)
    }
}

impl From<String> for Season {
    /// The season that `value` names, whatever its case and the white space
    /// around it; `Winter` where it names none.
    fn from(value: String) -> (r: Season)
        ensures
            r == Season::parse(value@),
    {
        let key = fold(value.as_str());
        Season::from_key(key.as_str())
    }
}

impl vstd::std_specs::convert::FromSpecImpl<String> for Season {
    open spec fn obeys_from_spec() -> bool {
        true
    }

    open spec fn from_spec(v: String) -> Season {
        Season::parse(v@)
    }
}

} // verus!
