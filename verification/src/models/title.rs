//! The titles of works.

use vstd::prelude::*;
use serde_json::Value;
use crate::error::DecodeError;
use crate::json::{Json, find, fits_text, is_object, member, text_field, text_in, tree};

verus! {

/// The titles of a work.
#[derive(Debug, Clone, PartialEq)]
pub struct Title {
    /// The title in Latin script.
    pub romaji: Option<String>,
    /// The English title.
    pub english: Option<String>,
    /// The title in its native script.
    pub native: Option<String>,
    /// The title in the form that the user prefers.
    pub user_preferred: Option<String>,
}

/// What a title holds, as mathematical values.
pub struct TitleView {
    pub romaji: Option<Seq<char>>,
    pub english: Option<Seq<char>>,
    pub native: Option<Seq<char>>,
    pub user_preferred: Option<Seq<char>>,
}

impl DeepView for Title {
    type V = TitleView;

    open spec fn deep_view(&self) -> TitleView {
        TitleView {
            romaji: self.romaji.deep_view(),
            english: self.english.deep_view(),
            native: self.native.deep_view(),
            user_preferred: self.user_preferred.deep_view(),
        }
    }
}

impl View for Title {
    type V = TitleView;

    open spec fn view(&self) -> TitleView {
        self.deep_view()
    }
}

impl Title {
    /// A title in which nothing is given.
    pub open spec fn default_view() -> TitleView {
        TitleView {
            romaji: None,
            english: None,
            native: None,
            user_preferred: None,
        }
    }

    /// Whether every member of the object `v` that a title reads, where it
    /// is present, has the shape expected of it.
    pub open spec fn shaped(v: Json) -> bool {
        &&& fits_text(member(v, "romaji"@))
        &&& fits_text(member(v, "english"@))
        &&& fits_text(member(v, "native"@))
        &&& fits_text(member(v, "userPreferred"@))
    }

    /// The title that the object `v` describes, member by member.
    pub open spec fn view_of(v: Json) -> TitleView {
        TitleView {
            romaji: text_in(member(v, "romaji"@)),
            english: text_in(member(v, "english"@)),
            native: text_in(member(v, "native"@)),
            user_preferred: text_in(member(v, "userPreferred"@)),
        }
    }

    /// What decoding the tree `v` gives: a title, or the reason why `v`
    /// describes none.
    pub open spec fn decode(v: Json) -> Result<TitleView, DecodeError> {
        if !(v is Object) {
            Err(DecodeError::WrongShape)
        } else if !Title::shaped(v) {
            Err(DecodeError::WrongShape)
        } else {
            Ok(Title::view_of(v))
        }
    }

    /// Whether a member, where there is one, decodes.
    pub open spec fn fits(m: Option<Json>) -> bool {
        m matches Some(x) ==> Title::decode(x) is Ok
    }

    /// What a member that decodes holds.
    pub open spec fn held(m: Option<Json>) -> Option<TitleView> {
        match m {
            Some(x) => match Title::decode(x) {
                Ok(x) => Some(x),
                Err(_) => None,
            },
            None => None,
        }
    }

    /// Decodes the tree `v` into a title. Members that the record does not
    /// know are passed over.
    pub fn from_value(v: &Value) -> (r: Result<Title, DecodeError>)
        ensures
            match Title::decode(tree(*v)) {
                Ok(decoded) => r matches Ok(x) && x@ == decoded,
                Err(reason) => r matches Err(e) && e == reason,
            },
    {
        if !is_object(v) {
            return Err(DecodeError::WrongShape);
        }
        let romaji = text_field(v, "romaji")?;
        let english = text_field(v, "english")?;
        let native = text_field(v, "native")?;
        let user_preferred = text_field(v, "userPreferred")?;
        Ok(Title {
            romaji,
            english,
            native,
            user_preferred,
        })
    }

    /// Reads a title from the member of `v` under `key`, where it is
    /// present.
    pub(crate) fn field(v: &Value, key: &str) -> (r: Result<Option<Title>, DecodeError>)
        ensures
            match r {
                Ok(x) => Title::fits(member(tree(*v), key@)) && x.deep_view()
                    == Title::held(member(tree(*v), key@)),
                Err(e) => e == DecodeError::WrongShape && !Title::fits(
                    member(tree(*v), key@),
                ),
            },
    {
        match find(v, key) {
            Some(m) => match Title::from_value(m) {
                Ok(x) => Ok(Some(x)),
                Err(_) => Err(DecodeError::WrongShape),
            },
            None => Ok(None),
        }
    }
}

impl Default for Title {
    /// A title in which nothing is given.
    fn default() -> (r: Title)
        ensures
            r.deep_view() == Title::default_view(),
    {
        Title {
            romaji: None,
            english: None,
            native: None,
            user_preferred: None,
        }
    }
}

} // verus!
