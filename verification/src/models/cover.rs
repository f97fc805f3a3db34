//! Cover pictures.

use vstd::prelude::*;
use serde_json::Value;
use crate::error::DecodeError;
use crate::json::{Json, find, fits_text, is_object, member, text_field, text_in, tree};

verus! {

/// The cover picture of a work, in three sizes.
#[derive(Debug, Clone, PartialEq)]
pub struct Cover {
    /// The address of the largest picture.
    pub extra_large: Option<String>,
    /// The address of the large picture.
    pub large: Option<String>,
    /// The address of the medium picture.
    pub medium: Option<String>,
    /// The average colour of the picture, as a hexadecimal code.
    pub color: Option<String>,
}

/// What a cover holds, as mathematical values.
pub struct CoverView {
    pub extra_large: Option<Seq<char>>,
    pub large: Option<Seq<char>>,
    pub medium: Option<Seq<char>>,
    pub color: Option<Seq<char>>,
}

impl DeepView for Cover {
    type V = CoverView;

    open spec fn deep_view(&self) -> CoverView {
        CoverView {
            extra_large: self.extra_large.deep_view(),
            large: self.large.deep_view(),
            medium: self.medium.deep_view(),
            color: self.color.deep_view(),
        }
    }
}

impl View for Cover {
    type V = CoverView;

    open spec fn view(&self) -> CoverView {
        self.deep_view()
    }
}

impl Cover {
    /// A cover in which nothing is given.
    pub open spec fn default_view() -> CoverView {
        CoverView {
            extra_large: None,
            large: None,
            medium: None,
            color: None,
        }
    }

    /// Whether every member of the object `v` that a cover reads, where it
    /// is present, has the shape expected of it.
    pub open spec fn shaped(v: Json) -> bool {
        &&& fits_text(member(v, "extraLarge"@))
        &&& fits_text(member(v, "large"@))
        &&& fits_text(member(v, "medium"@))
        &&& fits_text(member(v, "color"@))
    }

    /// The cover that the object `v` describes, member by member.
    pub open spec fn view_of(v: Json) -> CoverView {
        CoverView {
            extra_large: text_in(member(v, "extraLarge"@)),
            large: text_in(member(v, "large"@)),
            medium: text_in(member(v, "medium"@)),
            color: text_in(member(v, "color"@)),
        }
    }

    /// What decoding the tree `v` gives: a cover, or the reason why `v`
    /// describes none.
    pub open spec fn decode(v: Json) -> Result<CoverView, DecodeError> {
        if !(v is Object) {
            Err(DecodeError::WrongShape)
        } else if !Cover::shaped(v) {
            Err(DecodeError::WrongShape)
        } else {
            Ok(Cover::view_of(v))
        }
    }

    /// Whether a member, where there is one, decodes.
    pub open spec fn fits(m: Option<Json>) -> bool {
        m matches Some(x) ==> Cover::decode(x) is Ok
    }

    /// What a member that decodes holds.
    pub open spec fn held(m: Option<Json>) -> Option<CoverView> {
        match m {
            Some(x) => match Cover::decode(x) {
                Ok(x) => Some(x),
                Err(_) => None,
            },
            None => None,
        }
    }

    /// Decodes the tree `v` into a cover. Members that the record does not
    /// know are passed over.
    pub fn from_value(v: &Value) -> (r: Result<Cover, DecodeError>)
        ensures
            match Cover::decode(tree(*v)) {
                Ok(decoded) => r matches Ok(x) && x@ == decoded,
                Err(reason) => r matches Err(e) && e == reason,
            },
    {
        if !is_object(v) {
            return Err(DecodeError::WrongShape);
        }
        let extra_large = text_field(v, "extraLarge")?;
        let large = text_field(v, "large")?;
        let medium = text_field(v, "medium")?;
        let color = text_field(v, "color")?;
        Ok(Cover {
            extra_large,
            large,
            medium,
            color,
        })
    }

    /// Reads a cover from the member of `v` under `key`, where it is
    /// present.
    pub(crate) fn field(v: &Value, key: &str) -> (r: Result<Option<Cover>, DecodeError>)
        ensures
            match r {
                Ok(x) => Cover::fits(member(tree(*v), key@)) && x.deep_view()
                    == Cover::held(member(tree(*v), key@)),
                Err(e) => e == DecodeError::WrongShape && !Cover::fits(
                    member(tree(*v), key@),
                ),
            },
    {
        match find(v, key) {
            Some(m) => match Cover::from_value(m) {
                Ok(x) => Ok(Some(x)),
                Err(_) => Err(DecodeError::WrongShape),
            },
            None => Ok(None),
        }
    }
}

impl Default for Cover {
    /// A cover in which nothing is given.
    fn default() -> (r: Cover)
        ensures
            r.deep_view() == Cover::default_view(),
    {
        Cover {
            extra_large: None,
            large: None,
            medium: None,
            color: None,
        }
    }
}

} // verus!
