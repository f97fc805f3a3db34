//! Portraits.

use vstd::prelude::*;
use serde_json::Value;
use crate::error::DecodeError;
use crate::json::{Json, find, fits_text, is_object, member, text_field, text_in, tree};

verus! {

/// The portrait of a person or a character, in two sizes.
#[derive(Debug, Clone, PartialEq)]
pub struct Image {
    /// The address of the large picture.
    pub large: Option<String>,
    /// The address of the medium picture.
    pub medium: Option<String>,
}

/// What an image holds, as mathematical values.
pub struct ImageView {
    pub large: Option<Seq<char>>,
    pub medium: Option<Seq<char>>,
}

impl DeepView for Image {
    type V = ImageView;

    open spec fn deep_view(&self) -> ImageView {
        ImageView {
            large: self.large.deep_view(),
            medium: self.medium.deep_view(),
        }
    }
}

impl View for Image {
    type V = ImageView;

    open spec fn view(&self) -> ImageView {
        self.deep_view()
    }
}

impl Image {
    /// An image in which nothing is given.
    pub open spec fn default_view() -> ImageView {
        ImageView {
            large: None,
            medium: None,
        }
    }

    /// Whether every member of the object `v` that an image reads, where it
    /// is present, has the shape expected of it.
    pub open spec fn shaped(v: Json) -> bool {
        &&& fits_text(member(v, "large"@))
        &&& fits_text(member(v, "medium"@))
    }

    /// The image that the object `v` describes, member by member.
    pub open spec fn view_of(v: Json) -> ImageView {
        ImageView {
            large: text_in(member(v, "large"@)),
            medium: text_in(member(v, "medium"@)),
        }
    }

    /// What decoding the tree `v` gives: an image, or the reason why `v`
    /// describes none.
    pub open spec fn decode(v: Json) -> Result<ImageView, DecodeError> {
        if !(v is Object) {
            Err(DecodeError::WrongShape)
        } else if !Image::shaped(v) {
            Err(DecodeError::WrongShape)
        } else {
            Ok(Image::view_of(v))
        }
    }

    /// Whether a member, where there is one, decodes.
    pub open spec fn fits(m: Option<Json>) -> bool {
        m matches Some(x) ==> Image::decode(x) is Ok
    }

    /// What a member that decodes holds.
    pub open spec fn held(m: Option<Json>) -> Option<ImageView> {
        match m {
            Some(x) => match Image::decode(x) {
                Ok(x) => Some(x),
                Err(_) => None,
            },
            None => None,
        }
    }

    /// Decodes the tree `v` into an image. Members that the record does not
    /// know are passed over.
    pub fn from_value(v: &Value) -> (r: Result<Image, DecodeError>)
        ensures
            match Image::decode(tree(*v)) {
                Ok(decoded) => r matches Ok(x) && x@ == decoded,
                Err(reason) => r matches Err(e) && e == reason,
            },
    {
        if !is_object(v) {
            return Err(DecodeError::WrongShape);
        }
        let large = text_field(v, "large")?;
        let medium = text_field(v, "medium")?;
        Ok(Image {
            large,
            medium,
        })
    }

    /// Reads an image from the member of `v` under `key`, where it is
    /// present.
    pub(crate) fn field(v: &Value, key: &str) -> (r: Result<Option<Image>, DecodeError>)
        ensures
            match r {
                Ok(x) => Image::fits(member(tree(*v), key@)) && x.deep_view()
                    == Image::held(member(tree(*v), key@)),
                Err(e) => e == DecodeError::WrongShape && !Image::fits(
                    member(tree(*v), key@),
                ),
            },
    {
        match find(v, key) {
            Some(m) => match Image::from_value(m) {
                Ok(x) => Ok(Some(x)),
                Err(_) => Err(DecodeError::WrongShape),
            },
            None => Ok(None),
        }
    }
}

impl Default for Image {
    /// An image in which nothing is given.
    fn default() -> (r: Image)
        ensures
            r.deep_view() == Image::default_view(),
    {
        Image {
            large: None,
            medium: None,
        }
    }
}

} // verus!
