//! The names of people and characters.

use vstd::prelude::*;
use serde_json::Value;
use crate::error::DecodeError;
use crate::json::{
    Json, find, fits_text, fits_texts, is_object, member, text_field, text_in, texts_field,
    texts_field_or_none, texts_in, texts_or_none, tree,
};

verus! {

/// The names of a person or a character.
#[derive(Debug, Clone, PartialEq)]
pub struct Name {
    /// The first name.
    pub first: Option<String>,
    /// The middle name, if any.
    pub middle: Option<String>,
    /// The last name, if any.
    pub last: Option<String>,
    /// The full name.
    pub full: Option<String>,
    /// The name in its native script, if any.
    pub native: Option<String>,
    /// Other names in use.
    pub alternative: Vec<String>,
    /// Other names that give away the plot.
    pub alternative_spoiler: Option<Vec<String>>,
    /// The name in the form that the user prefers.
    pub user_preferred: Option<String>,
}

/// What a name holds, as mathematical values.
pub struct NameView {
    pub first: Option<Seq<char>>,
    pub middle: Option<Seq<char>>,
    pub last: Option<Seq<char>>,
    pub full: Option<Seq<char>>,
    pub native: Option<Seq<char>>,
    pub alternative: Seq<Seq<char>>,
    pub alternative_spoiler: Option<Seq<Seq<char>>>,
    pub user_preferred: Option<Seq<char>>,
}

impl DeepView for Name {
    type V = NameView;

    open spec fn deep_view(&self) -> NameView {
        NameView {
            first: self.first.deep_view(),
            middle: self.middle.deep_view(),
            last: self.last.deep_view(),
            full: self.full.deep_view(),
            native: self.native.deep_view(),
            alternative: self.alternative.deep_view(),
            alternative_spoiler: self.alternative_spoiler.deep_view(),
            user_preferred: self.user_preferred.deep_view(),
        }
    }
}

impl View for Name {
    type V = NameView;

    open spec fn view(&self) -> NameView {
        self.deep_view()
    }
}

impl Name {
    /// A name in which nothing is given.
    pub open spec fn default_view() -> NameView {
        NameView {
            first: None,
            middle: None,
            last: None,
            full: None,
            native: None,
            alternative: Seq::empty(),
            alternative_spoiler: None,
            user_preferred: None,
        }
    }

    /// Whether every member of the object `v` that a name reads, where it
    /// is present, has the shape expected of it.
    pub open spec fn shaped(v: Json) -> bool {
        &&& fits_text(member(v, "first"@))
        &&& fits_text(member(v, "middle"@))
        &&& fits_text(member(v, "last"@))
        &&& fits_text(member(v, "full"@))
        &&& fits_text(member(v, "native"@))
        &&& fits_texts(member(v, "alternative"@))
        &&& fits_texts(member(v, "alternativeSpoiler"@))
        &&& fits_text(member(v, "userPreferred"@))
    }

    /// The name that the object `v` describes, member by member.
    pub open spec fn view_of(v: Json) -> NameView {
        NameView {
            first: text_in(member(v, "first"@)),
            middle: text_in(member(v, "middle"@)),
            last: text_in(member(v, "last"@)),
            full: text_in(member(v, "full"@)),
            native: text_in(member(v, "native"@)),
            alternative: texts_or_none(member(v, "alternative"@)),
            alternative_spoiler: texts_in(member(v, "alternativeSpoiler"@)),
            user_preferred: text_in(member(v, "userPreferred"@)),
        }
    }

    /// What decoding the tree `v` gives: a name, or the reason why `v`
    /// describes none.
    pub open spec fn decode(v: Json) -> Result<NameView, DecodeError> {
        if !(v is Object) {
            Err(DecodeError::WrongShape)
        } else if !Name::shaped(v) {
            Err(DecodeError::WrongShape)
        } else {
            Ok(Name::view_of(v))
        }
    }

    /// Whether a member, where there is one, decodes.
    pub open spec fn fits(m: Option<Json>) -> bool {
        m matches Some(x) ==> Name::decode(x) is Ok
    }

    /// What a member that decodes holds.
    pub open spec fn held(m: Option<Json>) -> Option<NameView> {
        match m {
            Some(x) => match Name::decode(x) {
                Ok(x) => Some(x),
                Err(_) => None,
            },
            None => None,
        }
    }

    /// Decodes the tree `v` into a name. Members that the record does not
    /// know are passed over.
    pub fn from_value(v: &Value) -> (r: Result<Name, DecodeError>)
        ensures
            match Name::decode(tree(*v)) {
                Ok(decoded) => r matches Ok(x) && x@ == decoded,
                Err(reason) => r matches Err(e) && e == reason,
            },
    {
        if !is_object(v) {
            return Err(DecodeError::WrongShape);
        }
        let first = text_field(v, "first")?;
        let middle = text_field(v, "middle")?;
        let last = text_field(v, "last")?;
        let full = text_field(v, "full")?;
        let native = text_field(v, "native")?;
        let alternative = texts_field_or_none(v, "alternative")?;
        let alternative_spoiler = texts_field(v, "alternativeSpoiler")?;
        let user_preferred = text_field(v, "userPreferred")?;
        Ok(Name {
            first,
            middle,
            last,
            full,
            native,
            alternative,
            alternative_spoiler,
            user_preferred,
        })
    }

    /// Reads a name from the member of `v` under `key`, where it is
    /// present.
    pub(crate) fn field(v: &Value, key: &str) -> (r: Result<Option<Name>, DecodeError>)
        ensures
            match r {
                Ok(x) => Name::fits(member(tree(*v), key@)) && x.deep_view()
                    == Name::held(member(tree(*v), key@)),
                Err(e) => e == DecodeError::WrongShape && !Name::fits(
                    member(tree(*v), key@),
                ),
            },
    {
        match find(v, key) {
            Some(m) => match Name::from_value(m) {
                Ok(x) => Ok(Some(x)),
                Err(_) => Err(DecodeError::WrongShape),
            },
            None => Ok(None),
        }
    }
}

impl Default for Name {
    /// A name in which nothing is given.
    fn default() -> (r: Name)
        ensures
            r.deep_view() == Name::default_view(),
    {
        let r = Name {
            first: None,
            middle: None,
            last: None,
            full: None,
            native: None,
            alternative: Vec::new(),
            alternative_spoiler: None,
            user_preferred: None,
        };
        assert(r.alternative.deep_view() =~= Seq::<Seq<char>>::empty());
        r
    }
}

impl Name {
    /// The full name.
    pub fn full(&self) -> (r: Option<String>)
        ensures
            r == self.full,
    {
        self.full.clone()
    }

    /// The name in its native script, if any.
    pub fn native(&self) -> (r: Option<String>)
        ensures
            r == self.native,
    {
        self.native.clone()
    }

    /// The other names in use.
    pub fn alternative(&self) -> (r: Vec<String>)
        ensures
            r@ == self.alternative@,
            r.deep_view() == self.alternative.deep_view(),
    {
        self.alternative.clone()
    }

    /// The other names that give away the plot.
    pub fn spoiler(&self) -> (r: Option<Vec<String>>)
        ensures
            r.deep_view() == self.alternative_spoiler.deep_view(),
    {
        self.alternative_spoiler.clone()
    }

    /// The name in the form that the user prefers, if any.
    pub fn user_preferred(&self) -> (r: Option<String>)
        ensures
            r == self.user_preferred,
    {
        self.user_preferred.clone()
    }
}

} // verus!
