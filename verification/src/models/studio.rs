//! Studios.

use vstd::prelude::*;
use serde_json::Value;
use crate::error::{DecodeError, Error};
use crate::json::{
    Json, find, fits_flag, fits_i64, fits_text, flag_field, flag_in, i64_field, i64_in, is_object,
    member, text_field, text_field_or_empty, text_in, text_or_empty, tree, trees,
};

verus! {

/// A studio that produces works.
#[derive(Debug, Clone, PartialEq)]
pub struct Studio {
    /// The identifier of the studio.
    pub id: i64,
    /// The name of the studio.
    pub name: String,
    /// Whether the studio animates, as opposed to producing or licensing.
    pub is_animation_studio: bool,
    /// The address of the studio's page.
    pub url: Option<String>,
    /// Whether the user marked the studio as a favourite.
    pub is_favourite: Option<bool>,
    /// How many users marked the studio as a favourite.
    pub favourites: i64,
}

/// What a studio holds, as mathematical values.
pub struct StudioView {
    pub id: i64,
    pub name: Seq<char>,
    pub is_animation_studio: bool,
    pub url: Option<Seq<char>>,
    pub is_favourite: Option<bool>,
    pub favourites: i64,
}

impl DeepView for Studio {
    type V = StudioView;

    open spec fn deep_view(&self) -> StudioView {
        StudioView {
            id: self.id,
            name: self.name@,
            is_animation_studio: self.is_animation_studio,
            url: self.url.deep_view(),
            is_favourite: self.is_favourite,
            favourites: self.favourites,
        }
    }
}

impl View for Studio {
    type V = StudioView;

    open spec fn view(&self) -> StudioView {
        self.deep_view()
    }
}

impl Studio {
    /// A studio in which nothing is given.
    pub open spec fn default_view() -> StudioView {
        StudioView {
            id: 0,
            name: Seq::empty(),
            is_animation_studio: false,
            url: None,
            is_favourite: None,
            favourites: 0,
        }
    }

    /// Whether the object `v` has every member that a studio cannot do
    /// without.
    pub open spec fn complete(v: Json) -> bool {
        &&& member(v, "id"@) is Some
    }

    /// Whether every member of the object `v` that a studio reads, where it
    /// is present, has the shape expected of it.
    pub open spec fn shaped(v: Json) -> bool {
        &&& fits_i64(member(v, "id"@))
        &&& fits_text(member(v, "name"@))
        &&& fits_flag(member(v, "isAnimationStudio"@))
        &&& fits_text(member(v, "siteUrl"@))
        &&& fits_flag(member(v, "isFavourite"@))
        &&& fits_i64(member(v, "favourites"@))
    }

    /// The studio that the object `v` describes, member by member.
    pub open spec fn view_of(v: Json) -> StudioView {
        StudioView {
            id: i64_in(member(v, "id"@)).unwrap(),
            name: text_or_empty(member(v, "name"@)),
            is_animation_studio: match flag_in(member(v, "isAnimationStudio"@)) {
                Some(x) => x,
                None => false,
            },
            url: text_in(member(v, "siteUrl"@)),
            is_favourite: flag_in(member(v, "isFavourite"@)),
            favourites: match i64_in(member(v, "favourites"@)) {
                Some(x) => x,
                None => 0,
            },
        }
    }

    /// What decoding the tree `v` gives: a studio, or the reason why `v`
    /// describes none.
    pub open spec fn decode(v: Json) -> Result<StudioView, DecodeError> {
        if !(v is Object) {
            Err(DecodeError::WrongShape)
        } else if !Studio::complete(v) {
            Err(DecodeError::MissingField)
        } else if !Studio::shaped(v) {
            Err(DecodeError::WrongShape)
        } else {
            Ok(Studio::view_of(v))
        }
    }

    /// What decoding `v` gives where it succeeds, and a studio in which
    /// nothing is given where it fails.
    pub open spec fn lenient(v: Json) -> StudioView {
        match Studio::decode(v) {
            Ok(x) => x,
            Err(_) => Studio::default_view(),
        }
    }

    /// What the elements of `items` hold, each decoded leniently, in their
    /// order.
    pub open spec fn views_of(items: Seq<Json>) -> Seq<StudioView> {
        Seq::new(items.len(), |i: int| Studio::lenient(items[i]))
    }

    /// Decodes the tree `v` into a studio. Members that the record does not
    /// know are passed over.
    pub fn from_value(v: &Value) -> (r: Result<Studio, DecodeError>)
        ensures
            match Studio::decode(tree(*v)) {
                Ok(decoded) => r matches Ok(x) && x@ == decoded,
                Err(reason) => r matches Err(e) && e == reason,
            },
    {
        if !is_object(v) {
            return Err(DecodeError::WrongShape);
        }
        if find(v, "id").is_none() {
            return Err(DecodeError::MissingField);
        }
        let id = i64_field(v, "id")?.unwrap();
        let name = text_field_or_empty(v, "name")?;
        let is_animation_studio = match flag_field(v, "isAnimationStudio")? {
            Some(x) => x,
            None => false,
        };
        let url = text_field(v, "siteUrl")?;
        let is_favourite = flag_field(v, "isFavourite")?;
        let favourites = match i64_field(v, "favourites")? {
            Some(x) => x,
            None => 0,
        };
        Ok(Studio {
            id,
            name,
            is_animation_studio,
            url,
            is_favourite,
            favourites,
        })
    }

    /// Decodes the tree `v` into a studio, and gives the default where `v`
    /// describes none.
    pub fn from_value_or_default(v: &Value) -> (r: Studio)
        ensures
            r.deep_view() == Studio::lenient(tree(*v)),
    {
        match Studio::from_value(v) {
            Ok(x) => x,
            Err(_) => Studio::default(),
        }
    }

    /// Decodes every element of `items` leniently, in their order.
    pub fn from_values_or_default(items: &Vec<Value>) -> (r: Vec<Studio>)
        ensures
            r.deep_view() == Studio::views_of(trees(items@)),
    {
        let mut out: Vec<Studio> = Vec::new();
        let mut i: usize = 0;
        while i < items.len()
            invariant
                i <= items.len(),
                out@.len() == i,
                forall|j: int|
                    0 <= j < i ==> (#[trigger] out@[j]).deep_view() == Studio::lenient(
                        tree(items@[j]),
                    ),
            decreases items.len() - i,
        {
            out.push(Studio::from_value_or_default(&items[i]));
            i = i + 1;
        }
        assert(out.deep_view() =~= Studio::views_of(trees(items@)));
        out
    }
}

impl Default for Studio {
    /// A studio in which nothing is given.
    fn default() -> (r: Studio)
        ensures
            r.deep_view() == Studio::default_view(),
    {
        Studio {
            id: 0,
            name: String::new(),
            is_animation_studio: false,
            url: None,
            is_favourite: None,
            favourites: 0,
        }
    }
}

impl Studio {
    /// The works that the studio took part in, as records of type `T`.
    /// It is not available yet: every call says so.
    pub fn get_medias<T>(&self) -> (r: Result<Vec<T>, Error>)
        ensures
            r matches Err(e) && e == Error::NotImplemented,
    {
        Err(Error::NotImplemented)
    }
}

} // verus!
