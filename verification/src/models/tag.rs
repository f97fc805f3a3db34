//! Tags.

use vstd::prelude::*;
use serde_json::Value;
use crate::error::DecodeError;
use crate::json::{
    Json, as_array, find, fits_flag, fits_i64, fits_text, flag_field, flag_in, i64_field, i64_in,
    is_object, member, text_field, text_field_or_empty, text_in, text_or_empty, tree, trees,
};

verus! {

/// A tag that describes a theme of a work.
#[derive(Debug, Clone, PartialEq)]
pub struct Tag {
    /// The identifier of the tag.
    pub id: i64,
    /// The name of the tag.
    pub name: String,
    /// What the tag stands for.
    pub description: Option<String>,
    /// The category that the tag belongs to.
    pub category: Option<String>,
    /// How well the tag fits the work, as a percentage.
    pub rank: Option<i64>,
    /// Whether the tag gives the plot away on any work.
    pub is_general_spoiler: Option<bool>,
    /// Whether the tag gives the plot away on this work.
    pub is_media_spoiler: Option<bool>,
    /// Whether the tag is for adult content only.
    pub is_adult: Option<bool>,
    /// The user who proposed the tag.
    pub user_id: Option<i64>,
}

/// What a tag holds, as mathematical values.
pub struct TagView {
    pub id: i64,
    pub name: Seq<char>,
    pub description: Option<Seq<char>>,
    pub category: Option<Seq<char>>,
    pub rank: Option<i64>,
    pub is_general_spoiler: Option<bool>,
    pub is_media_spoiler: Option<bool>,
    pub is_adult: Option<bool>,
    pub user_id: Option<i64>,
}

impl DeepView for Tag {
    type V = TagView;

    open spec fn deep_view(&self) -> TagView {
        TagView {
            id: self.id,
            name: self.name@,
            description: self.description.deep_view(),
            category: self.category.deep_view(),
            rank: self.rank,
            is_general_spoiler: self.is_general_spoiler,
            is_media_spoiler: self.is_media_spoiler,
            is_adult: self.is_adult,
            user_id: self.user_id,
        }
    }
}

impl View for Tag {
    type V = TagView;

    open spec fn view(&self) -> TagView {
        self.deep_view()
    }
}

impl Tag {
    /// A tag in which nothing is given.
    pub open spec fn default_view() -> TagView {
        TagView {
            id: 0,
            name: Seq::empty(),
            description: None,
            category: None,
            rank: None,
            is_general_spoiler: None,
            is_media_spoiler: None,
            is_adult: None,
            user_id: None,
        }
    }

    /// Whether the object `v` has every member that a tag cannot do
    /// without.
    pub open spec fn complete(v: Json) -> bool {
        &&& member(v, "id"@) is Some
    }

    /// Whether every member of the object `v` that a tag reads, where it
    /// is present, has the shape expected of it.
    pub open spec fn shaped(v: Json) -> bool {
        &&& fits_i64(member(v, "id"@))
        &&& fits_text(member(v, "name"@))
        &&& fits_text(member(v, "description"@))
        &&& fits_text(member(v, "category"@))
        &&& fits_i64(member(v, "rank"@))
        &&& fits_flag(member(v, "isGeneralSpoiler"@))
        &&& fits_flag(member(v, "isMediaSpoiler"@))
        &&& fits_flag(member(v, "isAdult"@))
        &&& fits_i64(member(v, "userId"@))
    }

    /// The tag that the object `v` describes, member by member.
    pub open spec fn view_of(v: Json) -> TagView {
        TagView {
            id: i64_in(member(v, "id"@)).unwrap(),
            name: text_or_empty(member(v, "name"@)),
            description: text_in(member(v, "description"@)),
            category: text_in(member(v, "category"@)),
            rank: i64_in(member(v, "rank"@)),
            is_general_spoiler: flag_in(member(v, "isGeneralSpoiler"@)),
            is_media_spoiler: flag_in(member(v, "isMediaSpoiler"@)),
            is_adult: flag_in(member(v, "isAdult"@)),
            user_id: i64_in(member(v, "userId"@)),
        }
    }

    /// What decoding the tree `v` gives: a tag, or the reason why `v`
    /// describes none.
    pub open spec fn decode(v: Json) -> Result<TagView, DecodeError> {
        if !(v is Object) {
            Err(DecodeError::WrongShape)
        } else if !Tag::complete(v) {
            Err(DecodeError::MissingField)
        } else if !Tag::shaped(v) {
            Err(DecodeError::WrongShape)
        } else {
            Ok(Tag::view_of(v))
        }
    }

    /// What decoding `v` gives where it succeeds, and a tag in which
    /// nothing is given where it fails.
    pub open spec fn lenient(v: Json) -> TagView {
        match Tag::decode(v) {
            Ok(x) => x,
            Err(_) => Tag::default_view(),
        }
    }

    /// What the elements of `items` hold, each decoded leniently, in their
    /// order.
    pub open spec fn views_of(items: Seq<Json>) -> Seq<TagView> {
        Seq::new(items.len(), |i: int| Tag::lenient(items[i]))
    }

    /// Whether every element of `items` decodes.
    pub open spec fn all_fit(items: Seq<Json>) -> bool {
        forall|i: int| 0 <= i < items.len() ==> Tag::decode(#[trigger] items[i]) is Ok
    }

    /// Whether a member, where there is one, is an array whose every
    /// element decodes.
    pub open spec fn fits_list(m: Option<Json>) -> bool {
        m matches Some(x) ==> (x matches Json::Array(items) && Tag::all_fit(items))
    }

    /// What the elements of a member hold that is such an array.
    pub open spec fn held_list(m: Option<Json>) -> Option<Seq<TagView>> {
        match m {
            Some(Json::Array(items)) => Some(Tag::views_of(items)),
            _ => None,
        }
    }

    /// Decodes the tree `v` into a tag. Members that the record does not
    /// know are passed over.
    pub fn from_value(v: &Value) -> (r: Result<Tag, DecodeError>)
        ensures
            match Tag::decode(tree(*v)) {
                Ok(decoded) => r matches Ok(x) && x@ == decoded,
                Err(reason) => r matches Err(e) && e == reason,
            },
    {
        if !is_object(v) {
            return Err(DecodeError::WrongShape);
        }
        if find(v, "id").is_none() {
            return Err(DecodeError::MissingField);
        }
        let id = i64_field(v, "id")?.unwrap();
        let name = text_field_or_empty(v, "name")?;
        let description = text_field(v, "description")?;
        let category = text_field(v, "category")?;
        let rank = i64_field(v, "rank")?;
        let is_general_spoiler = flag_field(v, "isGeneralSpoiler")?;
        let is_media_spoiler = flag_field(v, "isMediaSpoiler")?;
        let is_adult = flag_field(v, "isAdult")?;
        let user_id = i64_field(v, "userId")?;
        Ok(Tag {
            id,
            name,
            description,
            category,
            rank,
            is_general_spoiler,
            is_media_spoiler,
            is_adult,
            user_id,
        })
    }

    /// Reads the array of records in the member of `v` under `key`, where it
    /// is present. One element that does not decode fails the whole array.
    pub(crate) fn list_field(v: &Value, key: &str) -> (r: Result<
        Option<Vec<Tag>>,
        DecodeError,
    >)
        ensures
            match r {
                Ok(x) => Tag::fits_list(member(tree(*v), key@)) && x.deep_view()
                    == Tag::held_list(member(tree(*v), key@)),
                Err(e) => e == DecodeError::WrongShape && !Tag::fits_list(
                    member(tree(*v), key@),
                ),
            },
    {
        let items = match find(v, key) {
            Some(m) => match as_array(m) {
                Some(items) => items,
                None => {
                    return Err(DecodeError::WrongShape);
                },
            },
            None => {
                return Ok(None);
            },
        };
        let mut out: Vec<Tag> = Vec::new();
        let mut i: usize = 0;
        while i < items.len()
            invariant
                i <= items.len(),
                out@.len() == i,
                member(tree(*v), key@) == Some(Json::Array(trees(items@))),
                forall|j: int| 0 <= j < i ==> Tag::decode(tree(#[trigger] items@[j])) is Ok,
                forall|j: int|
                    0 <= j < i ==> (#[trigger] out@[j]).deep_view() == Tag::lenient(
                        tree(items@[j]),
                    ),
            decreases items.len() - i,
        {
            match Tag::from_value(&items[i]) {
                Ok(x) => {
                    out.push(x);
                },
                Err(_) => {
                    assert(Tag::decode(trees(items@)[i as int]) is Err);
                    return Err(DecodeError::WrongShape);
                },
            }
            i = i + 1;
        }
        assert(out.deep_view() =~= Tag::views_of(trees(items@)));
        Ok(Some(out))
    }
}

impl Default for Tag {
    /// A tag in which nothing is given.
    fn default() -> (r: Tag)
        ensures
            r.deep_view() == Tag::default_view(),
    {
        Tag {
            id: 0,
            name: String::new(),
            description: None,
            category: None,
            rank: None,
            is_general_spoiler: None,
            is_media_spoiler: None,
            is_adult: None,
            user_id: None,
        }
    }
}

} // verus!
