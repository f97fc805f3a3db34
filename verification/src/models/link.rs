//! Links to other sites.

use vstd::prelude::*;
use serde_json::Value;
use crate::error::DecodeError;
use crate::json::{
    Json, as_array, find, fits_flag, fits_i64, fits_text, flag_field, flag_in, i64_field, i64_in,
    is_object, member, text_field, text_in, tree, trees,
};
use crate::models::language::Language;

verus! {

/// A link to a work on another site, or to one of its episodes.
#[derive(Debug, Clone, PartialEq)]
pub struct Link {
    /// The identifier of the link.
    pub id: Option<i64>,
    /// The title of what the link leads to.
    pub title: Option<String>,
    /// The address of a small picture.
    pub thumbnail: Option<String>,
    /// The address that the link leads to.
    pub url: Option<String>,
    /// The name of the site.
    pub site: Option<String>,
    /// The language of the site.
    pub language: Option<Language>,
    /// Whether the link is switched off.
    pub is_disabled: Option<bool>,
}

/// What a link holds, as mathematical values.
pub struct LinkView {
    pub id: Option<i64>,
    pub title: Option<Seq<char>>,
    pub thumbnail: Option<Seq<char>>,
    pub url: Option<Seq<char>>,
    pub site: Option<Seq<char>>,
    pub language: Option<Language>,
    pub is_disabled: Option<bool>,
}

impl DeepView for Link {
    type V = LinkView;

    open spec fn deep_view(&self) -> LinkView {
        LinkView {
            id: self.id,
            title: self.title.deep_view(),
            thumbnail: self.thumbnail.deep_view(),
            url: self.url.deep_view(),
            site: self.site.deep_view(),
            language: self.language,
            is_disabled: self.is_disabled,
        }
    }
}

impl View for Link {
    type V = LinkView;

    open spec fn view(&self) -> LinkView {
        self.deep_view()
    }
}

impl Link {
    /// A link in which nothing is given.
    pub open spec fn default_view() -> LinkView {
        LinkView {
            id: None,
            title: None,
            thumbnail: None,
            url: None,
            site: None,
            language: None,
            is_disabled: None,
        }
    }

    /// Whether every member of the object `v` that a link reads, where it
    /// is present, has the shape expected of it.
    pub open spec fn shaped(v: Json) -> bool {
        &&& fits_i64(member(v, "id"@))
        &&& fits_text(member(v, "title"@))
        &&& fits_text(member(v, "thumbnail"@))
        &&& fits_text(member(v, "url"@))
        &&& fits_text(member(v, "site"@))
        &&& fits_text(member(v, "language"@))
        &&& fits_flag(member(v, "isDisabled"@))
    }

    /// The link that the object `v` describes, member by member.
    pub open spec fn view_of(v: Json) -> LinkView {
        LinkView {
            id: i64_in(member(v, "id"@)),
            title: text_in(member(v, "title"@)),
            thumbnail: text_in(member(v, "thumbnail"@)),
            url: text_in(member(v, "url"@)),
            site: text_in(member(v, "site"@)),
            language: Language::held(member(v, "language"@)),
            is_disabled: flag_in(member(v, "isDisabled"@)),
        }
    }

    /// What decoding the tree `v` gives: a link, or the reason why `v`
    /// describes none.
    pub open spec fn decode(v: Json) -> Result<LinkView, DecodeError> {
        if !(v is Object) {
            Err(DecodeError::WrongShape)
        } else if !Link::shaped(v) {
            Err(DecodeError::WrongShape)
        } else {
            Ok(Link::view_of(v))
        }
    }

    /// What decoding `v` gives where it succeeds, and a link in which
    /// nothing is given where it fails.
    pub open spec fn lenient(v: Json) -> LinkView {
        match Link::decode(v) {
            Ok(x) => x,
            Err(_) => Link::default_view(),
        }
    }

    /// What the elements of `items` hold, each decoded leniently, in their
    /// order.
    pub open spec fn views_of(items: Seq<Json>) -> Seq<LinkView> {
        Seq::new(items.len(), |i: int| Link::lenient(items[i]))
    }

    /// Whether every element of `items` decodes.
    pub open spec fn all_fit(items: Seq<Json>) -> bool {
        forall|i: int| 0 <= i < items.len() ==> Link::decode(#[trigger] items[i]) is Ok
    }

    /// Whether a member, where there is one, is an array whose every
    /// element decodes.
    pub open spec fn fits_list(m: Option<Json>) -> bool {
        m matches Some(x) ==> (x matches Json::Array(items) && Link::all_fit(items))
    }

    /// What the elements of a member hold that is such an array.
    pub open spec fn held_list(m: Option<Json>) -> Option<Seq<LinkView>> {
        match m {
            Some(Json::Array(items)) => Some(Link::views_of(items)),
            _ => None,
        }
    }

    /// Decodes the tree `v` into a link. Members that the record does not
    /// know are passed over.
    pub fn from_value(v: &Value) -> (r: Result<Link, DecodeError>)
        ensures
            match Link::decode(tree(*v)) {
                Ok(decoded) => r matches Ok(x) && x@ == decoded,
                Err(reason) => r matches Err(e) && e == reason,
            },
    {
        if !is_object(v) {
            return Err(DecodeError::WrongShape);
        }
        let id = i64_field(v, "id")?;
        let title = text_field(v, "title")?;
        let thumbnail = text_field(v, "thumbnail")?;
        let url = text_field(v, "url")?;
        let site = text_field(v, "site")?;
        let language = Language::field(v, "language")?;
        let is_disabled = flag_field(v, "isDisabled")?;
        Ok(Link {
            id,
            title,
            thumbnail,
            url,
            site,
            language,
            is_disabled,
        })
    }

    /// Reads the array of records in the member of `v` under `key`, where it
    /// is present. One element that does not decode fails the whole array.
    pub(crate) fn list_field(v: &Value, key: &str) -> (r: Result<
        Option<Vec<Link>>,
        DecodeError,
    >)
        ensures
            match r {
                Ok(x) => Link::fits_list(member(tree(*v), key@)) && x.deep_view()
                    == Link::held_list(member(tree(*v), key@)),
                Err(e) => e == DecodeError::WrongShape && !Link::fits_list(
                    member(tree(*v), key@),
                ),
            },
    {
        let items = match find(v, key) {
            Some(m) => match as_array(m) {
                Some(items) => items,
                None => {
                    return Err(DecodeError::WrongShape);
                },
            },
            None => {
                return Ok(None);
            },
        };
        let mut out: Vec<Link> = Vec::new();
        let mut i: usize = 0;
        while i < items.len()
            invariant
                i <= items.len(),
                out@.len() == i,
                member(tree(*v), key@) == Some(Json::Array(trees(items@))),
                forall|j: int| 0 <= j < i ==> Link::decode(tree(#[trigger] items@[j])) is Ok,
                forall|j: int|
                    0 <= j < i ==> (#[trigger] out@[j]).deep_view() == Link::lenient(
                        tree(items@[j]),
                    ),
            decreases items.len() - i,
        {
            match Link::from_value(&items[i]) {
                Ok(x) => {
                    out.push(x);
                },
                Err(_) => {
                    assert(Link::decode(trees(items@)[i as int]) is Err);
                    return Err(DecodeError::WrongShape);
                },
            }
            i = i + 1;
        }
        assert(out.deep_view() =~= Link::views_of(trees(items@)));
        Ok(Some(out))
    }
}

impl Default for Link {
    /// A link in which nothing is given.
    fn default() -> (r: Link)
        ensures
            r.deep_view() == Link::default_view(),
    {
        Link {
            id: None,
            title: None,
            thumbnail: None,
            url: None,
            site: None,
            language: None,
            is_disabled: None,
        }
    }
}

} // verus!
