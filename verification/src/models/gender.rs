//! The genders of people and characters.

use vstd::prelude::*;
use serde_json::Value;
use crate::error::DecodeError;
use crate::json::{fits_text, member, text_field, text_in, tree, Json};
use crate::text::{fold, folded, same_text};

verus! {

/// The gender of a person or a character.
#[derive(Debug, Clone, PartialEq, Eq, Hash)]
pub enum Gender {
    /// Male.
    Male,
    /// Female.
    Female,
    /// Non-binary.
    NonBinary,
    /// Another gender, with the word for it where one was given.
    Other(Option<String>),
}

/// A gender, as a mathematical value.
pub enum GenderView {
    Male,
    Female,
    NonBinary,
    Other(Option<Seq<char>>),
}

impl DeepView for Gender {
    type V = GenderView;

    open spec fn deep_view(&self) -> GenderView {
        match self {
            Gender::Male => GenderView::Male,
            Gender::Female => GenderView::Female,
            Gender::NonBinary => GenderView::NonBinary,
            Gender::Other(word) => GenderView::Other(word.deep_view()),
        }
    }
}

impl View for Gender {
    type V = GenderView;

    open spec fn view(&self) -> GenderView {
        self.deep_view()
    }
}

impl Gender {
    /// The gender of someone whose gender was not given: another gender,
    /// called neutral.
    pub open spec fn default_view() -> GenderView {
        GenderView::Other(Some("Neutral"@))
    }

    /// The gender that an upper-case key stands for, where `text` is the
    /// text that the key was made from: one of the three fixed genders where
    /// the key is its name, and otherwise another gender, with `text` as the
    /// word for it.
    pub open spec fn of_key(key: Seq<char>, text: Seq<char>) -> GenderView {
        if key == "MALE"@ {
            GenderView::Male
        } else if key == "FEMALE"@ {
            GenderView::Female
        } else if key == "NON-BINARY"@ {
            GenderView::NonBinary
        } else {
            GenderView::Other(Some(text))
        }
    }

    /// The gender that a text names. The three fixed genders are known by
    /// their names, whatever the case and the white space around them; any
    /// other text is kept as it is, as the word for another gender.
    pub open spec fn parse(text: Seq<char>) -> GenderView {
        Gender::of_key(folded(text), text)
    }

    /// The displayed name of each gender: for another gender the word that
    /// was given for it.
    pub open spec fn name_text(gender: GenderView) -> Seq<char> {
        match gender {
            GenderView::Male => "Male"@,
            GenderView::Female => "Female"@,
            GenderView::NonBinary => "Non-binary"@,
            GenderView::Other(Some(word)) => word,
            GenderView::Other(None) => "Other"@,
        }
    }

    /// The gender that a member names, where there is one and it is a string.
    pub open spec fn held(m: Option<Json>) -> Option<GenderView> {
        match text_in(m) {
            Some(t) => Some(Gender::parse(t)),
            None => None,
        }
    }

    /// The gender that the upper-case key `key` stands for, where `text` is
    /// the text that the key was made from.
    pub fn from_key(key: &str, text: &str) -> (r: Gender)
        ensures
            r.deep_view() == Gender::of_key(key@, text@),
    {
        if same_text(key, "MALE") {
            Gender::Male
        } else if same_text(key, "FEMALE") {
            Gender::Female
        } else if same_text(key, "NON-BINARY") {
            Gender::NonBinary
        } else {
            Gender::Other(Some(text.to_owned()))
        }
    }

    /// The gender that `value` names.
    pub fn from_text(value: &str) -> (r: Gender)
        ensures
            r.deep_view() == Gender::parse(value@),
    {
        let key = fold(value);
        Gender::from_key(key.as_str(), value)
    }

    /// The displayed name of the gender as an owned string.
    pub fn to_string(&self) -> (r: String)
        ensures
            r@ == Gender::name_text(self.deep_view()),
    {
        match self {
            Gender::Male => "Male".to_owned(),
            Gender::Female => "Female".to_owned(),
            Gender::NonBinary => "Non-binary".to_owned(),
            Gender::Other(Some(word)) => word.clone(),
            Gender::Other(None) => "Other".to_owned(),
        }
    }

    /// Reads the gender that the member of `v` under `key` names, where it is
    /// present.
    pub(crate) fn field(v: &Value, key: &str) -> (r: Result<Option<Gender>, DecodeError>)
        ensures
            match r {
                Ok(g) => fits_text(member(tree(*v), key@)) && g.deep_view() == Gender::held(
                    member(tree(*v), key@),
                ),
                Err(e) => e == DecodeError::WrongShape && !fits_text(member(tree(*v), key@)),
            },
    {
        match text_field(v, key)? {
            Some(s) => Ok(Some(Gender::from_text(s.as_str()))),
            None => Ok(None),
        }
    }
}

impl Default for Gender {
    /// Another gender, called neutral.
    fn default() -> (r: Gender)
        ensures
            r.deep_view() == Gender::default_view(),
    {
        Gender::Other(Some("Neutral".to_owned()))
    }
}

} // verus!
