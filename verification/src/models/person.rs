//! People.

use vstd::prelude::*;
use serde_json::Value;
use crate::error::{DecodeError, Error, TransportError};
use crate::fetch::{EntityKind, FetchRequest};
use crate::json::{
    Json, as_array, find, fits_flag, fits_i64, fits_text, fits_texts, flag_field, flag_in,
    i64_field, i64_in, is_object, member, text_field, text_field_or_empty, text_in, text_or_empty,
    texts_field, texts_in, tree, trees,
};
use crate::models::character::Character;
use crate::models::date::Date;
use crate::models::gender::{Gender, GenderView};
use crate::models::image::{Image, ImageView};
use crate::models::language::Language;
use crate::models::name::{Name, NameView};

verus! {

/// A person who works on the catalogue's works: staff or a voice actor.
#[derive(Debug, PartialEq)]
pub struct Person {
    /// The identifier of the person.
    pub id: i64,
    /// The names of the person.
    pub name: Name,
    /// The language that the person works in.
    pub language: Language,
    /// The portrait of the person, if any.
    pub image: Option<Image>,
    /// A description of the person, if any.
    pub description: Option<String>,
    /// The main occupations of the person, if given.
    pub primary_occupations: Option<Vec<String>>,
    /// The gender of the person.
    pub gender: Gender,
    /// The date of birth, if given.
    pub date_of_birth: Option<Date>,
    /// The date of death, if given.
    pub date_of_death: Option<Date>,
    /// The age of the person, if given.
    pub age: Option<i64>,
    /// The home town of the person, if given.
    pub home_town: Option<String>,
    /// The blood type of the person, if given.
    pub blood_type: Option<String>,
    /// Whether the user marked the person as a favourite.
    pub is_favourite: Option<bool>,
    /// Whether the person may not be marked as a favourite.
    pub is_favourite_blocked: Option<bool>,
    /// The address of the person's page.
    pub url: String,
    /// The characters that the person gave a voice to, where they were attached.
    pub characters: Option<Vec<Character>>,
    /// How many users marked the person as a favourite.
    pub favourites: Option<i64>,
    /// Notes of the moderators, if any.
    pub mod_notes: Option<String>,
    /// Whether this record is the full one, fetched by its identifier.
    pub is_full_loaded: bool,
}

/// What a person holds, as mathematical values.
pub struct PersonView {
    pub id: i64,
    pub name: NameView,
    pub language: Language,
    pub image: Option<ImageView>,
    pub description: Option<Seq<char>>,
    pub primary_occupations: Option<Seq<Seq<char>>>,
    pub gender: GenderView,
    pub date_of_birth: Option<Date>,
    pub date_of_death: Option<Date>,
    pub age: Option<i64>,
    pub home_town: Option<Seq<char>>,
    pub blood_type: Option<Seq<char>>,
    pub is_favourite: Option<bool>,
    pub is_favourite_blocked: Option<bool>,
    pub url: Seq<char>,
    pub characters: Option<Seq<Character>>,
    pub favourites: Option<i64>,
    pub mod_notes: Option<Seq<char>>,
    pub is_full_loaded: bool,
}

impl DeepView for Person {
    type V = PersonView;

    open spec fn deep_view(&self) -> PersonView {
        PersonView {
            id: self.id,
            name: self.name.deep_view(),
            language: self.language,
            image: self.image.deep_view(),
            description: self.description.deep_view(),
            primary_occupations: self.primary_occupations.deep_view(),
            gender: self.gender.deep_view(),
            date_of_birth: self.date_of_birth.deep_view(),
            date_of_death: self.date_of_death.deep_view(),
            age: self.age,
            home_town: self.home_town.deep_view(),
            blood_type: self.blood_type.deep_view(),
            is_favourite: self.is_favourite,
            is_favourite_blocked: self.is_favourite_blocked,
            url: self.url@,
            characters: match self.characters {
                Some(l) => Some(l@),
                None => None,
            },
            favourites: self.favourites,
            mod_notes: self.mod_notes.deep_view(),
            is_full_loaded: self.is_full_loaded,
        }
    }
}

impl View for Person {
    type V = PersonView;

    open spec fn view(&self) -> PersonView {
        self.deep_view()
    }
}

impl Person {
    /// A person in which nothing is given.
    pub open spec fn default_view() -> PersonView {
        PersonView {
            id: 0,
            name: Name::default_view(),
            language: Language::Japanese,
            image: None,
            description: None,
            primary_occupations: None,
            gender: Gender::default_view(),
            date_of_birth: None,
            date_of_death: None,
            age: None,
            home_town: None,
            blood_type: None,
            is_favourite: None,
            is_favourite_blocked: None,
            url: Seq::empty(),
            characters: None,
            favourites: None,
            mod_notes: None,
            is_full_loaded: false,
        }
    }

    /// Whether the object `v` has every member that a person cannot do
    /// without.
    pub open spec fn complete(v: Json) -> bool {
        &&& member(v, "id"@) is Some
    }

    /// Whether every member of the object `v` that a person reads, where it
    /// is present, has the shape expected of it.
    pub open spec fn shaped(v: Json) -> bool {
        &&& fits_i64(member(v, "id"@))
        &&& Name::fits(member(v, "name"@))
        &&& fits_text(member(v, "languageV2"@))
        &&& Image::fits(member(v, "image"@))
        &&& fits_text(member(v, "description"@))
        &&& fits_texts(member(v, "primaryOccupations"@))
        &&& fits_text(member(v, "gender"@))
        &&& Date::fits(member(v, "dateOfBirth"@))
        &&& Date::fits(member(v, "dateOfDeath"@))
        &&& fits_i64(member(v, "age"@))
        &&& fits_text(member(v, "homeTown"@))
        &&& fits_text(member(v, "bloodType"@))
        &&& fits_flag(member(v, "isFavourite"@))
        &&& fits_flag(member(v, "isFavouriteBlocked"@))
        &&& fits_text(member(v, "siteUrl"@))
        &&& fits_i64(member(v, "favourites"@))
        &&& fits_text(member(v, "modNotes"@))
    }

    /// The person that the object `v` describes, member by member.
    pub open spec fn view_of(v: Json) -> PersonView {
        PersonView {
            id: i64_in(member(v, "id"@)).unwrap(),
            name: match Name::held(member(v, "name"@)) {
                Some(x) => x,
                None => Name::default_view(),
            },
            language: match Language::held(member(v, "languageV2"@)) {
                Some(x) => x,
                None => Language::Japanese,
            },
            image: Image::held(member(v, "image"@)),
            description: text_in(member(v, "description"@)),
            primary_occupations: texts_in(member(v, "primaryOccupations"@)),
            gender: match Gender::held(member(v, "gender"@)) {
                Some(x) => x,
                None => Gender::default_view(),
            },
            date_of_birth: Date::held(member(v, "dateOfBirth"@)),
            date_of_death: Date::held(member(v, "dateOfDeath"@)),
            age: i64_in(member(v, "age"@)),
            home_town: text_in(member(v, "homeTown"@)),
            blood_type: text_in(member(v, "bloodType"@)),
            is_favourite: flag_in(member(v, "isFavourite"@)),
            is_favourite_blocked: flag_in(member(v, "isFavouriteBlocked"@)),
            url: text_or_empty(member(v, "siteUrl"@)),
            characters: None,
            favourites: i64_in(member(v, "favourites"@)),
            mod_notes: text_in(member(v, "modNotes"@)),
            is_full_loaded: false,
        }
    }

    /// What decoding the tree `v` gives: a person, or the reason why `v`
    /// describes none.
    pub open spec fn decode(v: Json) -> Result<PersonView, DecodeError> {
        if !(v is Object) {
            Err(DecodeError::WrongShape)
        } else if !Person::complete(v) {
            Err(DecodeError::MissingField)
        } else if !Person::shaped(v) {
            Err(DecodeError::WrongShape)
        } else {
            Ok(Person::view_of(v))
        }
    }

    /// What decoding `v` gives where it succeeds, and a person in which
    /// nothing is given where it fails.
    pub open spec fn lenient(v: Json) -> PersonView {
        match Person::decode(v) {
            Ok(x) => x,
            Err(_) => Person::default_view(),
        }
    }

    /// What the elements of `items` hold, each decoded leniently, in their
    /// order.
    pub open spec fn views_of(items: Seq<Json>) -> Seq<PersonView> {
        Seq::new(items.len(), |i: int| Person::lenient(items[i]))
    }

    /// Whether every element of `items` decodes.
    pub open spec fn all_fit(items: Seq<Json>) -> bool {
        forall|i: int| 0 <= i < items.len() ==> Person::decode(#[trigger] items[i]) is Ok
    }

    /// Whether a member, where there is one, is an array whose every
    /// element decodes.
    pub open spec fn fits_list(m: Option<Json>) -> bool {
        m matches Some(x) ==> (x matches Json::Array(items) && Person::all_fit(items))
    }

    /// What the elements of a member hold that is such an array.
    pub open spec fn held_list(m: Option<Json>) -> Option<Seq<PersonView>> {
        match m {
            Some(Json::Array(items)) => Some(Person::views_of(items)),
            _ => None,
        }
    }

    /// Decodes the tree `v` into a person. Members that the record does not
    /// know are passed over.
    pub fn from_value(v: &Value) -> (r: Result<Person, DecodeError>)
        ensures
            match Person::decode(tree(*v)) {
                Ok(decoded) => r matches Ok(x) && x@ == decoded,
                Err(reason) => r matches Err(e) && e == reason,
            },
    {
        if !is_object(v) {
            return Err(DecodeError::WrongShape);
        }
        if find(v, "id").is_none() {
            return Err(DecodeError::MissingField);
        }
        let id = i64_field(v, "id")?.unwrap();
        let name = match Name::field(v, "name")? {
            Some(x) => x,
            None => Name::default(),
        };
        let language = match Language::field(v, "languageV2")? {
            Some(x) => x,
            None => Language::Japanese,
        };
        let image = Image::field(v, "image")?;
        let description = text_field(v, "description")?;
        let primary_occupations = texts_field(v, "primaryOccupations")?;
        let gender = match Gender::field(v, "gender")? {
            Some(x) => x,
            None => Gender::default(),
        };
        let date_of_birth = Date::field(v, "dateOfBirth")?;
        let date_of_death = Date::field(v, "dateOfDeath")?;
        let age = i64_field(v, "age")?;
        let home_town = text_field(v, "homeTown")?;
        let blood_type = text_field(v, "bloodType")?;
        let is_favourite = flag_field(v, "isFavourite")?;
        let is_favourite_blocked = flag_field(v, "isFavouriteBlocked")?;
        let url = text_field_or_empty(v, "siteUrl")?;
        let characters: Option<Vec<Character>> = None;
        let favourites = i64_field(v, "favourites")?;
        let mod_notes = text_field(v, "modNotes")?;
        let is_full_loaded = false;
        Ok(Person {
            id,
            name,
            language,
            image,
            description,
            primary_occupations,
            gender,
            date_of_birth,
            date_of_death,
            age,
            home_town,
            blood_type,
            is_favourite,
            is_favourite_blocked,
            url,
            characters,
            favourites,
            mod_notes,
            is_full_loaded,
        })
    }

    /// Decodes the tree `v` into a person, and gives the default where `v`
    /// describes none.
    pub fn from_value_or_default(v: &Value) -> (r: Person)
        ensures
            r.deep_view() == Person::lenient(tree(*v)),
    {
        match Person::from_value(v) {
            Ok(x) => x,
            Err(_) => Person::default(),
        }
    }

    /// Decodes every element of `items` leniently, in their order.
    pub fn from_values_or_default(items: &Vec<Value>) -> (r: Vec<Person>)
        ensures
            r.deep_view() == Person::views_of(trees(items@)),
    {
        let mut out: Vec<Person> = Vec::new();
        let mut i: usize = 0;
        while i < items.len()
            invariant
                i <= items.len(),
                out@.len() == i,
                forall|j: int|
                    0 <= j < i ==> (#[trigger] out@[j]).deep_view() == Person::lenient(
                        tree(items@[j]),
                    ),
            decreases items.len() - i,
        {
            out.push(Person::from_value_or_default(&items[i]));
            i = i + 1;
        }
        assert(out.deep_view() =~= Person::views_of(trees(items@)));
        out
    }

    /// Reads the array of records in the member of `v` under `key`, where it
    /// is present. One element that does not decode fails the whole array.
    pub(crate) fn list_field(v: &Value, key: &str) -> (r: Result<
        Option<Vec<Person>>,
        DecodeError,
    >)
        ensures
            match r {
                Ok(x) => Person::fits_list(member(tree(*v), key@)) && x.deep_view()
                    == Person::held_list(member(tree(*v), key@)),
                Err(e) => e == DecodeError::WrongShape && !Person::fits_list(
                    member(tree(*v), key@),
                ),
            },
    {
        let items = match find(v, key) {
            Some(m) => match as_array(m) {
                Some(items) => items,
                None => {
                    return Err(DecodeError::WrongShape);
                },
            },
            None => {
                return Ok(None);
            },
        };
        let mut out: Vec<Person> = Vec::new();
        let mut i: usize = 0;
        while i < items.len()
            invariant
                i <= items.len(),
                out@.len() == i,
                member(tree(*v), key@) == Some(Json::Array(trees(items@))),
                forall|j: int| 0 <= j < i ==> Person::decode(tree(#[trigger] items@[j])) is Ok,
                forall|j: int|
                    0 <= j < i ==> (#[trigger] out@[j]).deep_view() == Person::lenient(
                        tree(items@[j]),
                    ),
            decreases items.len() - i,
        {
            match Person::from_value(&items[i]) {
                Ok(x) => {
                    out.push(x);
                },
                Err(_) => {
                    assert(Person::decode(trees(items@)[i as int]) is Err);
                    return Err(DecodeError::WrongShape);
                },
            }
            i = i + 1;
        }
        assert(out.deep_view() =~= Person::views_of(trees(items@)));
        Ok(Some(out))
    }
}

impl Default for Person {
    /// A person in which nothing is given.
    fn default() -> (r: Person)
        ensures
            r.deep_view() == Person::default_view(),
    {
        Person {
            id: 0,
            name: Name::default(),
            language: Language::Japanese,
            image: None,
            description: None,
            primary_occupations: None,
            gender: Gender::default(),
            date_of_birth: None,
            date_of_death: None,
            age: None,
            home_town: None,
            blood_type: None,
            is_favourite: None,
            is_favourite_blocked: None,
            url: String::new(),
            characters: None,
            favourites: None,
            mod_notes: None,
            is_full_loaded: false,
        }
    }
}

/// Written out field by field: a derived impl would refer to that of
/// `Character`, which refers back to this one through the voice actors, and
/// the verifier takes no such cycle.
impl Clone for Person {
    fn clone(&self) -> (r: Person) {
        Person {
            id: self.id,
            name: self.name.clone(),
            language: self.language.clone(),
            image: self.image.clone(),
            description: self.description.clone(),
            primary_occupations: self.primary_occupations.clone(),
            gender: self.gender.clone(),
            date_of_birth: self.date_of_birth,
            date_of_death: self.date_of_death,
            age: self.age,
            home_town: self.home_town.clone(),
            blood_type: self.blood_type.clone(),
            is_favourite: self.is_favourite,
            is_favourite_blocked: self.is_favourite_blocked,
            url: self.url.clone(),
            characters: match &self.characters {
                Some(list) => Some(copy_characters(list)),
                None => None,
            },
            favourites: self.favourites,
            mod_notes: self.mod_notes.clone(),
            is_full_loaded: self.is_full_loaded,
        }
    }
}

/// `Vec::clone` on the characters attached to a person: a list of copies.
/// What the copies hold is up to the `Clone` of `Character`, which is
/// derived, so nothing is stated of them here.
#[verifier::external_body]
fn copy_characters(list: &Vec<Character>) -> (r: Vec<Character>) {
    list.clone()
}

impl Person {
    /// What a record that was fetched whole holds: what was decoded, marked
    /// as fully loaded.
    pub open spec fn loaded(x: PersonView) -> PersonView {
        PersonView { is_full_loaded: true, ..x }
    }

    /// The request that fetches the full record of this person: one request,
    /// for its kind and its identifier. A record that is fully loaded asks
    /// for nothing more.
    pub fn load_request(&self) -> (r: FetchRequest)
        requires
            !self.is_full_loaded,
        ensures
            r == (FetchRequest { kind: EntityKind::Person, id: self.id }),
    {
        FetchRequest { kind: EntityKind::Person, id: self.id }
    }

    /// Replaces this partial record by the full one that the transport
    /// answered the request of `load_request` with. A failure of the
    /// transport is handed on as it came; a response that does not decode
    /// fails with the reason.
    pub fn load_full(self, reply: Result<Value, TransportError>) -> (r: Result<Person, Error>)
        requires
            !self.is_full_loaded,
        ensures
            match reply {
                Ok(v) => match Person::decode(tree(v)) {
                    Ok(x) => r matches Ok(full) && full.deep_view() == Person::loaded(x),
                    Err(e) => r == Err::<Person, Error>(Error::Decode(e)),
                },
                Err(t) => r == Err::<Person, Error>(Error::Transport(t)),
            },
    {
        match reply {
            Ok(v) => match Person::from_value(&v) {
                Ok(x) => {
                    let mut full = x;
                    full.is_full_loaded = true;
                    Ok(full)
                },
                Err(e) => Err(Error::Decode(e)),
            },
            Err(t) => Err(Error::Transport(t)),
        }
    }

    /// The works that the person took part in, as records of type `T`.
    /// It is not available yet: every call says so.
    pub fn get_medias<T>(&self) -> (r: Result<Vec<T>, Error>)
        ensures
            r matches Err(e) && e == Error::NotImplemented,
    {
        Err(Error::NotImplemented)
    }

    /// The works in which the person gave a voice to one character, as records
    /// of type `T`.
    /// It is not available yet: every call says so.
    pub fn get_character_medias<T>(&self, _character_id: i64) -> (r: Result<Vec<T>, Error>)
        ensures
            r matches Err(e) && e == Error::NotImplemented,
    {
        Err(Error::NotImplemented)
    }
}

} // verus!
