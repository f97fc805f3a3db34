//! Characters and the parts they play.

use vstd::prelude::*;
use serde_json::Value;
use crate::error::{DecodeError, Error, TransportError};
use crate::fetch::{EntityKind, FetchRequest};
use crate::json::{
    Json, copy_of, find, fits_flag, fits_i64, fits_text, flag_field, flag_in, i64_field, i64_in,
    is_object, member, text_field, text_field_or_empty, text_in, text_or_empty, tree, tree_in,
};
use crate::models::date::Date;
use crate::models::gender::{Gender, GenderView};
use crate::models::image::{Image, ImageView};
use crate::models::name::{Name, NameView};
use crate::models::person::{Person, PersonView};
use crate::text::{
    all_ascii, ascii_upper, ascii_uppercased, fold, folded, law_fold_ignores_case_and_padding,
    same_text,
};

verus! {

/// A character of a work.
#[derive(Debug, Clone, PartialEq)]
pub struct Character {
    /// The identifier of the character.
    pub id: i64,
    /// The names of the character.
    pub name: Name,
    /// The part that the character plays in the work it was reached through.
    pub role: Option<CharacterRole>,
    /// The portrait of the character.
    pub image: Image,
    /// A description of the character.
    pub description: String,
    /// The gender of the character, if given.
    pub gender: Option<Gender>,
    /// The date of birth, if given.
    pub date_of_birth: Option<Date>,
    /// The age of the character, as the source words it.
    pub age: Option<String>,
    /// The blood type of the character, if given.
    pub blood_type: Option<String>,
    /// The works that the character appears in, as the tree that came.
    pub medias: Option<Value>,
    /// Whether the user marked the character as a favourite.
    pub is_favourite: Option<bool>,
    /// Whether the character may not be marked as a favourite.
    pub is_favourite_blocked: Option<bool>,
    /// The address of the character's page.
    pub url: String,
    /// How many users marked the character as a favourite.
    pub favourites: Option<i64>,
    /// The people who give the character a voice.
    pub voice_actors: Option<Vec<Person>>,
    /// Notes of the moderators, if any.
    pub mod_notes: Option<String>,
    /// Whether this record is the full one, fetched by its identifier.
    pub is_full_loaded: bool,
}

/// What a character holds, as mathematical values.
pub struct CharacterView {
    pub id: i64,
    pub name: NameView,
    pub role: Option<CharacterRole>,
    pub image: ImageView,
    pub description: Seq<char>,
    pub gender: Option<GenderView>,
    pub date_of_birth: Option<Date>,
    pub age: Option<Seq<char>>,
    pub blood_type: Option<Seq<char>>,
    pub medias: Option<Json>,
    pub is_favourite: Option<bool>,
    pub is_favourite_blocked: Option<bool>,
    pub url: Seq<char>,
    pub favourites: Option<i64>,
    pub voice_actors: Option<Seq<PersonView>>,
    pub mod_notes: Option<Seq<char>>,
    pub is_full_loaded: bool,
}

impl DeepView for Character {
    type V = CharacterView;

    open spec fn deep_view(&self) -> CharacterView {
        CharacterView {
            id: self.id,
            name: self.name.deep_view(),
            role: self.role,
            image: self.image.deep_view(),
            description: self.description@,
            gender: self.gender.deep_view(),
            date_of_birth: self.date_of_birth.deep_view(),
            age: self.age.deep_view(),
            blood_type: self.blood_type.deep_view(),
            medias: tree_in(self.medias),
            is_favourite: self.is_favourite,
            is_favourite_blocked: self.is_favourite_blocked,
            url: self.url@,
            favourites: self.favourites,
            voice_actors: self.voice_actors.deep_view(),
            mod_notes: self.mod_notes.deep_view(),
            is_full_loaded: self.is_full_loaded,
        }
    }
}

impl View for Character {
    type V = CharacterView;

    open spec fn view(&self) -> CharacterView {
        self.deep_view()
    }
}

impl Character {
    /// A character in which nothing is given.
    pub open spec fn default_view() -> CharacterView {
        CharacterView {
            id: 0,
            name: Name::default_view(),
            role: None,
            image: Image::default_view(),
            description: Seq::empty(),
            gender: None,
            date_of_birth: None,
            age: None,
            blood_type: None,
            medias: None,
            is_favourite: None,
            is_favourite_blocked: None,
            url: Seq::empty(),
            favourites: None,
            voice_actors: None,
            mod_notes: None,
            is_full_loaded: false,
        }
    }

    /// Whether the object `v` has every member that a character cannot do
    /// without.
    pub open spec fn complete(v: Json) -> bool {
        &&& member(v, "id"@) is Some
    }

    /// Whether every member of the object `v` that a character reads, where it
    /// is present, has the shape expected of it.
    pub open spec fn shaped(v: Json) -> bool {
        &&& fits_i64(member(v, "id"@))
        &&& Name::fits(member(v, "name"@))
        &&& fits_text(member(v, "role"@))
        &&& Image::fits(member(v, "image"@))
        &&& fits_text(member(v, "description"@))
        &&& fits_text(member(v, "gender"@))
        &&& Date::fits(member(v, "dateOfBirth"@))
        &&& fits_text(member(v, "age"@))
        &&& fits_text(member(v, "bloodType"@))
        &&& fits_flag(member(v, "isFavourite"@))
        &&& fits_flag(member(v, "isFavouriteBlocked"@))
        &&& fits_text(member(v, "siteUrl"@))
        &&& fits_i64(member(v, "favourites"@))
        &&& Person::fits_list(member(v, "voiceActors"@))
        &&& fits_text(member(v, "modNotes"@))
    }

    /// The character that the object `v` describes, member by member.
    pub open spec fn view_of(v: Json) -> CharacterView {
        CharacterView {
            id: i64_in(member(v, "id"@)).unwrap(),
            name: match Name::held(member(v, "name"@)) {
                Some(x) => x,
                None => Name::default_view(),
            },
            role: CharacterRole::held(member(v, "role"@)),
            image: match Image::held(member(v, "image"@)) {
                Some(x) => x,
                None => Image::default_view(),
            },
            description: text_or_empty(member(v, "description"@)),
            gender: Gender::held(member(v, "gender"@)),
            date_of_birth: Date::held(member(v, "dateOfBirth"@)),
            age: text_in(member(v, "age"@)),
            blood_type: text_in(member(v, "bloodType"@)),
            medias: member(v, "media"@),
            is_favourite: flag_in(member(v, "isFavourite"@)),
            is_favourite_blocked: flag_in(member(v, "isFavouriteBlocked"@)),
            url: text_or_empty(member(v, "siteUrl"@)),
            favourites: i64_in(member(v, "favourites"@)),
            voice_actors: Person::held_list(member(v, "voiceActors"@)),
            mod_notes: text_in(member(v, "modNotes"@)),
            is_full_loaded: false,
        }
    }

    /// What decoding the tree `v` gives: a character, or the reason why `v`
    /// describes none.
    pub open spec fn decode(v: Json) -> Result<CharacterView, DecodeError> {
        if !(v is Object) {
            Err(DecodeError::WrongShape)
        } else if !Character::complete(v) {
            Err(DecodeError::MissingField)
        } else if !Character::shaped(v) {
            Err(DecodeError::WrongShape)
        } else {
            Ok(Character::view_of(v))
        }
    }

    /// What decoding `v` gives where it succeeds, and a character in which
    /// nothing is given where it fails.
    pub open spec fn lenient(v: Json) -> CharacterView {
        match Character::decode(v) {
            Ok(x) => x,
            Err(_) => Character::default_view(),
        }
    }

    /// Decodes the tree `v` into a character. Members that the record does not
    /// know are passed over.
    pub fn from_value(v: &Value) -> (r: Result<Character, DecodeError>)
        ensures
            match Character::decode(tree(*v)) {
                Ok(decoded) => r matches Ok(x) && x@ == decoded,
                Err(reason) => r matches Err(e) && e == reason,
            },
    {
        if !is_object(v) {
            return Err(DecodeError::WrongShape);
        }
        if find(v, "id").is_none() {
            return Err(DecodeError::MissingField);
        }
        let id = i64_field(v, "id")?.unwrap();
        let name = match Name::field(v, "name")? {
            Some(x) => x,
            None => Name::default(),
        };
        let role = CharacterRole::field(v, "role")?;
        let image = match Image::field(v, "image")? {
            Some(x) => x,
            None => Image::default(),
        };
        let description = text_field_or_empty(v, "description")?;
        let gender = Gender::field(v, "gender")?;
        let date_of_birth = Date::field(v, "dateOfBirth")?;
        let age = text_field(v, "age")?;
        let blood_type = text_field(v, "bloodType")?;
        let medias = match find(v, "media") {
            Some(m) => Some(copy_of(m)),
            None => None,
        };
        let is_favourite = flag_field(v, "isFavourite")?;
        let is_favourite_blocked = flag_field(v, "isFavouriteBlocked")?;
        let url = text_field_or_empty(v, "siteUrl")?;
        let favourites = i64_field(v, "favourites")?;
        let voice_actors = Person::list_field(v, "voiceActors")?;
        let mod_notes = text_field(v, "modNotes")?;
        let is_full_loaded = false;
        Ok(Character {
            id,
            name,
            role,
            image,
            description,
            gender,
            date_of_birth,
            age,
            blood_type,
            medias,
            is_favourite,
            is_favourite_blocked,
            url,
            favourites,
            voice_actors,
            mod_notes,
            is_full_loaded,
        })
    }
}

impl Default for Character {
    /// A character in which nothing is given.
    fn default() -> (r: Character)
        ensures
            r.deep_view() == Character::default_view(),
    {
        Character {
            id: 0,
            name: Name::default(),
            role: None,
            image: Image::default(),
            description: String::new(),
            gender: None,
            date_of_birth: None,
            age: None,
            blood_type: None,
            medias: None,
            is_favourite: None,
            is_favourite_blocked: None,
            url: String::new(),
            favourites: None,
            voice_actors: None,
            mod_notes: None,
            is_full_loaded: false,
        }
    }
}

impl Character {
    /// What a record that was fetched whole holds: what was decoded, marked
    /// as fully loaded.
    pub open spec fn loaded(x: CharacterView) -> CharacterView {
        CharacterView { is_full_loaded: true, ..x }
    }

    /// The request that fetches the full record of this character: one request,
    /// for its kind and its identifier. A record that is fully loaded asks
    /// for nothing more.
    pub fn load_request(&self) -> (r: FetchRequest)
        requires
            !self.is_full_loaded,
        ensures
            r == (FetchRequest { kind: EntityKind::Character, id: self.id }),
    {
        FetchRequest { kind: EntityKind::Character, id: self.id }
    }

    /// Replaces this partial record by the full one that the transport
    /// answered the request of `load_request` with. A failure of the
    /// transport is handed on as it came; a response that does not decode
    /// fails with the reason.
    pub fn load_full(self, reply: Result<Value, TransportError>) -> (r: Result<Character, Error>)
        requires
            !self.is_full_loaded,
        ensures
            match reply {
                Ok(v) => match Character::decode(tree(v)) {
                    Ok(x) => r matches Ok(full) && full.deep_view() == Character::loaded(x),
                    Err(e) => r == Err::<Character, Error>(Error::Decode(e)),
                },
                Err(t) => r == Err::<Character, Error>(Error::Transport(t)),
            },
    {
        match reply {
            Ok(v) => match Character::from_value(&v) {
                Ok(x) => {
                    let mut full = x;
                    full.is_full_loaded = true;
                    Ok(full)
                },
                Err(e) => Err(Error::Decode(e)),
            },
            Err(t) => Err(Error::Transport(t)),
        }
    }

    /// The works that the character appears in, as records of type `T`.
    /// It is not available yet: every call says so.
    pub fn get_medias<T>(&self) -> (r: Result<Vec<T>, Error>)
        ensures
            r matches Err(e) && e == Error::NotImplemented,
    {
        Err(Error::NotImplemented)
    }
}

/// The part that a character plays in one work.
#[derive(Debug, Clone, PartialEq, Eq, Hash, Structural)]
pub enum CharacterRole {
    /// A character in the background.
    Background,
    /// A main character.
    Main,
    /// A supporting character.
    Supporting,
}

impl CharacterRole {
    /// The displayed name of each role.
    pub open spec fn name_text(self) -> Seq<char> {
        match self {
            CharacterRole::Background => "Background"@,
            CharacterRole::Main => "Main"@,
            CharacterRole::Supporting => "Supporting"@,
        }
    }

    /// The role that an upper-case key stands for; `Background` where the
    /// key is none of the table's.
    pub open spec fn of_key(key: Seq<char>) -> CharacterRole {
        if key == "BACKGROUND"@ {
            CharacterRole::Background
        } else if key == "MAIN"@ {
            CharacterRole::Main
        } else if key == "SUPPORTING"@ {
            CharacterRole::Supporting
        } else {
            CharacterRole::Background
        }
    }

    /// The role that a text names: the text is trimmed and put in upper
    /// case, and the result looked up.
    pub open spec fn parse(text: Seq<char>) -> CharacterRole {
        CharacterRole::of_key(folded(text))
    }

    /// The displayed name of the role.
    pub fn name(&self) -> (r: &'static str)
        ensures
            r@ == self.name_text(),
    {
        match self {
            CharacterRole::Background => "Background",
            CharacterRole::Main => "Main",
            CharacterRole::Supporting => "Supporting",
        }
    }

    /// The displayed name of the role as an owned string.
    pub fn to_string(&self) -> (r: String)
        ensures
            r@ == self.name_text(),
    {
        self.name().to_owned()
    }

    /// The role that an upper-case key stands for.
    pub fn from_key(key: &str) -> (r: CharacterRole)
        ensures
            r == CharacterRole::of_key(key@),
    {
        if same_text(key, "BACKGROUND") {
            CharacterRole::Background
        } else if same_text(key, "MAIN") {
            CharacterRole::Main
        } else if same_text(key, "SUPPORTING") {
            CharacterRole::Supporting
        } else {
            CharacterRole::Background
        }
    }

    /// The role that a member names, where there is one and it is a string.
    pub open spec fn held(m: Option<Json>) -> Option<CharacterRole> {
        match text_in(m) {
            Some(t) => Some(CharacterRole::parse(t)),
            None => None,
        }
    }

    /// Reads the role that the member of `v` under `key` names, where it is
    /// present.
    pub(crate) fn field(v: &Value, key: &str) -> (r: Result<Option<CharacterRole>, DecodeError>)
        ensures
            match r {
                Ok(e) => fits_text(member(tree(*v), key@)) && e == CharacterRole::held(
                    member(tree(*v), key@),
                ),
                Err(e) => e == DecodeError::WrongShape && !fits_text(member(tree(*v), key@)),
            },
    {
        match text_field(v, key)? {
            Some(s) => Ok(Some(CharacterRole::from(s.as_str()))),
            None => Ok(None),
        }
    }
}

impl Default for CharacterRole {
    fn default() -> (r: CharacterRole)
        ensures
            r == CharacterRole::Background,
    {
        CharacterRole::Background
    }
}

impl From<&str> for CharacterRole {
    /// The role that `value` names, whatever its case and the white space
    /// around it; `Background` where it names none.
    fn from(value: &str) -> (r: CharacterRole)
        ensures
            r == CharacterRole::parse(value@),
    {
        let key = fold(value);
        CharacterRole::from_key(key.as_str())
    }
}

impl vstd::std_specs::convert::FromSpecImpl<&str> for CharacterRole {
    open spec fn obeys_from_spec() -> bool {
        true
    }

    open spec fn from_spec(v: &str) -> CharacterRole {
        CharacterRole::parse(v@)
    }
}

impl From<String> for CharacterRole {
    /// The role that `value` names, whatever its case and the white space
    /// around it; `Background` where it names none.
    fn from(value: String) -> (r: CharacterRole)
        ensures
            r == CharacterRole::parse(value@),
    {
        let key = fold(value.as_str());
        CharacterRole::from_key(key.as_str())
    }
}

impl vstd::std_specs::convert::FromSpecImpl<String> for CharacterRole {
    open spec fn obeys_from_spec() -> bool {
        true
    }

    open spec fn from_spec(v: String) -> CharacterRole {
        CharacterRole::parse(v@)
    }
}

/// Every role comes back from its displayed name: parsing the name of a
/// role gives that role.
pub proof fn law_role_round_trip(role: CharacterRole)
    ensures
        CharacterRole::parse(role.name_text()) == role,
{
    reveal_strlit("Background");
    reveal_strlit("Main");
    reveal_strlit("Supporting");
    reveal_strlit("BACKGROUND");
    reveal_strlit("MAIN");
    reveal_strlit("SUPPORTING");
    let name = role.name_text();
    assert(all_ascii(name));
    law_fold_ignores_case_and_padding(Seq::empty(), name, Seq::empty());
    assert(Seq::<char>::empty() + name + Seq::<char>::empty() == name);
    let key = ascii_uppercased(name);
    assert(folded(name) == key);
    assert forall|i: int| 0 <= i < name.len() implies key[i] == ascii_upper(name[i]) by {}
    match role {
        CharacterRole::Background => {
            assert(key =~= "BACKGROUND"@);
        },
        CharacterRole::Main => {
            assert(key =~= "MAIN"@);
            assert(key.len() != "BACKGROUND"@.len());
        },
        CharacterRole::Supporting => {
            assert(key =~= "SUPPORTING"@);
            assert(key[0] != "BACKGROUND"@[0]);
            assert(key.len() != "MAIN"@.len());
        },
    }
}

} // verus!
