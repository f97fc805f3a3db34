use rust_anilist::error::{DecodeError, Error, TransportError};
use rust_anilist::fetch::{EntityKind, FetchRequest};
use rust_anilist::models::{Anime, Character, Person, Studio};
use serde_json::Value;

fn json(text: &str) -> Value {
    serde_json::from_str(text).unwrap()
}

fn down() -> TransportError {
    TransportError { message: "connection refused".to_string() }
}

#[test]
fn a_partial_record_asks_for_itself() {
    let anime = Anime { id: 21, ..Anime::default() };
    assert_eq!(anime.load_request(), FetchRequest { kind: EntityKind::Anime, id: 21 });
    let character = Character { id: 40, ..Character::default() };
    assert_eq!(character.load_request(), FetchRequest { kind: EntityKind::Character, id: 40 });
    let person = Person { id: 95011, ..Person::default() };
    assert_eq!(person.load_request(), FetchRequest { kind: EntityKind::Person, id: 95011 });
}

#[test]
fn loading_gives_the_full_record() {
    let partial = Person::from_value(&json(r#"{"id": 95011}"#)).unwrap();
    assert!(!partial.is_full_loaded);
    let reply = json(r#"{"id": 95011, "name": {"full": "Kouichi Yamadera"}, "homeTown": "Shiogama"}"#);
    let full = partial.load_full(Ok(reply.clone())).unwrap();
    assert!(full.is_full_loaded);
    assert_eq!(full, Person { is_full_loaded: true, ..Person::from_value(&reply).unwrap() });
    assert_eq!(full.home_town, Some("Shiogama".to_string()));

    let partial = Character { id: 1, ..Character::default() };
    let full = partial.load_full(Ok(json(r#"{"id": 1, "description": "A bounty hunter."}"#))).unwrap();
    assert!(full.is_full_loaded);
    assert_eq!(full.description, "A bounty hunter.");

    let partial = Anime { id: 1, ..Anime::default() };
    let full = partial
        .load_full(Ok(json(
            r#"{"id": 1, "title": {"romaji": "Cowboy Bebop"}, "format": "TV",
                "status": "FINISHED", "isAdult": false, "siteUrl": "u", "episodes": 26}"#,
        )))
        .unwrap();
    assert!(full.is_full_loaded);
    assert_eq!(full.episodes, Some(26));
}

#[test]
fn a_transport_failure_comes_through_unchanged() {
    let anime = Anime { id: 1, ..Anime::default() };
    assert_eq!(anime.load_full(Err(down())), Err(Error::Transport(down())));
    let character = Character { id: 1, ..Character::default() };
    assert_eq!(character.load_full(Err(down())), Err(Error::Transport(down())));
    let person = Person { id: 1, ..Person::default() };
    assert_eq!(person.load_full(Err(down())), Err(Error::Transport(down())));
}

#[test]
fn a_reply_that_does_not_decode_is_a_decode_error() {
    let person = Person { id: 1, ..Person::default() };
    assert_eq!(
        person.load_full(Ok(json(r#"{"name": {}}"#))),
        Err(Error::Decode(DecodeError::MissingField))
    );
    let character = Character { id: 1, ..Character::default() };
    assert_eq!(
        character.load_full(Ok(json(r#"{"id": 1, "age": 27}"#))),
        Err(Error::Decode(DecodeError::WrongShape))
    );
    let anime = Anime { id: 1, ..Anime::default() };
    assert_eq!(anime.load_full(Ok(Value::Null)), Err(Error::Decode(DecodeError::WrongShape)));
}

#[test]
fn media_lists_are_not_implemented() {
    let studio = Studio::default();
    assert_eq!(studio.get_medias::<Anime>(), Err(Error::NotImplemented));
    let person = Person::default();
    assert_eq!(person.get_medias::<Anime>(), Err(Error::NotImplemented));
    assert_eq!(person.get_character_medias::<Anime>(1), Err(Error::NotImplemented));
    let character = Character::default();
    assert_eq!(character.get_medias::<Anime>(), Err(Error::NotImplemented));
}
