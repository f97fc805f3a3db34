use rust_anilist::error::DecodeError;
use rust_anilist::models::anime::{deserialize_characters, deserialize_staff, deserialize_studios};
use rust_anilist::models::{Anime, Character, CharacterRole, Person, Relation, RelationType, Studio};
use serde_json::Value;

fn json(text: &str) -> Value {
    serde_json::from_str(text).unwrap()
}

#[test]
fn nodes_come_in_their_order() {
    let studios = deserialize_studios(&json(
        r#"{"nodes": [{"id": 2, "name": "b"}, {"id": 1, "name": "a"}, {"id": 3, "name": "c"}]}"#,
    ))
    .unwrap()
    .unwrap();
    let ids: Vec<i64> = studios.iter().map(|s| s.id).collect();
    assert_eq!(ids, vec![2, 1, 3]);
    assert_eq!(studios[0].name, "b");

    let staff = deserialize_staff(&json(r#"{"nodes": [{"id": 20}, {"id": 10}]}"#)).unwrap().unwrap();
    let ids: Vec<i64> = staff.iter().map(|p| p.id).collect();
    assert_eq!(ids, vec![20, 10]);
}

#[test]
fn a_null_connection_holds_no_data() {
    assert_eq!(deserialize_studios(&Value::Null), Ok(None));
    assert_eq!(deserialize_staff(&Value::Null), Ok(None));
    assert_eq!(deserialize_characters(&Value::Null), Ok(None));
}

#[test]
fn an_empty_connection_holds_an_empty_list() {
    assert_eq!(deserialize_studios(&json(r#"{"nodes": []}"#)), Ok(Some(vec![])));
    assert_eq!(deserialize_staff(&json(r#"{"nodes": []}"#)), Ok(Some(vec![])));
    assert_eq!(deserialize_characters(&json(r#"{"edges": []}"#)), Ok(Some(vec![])));
}

#[test]
fn an_absent_connection_holds_no_data() {
    let anime = Anime::from_value(&json(
        r#"{"id": 1, "title": {}, "format": "TV", "status": "FINISHED", "isAdult": false,
            "siteUrl": "u", "studios": null}"#,
    ))
    .unwrap();
    assert_eq!(anime.characters, None);
    assert_eq!(anime.staff, None);
    assert_eq!(anime.studios, None);
}

#[test]
fn a_connection_of_wrong_shape_is_an_error() {
    assert_eq!(deserialize_studios(&json("[]")), Err(DecodeError::WrongShape));
    assert_eq!(deserialize_studios(&json("{}")), Err(DecodeError::MissingField));
    assert_eq!(deserialize_studios(&json(r#"{"nodes": null}"#)), Err(DecodeError::MissingField));
    assert_eq!(deserialize_studios(&json(r#"{"nodes": {}}"#)), Err(DecodeError::WrongShape));
    assert_eq!(deserialize_staff(&json("1")), Err(DecodeError::WrongShape));
    assert_eq!(deserialize_staff(&json(r#"{"edges": []}"#)), Err(DecodeError::MissingField));
    assert_eq!(deserialize_characters(&json(r#""x""#)), Err(DecodeError::WrongShape));
    assert_eq!(deserialize_characters(&json(r#"{"nodes": []}"#)), Err(DecodeError::MissingField));
    assert_eq!(deserialize_characters(&json(r#"{"edges": 1}"#)), Err(DecodeError::WrongShape));
}

#[test]
fn a_node_that_does_not_decode_becomes_the_default() {
    let studios =
        deserialize_studios(&json(r#"{"nodes": [{"name": "no id"}, {"id": 14, "name": "Sunrise"}, 7]}"#))
            .unwrap()
            .unwrap();
    assert_eq!(studios.len(), 3);
    assert_eq!(studios[0], Studio::default());
    assert_eq!(studios[1].name, "Sunrise");
    assert_eq!(studios[2], Studio::default());

    let staff = deserialize_staff(&json(r#"{"nodes": [{"id": "x"}, {"id": 5}]}"#)).unwrap().unwrap();
    assert_eq!(staff.len(), 2);
    assert_eq!(staff[0], Person::default());
    assert_eq!(staff[1].id, 5);
}

#[test]
fn the_role_of_an_edge_is_put_on_its_character() {
    let characters = deserialize_characters(&json(
        r#"{"edges": [{"node": {"id": 1, "name": {"full": "Spike Spiegel"}}, "role": "MAIN"}]}"#,
    ))
    .unwrap()
    .unwrap();
    assert_eq!(characters.len(), 1);
    assert_eq!(characters[0].id, 1);
    assert_eq!(characters[0].name.full(), Some("Spike Spiegel".to_string()));
    assert_eq!(characters[0].role, Some(CharacterRole::Main));
}

#[test]
fn an_unknown_role_is_a_background_role() {
    let characters =
        deserialize_characters(&json(r#"{"edges": [{"node": {"id": 3}, "role": "UNKNOWN_X"}]}"#))
            .unwrap()
            .unwrap();
    assert_eq!(characters[0].role, Some(CharacterRole::Background));
}

#[test]
fn the_role_of_the_edge_replaces_the_role_of_the_node() {
    let characters = deserialize_characters(&json(
        r#"{"edges": [
            {"node": {"id": 2, "role": "MAIN"}, "role": "SUPPORTING"},
            {"node": {"id": 4, "role": "SUPPORTING"}},
            {"node": {"id": 5, "role": "MAIN"}, "role": null},
            {"node": {"id": 6}}
        ]}"#,
    ))
    .unwrap()
    .unwrap();
    assert_eq!(characters[0].role, Some(CharacterRole::Supporting));
    assert_eq!(characters[1].role, Some(CharacterRole::Supporting));
    assert_eq!(characters[2].role, Some(CharacterRole::Main));
    assert_eq!(characters[3].role, None);
}

#[test]
fn one_malformed_edge_does_not_fail_the_rest() {
    let characters = deserialize_characters(&json(
        r#"{"edges": [
            {"node": {"name": {"full": "no id"}}, "role": "MAIN"},
            {"node": {"id": 1, "name": {"full": "Spike Spiegel"}}, "role": "MAIN"}
        ]}"#,
    ))
    .unwrap()
    .unwrap();
    assert_eq!(characters.len(), 2);
    assert_eq!(characters[0], Character::default());
    assert_eq!(characters[1].id, 1);
    assert_eq!(characters[1].role, Some(CharacterRole::Main));
}

#[test]
fn an_edge_without_a_character_becomes_the_default() {
    let characters = deserialize_characters(&json(
        r#"{"edges": [
            {"role": "MAIN"},
            {"node": null, "role": "MAIN"},
            {"node": {"id": 1}, "role": 7},
            5,
            {"node": {"id": 2}, "role": "MAIN"}
        ]}"#,
    ))
    .unwrap()
    .unwrap();
    assert_eq!(characters.len(), 5);
    for character in &characters[..4] {
        assert_eq!(*character, Character::default());
    }
    assert_eq!(characters[4].id, 2);
}

#[test]
fn the_same_character_may_play_two_roles() {
    let node = r#"{"id": 1, "name": {"full": "Spike Spiegel"}}"#;
    let first = deserialize_characters(&json(&format!(
        r#"{{"edges": [{{"node": {node}, "role": "MAIN"}}]}}"#
    )))
    .unwrap()
    .unwrap();
    let second = deserialize_characters(&json(&format!(
        r#"{{"edges": [{{"node": {node}, "role": "BACKGROUND"}}]}}"#
    )))
    .unwrap()
    .unwrap();
    assert_eq!(first[0].id, second[0].id);
    assert_eq!(first[0].role, Some(CharacterRole::Main));
    assert_eq!(second[0].role, Some(CharacterRole::Background));
}

fn anime_with_relations(relations: &str) -> Anime {
    Anime::from_value(&json(&format!(
        r#"{{"id": 1, "title": {{}}, "format": "TV", "status": "FINISHED", "isAdult": false,
            "siteUrl": "u", "relations": {relations}}}"#
    )))
    .unwrap()
}

#[test]
fn no_relations_data_gives_no_relations() {
    assert_eq!(Anime::default().relations(), Ok(vec![]));
    assert_eq!(anime_with_relations("null").relations(), Ok(vec![]));
    assert_eq!(anime_with_relations("{}").relations(), Ok(vec![]));
    assert_eq!(anime_with_relations(r#"{"edges": null}"#).relations(), Ok(vec![]));
    assert_eq!(anime_with_relations(r#"{"edges": {}}"#).relations(), Ok(vec![]));
    assert_eq!(anime_with_relations(r#"{"edges": []}"#).relations(), Ok(vec![]));
    assert_eq!(anime_with_relations("[1, 2]").relations(), Ok(vec![]));
    assert_eq!(anime_with_relations(r#""none""#).relations(), Ok(vec![]));
}

#[test]
fn relations_are_decoded_on_demand() {
    let anime = anime_with_relations(
        r#"{"edges": [
            {"id": 10, "relationType": "SIDE_STORY", "isMainStudio": true, "node": {"id": 5}},
            {"id": "bad"},
            {"id": 11, "relationType": "REMAKE"}
        ]}"#,
    );
    assert_eq!(
        anime.relations(),
        Ok(vec![
            Relation {
                id: 10,
                relation_type: RelationType::SideStory,
                is_main_studio: true,
                media: Some(json(r#"{"id": 5}"#)),
            },
            Relation::default(),
            Relation { id: 11, relation_type: RelationType::Other, is_main_studio: false, media: None },
        ])
    );
    assert_eq!(
        Relation::default(),
        Relation { id: 0, relation_type: RelationType::Other, is_main_studio: false, media: None }
    );
}
