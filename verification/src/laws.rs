//! What holds of the members of an object, the connections, the relations
//! and the loading of records, whatever the JSON tree: each law is stated
//! over the specifications that the functions' own contracts use, and
//! proved from them.

use vstd::prelude::*;
use crate::json::{member, Json};
use crate::models::anime::{
    character_edges, edge_character, edge_fits, staff_nodes, studio_nodes, Anime, AnimeView,
};
use crate::models::character::{Character, CharacterRole, CharacterView};
use crate::models::person::Person;
use crate::models::relation::RelationView;
use crate::models::studio::Studio;
use crate::text::folded;

verus! {

/// Members that a record does not read do not count: what an object holds
/// under one name is the same whatever is put under another.
pub proof fn law_other_members_do_not_count(
    members: Map<Seq<char>, Json>,
    key: Seq<char>,
    other: Seq<char>,
    extra: Json,
)
    requires
        other != key,
    ensures
        member(Json::Object(members.insert(other, extra)), key) == member(
            Json::Object(members),
            key,
        ),
{
}

/// A member that is null is as good as absent.
pub proof fn law_null_member_is_absent(members: Map<Seq<char>, Json>, key: Seq<char>)
    ensures
        member(Json::Object(members.insert(key, Json::Null)), key) is None,
        member(Json::Object(members.remove(key)), key) is None,
{
}

/// A connection of nodes gives its studios in the order in which they came,
/// one for each node: the decoded studio where the node decodes, and the
/// default studio where it does not.
pub proof fn law_studio_nodes_keep_order(env: Json, items: Seq<Json>)
    requires
        env is Object,
        member(env, "nodes"@) == Some(Json::Array(items)),
    ensures
        studio_nodes(env) matches Ok(Some(list)) && list.len() == items.len() && forall|i: int|
            0 <= i < items.len() ==> #[trigger] list[i] == match Studio::decode(items[i]) {
                Ok(studio) => studio,
                Err(_) => Studio::default_view(),
            },
{
}

/// A connection of nodes gives its staff in the order in which they came,
/// one for each node: the decoded person where the node decodes, and the
/// default person where it does not.
pub proof fn law_staff_nodes_keep_order(env: Json, items: Seq<Json>)
    requires
        env is Object,
        member(env, "nodes"@) == Some(Json::Array(items)),
    ensures
        staff_nodes(env) matches Ok(Some(list)) && list.len() == items.len() && forall|i: int|
            0 <= i < items.len() ==> #[trigger] list[i] == match Person::decode(items[i]) {
                Ok(person) => person,
                Err(_) => Person::default_view(),
            },
{
}

/// A connection that is absent, or null, holds no data and is no error: the
/// anime has no list in its place, and is decoded as it would be without it.
pub proof fn law_absent_connection_is_no_data(v: Json)
    ensures
        member(v, "characters"@) is None ==> Anime::view_of(v).characters is None,
        member(v, "staff"@) is None ==> Anime::view_of(v).staff is None,
        member(v, "studios"@) is None ==> Anime::view_of(v).studios is None,
        character_edges(Json::Null) matches Ok(None),
        staff_nodes(Json::Null) matches Ok(None),
        studio_nodes(Json::Null) matches Ok(None),
{
}

/// The role that an edge names takes the place of the node's own: a
/// character reached through an edge has the role that the text of the
/// edge's member `role` stands for, and is otherwise what its node holds.
pub proof fn law_edge_role_is_merged(edge: Json, node: Json, role: Seq<char>)
    requires
        member(edge, "node"@) == Some(node),
        Character::decode(node) is Ok,
        member(edge, "role"@) == Some(Json::Text(role)),
    ensures
        edge_character(edge) == (CharacterView {
            role: Some(CharacterRole::parse(role)),
            ..Character::decode(node).unwrap()
        }),
{
    assert(edge_fits(edge));
}

/// An edge that names no role leaves the character as its node holds it.
pub proof fn law_edge_without_role_keeps_node(edge: Json, node: Json)
    requires
        member(edge, "node"@) == Some(node),
        Character::decode(node) is Ok,
        member(edge, "role"@) is None,
    ensures
        edge_character(edge) == Character::decode(node).unwrap(),
{
    assert(edge_fits(edge));
}

/// A role that is neither main nor supporting is a background role,
/// whatever its name.
pub proof fn law_unknown_role_is_background(text: Seq<char>)
    requires
        folded(text) != "MAIN"@,
        folded(text) != "SUPPORTING"@,
    ensures
        CharacterRole::parse(text) == CharacterRole::Background,
{
}

/// A connection of edges never fails on account of one edge: it gives one
/// character for each edge, in the order in which they came, and the default
/// character in the place of an edge that holds none.
pub proof fn law_edges_never_fail(env: Json, items: Seq<Json>)
    requires
        env is Object,
        member(env, "edges"@) == Some(Json::Array(items)),
    ensures
        character_edges(env) matches Ok(Some(list)) && list.len() == items.len() && forall|i: int|
            0 <= i < items.len() ==> #[trigger] list[i] == edge_character(items[i]),
        forall|i: int|
            0 <= i < items.len() && !edge_fits(items[i]) ==> #[trigger] edge_character(items[i])
                == Character::default_view(),
{
}

/// An anime without relations data has no relations, and asking for them is
/// no error: where the raw tree is absent, or has no array under `edges`,
/// the relations are the empty sequence.
pub proof fn law_no_relations_data(raw: Option<Json>)
    requires
        raw matches Some(t) ==> !(member(t, "edges"@) matches Some(Json::Array(_))),
    ensures
        Anime::relations_of(raw) == Seq::<RelationView>::empty(),
{
}

/// A record that was decoded is a partial one, and the record that loading
/// puts in its place is the full one with the same content.
pub proof fn law_loading_marks_the_record_full(v: Json)
    ensures
        !Anime::view_of(v).is_full_loaded,
        !Character::view_of(v).is_full_loaded,
        !Person::view_of(v).is_full_loaded,
        Anime::loaded(Anime::view_of(v)).is_full_loaded,
        Character::loaded(Character::view_of(v)).is_full_loaded,
        Person::loaded(Person::view_of(v)).is_full_loaded,
        Anime::loaded(Anime::view_of(v)) == (AnimeView {
            is_full_loaded: true,
            ..Anime::view_of(v)
        }),
{
}

} // verus!
