//! What an entity asks of the transport that fetches records.

use vstd::prelude::*;

verus! {

/// The kinds of entity that can be fetched by their identifier.
#[derive(Debug, Clone, Copy, PartialEq, Eq, Hash, Structural)]
pub enum EntityKind {
    Anime,
    Character,
    Person,
}

/// A request for the full record of one entity.
#[derive(Debug, Clone, Copy, PartialEq, Eq, Hash, Structural)]
pub struct FetchRequest {
    /// The kind of the entity.
    pub kind: EntityKind,
    /// The identifier of the entity within its kind.
    pub id: i64,
}

} // verus!
