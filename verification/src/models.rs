//! The records of the catalogue.

pub mod anime;
pub mod character;
pub mod cover;
pub mod date;
pub mod format;
pub mod gender;
pub mod image;
pub mod language;
pub mod link;
pub mod name;
pub mod person;
pub mod relation;
pub mod season;
pub mod source;
pub mod status;
pub mod studio;
pub mod tag;
pub mod title;

pub use anime::{AiringSchedule, Anime, AnimeView};
pub use character::{Character, CharacterRole, CharacterView};
pub use cover::{Cover, CoverView};
pub use date::Date;
pub use format::Format;
pub use gender::{Gender, GenderView};
pub use image::{Image, ImageView};
pub use language::Language;
pub use link::{Link, LinkView};
pub use name::{Name, NameView};
pub use person::{Person, PersonView};
pub use relation::{Relation, RelationType, RelationView};
pub use season::Season;
pub use source::Source;
pub use status::Status;
pub use studio::{Studio, StudioView};
pub use tag::{Tag, TagView};
pub use title::{Title, TitleView};
