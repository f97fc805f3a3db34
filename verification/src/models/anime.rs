//! Animated works, and the unwrapping of the connections that their
//! responses come in.

use vstd::prelude::*;
use serde_json::Value;
use crate::error::{DecodeError, Error, TransportError};
use crate::fetch::{EntityKind, FetchRequest};
use crate::json::{
    Json, as_array, copy_of, find, fits_flag, fits_i64, fits_text, fits_texts, fits_u16, fits_u32,
    fits_u64, fits_u8, flag_field, flag_in, i64_field, i64_in, is_null, is_object, member,
    text_field, text_field_or_empty, text_in, text_or_empty, texts_field, texts_in, tree, tree_in,
    trees, u16_field, u16_in, u32_field, u32_in, u64_field, u64_in, u8_field, u8_in,
};
use crate::models::character::{Character, CharacterRole, CharacterView};
use crate::models::cover::{Cover, CoverView};
use crate::models::date::Date;
use crate::models::format::Format;
use crate::models::link::{Link, LinkView};
use crate::models::person::{Person, PersonView};
use crate::models::relation::{Relation, RelationView};
use crate::models::season::Season;
use crate::models::source::Source;
use crate::models::status::Status;
use crate::models::studio::{Studio, StudioView};
use crate::models::tag::{Tag, TagView};
use crate::models::title::{Title, TitleView};

verus! {

/// An animated work, with what the catalogue knows of it.
#[derive(Debug, Clone, PartialEq)]
pub struct Anime {
    /// The identifier of the work.
    pub id: i64,
    /// The identifier of the work in another catalogue, if known.
    pub id_mal: Option<i64>,
    /// The titles of the work.
    pub title: Title,
    /// The form in which the work is released.
    pub format: Format,
    /// How far the release has come.
    pub status: Status,
    /// A description of the work.
    pub description: String,
    /// The date of the first release.
    pub start_date: Option<Date>,
    /// The date of the last release.
    pub end_date: Option<Date>,
    /// The season in which the work was first broadcast.
    pub season: Option<Season>,
    /// The year of that season.
    pub season_year: Option<u32>,
    /// Year and season as one number.
    pub season_int: Option<u64>,
    /// The number of episodes.
    pub episodes: Option<u16>,
    /// The length of an episode in minutes.
    pub duration: Option<u8>,
    /// The code of the country that the work comes from.
    pub country_of_origin: Option<String>,
    /// Whether the work is licensed.
    pub is_licensed: Option<bool>,
    /// The kind of material that the work was made from.
    pub source: Option<Source>,
    /// The hashtag of the work.
    pub hashtag: Option<String>,
    /// When the record was last changed, in seconds since the epoch.
    pub updated_at: Option<u64>,
    /// The cover picture.
    pub cover: Cover,
    /// The address of the banner picture.
    pub banner: Option<String>,
    /// The genres of the work.
    pub genres: Option<Vec<String>>,
    /// Other titles that the work is known by.
    pub synonyms: Option<Vec<String>>,
    /// The weighted average of the users' scores.
    pub average_score: Option<u8>,
    /// The mean of the users' scores.
    pub mean_score: Option<u8>,
    /// How many users have the work on a list.
    pub popularity: Option<u32>,
    /// Whether the record is closed to changes.
    pub is_locked: Option<bool>,
    /// How much activity the work has seen of late.
    pub trending: Option<u32>,
    /// How many users marked the work as a favourite.
    pub favourites: Option<u32>,
    /// The tags of the work.
    pub tags: Option<Vec<Tag>>,
    /// The works related to this one, as the tree that came.
    pub relations: Option<Value>,
    /// The characters of the work, each with the part it plays in it.
    pub characters: Option<Vec<Character>>,
    /// The people who worked on the work.
    pub staff: Option<Vec<Person>>,
    /// The studios that produced the work.
    pub studios: Option<Vec<Studio>>,
    /// Whether the user marked the work as a favourite.
    pub is_favourite: Option<bool>,
    /// Whether the work may not be marked as a favourite.
    pub is_favourite_blocked: Option<bool>,
    /// Whether the work is for adults only.
    pub is_adult: bool,
    /// The next episode to be broadcast.
    pub next_airing_episode: Option<AiringSchedule>,
    /// Links to the work on other sites.
    pub external_links: Option<Vec<Link>>,
    /// Links to the episodes where they can be watched.
    pub streaming_episodes: Option<Vec<Link>>,
    /// The address of the work's page.
    pub url: String,
    /// Whether this record is the full one, fetched by its identifier.
    pub is_full_loaded: bool,
}

/// What an anime holds, as mathematical values.
pub struct AnimeView {
    pub id: i64,
    pub id_mal: Option<i64>,
    pub title: TitleView,
    pub format: Format,
    pub status: Status,
    pub description: Seq<char>,
    pub start_date: Option<Date>,
    pub end_date: Option<Date>,
    pub season: Option<Season>,
    pub season_year: Option<u32>,
    pub season_int: Option<u64>,
    pub episodes: Option<u16>,
    pub duration: Option<u8>,
    pub country_of_origin: Option<Seq<char>>,
    pub is_licensed: Option<bool>,
    pub source: Option<Source>,
    pub hashtag: Option<Seq<char>>,
    pub updated_at: Option<u64>,
    pub cover: CoverView,
    pub banner: Option<Seq<char>>,
    pub genres: Option<Seq<Seq<char>>>,
    pub synonyms: Option<Seq<Seq<char>>>,
    pub average_score: Option<u8>,
    pub mean_score: Option<u8>,
    pub popularity: Option<u32>,
    pub is_locked: Option<bool>,
    pub trending: Option<u32>,
    pub favourites: Option<u32>,
    pub tags: Option<Seq<TagView>>,
    pub relations: Option<Json>,
    pub characters: Option<Seq<CharacterView>>,
    pub staff: Option<Seq<PersonView>>,
    pub studios: Option<Seq<StudioView>>,
    pub is_favourite: Option<bool>,
    pub is_favourite_blocked: Option<bool>,
    pub is_adult: bool,
    pub next_airing_episode: Option<AiringSchedule>,
    pub external_links: Option<Seq<LinkView>>,
    pub streaming_episodes: Option<Seq<LinkView>>,
    pub url: Seq<char>,
    pub is_full_loaded: bool,
}

impl DeepView for Anime {
    type V = AnimeView;

    open spec fn deep_view(&self) -> AnimeView {
        AnimeView {
            id: self.id,
            id_mal: self.id_mal,
            title: self.title.deep_view(),
            format: self.format,
            status: self.status,
            description: self.description@,
            start_date: self.start_date.deep_view(),
            end_date: self.end_date.deep_view(),
            season: self.season,
            season_year: self.season_year,
            season_int: self.season_int,
            episodes: self.episodes,
            duration: self.duration,
            country_of_origin: self.country_of_origin.deep_view(),
            is_licensed: self.is_licensed,
            source: self.source,
            hashtag: self.hashtag.deep_view(),
            updated_at: self.updated_at,
            cover: self.cover.deep_view(),
            banner: self.banner.deep_view(),
            genres: self.genres.deep_view(),
            synonyms: self.synonyms.deep_view(),
            average_score: self.average_score,
            mean_score: self.mean_score,
            popularity: self.popularity,
            is_locked: self.is_locked,
            trending: self.trending,
            favourites: self.favourites,
            tags: self.tags.deep_view(),
            relations: tree_in(self.relations),
            characters: self.characters.deep_view(),
            staff: self.staff.deep_view(),
            studios: self.studios.deep_view(),
            is_favourite: self.is_favourite,
            is_favourite_blocked: self.is_favourite_blocked,
            is_adult: self.is_adult,
            next_airing_episode: self.next_airing_episode.deep_view(),
            external_links: self.external_links.deep_view(),
            streaming_episodes: self.streaming_episodes.deep_view(),
            url: self.url@,
            is_full_loaded: self.is_full_loaded,
        }
    }
}

impl View for Anime {
    type V = AnimeView;

    open spec fn view(&self) -> AnimeView {
        self.deep_view()
    }
}

impl Anime {
    /// An anime in which nothing is given.
    pub open spec fn default_view() -> AnimeView {
        AnimeView {
            id: 0,
            id_mal: None,
            title: Title::default_view(),
            format: Format::Tv,
            status: Status::NotYetReleased,
            description: Seq::empty(),
            start_date: None,
            end_date: None,
            season: None,
            season_year: None,
            season_int: None,
            episodes: None,
            duration: None,
            country_of_origin: None,
            is_licensed: None,
            source: None,
            hashtag: None,
            updated_at: None,
            cover: Cover::default_view(),
            banner: None,
            genres: None,
            synonyms: None,
            average_score: None,
            mean_score: None,
            popularity: None,
            is_locked: None,
            trending: None,
            favourites: None,
            tags: None,
            relations: None,
            characters: None,
            staff: None,
            studios: None,
            is_favourite: None,
            is_favourite_blocked: None,
            is_adult: false,
            next_airing_episode: None,
            external_links: None,
            streaming_episodes: None,
            url: Seq::empty(),
            is_full_loaded: false,
        }
    }

    /// Whether the object `v` has every member that an anime cannot do
    /// without.
    pub open spec fn complete(v: Json) -> bool {
        &&& member(v, "id"@) is Some
        &&& member(v, "title"@) is Some
        &&& member(v, "format"@) is Some
        &&& member(v, "status"@) is Some
        &&& member(v, "isAdult"@) is Some
        &&& member(v, "siteUrl"@) is Some
    }

    /// Whether every member of the object `v` that an anime reads, where it
    /// is present, has the shape expected of it.
    pub open spec fn shaped(v: Json) -> bool {
        &&& fits_i64(member(v, "id"@))
        &&& fits_i64(member(v, "idMal"@))
        &&& Title::fits(member(v, "title"@))
        &&& fits_text(member(v, "format"@))
        &&& fits_text(member(v, "status"@))
        &&& fits_text(member(v, "description"@))
        &&& Date::fits(member(v, "startDate"@))
        &&& Date::fits(member(v, "endDate"@))
        &&& fits_text(member(v, "season"@))
        &&& fits_u32(member(v, "seasonYear"@))
        &&& fits_u64(member(v, "seasonInt"@))
        &&& fits_u16(member(v, "episodes"@))
        &&& fits_u8(member(v, "duration"@))
        &&& fits_text(member(v, "countryOfOrigin"@))
        &&& fits_flag(member(v, "isLicensed"@))
        &&& fits_text(member(v, "source"@))
        &&& fits_text(member(v, "hashtag"@))
        &&& fits_u64(member(v, "updatedAt"@))
        &&& Cover::fits(member(v, "coverImage"@))
        &&& fits_text(member(v, "bannerImage"@))
        &&& fits_texts(member(v, "genres"@))
        &&& fits_texts(member(v, "synonyms"@))
        &&& fits_u8(member(v, "averageScore"@))
        &&& fits_u8(member(v, "meanScore"@))
        &&& fits_u32(member(v, "popularity"@))
        &&& fits_flag(member(v, "isLocked"@))
        &&& fits_u32(member(v, "trending"@))
        &&& fits_u32(member(v, "favourites"@))
        &&& Tag::fits_list(member(v, "tags"@))
        &&& (member(v, "characters"@) matches Some(env) ==> character_edges(env) is Ok)
        &&& (member(v, "staff"@) matches Some(env) ==> staff_nodes(env) is Ok)
        &&& (member(v, "studios"@) matches Some(env) ==> studio_nodes(env) is Ok)
        &&& fits_flag(member(v, "isFavourite"@))
        &&& fits_flag(member(v, "isFavouriteBlocked"@))
        &&& fits_flag(member(v, "isAdult"@))
        &&& AiringSchedule::fits(member(v, "nextAiringEpisode"@))
        &&& Link::fits_list(member(v, "externalLinks"@))
        &&& Link::fits_list(member(v, "streamingEpisodes"@))
        &&& fits_text(member(v, "siteUrl"@))
    }

    /// The anime that the object `v` describes, member by member.
    pub open spec fn view_of(v: Json) -> AnimeView {
        AnimeView {
            id: i64_in(member(v, "id"@)).unwrap(),
            id_mal: i64_in(member(v, "idMal"@)),
            title: Title::held(member(v, "title"@)).unwrap(),
            format: Format::held(member(v, "format"@)).unwrap(),
            status: Status::held(member(v, "status"@)).unwrap(),
            description: text_or_empty(member(v, "description"@)),
            start_date: Date::held(member(v, "startDate"@)),
            end_date: Date::held(member(v, "endDate"@)),
            season: Season::held(member(v, "season"@)),
            season_year: u32_in(member(v, "seasonYear"@)),
            season_int: u64_in(member(v, "seasonInt"@)),
            episodes: u16_in(member(v, "episodes"@)),
            duration: u8_in(member(v, "duration"@)),
            country_of_origin: text_in(member(v, "countryOfOrigin"@)),
            is_licensed: flag_in(member(v, "isLicensed"@)),
            source: Source::held(member(v, "source"@)),
            hashtag: text_in(member(v, "hashtag"@)),
            updated_at: u64_in(member(v, "updatedAt"@)),
            cover: match Cover::held(member(v, "coverImage"@)) {
                Some(x) => x,
                None => Cover::default_view(),
            },
            banner: text_in(member(v, "bannerImage"@)),
            genres: texts_in(member(v, "genres"@)),
            synonyms: texts_in(member(v, "synonyms"@)),
            average_score: u8_in(member(v, "averageScore"@)),
            mean_score: u8_in(member(v, "meanScore"@)),
            popularity: u32_in(member(v, "popularity"@)),
            is_locked: flag_in(member(v, "isLocked"@)),
            trending: u32_in(member(v, "trending"@)),
            favourites: u32_in(member(v, "favourites"@)),
            tags: Tag::held_list(member(v, "tags"@)),
            relations: member(v, "relations"@),
            characters: match member(v, "characters"@) {
                Some(env) => match character_edges(env) {
                    Ok(list) => list,
                    Err(_) => None,
                },
                None => None,
            },
            staff: match member(v, "staff"@) {
                Some(env) => match staff_nodes(env) {
                    Ok(list) => list,
                    Err(_) => None,
                },
                None => None,
            },
            studios: match member(v, "studios"@) {
                Some(env) => match studio_nodes(env) {
                    Ok(list) => list,
                    Err(_) => None,
                },
                None => None,
            },
            is_favourite: flag_in(member(v, "isFavourite"@)),
            is_favourite_blocked: flag_in(member(v, "isFavouriteBlocked"@)),
            is_adult: flag_in(member(v, "isAdult"@)).unwrap(),
            next_airing_episode: AiringSchedule::held(member(v, "nextAiringEpisode"@)),
            external_links: Link::held_list(member(v, "externalLinks"@)),
            streaming_episodes: Link::held_list(member(v, "streamingEpisodes"@)),
            url: text_in(member(v, "siteUrl"@)).unwrap(),
            is_full_loaded: false,
        }
    }

    /// What decoding the tree `v` gives: an anime, or the reason why `v`
    /// describes none.
    pub open spec fn decode(v: Json) -> Result<AnimeView, DecodeError> {
        if !(v is Object) {
            Err(DecodeError::WrongShape)
        } else if !Anime::complete(v) {
            Err(DecodeError::MissingField)
        } else if !Anime::shaped(v) {
            Err(DecodeError::WrongShape)
        } else {
            Ok(Anime::view_of(v))
        }
    }

    /// Decodes the tree `v` into an anime. Members that the record does not
    /// know are passed over.
    pub fn from_value(v: &Value) -> (r: Result<Anime, DecodeError>)
        ensures
            match Anime::decode(tree(*v)) {
                Ok(decoded) => r matches Ok(x) && x@ == decoded,
                Err(reason) => r matches Err(e) && e == reason,
            },
    {
        if !is_object(v) {
            return Err(DecodeError::WrongShape);
        }
        if find(v, "id").is_none()
            || find(v, "title").is_none()
            || find(v, "format").is_none()
            || find(v, "status").is_none()
            || find(v, "isAdult").is_none()
            || find(v, "siteUrl").is_none() {
            return Err(DecodeError::MissingField);
        }
        let id = i64_field(v, "id")?.unwrap();
        let id_mal = i64_field(v, "idMal")?;
        let title = Title::field(v, "title")?.unwrap();
        let format = Format::field(v, "format")?.unwrap();
        let status = Status::field(v, "status")?.unwrap();
        let description = text_field_or_empty(v, "description")?;
        let start_date = Date::field(v, "startDate")?;
        let end_date = Date::field(v, "endDate")?;
        let season = Season::field(v, "season")?;
        let season_year = u32_field(v, "seasonYear")?;
        let season_int = u64_field(v, "seasonInt")?;
        let episodes = u16_field(v, "episodes")?;
        let duration = u8_field(v, "duration")?;
        let country_of_origin = text_field(v, "countryOfOrigin")?;
        let is_licensed = flag_field(v, "isLicensed")?;
        let source = Source::field(v, "source")?;
        let hashtag = text_field(v, "hashtag")?;
        let updated_at = u64_field(v, "updatedAt")?;
        let cover = match Cover::field(v, "coverImage")? {
            Some(x) => x,
            None => Cover::default(),
        };
        let banner = text_field(v, "bannerImage")?;
        let genres = texts_field(v, "genres")?;
        let synonyms = texts_field(v, "synonyms")?;
        let average_score = u8_field(v, "averageScore")?;
        let mean_score = u8_field(v, "meanScore")?;
        let popularity = u32_field(v, "popularity")?;
        let is_locked = flag_field(v, "isLocked")?;
        let trending = u32_field(v, "trending")?;
        let favourites = u32_field(v, "favourites")?;
        let tags = Tag::list_field(v, "tags")?;
        let relations = match find(v, "relations") {
            Some(m) => Some(copy_of(m)),
            None => None,
        };
        let characters = match find(v, "characters") {
            Some(env) => match deserialize_characters(env) {
                Ok(list) => list,
                Err(_) => {
                    return Err(DecodeError::WrongShape);
                },
            },
            None => None,
        };
        let staff = match find(v, "staff") {
            Some(env) => match deserialize_staff(env) {
                Ok(list) => list,
                Err(_) => {
                    return Err(DecodeError::WrongShape);
                },
            },
            None => None,
        };
        let studios = match find(v, "studios") {
            Some(env) => match deserialize_studios(env) {
                Ok(list) => list,
                Err(_) => {
                    return Err(DecodeError::WrongShape);
                },
            },
            None => None,
        };
        let is_favourite = flag_field(v, "isFavourite")?;
        let is_favourite_blocked = flag_field(v, "isFavouriteBlocked")?;
        let is_adult = flag_field(v, "isAdult")?.unwrap();
        let next_airing_episode = AiringSchedule::field(v, "nextAiringEpisode")?;
        let external_links = Link::list_field(v, "externalLinks")?;
        let streaming_episodes = Link::list_field(v, "streamingEpisodes")?;
        let url = text_field(v, "siteUrl")?.unwrap();
        let is_full_loaded = false;
        Ok(Anime {
            id,
            id_mal,
            title,
            format,
            status,
            description,
            start_date,
            end_date,
            season,
            season_year,
            season_int,
            episodes,
            duration,
            country_of_origin,
            is_licensed,
            source,
            hashtag,
            updated_at,
            cover,
            banner,
            genres,
            synonyms,
            average_score,
            mean_score,
            popularity,
            is_locked,
            trending,
            favourites,
            tags,
            relations,
            characters,
            staff,
            studios,
            is_favourite,
            is_favourite_blocked,
            is_adult,
            next_airing_episode,
            external_links,
            streaming_episodes,
            url,
            is_full_loaded,
        })
    }
}

impl Default for Anime {
    /// An anime in which nothing is given.
    fn default() -> (r: Anime)
        ensures
            r.deep_view() == Anime::default_view(),
    {
        Anime {
            id: 0,
            id_mal: None,
            title: Title::default(),
            format: Format::Tv,
            status: Status::NotYetReleased,
            description: String::new(),
            start_date: None,
            end_date: None,
            season: None,
            season_year: None,
            season_int: None,
            episodes: None,
            duration: None,
            country_of_origin: None,
            is_licensed: None,
            source: None,
            hashtag: None,
            updated_at: None,
            cover: Cover::default(),
            banner: None,
            genres: None,
            synonyms: None,
            average_score: None,
            mean_score: None,
            popularity: None,
            is_locked: None,
            trending: None,
            favourites: None,
            tags: None,
            relations: None,
            characters: None,
            staff: None,
            studios: None,
            is_favourite: None,
            is_favourite_blocked: None,
            is_adult: false,
            next_airing_episode: None,
            external_links: None,
            streaming_episodes: None,
            url: String::new(),
            is_full_loaded: false,
        }
    }
}

impl Anime {
    /// What a record that was fetched whole holds: what was decoded, marked
    /// as fully loaded.
    pub open spec fn loaded(x: AnimeView) -> AnimeView {
        AnimeView { is_full_loaded: true, ..x }
    }

    /// The request that fetches the full record of this anime: one request,
    /// for its kind and its identifier. A record that is fully loaded asks
    /// for nothing more.
    pub fn load_request(&self) -> (r: FetchRequest)
        requires
            !self.is_full_loaded,
        ensures
            r == (FetchRequest { kind: EntityKind::Anime, id: self.id }),
    {
        FetchRequest { kind: EntityKind::Anime, id: self.id }
    }

    /// Replaces this partial record by the full one that the transport
    /// answered the request of `load_request` with. A failure of the
    /// transport is handed on as it came; a response that does not decode
    /// fails with the reason.
    pub fn load_full(self, reply: Result<Value, TransportError>) -> (r: Result<Anime, Error>)
        requires
            !self.is_full_loaded,
        ensures
            match reply {
                Ok(v) => match Anime::decode(tree(v)) {
                    Ok(x) => r matches Ok(full) && full.deep_view() == Anime::loaded(x),
                    Err(e) => r == Err::<Anime, Error>(Error::Decode(e)),
                },
                Err(t) => r == Err::<Anime, Error>(Error::Transport(t)),
            },
    {
        match reply {
            Ok(v) => match Anime::from_value(&v) {
                Ok(x) => {
                    let mut full = x;
                    full.is_full_loaded = true;
                    Ok(full)
                },
                Err(e) => Err(Error::Decode(e)),
            },
            Err(t) => Err(Error::Transport(t)),
        }
    }

    /// The relations that a raw tree of relations holds: what the elements
    /// of its array `edges` hold, in their order, an element that does not
    /// decode replaced by the default relation; none where there is no tree
    /// or no such array in it.
    pub open spec fn relations_of(raw: Option<Json>) -> Seq<RelationView> {
        match raw {
            Some(raw) => match member(raw, "edges"@) {
                Some(Json::Array(items)) => Relation::views_of(items),
                _ => Seq::empty(),
            },
            None => Seq::empty(),
        }
    }

    /// The works related to this one, decoded from the raw tree. It never
    /// fails: where the tree is absent or has no array of edges there are
    /// no relations.
    pub fn relations(&self) -> (r: Result<Vec<Relation>, Error>)
        ensures
            r matches Ok(list) && list.deep_view() == Anime::relations_of(
                tree_in(self.relations),
            ),
    {
        let none: Vec<Relation> = Vec::new();
        assert(none.deep_view() =~= Seq::<RelationView>::empty());
        let raw = match &self.relations {
            Some(raw) => raw,
            None => {
                return Ok(none);
            },
        };
        match find(raw, "edges") {
            Some(edges) => match as_array(edges) {
                Some(items) => Ok(Relation::from_values_or_default(items)),
                None => Ok(none),
            },
            None => Ok(none),
        }
    }
}

/// What a connection of studios holds. The JSON null holds no data. An
/// object holds what the elements of its array `nodes` hold, in their order;
/// an element that does not decode is replaced by the default record.
pub open spec fn studio_nodes(env: Json) -> Result<Option<Seq<StudioView>>, DecodeError> {
    if env is Null {
        Ok(None)
    } else if !(env is Object) {
        Err(DecodeError::WrongShape)
    } else {
        match member(env, "nodes"@) {
            Some(Json::Array(items)) => Ok(Some(Studio::views_of(items))),
            Some(_) => Err(DecodeError::WrongShape),
            None => Err(DecodeError::MissingField),
        }
    }
}

/// Unwraps a connection of studios into the list of its nodes.
pub fn deserialize_studios(env: &Value) -> (r: Result<Option<Vec<Studio>>, DecodeError>)
    ensures
        match studio_nodes(tree(*env)) {
            Ok(held) => r matches Ok(list) && list.deep_view() == held,
            Err(reason) => r matches Err(e) && e == reason,
        },
{
    if is_null(env) {
        return Ok(None);
    }
    if !is_object(env) {
        return Err(DecodeError::WrongShape);
    }
    match find(env, "nodes") {
        Some(nodes) => match as_array(nodes) {
            Some(items) => Ok(Some(Studio::from_values_or_default(items))),
            None => Err(DecodeError::WrongShape),
        },
        None => Err(DecodeError::MissingField),
    }
}

/// What a connection of staff holds. The JSON null holds no data. An
/// object holds what the elements of its array `nodes` hold, in their order;
/// an element that does not decode is replaced by the default record.
pub open spec fn staff_nodes(env: Json) -> Result<Option<Seq<PersonView>>, DecodeError> {
    if env is Null {
        Ok(None)
    } else if !(env is Object) {
        Err(DecodeError::WrongShape)
    } else {
        match member(env, "nodes"@) {
            Some(Json::Array(items)) => Ok(Some(Person::views_of(items))),
            Some(_) => Err(DecodeError::WrongShape),
            None => Err(DecodeError::MissingField),
        }
    }
}

/// Unwraps a connection of staff into the list of its nodes.
pub fn deserialize_staff(env: &Value) -> (r: Result<Option<Vec<Person>>, DecodeError>)
    ensures
        match staff_nodes(tree(*env)) {
            Ok(held) => r matches Ok(list) && list.deep_view() == held,
            Err(reason) => r matches Err(e) && e == reason,
        },
{
    if is_null(env) {
        return Ok(None);
    }
    if !is_object(env) {
        return Err(DecodeError::WrongShape);
    }
    match find(env, "nodes") {
        Some(nodes) => match as_array(nodes) {
            Some(items) => Ok(Some(Person::from_values_or_default(items))),
            None => Err(DecodeError::WrongShape),
        },
        None => Err(DecodeError::MissingField),
    }
}

/// Whether an edge holds a character: its member `node` decodes as one, and
/// its member `role`, where it is present, is a string.
pub open spec fn edge_fits(edge: Json) -> bool {
    &&& member(edge, "node"@) matches Some(node) && Character::decode(node) is Ok
    &&& fits_text(member(edge, "role"@))
}

/// The character that an edge holds: the one that its node describes, with
/// the role that the edge names put in the place of the node's own. An edge
/// that holds no character gives the default character.
pub open spec fn edge_character(edge: Json) -> CharacterView {
    if edge_fits(edge) {
        let node = Character::lenient(member(edge, "node"@).unwrap());
        match CharacterRole::held(member(edge, "role"@)) {
            Some(role) => CharacterView { role: Some(role), ..node },
            None => node,
        }
    } else {
        Character::default_view()
    }
}

/// The characters that edges hold, in their order.
pub open spec fn edge_characters(edges: Seq<Json>) -> Seq<CharacterView> {
    Seq::new(edges.len(), |i: int| edge_character(edges[i]))
}

/// What a connection of characters holds. The JSON null holds no data. An
/// object holds what the elements of its array `edges` hold, in their order.
pub open spec fn character_edges(env: Json) -> Result<Option<Seq<CharacterView>>, DecodeError> {
    if env is Null {
        Ok(None)
    } else if !(env is Object) {
        Err(DecodeError::WrongShape)
    } else {
        match member(env, "edges"@) {
            Some(Json::Array(items)) => Ok(Some(edge_characters(items))),
            Some(_) => Err(DecodeError::WrongShape),
            None => Err(DecodeError::MissingField),
        }
    }
}

/// The character that one edge holds.
fn character_of_edge(edge: &Value) -> (r: Character)
    ensures
        r.deep_view() == edge_character(tree(*edge)),
{
    let node = match find(edge, "node") {
        Some(node) => node,
        None => {
            return Character::default();
        },
    };
    let role = match CharacterRole::field(edge, "role") {
        Ok(role) => role,
        Err(_) => {
            return Character::default();
        },
    };
    match Character::from_value(node) {
        Ok(decoded) => {
            let mut character = decoded;
            match role {
                Some(role) => {
                    character.role = Some(role);
                },
                None => {},
            }
            character
        },
        Err(_) => Character::default(),
    }
}

/// Unwraps a connection of characters into the list of its characters, each
/// with the role that its edge names.
pub fn deserialize_characters(env: &Value) -> (r: Result<Option<Vec<Character>>, DecodeError>)
    ensures
        match character_edges(tree(*env)) {
            Ok(held) => r matches Ok(list) && list.deep_view() == held,
            Err(reason) => r matches Err(e) && e == reason,
        },
{
    if is_null(env) {
        return Ok(None);
    }
    if !is_object(env) {
        return Err(DecodeError::WrongShape);
    }
    let edges = match find(env, "edges") {
        Some(edges) => match as_array(edges) {
            Some(items) => items,
            None => {
                return Err(DecodeError::WrongShape);
            },
        },
        None => {
            return Err(DecodeError::MissingField);
        },
    };
    let mut out: Vec<Character> = Vec::new();
    let mut i: usize = 0;
    while i < edges.len()
        invariant
            i <= edges.len(),
            out@.len() == i,
            forall|j: int|
                0 <= j < i ==> (#[trigger] out@[j]).deep_view() == edge_character(
                    tree(edges@[j]),
                ),
        decreases edges.len() - i,
    {
        out.push(character_of_edge(&edges[i]));
        i = i + 1;
    }
    assert(out.deep_view() =~= edge_characters(trees(edges@)));
    Ok(Some(out))
}

/// When the next episode of a work is broadcast.
#[derive(Debug, Clone, Copy, PartialEq, Eq, Hash)]
pub struct AiringSchedule {
    /// The identifier of the schedule.
    pub id: u32,
    /// The time of the broadcast, in seconds since the epoch.
    pub at: i64,
    /// The seconds left until the broadcast.
    pub time_until: u64,
    /// The number of the episode.
    pub episode: u32,
}

impl DeepView for AiringSchedule {
    type V = AiringSchedule;

    open spec fn deep_view(&self) -> AiringSchedule {
        *self
    }
}

impl View for AiringSchedule {
    type V = AiringSchedule;

    open spec fn view(&self) -> AiringSchedule {
        self.deep_view()
    }
}

impl AiringSchedule {
    /// An airing schedule in which nothing is given.
    pub open spec fn default_view() -> AiringSchedule {
        AiringSchedule {
            id: 0,
            at: 0,
            time_until: 0,
            episode: 0,
        }
    }

    /// Whether the object `v` has every member that an airing schedule cannot do
    /// without.
    pub open spec fn complete(v: Json) -> bool {
        &&& member(v, "id"@) is Some
        &&& member(v, "airingAt"@) is Some
        &&& member(v, "timeUntilAiring"@) is Some
        &&& member(v, "episode"@) is Some
    }

    /// Whether every member of the object `v` that an airing schedule reads, where it
    /// is present, has the shape expected of it.
    pub open spec fn shaped(v: Json) -> bool {
        &&& fits_u32(member(v, "id"@))
        &&& fits_i64(member(v, "airingAt"@))
        &&& fits_u64(member(v, "timeUntilAiring"@))
        &&& fits_u32(member(v, "episode"@))
    }

    /// The airing schedule that the object `v` describes, member by member.
    pub open spec fn view_of(v: Json) -> AiringSchedule {
        AiringSchedule {
            id: u32_in(member(v, "id"@)).unwrap(),
            at: i64_in(member(v, "airingAt"@)).unwrap(),
            time_until: u64_in(member(v, "timeUntilAiring"@)).unwrap(),
            episode: u32_in(member(v, "episode"@)).unwrap(),
        }
    }

    /// What decoding the tree `v` gives: an airing schedule, or the reason why `v`
    /// describes none.
    pub open spec fn decode(v: Json) -> Result<AiringSchedule, DecodeError> {
        if !(v is Object) {
            Err(DecodeError::WrongShape)
        } else if !AiringSchedule::complete(v) {
            Err(DecodeError::MissingField)
        } else if !AiringSchedule::shaped(v) {
            Err(DecodeError::WrongShape)
        } else {
            Ok(AiringSchedule::view_of(v))
        }
    }

    /// Whether a member, where there is one, decodes.
    pub open spec fn fits(m: Option<Json>) -> bool {
        m matches Some(x) ==> AiringSchedule::decode(x) is Ok
    }

    /// What a member that decodes holds.
    pub open spec fn held(m: Option<Json>) -> Option<AiringSchedule> {
        match m {
            Some(x) => match AiringSchedule::decode(x) {
                Ok(x) => Some(x),
                Err(_) => None,
            },
            None => None,
        }
    }

    /// Decodes the tree `v` into an airing schedule. Members that the record does not
    /// know are passed over.
    pub fn from_value(v: &Value) -> (r: Result<AiringSchedule, DecodeError>)
        ensures
            match AiringSchedule::decode(tree(*v)) {
                Ok(decoded) => r matches Ok(x) && x@ == decoded,
                Err(reason) => r matches Err(e) && e == reason,
            },
    {
        if !is_object(v) {
            return Err(DecodeError::WrongShape);
        }
        if find(v, "id").is_none()
            || find(v, "airingAt").is_none()
            || find(v, "timeUntilAiring").is_none()
            || find(v, "episode").is_none() {
            return Err(DecodeError::MissingField);
        }
        let id = u32_field(v, "id")?.unwrap();
        let at = i64_field(v, "airingAt")?.unwrap();
        let time_until = u64_field(v, "timeUntilAiring")?.unwrap();
        let episode = u32_field(v, "episode")?.unwrap();
        Ok(AiringSchedule {
            id,
            at,
            time_until,
            episode,
        })
    }

    /// Reads an airing schedule from the member of `v` under `key`, where it is
    /// present.
    pub(crate) fn field(v: &Value, key: &str) -> (r: Result<Option<AiringSchedule>, DecodeError>)
        ensures
            match r {
                Ok(x) => AiringSchedule::fits(member(tree(*v), key@)) && x.deep_view()
                    == AiringSchedule::held(member(tree(*v), key@)),
                Err(e) => e == DecodeError::WrongShape && !AiringSchedule::fits(
                    member(tree(*v), key@),
                ),
            },
    {
        match find(v, key) {
            Some(m) => match AiringSchedule::from_value(m) {
                Ok(x) => Ok(Some(x)),
                Err(_) => Err(DecodeError::WrongShape),
            },
            None => Ok(None),
        }
    }
}

impl Default for AiringSchedule {
    /// An airing schedule in which nothing is given.
    fn default() -> (r: AiringSchedule)
        ensures
            r.deep_view() == AiringSchedule::default_view(),
    {
        AiringSchedule {
            id: 0,
            at: 0,
            time_until: 0,
            episode: 0,
        }
    }
}

} // verus!
