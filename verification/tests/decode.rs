use rust_anilist::error::DecodeError;
use rust_anilist::models::{
    AiringSchedule, Anime, Character, CharacterRole, Cover, Date, Format, Gender, Image, Language,
    Link, Name, Person, Season, Source, Status, Studio, Tag, Title,
};
use serde_json::Value;

fn json(text: &str) -> Value {
    serde_json::from_str(text).unwrap()
}

fn some(text: &str) -> Option<String> {
    Some(text.to_string())
}

#[test]
fn studio_decodes_with_every_member() {
    let v = json(
        r#"{"id": 14, "name": "Sunrise", "isAnimationStudio": true,
            "siteUrl": "https://example.org/studio/14", "isFavourite": false,
            "favourites": 4071, "unknown": [1, 2]}"#,
    );
    assert_eq!(
        Studio::from_value(&v),
        Ok(Studio {
            id: 14,
            name: "Sunrise".to_string(),
            is_animation_studio: true,
            url: some("https://example.org/studio/14"),
            is_favourite: Some(false),
            favourites: 4071,
        })
    );
}

#[test]
fn studio_needs_only_its_id() {
    let v = json(r#"{"id": 14}"#);
    let expected = Studio { id: 14, ..Studio::default() };
    assert_eq!(Studio::from_value(&v), Ok(expected));
    let with_nulls = json(r#"{"id": 14, "name": null, "siteUrl": null, "favourites": null}"#);
    assert_eq!(Studio::from_value(&with_nulls), Ok(Studio { id: 14, ..Studio::default() }));
}

#[test]
fn studio_default_is_empty() {
    assert_eq!(
        Studio::default(),
        Studio {
            id: 0,
            name: String::new(),
            is_animation_studio: false,
            url: None,
            is_favourite: None,
            favourites: 0,
        }
    );
}

#[test]
fn studio_without_id_is_missing_a_field() {
    assert_eq!(Studio::from_value(&json(r#"{"name": "Sunrise"}"#)), Err(DecodeError::MissingField));
    assert_eq!(Studio::from_value(&json(r#"{"id": null}"#)), Err(DecodeError::MissingField));
    assert_eq!(Studio::from_value(&json("{}")), Err(DecodeError::MissingField));
}

#[test]
fn a_missing_field_is_reported_before_a_wrong_shape() {
    assert_eq!(Studio::from_value(&json(r#"{"name": 5}"#)), Err(DecodeError::MissingField));
}

#[test]
fn studio_of_wrong_shape() {
    assert_eq!(Studio::from_value(&json("5")), Err(DecodeError::WrongShape));
    assert_eq!(Studio::from_value(&json("null")), Err(DecodeError::WrongShape));
    assert_eq!(Studio::from_value(&json("[1]")), Err(DecodeError::WrongShape));
    assert_eq!(Studio::from_value(&json(r#"{"id": "14"}"#)), Err(DecodeError::WrongShape));
    assert_eq!(Studio::from_value(&json(r#"{"id": 1.5}"#)), Err(DecodeError::WrongShape));
    assert_eq!(
        Studio::from_value(&json(r#"{"id": 9223372036854775808}"#)),
        Err(DecodeError::WrongShape)
    );
    assert_eq!(Studio::from_value(&json(r#"{"id": 1, "name": 5}"#)), Err(DecodeError::WrongShape));
    assert_eq!(
        Studio::from_value(&json(r#"{"id": 1, "isAnimationStudio": "yes"}"#)),
        Err(DecodeError::WrongShape)
    );
}

#[test]
fn studio_or_default() {
    assert_eq!(Studio::from_value_or_default(&json(r#"{"id": 3}"#)).id, 3);
    assert_eq!(Studio::from_value_or_default(&json(r#"{"id": "3"}"#)), Studio::default());
}

#[test]
fn name_decodes() {
    let v = json(
        r#"{"first": "Spike", "middle": null, "last": "Spiegel", "full": "Spike Spiegel",
            "native": "スパイク・スピーゲル", "alternative": ["Swimming Bird"],
            "alternativeSpoiler": ["Fearless"], "userPreferred": "Spike Spiegel"}"#,
    );
    assert_eq!(
        Name::from_value(&v),
        Ok(Name {
            first: some("Spike"),
            middle: None,
            last: some("Spiegel"),
            full: some("Spike Spiegel"),
            native: some("スパイク・スピーゲル"),
            alternative: vec!["Swimming Bird".to_string()],
            alternative_spoiler: Some(vec!["Fearless".to_string()]),
            user_preferred: some("Spike Spiegel"),
        })
    );
    assert_eq!(Name::from_value(&json("{}")), Ok(Name::default()));
    assert_eq!(Name::default().alternative(), Vec::<String>::new());
    assert_eq!(Name::default().full(), None);
}

#[test]
fn name_of_wrong_shape() {
    assert_eq!(Name::from_value(&json(r#""Spike""#)), Err(DecodeError::WrongShape));
    assert_eq!(Name::from_value(&json(r#"{"first": 1}"#)), Err(DecodeError::WrongShape));
    assert_eq!(Name::from_value(&json(r#"{"alternative": "x"}"#)), Err(DecodeError::WrongShape));
    assert_eq!(Name::from_value(&json(r#"{"alternative": ["x", 2]}"#)), Err(DecodeError::WrongShape));
}

#[test]
fn date_decodes_within_its_ranges() {
    assert_eq!(
        Date::from_value(&json(r#"{"year": 1998, "month": 4, "day": 3}"#)),
        Ok(Date { year: Some(1998), month: Some(4), day: Some(3) })
    );
    assert_eq!(
        Date::from_value(&json(r#"{"year": -44}"#)),
        Ok(Date { year: Some(-44), month: None, day: None })
    );
    assert_eq!(Date::from_value(&json(r#"{"year": 2147483648}"#)), Err(DecodeError::WrongShape));
    assert_eq!(Date::from_value(&json(r#"{"month": -1}"#)), Err(DecodeError::WrongShape));
    assert_eq!(Date::from_value(&json(r#"{"day": 4294967296}"#)), Err(DecodeError::WrongShape));
    assert_eq!(Date::default(), Date { year: None, month: None, day: None });
}

#[test]
fn small_value_objects_decode() {
    assert_eq!(
        Image::from_value(&json(r#"{"large": "l.png", "medium": "m.png"}"#)),
        Ok(Image { large: some("l.png"), medium: some("m.png") })
    );
    assert_eq!(
        Title::from_value(&json(r#"{"romaji": "Cowboy Bebop", "native": "カウボーイビバップ"}"#)),
        Ok(Title {
            romaji: some("Cowboy Bebop"),
            english: None,
            native: some("カウボーイビバップ"),
            user_preferred: None,
        })
    );
    assert_eq!(
        Cover::from_value(&json(r##"{"extraLarge": "x.png", "color": "#f1785d"}"##)),
        Ok(Cover { extra_large: some("x.png"), large: None, medium: None, color: some("#f1785d") })
    );
    assert_eq!(
        Link::from_value(&json(
            r#"{"id": 7, "url": "https://example.org", "site": "Example", "language": "English",
                "isDisabled": false}"#
        )),
        Ok(Link {
            id: Some(7),
            title: None,
            thumbnail: None,
            url: some("https://example.org"),
            site: some("Example"),
            language: Some(Language::English),
            is_disabled: Some(false),
        })
    );
    assert_eq!(
        Tag::from_value(&json(r#"{"id": 63, "name": "Space", "rank": 94, "isAdult": false}"#)),
        Ok(Tag {
            id: 63,
            name: "Space".to_string(),
            description: None,
            category: None,
            rank: Some(94),
            is_general_spoiler: None,
            is_media_spoiler: None,
            is_adult: Some(false),
            user_id: None,
        })
    );
    assert_eq!(Tag::from_value(&json(r#"{"name": "Space"}"#)), Err(DecodeError::MissingField));
}

#[test]
fn airing_schedule_needs_every_member() {
    assert_eq!(
        AiringSchedule::from_value(&json(
            r#"{"id": 5, "airingAt": 1700000000, "timeUntilAiring": 3600, "episode": 12}"#
        )),
        Ok(AiringSchedule { id: 5, at: 1700000000, time_until: 3600, episode: 12 })
    );
    assert_eq!(
        AiringSchedule::from_value(&json(r#"{"id": 5, "airingAt": 1700000000, "episode": 12}"#)),
        Err(DecodeError::MissingField)
    );
    assert_eq!(
        AiringSchedule::from_value(&json(
            r#"{"id": -5, "airingAt": 1700000000, "timeUntilAiring": 3600, "episode": 12}"#
        )),
        Err(DecodeError::WrongShape)
    );
}

#[test]
fn person_decodes() {
    let v = json(
        r#"{"id": 95011, "name": {"full": "Kouichi Yamadera"}, "languageV2": "Japanese",
            "image": {"large": "p.png"}, "description": null,
            "primaryOccupations": ["Voice Actor"], "gender": "Male",
            "dateOfBirth": {"year": 1961, "month": 6, "day": 17}, "age": 63,
            "homeTown": "Shiogama", "siteUrl": "https://example.org/staff/95011",
            "favourites": 3000}"#,
    );
    let person = Person::from_value(&v).unwrap();
    assert_eq!(person.id, 95011);
    assert_eq!(person.name.full(), some("Kouichi Yamadera"));
    assert_eq!(person.language, Language::Japanese);
    assert_eq!(person.image, Some(Image { large: some("p.png"), medium: None }));
    assert_eq!(person.description, None);
    assert_eq!(person.primary_occupations, Some(vec!["Voice Actor".to_string()]));
    assert_eq!(person.gender, Gender::Male);
    assert_eq!(person.date_of_birth, Some(Date { year: Some(1961), month: Some(6), day: Some(17) }));
    assert_eq!(person.date_of_death, None);
    assert_eq!(person.age, Some(63));
    assert_eq!(person.home_town, some("Shiogama"));
    assert_eq!(person.url, "https://example.org/staff/95011");
    assert_eq!(person.characters, None);
    assert_eq!(person.favourites, Some(3000));
    assert!(!person.is_full_loaded);
}

#[test]
fn person_defaults_what_is_not_given() {
    let person = Person::from_value(&json(r#"{"id": 1}"#)).unwrap();
    assert_eq!(person, Person { id: 1, ..Person::default() });
    assert_eq!(person.language, Language::Japanese);
    assert_eq!(person.gender, Gender::Other(some("Neutral")));
    assert_eq!(person.name, Name::default());
    assert_eq!(person.url, "");
}

#[test]
fn person_takes_unknown_names_of_enumerated_values() {
    let person =
        Person::from_value(&json(r#"{"id": 1, "languageV2": "Klingon", "gender": "Agender"}"#))
            .unwrap();
    assert_eq!(person.language, Language::Japanese);
    assert_eq!(person.gender, Gender::Other(some("Agender")));
    assert_eq!(
        Person::from_value(&json(r#"{"id": 1, "gender": 3}"#)),
        Err(DecodeError::WrongShape)
    );
    assert_eq!(
        Person::from_value(&json(r#"{"id": 1, "name": "Kouichi"}"#)),
        Err(DecodeError::WrongShape)
    );
}

#[test]
fn person_clone_is_equal() {
    let mut person = Person::from_value(&json(r#"{"id": 1, "name": {"full": "A"}}"#)).unwrap();
    person.characters = Some(vec![Character { id: 9, ..Character::default() }]);
    let copy = person.clone();
    assert_eq!(copy, person);
    assert_eq!(copy.characters.unwrap()[0].id, 9);
}

#[test]
fn character_decodes() {
    let v = json(
        r#"{"id": 1, "name": {"first": "Spike", "last": "Spiegel"}, "role": "MAIN",
            "image": {"medium": "c.png"}, "description": "A bounty hunter.",
            "gender": "Male", "dateOfBirth": {"month": 6, "day": 26}, "age": "27",
            "bloodType": "O", "media": {"nodes": []}, "isFavourite": false,
            "siteUrl": "https://example.org/character/1", "favourites": 50000,
            "voiceActors": [{"id": 95011, "languageV2": "Japanese"}, {"id": 95012, "languageV2": "en"}]}"#,
    );
    let character = Character::from_value(&v).unwrap();
    assert_eq!(character.id, 1);
    assert_eq!(character.name.first, some("Spike"));
    assert_eq!(character.role, Some(CharacterRole::Main));
    assert_eq!(character.image, Image { large: None, medium: some("c.png") });
    assert_eq!(character.description, "A bounty hunter.");
    assert_eq!(character.gender, Some(Gender::Male));
    assert_eq!(character.date_of_birth, Some(Date { year: None, month: Some(6), day: Some(26) }));
    assert_eq!(character.age, some("27"));
    assert_eq!(character.blood_type, some("O"));
    assert_eq!(character.medias, Some(json(r#"{"nodes": []}"#)));
    assert_eq!(character.is_favourite, Some(false));
    assert_eq!(character.is_favourite_blocked, None);
    assert_eq!(character.url, "https://example.org/character/1");
    assert_eq!(character.favourites, Some(50000));
    let actors = character.voice_actors.unwrap();
    assert_eq!(actors.len(), 2);
    assert_eq!(actors[0].id, 95011);
    assert_eq!(actors[1].id, 95012);
    assert_eq!(actors[1].language, Language::English);
    assert!(!character.is_full_loaded);
}

#[test]
fn character_fails_on_one_voice_actor_that_does_not_decode() {
    assert_eq!(
        Character::from_value(&json(r#"{"id": 1, "voiceActors": [{"id": 2}, {"name": {}}]}"#)),
        Err(DecodeError::WrongShape)
    );
    assert_eq!(
        Character::from_value(&json(r#"{"id": 1, "voiceActors": {"id": 2}}"#)),
        Err(DecodeError::WrongShape)
    );
    assert_eq!(
        Character::from_value(&json(r#"{"id": 1, "voiceActors": []}"#)).unwrap().voice_actors,
        Some(vec![])
    );
}

fn bebop() -> Value {
    json(
        r##"{
        "id": 1, "idMal": 1,
        "title": {"romaji": "Cowboy Bebop", "english": "Cowboy Bebop", "native": "カウボーイビバップ"},
        "format": "TV", "status": "FINISHED",
        "description": "Enter a world in the distant future.",
        "startDate": {"year": 1998, "month": 4, "day": 3},
        "endDate": {"year": 1999, "month": 4, "day": 24},
        "season": "SPRING", "seasonYear": 1998, "seasonInt": 982,
        "episodes": 26, "duration": 24, "countryOfOrigin": "JP", "isLicensed": true,
        "source": "ORIGINAL", "hashtag": null, "updatedAt": 1700000000,
        "coverImage": {"extraLarge": "xl.png", "large": "l.png", "medium": "m.png", "color": "#f1785d"},
        "bannerImage": "banner.png",
        "genres": ["Action", "Sci-Fi"], "synonyms": ["COWBOY BEBOP"],
        "averageScore": 86, "meanScore": 86, "popularity": 300000, "isLocked": false,
        "trending": 12, "favourites": 20000,
        "tags": [{"id": 63, "name": "Space", "rank": 94}],
        "relations": {"edges": [
            {"id": 10, "relationType": "SIDE_STORY", "isMainStudio": true, "node": {"id": 5}},
            {"id": "bad"},
            {"id": 11, "relationType": "REMAKE"}
        ]},
        "characters": {"edges": [
            {"node": {"id": 1, "name": {"full": "Spike Spiegel"}}, "role": "MAIN"},
            {"node": {"id": 2, "name": {"full": "Faye Valentine"}, "role": "MAIN"}, "role": "SUPPORTING"},
            {"node": {"id": 3, "name": {"full": "Ein"}}, "role": "UNKNOWN_X"},
            {"node": {"id": 4, "name": {"full": "Punch"}, "role": "SUPPORTING"}}
        ]},
        "staff": {"nodes": [{"id": 100, "name": {"full": "Shinichirou Watanabe"}}]},
        "studios": {"nodes": [{"id": 14, "name": "Sunrise", "isAnimationStudio": true}]},
        "isFavourite": false, "isFavouriteBlocked": false, "isAdult": false,
        "nextAiringEpisode": null,
        "externalLinks": [{"id": 7, "site": "Example", "url": "https://example.org"}],
        "streamingEpisodes": [{"title": "Asteroid Blues", "thumbnail": "t.png", "url": "https://example.org/1", "site": "Example"}],
        "siteUrl": "https://example.org/anime/1"
    }"##,
    )
}

#[test]
fn anime_decodes() {
    let anime = Anime::from_value(&bebop()).unwrap();
    assert_eq!(anime.id, 1);
    assert_eq!(anime.id_mal, Some(1));
    assert_eq!(anime.title.romaji, some("Cowboy Bebop"));
    assert_eq!(anime.title.native, some("カウボーイビバップ"));
    assert_eq!(anime.title.user_preferred, None);
    assert_eq!(anime.format, Format::Tv);
    assert_eq!(anime.status, Status::Finished);
    assert_eq!(anime.description, "Enter a world in the distant future.");
    assert_eq!(anime.start_date, Some(Date { year: Some(1998), month: Some(4), day: Some(3) }));
    assert_eq!(anime.end_date, Some(Date { year: Some(1999), month: Some(4), day: Some(24) }));
    assert_eq!(anime.season, Some(Season::Spring));
    assert_eq!(anime.season_year, Some(1998));
    assert_eq!(anime.season_int, Some(982));
    assert_eq!(anime.episodes, Some(26));
    assert_eq!(anime.duration, Some(24));
    assert_eq!(anime.country_of_origin, some("JP"));
    assert_eq!(anime.is_licensed, Some(true));
    assert_eq!(anime.source, Some(Source::Original));
    assert_eq!(anime.hashtag, None);
    assert_eq!(anime.updated_at, Some(1700000000));
    assert_eq!(anime.cover.extra_large, some("xl.png"));
    assert_eq!(anime.cover.color, some("#f1785d"));
    assert_eq!(anime.banner, some("banner.png"));
    assert_eq!(anime.genres, Some(vec!["Action".to_string(), "Sci-Fi".to_string()]));
    assert_eq!(anime.synonyms, Some(vec!["COWBOY BEBOP".to_string()]));
    assert_eq!(anime.average_score, Some(86));
    assert_eq!(anime.mean_score, Some(86));
    assert_eq!(anime.popularity, Some(300000));
    assert_eq!(anime.is_locked, Some(false));
    assert_eq!(anime.trending, Some(12));
    assert_eq!(anime.favourites, Some(20000));
    assert_eq!(anime.tags.as_ref().unwrap().len(), 1);
    assert_eq!(anime.tags.as_ref().unwrap()[0].name, "Space");
    assert_eq!(anime.characters.as_ref().unwrap().len(), 4);
    assert_eq!(anime.staff.as_ref().unwrap()[0].id, 100);
    assert_eq!(anime.studios.as_ref().unwrap()[0].name, "Sunrise");
    assert_eq!(anime.is_favourite, Some(false));
    assert_eq!(anime.is_favourite_blocked, Some(false));
    assert!(!anime.is_adult);
    assert_eq!(anime.next_airing_episode, None);
    assert_eq!(anime.external_links.as_ref().unwrap()[0].site, some("Example"));
    assert_eq!(anime.streaming_episodes.as_ref().unwrap()[0].title, some("Asteroid Blues"));
    assert_eq!(anime.url, "https://example.org/anime/1");
    assert!(!anime.is_full_loaded);
}

fn without(mut tree: Value, key: &str) -> Value {
    tree.as_object_mut().unwrap().remove(key);
    tree
}

fn with(mut tree: Value, key: &str, member: &str) -> Value {
    tree.as_object_mut().unwrap().insert(key.to_string(), json(member));
    tree
}

#[test]
fn anime_needs_six_members() {
    for key in ["id", "title", "format", "status", "isAdult", "siteUrl"] {
        assert_eq!(Anime::from_value(&without(bebop(), key)), Err(DecodeError::MissingField), "{key}");
        assert_eq!(
            Anime::from_value(&with(bebop(), key, "null")),
            Err(DecodeError::MissingField),
            "{key}"
        );
    }
    let least = json(
        r#"{"id": 1, "title": {}, "format": "TV", "status": "FINISHED", "isAdult": false,
            "siteUrl": "https://example.org/anime/1"}"#,
    );
    let anime = Anime::from_value(&least).unwrap();
    assert_eq!(
        anime,
        Anime {
            id: 1,
            format: Format::Tv,
            status: Status::Finished,
            url: "https://example.org/anime/1".to_string(),
            ..Anime::default()
        }
    );
}

#[test]
fn anime_reports_a_missing_member_before_a_wrong_shape() {
    let tree = with(without(bebop(), "siteUrl"), "episodes", r#""many""#);
    assert_eq!(Anime::from_value(&tree), Err(DecodeError::MissingField));
}

#[test]
fn anime_of_wrong_shape() {
    for (key, member) in [
        ("id", r#""1""#),
        ("title", r#""Cowboy Bebop""#),
        ("title", r#"{"romaji": 1}"#),
        ("format", "1"),
        ("episodes", "65536"),
        ("episodes", "-1"),
        ("duration", "256"),
        ("averageScore", "1000"),
        ("seasonYear", "4294967296"),
        ("genres", r#"["Action", null]"#),
        ("tags", r#"[{"name": "Space"}]"#),
        ("tags", r#"{"id": 1}"#),
        ("coverImage", "[]"),
        ("startDate", r#"{"year": "1998"}"#),
        ("nextAiringEpisode", r#"{"id": 1}"#),
        ("externalLinks", r#"[{"id": "7"}]"#),
        ("characters", "[]"),
        ("characters", r#"{"edges": {}}"#),
        ("characters", r#"{"nodes": []}"#),
        ("staff", r#"{"edges": []}"#),
        ("studios", r#"{"nodes": 1}"#),
        ("isAdult", r#""no""#),
        ("siteUrl", "1"),
    ] {
        assert_eq!(
            Anime::from_value(&with(bebop(), key, member)),
            Err(DecodeError::WrongShape),
            "{key}: {member}"
        );
    }
    assert_eq!(Anime::from_value(&json("[]")), Err(DecodeError::WrongShape));
}

#[test]
fn anime_keeps_the_edges_of_its_limits() {
    let tree = with(with(bebop(), "episodes", "65535"), "duration", "255");
    let anime = Anime::from_value(&tree).unwrap();
    assert_eq!(anime.episodes, Some(65535));
    assert_eq!(anime.duration, Some(255));
    let tree = with(bebop(), "id", "-9223372036854775808");
    assert_eq!(Anime::from_value(&tree).unwrap().id, i64::MIN);
}

#[test]
fn numbers_are_integers_within_their_type() {
    let tree = with(bebop(), "updatedAt", "18446744073709551615");
    assert_eq!(Anime::from_value(&tree).unwrap().updated_at, Some(u64::MAX));
    let tree = with(bebop(), "id", "9223372036854775807");
    assert_eq!(Anime::from_value(&tree).unwrap().id, i64::MAX);
    let tree = with(bebop(), "updatedAt", "0");
    assert_eq!(Anime::from_value(&tree).unwrap().updated_at, Some(0));
    for member in ["18446744073709551616", "-1", "1e3", "1.0", "-0", "0.5", "\"1\"", "true", "[1]"] {
        assert_eq!(
            Anime::from_value(&with(bebop(), "updatedAt", member)),
            Err(DecodeError::WrongShape),
            "{member}"
        );
    }
    for member in ["9223372036854775808", "1e3", "1.0", "-0", "\"1\""] {
        assert_eq!(
            Anime::from_value(&with(bebop(), "id", member)),
            Err(DecodeError::WrongShape),
            "{member}"
        );
    }
}

#[test]
fn a_member_may_be_null_or_absent_alike() {
    let absent = without(bebop(), "episodes");
    let null = with(bebop(), "episodes", "null");
    assert_eq!(Anime::from_value(&absent), Anime::from_value(&null));
    assert_eq!(Anime::from_value(&absent).unwrap().episodes, None);
}

#[test]
fn members_that_are_not_read_do_not_count() {
    let more = with(with(bebop(), "isFullLoaded", "true"), "somethingNew", r#"{"a": [1]}"#);
    assert_eq!(Anime::from_value(&more), Anime::from_value(&bebop()));
}

#[test]
fn anime_takes_unknown_names_of_enumerated_values() {
    let tree = with(with(bebop(), "format", r#""HOLOGRAM""#), "season", r#"" fall ""#);
    let anime = Anime::from_value(&tree).unwrap();
    assert_eq!(anime.format, Format::Tv);
    assert_eq!(anime.season, Some(Season::Fall));
}
