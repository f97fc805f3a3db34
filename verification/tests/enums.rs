use rust_anilist::models::{
    CharacterRole, Format, Gender, Language, RelationType, Season, Source, Status,
};

const LANGUAGES: [Language; 27] = [
    Language::Japanese,
    Language::English,
    Language::Korean,
    Language::Italian,
    Language::Spanish,
    Language::Portuguese,
    Language::French,
    Language::German,
    Language::Hebrew,
    Language::Hungarian,
    Language::Chinese,
    Language::Arabic,
    Language::Filipino,
    Language::Catalan,
    Language::Finnish,
    Language::Turkish,
    Language::Dutch,
    Language::Swedish,
    Language::Thai,
    Language::Tagalog,
    Language::Malaysian,
    Language::Indonesian,
    Language::Vietnamese,
    Language::Nepali,
    Language::Hindi,
    Language::Urdu,
    Language::Polish,
];

#[test]
fn language_comes_back_from_its_code() {
    for language in LANGUAGES {
        assert_eq!(Language::from(language.code()), language);
        assert_eq!(Language::from(language.iso()), language);
    }
}

#[test]
fn language_ignores_case_and_padding() {
    assert_eq!(Language::from("  En\t"), Language::English);
    assert_eq!(Language::from("english"), Language::English);
    assert_eq!(Language::from("uk"), Language::English);
    assert_eq!(Language::from("jp"), Language::Japanese);
    assert_eq!(Language::from(" Philippine "), Language::Filipino);
    assert_eq!(Language::from("\u{3000}ko\u{A0}"), Language::Korean);
}

#[test]
fn language_of_unknown_text_is_japanese() {
    assert_eq!(Language::from(""), Language::Japanese);
    assert_eq!(Language::from("   "), Language::Japanese);
    assert_eq!(Language::from("e n"), Language::Japanese);
    assert_eq!(Language::from("klingon"), Language::Japanese);
    assert_eq!(Language::default(), Language::Japanese);
}

#[test]
fn language_key_is_looked_up_as_it_stands() {
    assert_eq!(Language::from_key("EN"), Language::English);
    assert_eq!(Language::from_key("en"), Language::Japanese);
    assert_eq!(Language::from_key(" EN"), Language::Japanese);
    assert_eq!(Language::from_key("POLISH"), Language::Polish);
}

#[test]
fn language_is_displayed_by_its_english_name() {
    assert_eq!(Language::Japanese.to_string(), "Japanese");
    assert_eq!(Language::Filipino.to_string(), "Filipino");
    assert_eq!(Language::Polish.name(), "Polish");
    for language in LANGUAGES {
        assert!(!language.name().is_empty());
        assert!(!language.native().is_empty());
        assert!(!language.code().is_empty());
    }
}

#[test]
fn character_role_from_text() {
    assert_eq!(CharacterRole::from("MAIN"), CharacterRole::Main);
    assert_eq!(CharacterRole::from("SUPPORTING"), CharacterRole::Supporting);
    assert_eq!(CharacterRole::from("BACKGROUND"), CharacterRole::Background);
    assert_eq!(CharacterRole::from("UNKNOWN_X"), CharacterRole::Background);
    assert_eq!(CharacterRole::from(""), CharacterRole::Background);
    assert_eq!(CharacterRole::from(" main "), CharacterRole::Main);
    assert_eq!(CharacterRole::from("Supporting".to_string()), CharacterRole::Supporting);
    assert_eq!(CharacterRole::default(), CharacterRole::Background);
}

#[test]
fn character_role_is_displayed() {
    assert_eq!(CharacterRole::Background.to_string(), "Background");
    assert_eq!(CharacterRole::Main.to_string(), "Main");
    assert_eq!(CharacterRole::Supporting.to_string(), "Supporting");
}

#[test]
fn gender_from_text() {
    assert_eq!(Gender::from_text("Male"), Gender::Male);
    assert_eq!(Gender::from_text("female"), Gender::Female);
    assert_eq!(Gender::from_text(" Non-binary "), Gender::NonBinary);
    assert_eq!(Gender::from_text("Agender"), Gender::Other(Some("Agender".to_string())));
    assert_eq!(Gender::from_text(" Agender "), Gender::Other(Some(" Agender ".to_string())));
    assert_eq!(Gender::from_text(""), Gender::Other(Some(String::new())));
    assert_eq!(Gender::from_key("MALE", "whatever"), Gender::Male);
    assert_eq!(Gender::from_key("male", "male"), Gender::Other(Some("male".to_string())));
}

#[test]
fn gender_default_is_neutral() {
    assert_eq!(Gender::default(), Gender::Other(Some("Neutral".to_string())));
}

#[test]
fn gender_is_displayed() {
    assert_eq!(Gender::Male.to_string(), "Male");
    assert_eq!(Gender::Female.to_string(), "Female");
    assert_eq!(Gender::NonBinary.to_string(), "Non-binary");
    assert_eq!(Gender::Other(Some("Agender".to_string())).to_string(), "Agender");
    assert_eq!(Gender::Other(None).to_string(), "Other");
    assert_eq!(Gender::default().to_string(), "Neutral");
}

#[test]
fn format_from_text() {
    assert_eq!(Format::from("TV"), Format::Tv);
    assert_eq!(Format::from("tv_short"), Format::TvShort);
    assert_eq!(Format::from("MOVIE"), Format::Movie);
    assert_eq!(Format::from("SPECIAL"), Format::Special);
    assert_eq!(Format::from("OVA"), Format::Ova);
    assert_eq!(Format::from("ONA"), Format::Ona);
    assert_eq!(Format::from("MUSIC"), Format::Music);
    assert_eq!(Format::from("MANGA"), Format::Manga);
    assert_eq!(Format::from("NOVEL"), Format::Novel);
    assert_eq!(Format::from("ONE_SHOT"), Format::OneShot);
    assert_eq!(Format::from("HOLOGRAM"), Format::Tv);
    assert_eq!(Format::default(), Format::Tv);
    assert_eq!(Format::TvShort.to_string(), "TV Short");
}

#[test]
fn status_from_text() {
    assert_eq!(Status::from("FINISHED"), Status::Finished);
    assert_eq!(Status::from("RELEASING"), Status::Releasing);
    assert_eq!(Status::from("NOT_YET_RELEASED"), Status::NotYetReleased);
    assert_eq!(Status::from("CANCELLED"), Status::Cancelled);
    assert_eq!(Status::from("HIATUS"), Status::Hiatus);
    assert_eq!(Status::from("LOST"), Status::NotYetReleased);
    assert_eq!(Status::default(), Status::NotYetReleased);
    assert_eq!(Status::NotYetReleased.to_string(), "Not Yet Released");
}

#[test]
fn season_from_text() {
    assert_eq!(Season::from("WINTER"), Season::Winter);
    assert_eq!(Season::from("Spring"), Season::Spring);
    assert_eq!(Season::from("summer"), Season::Summer);
    assert_eq!(Season::from("FALL"), Season::Fall);
    assert_eq!(Season::from("AUTUMN"), Season::Winter);
    assert_eq!(Season::Fall.to_string(), "Fall");
}

#[test]
fn source_from_text() {
    assert_eq!(Source::from("ORIGINAL"), Source::Original);
    assert_eq!(Source::from("LIGHT_NOVEL"), Source::LightNovel);
    assert_eq!(Source::from("VIDEO_GAME"), Source::VideoGame);
    assert_eq!(Source::from("PICTURE_BOOK"), Source::PictureBook);
    assert_eq!(Source::from("RADIO"), Source::Other);
    assert_eq!(Source::default(), Source::Other);
    assert_eq!(Source::MultimediaProject.to_string(), "Multimedia Project");
}

#[test]
fn relation_type_from_text() {
    assert_eq!(RelationType::from("SEQUEL"), RelationType::Sequel);
    assert_eq!(RelationType::from("side_story"), RelationType::SideStory);
    assert_eq!(RelationType::from("SPIN_OFF"), RelationType::SpinOff);
    assert_eq!(RelationType::from("REMAKE"), RelationType::Other);
    assert_eq!(RelationType::default(), RelationType::Other);
    assert_eq!(RelationType::SideStory.to_string(), "Side Story");
}
