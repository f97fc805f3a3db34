//! The source material of a work.

use vstd::prelude::*;
use serde_json::Value;
use crate::error::DecodeError;
use crate::json::{fits_text, member, text_field, text_in, tree, Json};
use crate::text::{fold, folded, same_text};

verus! {

/// The kind of material that a work was made from.
#[derive(Debug, Clone, PartialEq, Eq, Hash, Structural)]
pub enum Source {
    /// The work is not based on another.
    Original,
    /// A comic.
    Manga,
    /// A light novel.
    LightNovel,
    /// A visual novel.
    VisualNovel,
    /// A video game.
    VideoGame,
    /// Material of another kind.
    Other,
    /// A novel.
    Novel,
    /// A self-published work.
    Doujinshi,
    /// An animated work.
    Anime,
    /// A novel published on the web.
    WebNovel,
    /// A live-action film or series.
    LiveAction,
    /// A game that is no video game.
    Game,
    /// A comic that is no manga.
    Comic,
    /// A project across several media.
    MultimediaProject,
    /// A picture book.
    PictureBook,
}

impl Source {
    /// The displayed name of each source.
    pub open spec fn name_text(self) -> Seq<char> {
        match self {
            Source::Original => "Original"@,
            Source::Manga => "Manga"@,
            Source::LightNovel => "Light Novel"@,
            Source::VisualNovel => "Visual Novel"@,
            Source::VideoGame => "Video Game"@,
            Source::Other => "Other"@,
            Source::Novel => "Novel"@,
            Source::Doujinshi => "Doujinshi"@,
            Source::Anime => "Anime"@,
            Source::WebNovel => "Web Novel"@,
            Source::LiveAction => "Live Action"@,
            Source::Game => "Game"@,
            Source::Comic => "Comic"@,
            Source::MultimediaProject => "Multimedia Project"@,
            Source::PictureBook => "Picture Book"@,
        }
    }

    /// The source that an upper-case key stands for; `Other` where the
    /// key is none of the table's.
    pub open spec fn of_key(key: Seq<char>) -> Source {
        if key == "ORIGINAL"@ {
            Source::Original
        } else if key == "MANGA"@ {
            Source::Manga
        } else if key == "LIGHT_NOVEL"@ {
            Source::LightNovel
        } else if key == "VISUAL_NOVEL"@ {
            Source::VisualNovel
        } else if key == "VIDEO_GAME"@ {
            Source::VideoGame
        } else if key == "OTHER"@ {
            Source::Other
        } else if key == "NOVEL"@ {
            Source::Novel
        } else if key == "DOUJINSHI"@ {
            Source::Doujinshi
        } else if key == "ANIME"@ {
            Source::Anime
        } else if key == "WEB_NOVEL"@ {
            Source::WebNovel
        } else if key == "LIVE_ACTION"@ {
            Source::LiveAction
        } else if key == "GAME"@ {
            Source::Game
        } else if key == "COMIC"@ {
            Source::Comic
        } else if key == "MULTIMEDIA_PROJECT"@ {
            Source::MultimediaProject
        } else if key == "PICTURE_BOOK"@ {
            Source::PictureBook
        } else {
            Source::Other
        }
    }

    /// The source that a text names: the text is trimmed and put in upper
    /// case, and the result looked up.
    pub open spec fn parse(text: Seq<char>) -> Source {
        Source::of_key(folded(text))
    }

    /// The displayed name of the source.
    pub fn name(&self) -> (r: &'static str)
        ensures
            r@ == self.name_text(),
    {
        match self {
            Source::Original => "Original",
            Source::Manga => "Manga",
            Source::LightNovel => "Light Novel",
            Source::VisualNovel => "Visual Novel",
            Source::VideoGame => "Video Game",
            Source::Other => "Other",
            Source::Novel => "Novel",
            Source::Doujinshi => "Doujinshi",
            Source::Anime => "Anime",
            Source::WebNovel => "Web Novel",
            Source::LiveAction => "Live Action",
            Source::Game => "Game",
            Source::Comic => "Comic",
            Source::MultimediaProject => "Multimedia Project",
            Source::PictureBook => "Picture Book",
        }
    }

    /// The displayed name of the source as an owned string.
    pub fn to_string(&self) -> (r: String)
        ensures
            r@ == self.name_text(),
    {
        self.name().to_owned()
    }

    /// The source that an upper-case key stands for.
    pub fn from_key(key: &str) -> (r: Source)
        ensures
            r == Source::of_key(key@),
    {
        if same_text(key, "ORIGINAL") {
            Source::Original
        } else if same_text(key, "MANGA") {
            Source::Manga
        } else if same_text(key, "LIGHT_NOVEL") {
            Source::LightNovel
        } else if same_text(key, "VISUAL_NOVEL") {
            Source::VisualNovel
        } else if same_text(key, "VIDEO_GAME") {
            Source::VideoGame
        } else if same_text(key, "OTHER") {
            Source::Other
        } else if same_text(key, "NOVEL") {
            Source::Novel
        } else if same_text(key, "DOUJINSHI") {
            Source::Doujinshi
        } else if same_text(key, "ANIME") {
            Source::Anime
        } else if same_text(key, "WEB_NOVEL") {
            Source::WebNovel
        } else if same_text(key, "LIVE_ACTION") {
            Source::LiveAction
        } else if same_text(key, "GAME") {
            Source::Game
        } else if same_text(key, "COMIC") {
            Source::Comic
        } else if same_text(key, "MULTIMEDIA_PROJECT") {
            Source::MultimediaProject
        } else if same_text(key, "PICTURE_BOOK") {
            Source::PictureBook
        } else {
            Source::Other
        }
    }

    /// The source that a member names, where there is one and it is a string.
    pub open spec fn held(m: Option<Json>) -> Option<Source> {
        match text_in(m) {
            Some(t) => Some(Source::parse(t)),
            None => None,
        }
    }

    /// Reads the source that the member of `v` under `key` names, where it is
    /// present.
    pub(crate) fn field(v: &Value, key: &str) -> (r: Result<Option<Source>, DecodeError>)
        ensures
            match r {
                Ok(e) => fits_text(member(tree(*v), key@)) && e == Source::held(
                    member(tree(*v), key@),
                ),
                Err(e) => e == DecodeError::WrongShape && !fits_text(member(tree(*v), key@)),
            },
    {
        match text_field(v, key)? {
            Some(s) => Ok(Some(Source::from(s.as_str()))),
            None => Ok(None),
        }
    }
}

impl Default for Source {
    fn default() -> (r: Source)
        ensures
            r == Source::Other,
    {
        Source::Other
    }
}

impl From<&str> for Source {
    /// The source that `value` names, whatever its case and the white space
    /// around it; `Other` where it names none.
    fn from(value: &str) -> (r: Source)
        ensures
            r == Source::parse(value@),
    {
        let key = fold(value);
        Source::from_key(key.as_str())
    }
}

impl vstd::std_specs::convert::FromSpecImpl<&str> for Source {
    open spec fn obeys_from_spec() -> bool {
        true
    }

    open spec fn from_spec(v: &str) -> Source {
        Source::parse(v@)
    }
}

impl From<String> for Source {
    /// The source that `value` names, whatever its case and the white space
    /// around it; `Other` where it names none.
    fn from(value: String) -> (r: Source)
        ensures
            r == Source::parse(value@),
    {
        let key = fold(value.as_str());
        Source::from_key(key.as_str())
    }
}

impl vstd::std_specs::convert::FromSpecImpl<String> for Source {
    open spec fn obeys_from_spec() -> bool {
        true
    }

    open spec fn from_spec(v: String) -> Source {
        Source::parse(v@)
    }
}

} // verus!
