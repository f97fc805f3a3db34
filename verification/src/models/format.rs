//! The release formats of a work.

use vstd::prelude::*;
use serde_json::Value;
use crate::error::DecodeError;
use crate::json::{fits_text, member, text_field, text_in, tree, Json};
use crate::text::{fold, folded, same_text};

verus! {

/// The form in which a work is released.
#[derive(Debug, Clone, PartialEq, Eq, Hash, Structural)]
pub enum Format {
    /// A series broadcast on television.
    Tv,
    /// A television series of short episodes.
    TvShort,
    /// A film.
    Movie,
    /// A special outside the regular run.
    Special,
    /// An original video animation.
    Ova,
    /// An original net animation.
    Ona,
    /// A music video.
    Music,
    /// A comic of several chapters.
    Manga,
    /// A written work.
    Novel,
    /// A comic of a single chapter.
    OneShot,
}

impl Format {
    /// The displayed name of each format.
    pub open spec fn name_text(self) -> Seq<char> {
        match self {
            Format::Tv => "TV"@,
            Format::TvShort => "TV Short"@,
            Format::Movie => "Movie"@,
            Format::Special => "Special"@,
            Format::Ova => "OVA"@,
            Format::Ona => "ONA"@,
            Format::Music => "Music"@,
            Format::Manga => "Manga"@,
            Format::Novel => "Novel"@,
            Format::OneShot => "One Shot"@,
        }
    }

    /// The format that an upper-case key stands for; `Tv` where the
    /// key is none of the table's.
    pub open spec fn of_key(key: Seq<char>) -> Format {
        if key == "TV"@ {
            Format::Tv
        } else if key == "TV_SHORT"@ {
            Format::TvShort
        } else if key == "MOVIE"@ {
            Format::Movie
        } else if key == "SPECIAL"@ {
            Format::Special
        } else if key == "OVA"@ {
            Format::Ova
        } else if key == "ONA"@ {
            Format::Ona
        } else if key == "MUSIC"@ {
            Format::Music
        } else if key == "MANGA"@ {
            Format::Manga
        } else if key == "NOVEL"@ {
            Format::Novel
        } else if key == "ONE_SHOT"@ {
            Format::OneShot
        } else {
            Format::Tv
        }
    }

    /// The format that a text names: the text is trimmed and put in upper
    /// case, and the result looked up.
    pub open spec fn parse(text: Seq<char>) -> Format {
        Format::of_key(folded(text))
    }

    /// The displayed name of the format.
    pub fn name(&self) -> (r: &'static str)
        ensures
            r@ == self.name_text(),
    {
        match self {
            Format::Tv => "TV",
            Format::TvShort => "TV Short",
            Format::Movie => "Movie",
            Format::Special => "Special",
            Format::Ova => "OVA",
            Format::Ona => "ONA",
            Format::Music => "Music",
            Format::Manga => "Manga",
            Format::Novel => "Novel",
            Format::OneShot => "One Shot",
        }
    }

    /// The displayed name of the format as an owned string.
    pub fn to_string(&self) -> (r: String)
        ensures
            r@ == self.name_text(),
    {
        self.name().to_owned()
    }

    /// The format that an upper-case key stands for.
    pub fn from_key(key: &str) -> (r: Format)
        ensures
            r == Format::of_key(key@),
    {
        if same_text(key, "TV") {
            Format::Tv
        } else if same_text(key, "TV_SHORT") {
            Format::TvShort
        } else if same_text(key, "MOVIE") {
            Format::Movie
        } else if same_text(key, "SPECIAL") {
            Format::Special
        } else if same_text(key, "OVA") {
            Format::Ova
        } else if same_text(key, "ONA") {
            Format::Ona
        } else if same_text(key, "MUSIC") {
            Format::Music
        } else if same_text(key, "MANGA") {
            Format::Manga
        } else if same_text(key, "NOVEL") {
            Format::Novel
        } else if same_text(key, "ONE_SHOT") {
            Format::OneShot
        } else {
            Format::Tv
        }
    }

    /// The format that a member names, where there is one and it is a string.
    pub open spec fn held(m: Option<Json>) -> Option<Format> {
        match text_in(m) {
            Some(t) => Some(Format::parse(t)),
            None => None,
        }
    }

    /// Reads the format that the member of `v` under `key` names, where it is
    /// present.
    pub(crate) fn field(v: &Value, key: &str) -> (r: Result<Option<Format>, DecodeError>)
        ensures
            match r {
                Ok(e) => fits_text(member(tree(*v), key@)) && e == Format::held(
                    member(tree(*v), key@),
                ),
                Err(e) => e == DecodeError::WrongShape && !fits_text(member(tree(*v), key@)),
            },
    {
        match text_field(v, key)? {
            Some(s) => Ok(Some(Format::from(s.as_str()))),
            None => Ok(None),
        }
    }
}

impl Default for Format {
    fn default() -> (r: Format)
        ensures
            r == Format::Tv,
    {
        Format::Tv
    }
}

impl From<&str> for Format {
    /// The format that `value` names, whatever its case and the white space
    /// around it; `Tv` where it names none.
    fn from(value: &str) -> (r: Format)
        ensures
            r == Format::parse(value@),
    {
        let key = fold(value);
        Format::from_key(key.as_str())
    }
}

impl vstd::std_specs::convert::FromSpecImpl<&str> for Format {
    open spec fn obeys_from_spec() -> bool {
        true
    }

    open spec fn from_spec(v: &str) -> Format {
        Format::parse(v@)
    }
}

impl From<String> for Format {
    /// The format that `value` names, whatever its case and the white space
    /// around it; `Tv` where it names none.
    fn from(value: String) -> (r: Format)
        ensures
            r == Format::parse(value@),
    {
        let key = fold(value.as_str());
        Format::from_key(key.as_str())
    }
}

impl vstd::std_specs::convert::FromSpecImpl<String> for Format {
    open spec fn obeys_from_spec() -> bool {
        true
    }

    open spec fn from_spec(v: String) -> Format {
        Format::parse(v@)
    }
}

} // verus!
