//! The languages of the catalogue.

use vstd::prelude::*;
use serde_json::Value;
use crate::error::DecodeError;
use crate::json::{fits_text, member, text_field, text_in, tree, Json};
use crate::text::{
    all_ascii, ascii_upper, ascii_uppercased, blank, fold, folded, is_white_space,
    law_fold_ignores_case_and_padding, lemma_trim_padded, same_text,
    trimmed,
};

verus! {

/// A language that a person speaks or a link is written in. Japanese is the
/// default, and what every unknown name of a language is taken for.
#[derive(Debug, Clone, PartialEq, Eq, Hash, Structural)]
pub enum Language {
    Japanese,
    English,
    Korean,
    Italian,
    Spanish,
    Portuguese,
    French,
    German,
    Hebrew,
    Hungarian,
    Chinese,
    Arabic,
    Filipino,
    Catalan,
    Finnish,
    Turkish,
    Dutch,
    Swedish,
    Thai,
    Tagalog,
    Malaysian,
    Indonesian,
    Vietnamese,
    Nepali,
    Hindi,
    Urdu,
    Polish,
}

impl Language {
    /// The ISO 639 code of each language.
    pub open spec fn code_text(self) -> Seq<char> {
        match self {
            Language::Japanese => "ja"@,
            Language::English => "en"@,
            Language::Korean => "ko"@,
            Language::Italian => "it"@,
            Language::Spanish => "es"@,
            Language::Portuguese => "pt"@,
            Language::French => "fr"@,
            Language::German => "de"@,
            Language::Hebrew => "he"@,
            Language::Hungarian => "hu"@,
            Language::Chinese => "zh"@,
            Language::Arabic => "ar"@,
            Language::Filipino => "fil"@,
            Language::Catalan => "ca"@,
            Language::Finnish => "fi"@,
            Language::Turkish => "tr"@,
            Language::Dutch => "nl"@,
            Language::Swedish => "sv"@,
            Language::Thai => "th"@,
            Language::Tagalog => "tl"@,
            Language::Malaysian => "ms"@,
            Language::Indonesian => "id"@,
            Language::Vietnamese => "vi"@,
            Language::Nepali => "ne"@,
            Language::Hindi => "hi"@,
            Language::Urdu => "ur"@,
            Language::Polish => "pl"@,
        }
    }

    /// The name of each language in that language.
    pub open spec fn native_text(self) -> Seq<char> {
        match self {
            Language::Japanese => "日本語"@,
            Language::English => "English"@,
            Language::Korean => "한국어"@,
            Language::Italian => "Italiano"@,
            Language::Spanish => "Español"@,
            Language::Portuguese => "Português"@,
            Language::French => "Français"@,
            Language::German => "Deutsch"@,
            Language::Hebrew => "עברית"@,
            Language::Hungarian => "Magyar"@,
            Language::Chinese => "中文"@,
            Language::Arabic => "العربية"@,
            Language::Filipino => "Filipino"@,
            Language::Catalan => "Català"@,
            Language::Finnish => "Suomi"@,
            Language::Turkish => "Türkçe"@,
            Language::Dutch => "Nederlands"@,
            Language::Swedish => "Svenska"@,
            Language::Thai => "ไทย"@,
            Language::Tagalog => "Tagalog"@,
            Language::Malaysian => "Bahasa Melayu"@,
            Language::Indonesian => "Bahasa Indonesia"@,
            Language::Vietnamese => "Tiếng Việt"@,
            Language::Nepali => "नेपाली"@,
            Language::Hindi => "हिंदी"@,
            Language::Urdu => "اردو"@,
            Language::Polish => "Polski"@,
        }
    }

    /// The English name of each language.
    pub open spec fn name_text(self) -> Seq<char> {
        match self {
            Language::Japanese => "Japanese"@,
            Language::English => "English"@,
            Language::Korean => "Korean"@,
            Language::Italian => "Italian"@,
            Language::Spanish => "Spanish"@,
            Language::Portuguese => "Portuguese"@,
            Language::French => "French"@,
            Language::German => "German"@,
            Language::Hebrew => "Hebrew"@,
            Language::Hungarian => "Hungarian"@,
            Language::Chinese => "Chinese"@,
            Language::Arabic => "Arabic"@,
            Language::Filipino => "Filipino"@,
            Language::Catalan => "Catalan"@,
            Language::Finnish => "Finnish"@,
            Language::Turkish => "Turkish"@,
            Language::Dutch => "Dutch"@,
            Language::Swedish => "Swedish"@,
            Language::Thai => "Thai"@,
            Language::Tagalog => "Tagalog"@,
            Language::Malaysian => "Malaysian"@,
            Language::Indonesian => "Indonesian"@,
            Language::Vietnamese => "Vietnamese"@,
            Language::Nepali => "Nepali"@,
            Language::Hindi => "Hindi"@,
            Language::Urdu => "Urdu"@,
            Language::Polish => "Polish"@,
        }
    }

    /// The language that an upper-case key stands for: its code, its English
    /// name, or one of a few other spellings. Any other key stands for
    /// Japanese.
    pub open spec fn of_key(key: Seq<char>) -> Language {
        if key == "JA"@ || key == "JP"@ || key == "JAPANESE"@ {
            Language::Japanese
        } else if key == "EN"@ || key == "UK"@ || key == "ENGLISH"@ {
            Language::English
        } else if key == "KO"@ || key == "KOREAN"@ {
            Language::Korean
        } else if key == "IT"@ || key == "ITALIAN"@ {
            Language::Italian
        } else if key == "ES"@ || key == "SPANISH"@ {
            Language::Spanish
        } else if key == "PT"@ || key == "PORTUGUESE"@ {
            Language::Portuguese
        } else if key == "FR"@ || key == "FRENCH"@ {
            Language::French
        } else if key == "DE"@ || key == "GERMAN"@ {
            Language::German
        } else if key == "HE"@ || key == "HEBREW"@ {
            Language::Hebrew
        } else if key == "HU"@ || key == "HUNGARIAN"@ {
            Language::Hungarian
        } else if key == "ZH"@ || key == "CHINESE"@ {
            Language::Chinese
        } else if key == "AR"@ || key == "ARABIC"@ {
            Language::Arabic
        } else if key == "FIL"@ || key == "PHILIPPINE"@ {
            Language::Filipino
        } else if key == "CA"@ || key == "CATALAN"@ {
            Language::Catalan
        } else if key == "FI"@ || key == "FINNISH"@ {
            Language::Finnish
        } else if key == "TR"@ || key == "TURKISH"@ {
            Language::Turkish
        } else if key == "NL"@ || key == "DUTCH"@ {
            Language::Dutch
        } else if key == "SV"@ || key == "SWEDISH"@ {
            Language::Swedish
        } else if key == "TH"@ || key == "THAI"@ {
            Language::Thai
        } else if key == "TL"@ || key == "TAGALOG"@ {
            Language::Tagalog
        } else if key == "MS"@ || key == "MALAYSIAN"@ {
            Language::Malaysian
        } else if key == "ID"@ || key == "INDONESIAN"@ {
            Language::Indonesian
        } else if key == "VI"@ || key == "VIETNAMESE"@ {
            Language::Vietnamese
        } else if key == "NE"@ || key == "NEPALI"@ {
            Language::Nepali
        } else if key == "HI"@ || key == "HINDI"@ {
            Language::Hindi
        } else if key == "UR"@ || key == "URDU"@ {
            Language::Urdu
        } else if key == "PL"@ || key == "POLISH"@ {
            Language::Polish
        } else {
            Language::Japanese
        }
    }

    /// Whether an upper-case key is one of the table's.
    pub open spec fn is_key(key: Seq<char>) -> bool {
        ||| key == "JA"@
        ||| key == "JP"@
        ||| key == "JAPANESE"@
        ||| key == "EN"@
        ||| key == "UK"@
        ||| key == "ENGLISH"@
        ||| key == "KO"@
        ||| key == "KOREAN"@
        ||| key == "IT"@
        ||| key == "ITALIAN"@
        ||| key == "ES"@
        ||| key == "SPANISH"@
        ||| key == "PT"@
        ||| key == "PORTUGUESE"@
        ||| key == "FR"@
        ||| key == "FRENCH"@
        ||| key == "DE"@
        ||| key == "GERMAN"@
        ||| key == "HE"@
        ||| key == "HEBREW"@
        ||| key == "HU"@
        ||| key == "HUNGARIAN"@
        ||| key == "ZH"@
        ||| key == "CHINESE"@
        ||| key == "AR"@
        ||| key == "ARABIC"@
        ||| key == "FIL"@
        ||| key == "PHILIPPINE"@
        ||| key == "CA"@
        ||| key == "CATALAN"@
        ||| key == "FI"@
        ||| key == "FINNISH"@
        ||| key == "TR"@
        ||| key == "TURKISH"@
        ||| key == "NL"@
        ||| key == "DUTCH"@
        ||| key == "SV"@
        ||| key == "SWEDISH"@
        ||| key == "TH"@
        ||| key == "THAI"@
        ||| key == "TL"@
        ||| key == "TAGALOG"@
        ||| key == "MS"@
        ||| key == "MALAYSIAN"@
        ||| key == "ID"@
        ||| key == "INDONESIAN"@
        ||| key == "VI"@
        ||| key == "VIETNAMESE"@
        ||| key == "NE"@
        ||| key == "NEPALI"@
        ||| key == "HI"@
        ||| key == "HINDI"@
        ||| key == "UR"@
        ||| key == "URDU"@
        ||| key == "PL"@
        ||| key == "POLISH"@
    }

    /// The language that a text names: the text is trimmed and put in upper
    /// case, and the result looked up.
    pub open spec fn parse(text: Seq<char>) -> Language {
        Language::of_key(folded(text))
    }

    /// The ISO 639 code of the language.
    pub fn code(&self) -> (r: &'static str)
        ensures
            r@ == self.code_text(),
    {
        match self {
            Language::Japanese => "ja",
            Language::English => "en",
            Language::Korean => "ko",
            Language::Italian => "it",
            Language::Spanish => "es",
            Language::Portuguese => "pt",
            Language::French => "fr",
            Language::German => "de",
            Language::Hebrew => "he",
            Language::Hungarian => "hu",
            Language::Chinese => "zh",
            Language::Arabic => "ar",
            Language::Filipino => "fil",
            Language::Catalan => "ca",
            Language::Finnish => "fi",
            Language::Turkish => "tr",
            Language::Dutch => "nl",
            Language::Swedish => "sv",
            Language::Thai => "th",
            Language::Tagalog => "tl",
            Language::Malaysian => "ms",
            Language::Indonesian => "id",
            Language::Vietnamese => "vi",
            Language::Nepali => "ne",
            Language::Hindi => "hi",
            Language::Urdu => "ur",
            Language::Polish => "pl",
        }
    }

    /// The ISO 639 code of the language; another name for `code`.
    pub fn iso(&self) -> (r: &'static str)
        ensures
            r@ == self.code_text(),
    {
        self.code()
    }

    /// The name of the language in that language.
    pub fn native(&self) -> (r: &'static str)
        ensures
            r@ == self.native_text(),
    {
        match self {
            Language::Japanese => "日本語",
            Language::English => "English",
            Language::Korean => "한국어",
            Language::Italian => "Italiano",
            Language::Spanish => "Español",
            Language::Portuguese => "Português",
            Language::French => "Français",
            Language::German => "Deutsch",
            Language::Hebrew => "עברית",
            Language::Hungarian => "Magyar",
            Language::Chinese => "中文",
            Language::Arabic => "العربية",
            Language::Filipino => "Filipino",
            Language::Catalan => "Català",
            Language::Finnish => "Suomi",
            Language::Turkish => "Türkçe",
            Language::Dutch => "Nederlands",
            Language::Swedish => "Svenska",
            Language::Thai => "ไทย",
            Language::Tagalog => "Tagalog",
            Language::Malaysian => "Bahasa Melayu",
            Language::Indonesian => "Bahasa Indonesia",
            Language::Vietnamese => "Tiếng Việt",
            Language::Nepali => "नेपाली",
            Language::Hindi => "हिंदी",
            Language::Urdu => "اردو",
            Language::Polish => "Polski",
        }
    }

    /// The English name of the language, as it is displayed.
    pub fn name(&self) -> (r: &'static str)
        ensures
            r@ == self.name_text(),
    {
        match self {
            Language::Japanese => "Japanese",
            Language::English => "English",
            Language::Korean => "Korean",
            Language::Italian => "Italian",
            Language::Spanish => "Spanish",
            Language::Portuguese => "Portuguese",
            Language::French => "French",
            Language::German => "German",
            Language::Hebrew => "Hebrew",
            Language::Hungarian => "Hungarian",
            Language::Chinese => "Chinese",
            Language::Arabic => "Arabic",
            Language::Filipino => "Filipino",
            Language::Catalan => "Catalan",
            Language::Finnish => "Finnish",
            Language::Turkish => "Turkish",
            Language::Dutch => "Dutch",
            Language::Swedish => "Swedish",
            Language::Thai => "Thai",
            Language::Tagalog => "Tagalog",
            Language::Malaysian => "Malaysian",
            Language::Indonesian => "Indonesian",
            Language::Vietnamese => "Vietnamese",
            Language::Nepali => "Nepali",
            Language::Hindi => "Hindi",
            Language::Urdu => "Urdu",
            Language::Polish => "Polish",
        }
    }

    /// The displayed form of the language as an owned string.
    pub fn to_string(&self) -> (r: String)
        ensures
            r@ == self.name_text(),
    {
        self.name().to_owned()
    }

    /// The language that an upper-case key stands for.
    pub fn from_key(key: &str) -> (r: Language)
        ensures
            r == Language::of_key(key@),
    {
        if same_text(key, "JA") || same_text(key, "JP") || same_text(key, "JAPANESE") {
            Language::Japanese
        } else if same_text(key, "EN") || same_text(key, "UK") || same_text(key, "ENGLISH") {
            Language::English
        } else if same_text(key, "KO") || same_text(key, "KOREAN") {
            Language::Korean
        } else if same_text(key, "IT") || same_text(key, "ITALIAN") {
            Language::Italian
        } else if same_text(key, "ES") || same_text(key, "SPANISH") {
            Language::Spanish
        } else if same_text(key, "PT") || same_text(key, "PORTUGUESE") {
            Language::Portuguese
        } else if same_text(key, "FR") || same_text(key, "FRENCH") {
            Language::French
        } else if same_text(key, "DE") || same_text(key, "GERMAN") {
            Language::German
        } else if same_text(key, "HE") || same_text(key, "HEBREW") {
            Language::Hebrew
        } else if same_text(key, "HU") || same_text(key, "HUNGARIAN") {
            Language::Hungarian
        } else if same_text(key, "ZH") || same_text(key, "CHINESE") {
            Language::Chinese
        } else if same_text(key, "AR") || same_text(key, "ARABIC") {
            Language::Arabic
        } else if same_text(key, "FIL") || same_text(key, "PHILIPPINE") {
            Language::Filipino
        } else if same_text(key, "CA") || same_text(key, "CATALAN") {
            Language::Catalan
        } else if same_text(key, "FI") || same_text(key, "FINNISH") {
            Language::Finnish
        } else if same_text(key, "TR") || same_text(key, "TURKISH") {
            Language::Turkish
        } else if same_text(key, "NL") || same_text(key, "DUTCH") {
            Language::Dutch
        } else if same_text(key, "SV") || same_text(key, "SWEDISH") {
            Language::Swedish
        } else if same_text(key, "TH") || same_text(key, "THAI") {
            Language::Thai
        } else if same_text(key, "TL") || same_text(key, "TAGALOG") {
            Language::Tagalog
        } else if same_text(key, "MS") || same_text(key, "MALAYSIAN") {
            Language::Malaysian
        } else if same_text(key, "ID") || same_text(key, "INDONESIAN") {
            Language::Indonesian
        } else if same_text(key, "VI") || same_text(key, "VIETNAMESE") {
            Language::Vietnamese
        } else if same_text(key, "NE") || same_text(key, "NEPALI") {
            Language::Nepali
        } else if same_text(key, "HI") || same_text(key, "HINDI") {
            Language::Hindi
        } else if same_text(key, "UR") || same_text(key, "URDU") {
            Language::Urdu
        } else if same_text(key, "PL") || same_text(key, "POLISH") {
            Language::Polish
        } else {
            Language::Japanese
        }
    }

    /// The language that a member names, where there is one and it is a string.
    pub open spec fn held(m: Option<Json>) -> Option<Language> {
        match text_in(m) {
            Some(t) => Some(Language::parse(t)),
            None => None,
        }
    }

    /// Reads the language that the member of `v` under `key` names, where it
    /// is present.
    pub(crate) fn field(v: &Value, key: &str) -> (r: Result<Option<Language>, DecodeError>)
        ensures
            match r {
                Ok(e) => fits_text(member(tree(*v), key@)) && e == Language::held(
                    member(tree(*v), key@),
                ),
                Err(e) => e == DecodeError::WrongShape && !fits_text(member(tree(*v), key@)),
            },
    {
        match text_field(v, key)? {
            Some(s) => Ok(Some(Language::from(s.as_str()))),
            None => Ok(None),
        }
    }
}

impl Default for Language {
    fn default() -> (r: Language)
        ensures
            r == Language::Japanese,
    {
        Language::Japanese
    }
}

impl From<&str> for Language {
    /// The language that `value` names, whatever its case and the white
    /// space around it; Japanese where it names none.
    fn from(value: &str) -> (r: Language)
        ensures
            r == Language::parse(value@),
    {
        let key = fold(value);
        Language::from_key(key.as_str())
    }
}

impl vstd::std_specs::convert::FromSpecImpl<&str> for Language {
    open spec fn obeys_from_spec() -> bool {
        true
    }

    open spec fn from_spec(v: &str) -> Language {
        Language::parse(v@)
    }
}

impl From<String> for Language {
    /// The language that `value` names, as for a string slice.
    fn from(value: String) -> (r: Language)
        ensures
            r == Language::parse(value@),
    {
        let key = fold(value.as_str());
        Language::from_key(key.as_str())
    }
}

impl vstd::std_specs::convert::FromSpecImpl<String> for Language {
    open spec fn obeys_from_spec() -> bool {
        true
    }

    open spec fn from_spec(v: String) -> Language {
        Language::parse(v@)
    }
}


/// Every language comes back from its own code: the code of a language is
/// one of the table's keys once it is folded, and parsing it gives that
/// language.
pub proof fn law_code_round_trip(lang: Language)
    ensures
        Language::is_key(folded(lang.code_text())),
        Language::parse(lang.code_text()) == lang,
{
    reveal_language_keys();
    let code = lang.code_text();
    reveal_strlit("ja");
    reveal_strlit("en");
    reveal_strlit("ko");
    reveal_strlit("it");
    reveal_strlit("es");
    reveal_strlit("pt");
    reveal_strlit("fr");
    reveal_strlit("de");
    reveal_strlit("he");
    reveal_strlit("hu");
    reveal_strlit("zh");
    reveal_strlit("ar");
    reveal_strlit("fil");
    reveal_strlit("ca");
    reveal_strlit("fi");
    reveal_strlit("tr");
    reveal_strlit("nl");
    reveal_strlit("sv");
    reveal_strlit("th");
    reveal_strlit("tl");
    reveal_strlit("ms");
    reveal_strlit("id");
    reveal_strlit("vi");
    reveal_strlit("ne");
    reveal_strlit("hi");
    reveal_strlit("ur");
    reveal_strlit("pl");
    assert(code.len() > 0);
    assert(all_ascii(code));
    assert(trimmed(Seq::<char>::empty() + code + Seq::<char>::empty()) == code) by {
        lemma_trim_padded(Seq::<char>::empty(), code, Seq::<char>::empty());
    }
    assert(Seq::<char>::empty() + code + Seq::<char>::empty() == code);
    let key = ascii_uppercased(code);
    assert(folded(code) == key);
    assert(key.len() == code.len());
    assert(key[0] == ascii_upper(code[0]));
    assert(key[1] == ascii_upper(code[1]));
    if code.len() > 2 {
        assert(key[2] == ascii_upper(code[2]));
    }
    match lang {
        Language::Japanese => { assert(key == "JA"@); },
        Language::English => { assert(key == "EN"@); },
        Language::Korean => { assert(key == "KO"@); },
        Language::Italian => { assert(key == "IT"@); },
        Language::Spanish => { assert(key == "ES"@); },
        Language::Portuguese => { assert(key == "PT"@); },
        Language::French => { assert(key == "FR"@); },
        Language::German => { assert(key == "DE"@); },
        Language::Hebrew => { assert(key == "HE"@); },
        Language::Hungarian => { assert(key == "HU"@); },
        Language::Chinese => { assert(key == "ZH"@); },
        Language::Arabic => { assert(key == "AR"@); },
        Language::Filipino => { assert(key == "FIL"@); },
        Language::Catalan => { assert(key == "CA"@); },
        Language::Finnish => { assert(key == "FI"@); },
        Language::Turkish => { assert(key == "TR"@); },
        Language::Dutch => { assert(key == "NL"@); },
        Language::Swedish => { assert(key == "SV"@); },
        Language::Thai => { assert(key == "TH"@); },
        Language::Tagalog => { assert(key == "TL"@); },
        Language::Malaysian => { assert(key == "MS"@); },
        Language::Indonesian => { assert(key == "ID"@); },
        Language::Vietnamese => { assert(key == "VI"@); },
        Language::Nepali => { assert(key == "NE"@); },
        Language::Hindi => { assert(key == "HI"@); },
        Language::Urdu => { assert(key == "UR"@); },
        Language::Polish => { assert(key == "PL"@); },
    }
}

/// Case and surrounding white space do not count: a text of ASCII
/// characters that neither starts nor ends with white space is parsed as its
/// upper-case form is looked up, whatever white space stands around it.
pub proof fn law_parse_ignores_case_and_padding(pre: Seq<char>, word: Seq<char>, post: Seq<char>)
    requires
        blank(pre),
        blank(post),
        all_ascii(word),
        word.len() > 0 ==> !is_white_space(word.first()) && !is_white_space(word.last()),
    ensures
        Language::parse(pre + word + post) == Language::of_key(ascii_uppercased(word)),
{
    law_fold_ignores_case_and_padding(pre, word, post);
}

/// A text that names no language is taken for Japanese.
pub proof fn law_unknown_is_japanese(text: Seq<char>)
    requires
        !Language::is_key(folded(text)),
    ensures
        Language::parse(text) == Language::Japanese,
{
}

/// What each key of the table holds, character by character.
proof fn reveal_language_keys()
    ensures
        "JA"@ == seq!['J', 'A'],
        "JP"@ == seq!['J', 'P'],
        "JAPANESE"@ == seq!['J', 'A', 'P', 'A', 'N', 'E', 'S', 'E'],
        "EN"@ == seq!['E', 'N'],
        "UK"@ == seq!['U', 'K'],
        "ENGLISH"@ == seq!['E', 'N', 'G', 'L', 'I', 'S', 'H'],
        "KO"@ == seq!['K', 'O'],
        "KOREAN"@ == seq!['K', 'O', 'R', 'E', 'A', 'N'],
        "IT"@ == seq!['I', 'T'],
        "ITALIAN"@ == seq!['I', 'T', 'A', 'L', 'I', 'A', 'N'],
        "ES"@ == seq!['E', 'S'],
        "SPANISH"@ == seq!['S', 'P', 'A', 'N', 'I', 'S', 'H'],
        "PT"@ == seq!['P', 'T'],
        "PORTUGUESE"@ == seq!['P', 'O', 'R', 'T', 'U', 'G', 'U', 'E', 'S', 'E'],
        "FR"@ == seq!['F', 'R'],
        "FRENCH"@ == seq!['F', 'R', 'E', 'N', 'C', 'H'],
        "DE"@ == seq!['D', 'E'],
        "GERMAN"@ == seq!['G', 'E', 'R', 'M', 'A', 'N'],
        "HE"@ == seq!['H', 'E'],
        "HEBREW"@ == seq!['H', 'E', 'B', 'R', 'E', 'W'],
        "HU"@ == seq!['H', 'U'],
        "HUNGARIAN"@ == seq!['H', 'U', 'N', 'G', 'A', 'R', 'I', 'A', 'N'],
        "ZH"@ == seq!['Z', 'H'],
        "CHINESE"@ == seq!['C', 'H', 'I', 'N', 'E', 'S', 'E'],
        "AR"@ == seq!['A', 'R'],
        "ARABIC"@ == seq!['A', 'R', 'A', 'B', 'I', 'C'],
        "FIL"@ == seq!['F', 'I', 'L'],
        "PHILIPPINE"@ == seq!['P', 'H', 'I', 'L', 'I', 'P', 'P', 'I', 'N', 'E'],
        "CA"@ == seq!['C', 'A'],
        "CATALAN"@ == seq!['C', 'A', 'T', 'A', 'L', 'A', 'N'],
        "FI"@ == seq!['F', 'I'],
        "FINNISH"@ == seq!['F', 'I', 'N', 'N', 'I', 'S', 'H'],
        "TR"@ == seq!['T', 'R'],
        "TURKISH"@ == seq!['T', 'U', 'R', 'K', 'I', 'S', 'H'],
        "NL"@ == seq!['N', 'L'],
        "DUTCH"@ == seq!['D', 'U', 'T', 'C', 'H'],
        "SV"@ == seq!['S', 'V'],
        "SWEDISH"@ == seq!['S', 'W', 'E', 'D', 'I', 'S', 'H'],
        "TH"@ == seq!['T', 'H'],
        "THAI"@ == seq!['T', 'H', 'A', 'I'],
        "TL"@ == seq!['T', 'L'],
        "TAGALOG"@ == seq!['T', 'A', 'G', 'A', 'L', 'O', 'G'],
        "MS"@ == seq!['M', 'S'],
        "MALAYSIAN"@ == seq!['M', 'A', 'L', 'A', 'Y', 'S', 'I', 'A', 'N'],
        "ID"@ == seq!['I', 'D'],
        "INDONESIAN"@ == seq!['I', 'N', 'D', 'O', 'N', 'E', 'S', 'I', 'A', 'N'],
        "VI"@ == seq!['V', 'I'],
        "VIETNAMESE"@ == seq!['V', 'I', 'E', 'T', 'N', 'A', 'M', 'E', 'S', 'E'],
        "NE"@ == seq!['N', 'E'],
        "NEPALI"@ == seq!['N', 'E', 'P', 'A', 'L', 'I'],
        "HI"@ == seq!['H', 'I'],
        "HINDI"@ == seq!['H', 'I', 'N', 'D', 'I'],
        "UR"@ == seq!['U', 'R'],
        "URDU"@ == seq!['U', 'R', 'D', 'U'],
        "PL"@ == seq!['P', 'L'],
        "POLISH"@ == seq!['P', 'O', 'L', 'I', 'S', 'H'],
{
    reveal_strlit("JA");
    reveal_strlit("JP");
    reveal_strlit("JAPANESE");
    reveal_strlit("EN");
    reveal_strlit("UK");
    reveal_strlit("ENGLISH");
    reveal_strlit("KO");
    reveal_strlit("KOREAN");
    reveal_strlit("IT");
    reveal_strlit("ITALIAN");
    reveal_strlit("ES");
    reveal_strlit("SPANISH");
    reveal_strlit("PT");
    reveal_strlit("PORTUGUESE");
    reveal_strlit("FR");
    reveal_strlit("FRENCH");
    reveal_strlit("DE");
    reveal_strlit("GERMAN");
    reveal_strlit("HE");
    reveal_strlit("HEBREW");
    reveal_strlit("HU");
    reveal_strlit("HUNGARIAN");
    reveal_strlit("ZH");
    reveal_strlit("CHINESE");
    reveal_strlit("AR");
    reveal_strlit("ARABIC");
    reveal_strlit("FIL");
    reveal_strlit("PHILIPPINE");
    reveal_strlit("CA");
    reveal_strlit("CATALAN");
    reveal_strlit("FI");
    reveal_strlit("FINNISH");
    reveal_strlit("TR");
    reveal_strlit("TURKISH");
    reveal_strlit("NL");
    reveal_strlit("DUTCH");
    reveal_strlit("SV");
    reveal_strlit("SWEDISH");
    reveal_strlit("TH");
    reveal_strlit("THAI");
    reveal_strlit("TL");
    reveal_strlit("TAGALOG");
    reveal_strlit("MS");
    reveal_strlit("MALAYSIAN");
    reveal_strlit("ID");
    reveal_strlit("INDONESIAN");
    reveal_strlit("VI");
    reveal_strlit("VIETNAMESE");
    reveal_strlit("NE");
    reveal_strlit("NEPALI");
    reveal_strlit("HI");
    reveal_strlit("HINDI");
    reveal_strlit("UR");
    reveal_strlit("URDU");
    reveal_strlit("PL");
    reveal_strlit("POLISH");
    assert("JA"@ =~= seq!['J', 'A']);
    assert("JP"@ =~= seq!['J', 'P']);
    assert("JAPANESE"@ =~= seq!['J', 'A', 'P', 'A', 'N', 'E', 'S', 'E']);
    assert("EN"@ =~= seq!['E', 'N']);
    assert("UK"@ =~= seq!['U', 'K']);
    assert("ENGLISH"@ =~= seq!['E', 'N', 'G', 'L', 'I', 'S', 'H']);
    assert("KO"@ =~= seq!['K', 'O']);
    assert("KOREAN"@ =~= seq!['K', 'O', 'R', 'E', 'A', 'N']);
    assert("IT"@ =~= seq!['I', 'T']);
    assert("ITALIAN"@ =~= seq!['I', 'T', 'A', 'L', 'I', 'A', 'N']);
    assert("ES"@ =~= seq!['E', 'S']);
    assert("SPANISH"@ =~= seq!['S', 'P', 'A', 'N', 'I', 'S', 'H']);
    assert("PT"@ =~= seq!['P', 'T']);
    assert("PORTUGUESE"@ =~= seq!['P', 'O', 'R', 'T', 'U', 'G', 'U', 'E', 'S', 'E']);
    assert("FR"@ =~= seq!['F', 'R']);
    assert("FRENCH"@ =~= seq!['F', 'R', 'E', 'N', 'C', 'H']);
    assert("DE"@ =~= seq!['D', 'E']);
    assert("GERMAN"@ =~= seq!['G', 'E', 'R', 'M', 'A', 'N']);
    assert("HE"@ =~= seq!['H', 'E']);
    assert("HEBREW"@ =~= seq!['H', 'E', 'B', 'R', 'E', 'W']);
    assert("HU"@ =~= seq!['H', 'U']);
    assert("HUNGARIAN"@ =~= seq!['H', 'U', 'N', 'G', 'A', 'R', 'I', 'A', 'N']);
    assert("ZH"@ =~= seq!['Z', 'H']);
    assert("CHINESE"@ =~= seq!['C', 'H', 'I', 'N', 'E', 'S', 'E']);
    assert("AR"@ =~= seq!['A', 'R']);
    assert("ARABIC"@ =~= seq!['A', 'R', 'A', 'B', 'I', 'C']);
    assert("FIL"@ =~= seq!['F', 'I', 'L']);
    assert("PHILIPPINE"@ =~= seq!['P', 'H', 'I', 'L', 'I', 'P', 'P', 'I', 'N', 'E']);
    assert("CA"@ =~= seq!['C', 'A']);
    assert("CATALAN"@ =~= seq!['C', 'A', 'T', 'A', 'L', 'A', 'N']);
    assert("FI"@ =~= seq!['F', 'I']);
    assert("FINNISH"@ =~= seq!['F', 'I', 'N', 'N', 'I', 'S', 'H']);
    assert("TR"@ =~= seq!['T', 'R']);
    assert("TURKISH"@ =~= seq!['T', 'U', 'R', 'K', 'I', 'S', 'H']);
    assert("NL"@ =~= seq!['N', 'L']);
    assert("DUTCH"@ =~= seq!['D', 'U', 'T', 'C', 'H']);
    assert("SV"@ =~= seq!['S', 'V']);
    assert("SWEDISH"@ =~= seq!['S', 'W', 'E', 'D', 'I', 'S', 'H']);
    assert("TH"@ =~= seq!['T', 'H']);
    assert("THAI"@ =~= seq!['T', 'H', 'A', 'I']);
    assert("TL"@ =~= seq!['T', 'L']);
    assert("TAGALOG"@ =~= seq!['T', 'A', 'G', 'A', 'L', 'O', 'G']);
    assert("MS"@ =~= seq!['M', 'S']);
    assert("MALAYSIAN"@ =~= seq!['M', 'A', 'L', 'A', 'Y', 'S', 'I', 'A', 'N']);
    assert("ID"@ =~= seq!['I', 'D']);
    assert("INDONESIAN"@ =~= seq!['I', 'N', 'D', 'O', 'N', 'E', 'S', 'I', 'A', 'N']);
    assert("VI"@ =~= seq!['V', 'I']);
    assert("VIETNAMESE"@ =~= seq!['V', 'I', 'E', 'T', 'N', 'A', 'M', 'E', 'S', 'E']);
    assert("NE"@ =~= seq!['N', 'E']);
    assert("NEPALI"@ =~= seq!['N', 'E', 'P', 'A', 'L', 'I']);
    assert("HI"@ =~= seq!['H', 'I']);
    assert("HINDI"@ =~= seq!['H', 'I', 'N', 'D', 'I']);
    assert("UR"@ =~= seq!['U', 'R']);
    assert("URDU"@ =~= seq!['U', 'R', 'D', 'U']);
    assert("PL"@ =~= seq!['P', 'L']);
    assert("POLISH"@ =~= seq!['P', 'O', 'L', 'I', 'S', 'H']);
}

} // verus!
