//! The two interface languages and how they are stored.

use vstd::prelude::*;
use crate::text::str_eq;

verus! {

/// The language of the interface.
#[derive(Clone, Copy, Debug, PartialEq, Eq, Structural)]
pub enum Language {
    English,
    TraditionalChinese,
}

impl Language {
    /// The stored code of the language.
    pub open spec fn spec_code(self) -> Seq<char> {
        match self {
            Language::English => "en-US"@,
            Language::TraditionalChinese => "zh-TW"@,
        }
    }

    /// The language stored as `code`: Traditional Chinese for "zh-TW", and
    /// English for any other code.
    pub fn from_code(code: &str) -> (r: Language)
        ensures
            r == (if code@ == "zh-TW"@ {
                Language::TraditionalChinese
            } else {
                Language::English
            }),
    {
        if str_eq(code, "zh-TW") {
            Language::TraditionalChinese
        } else {
            Language::English
        }
    }

    /// The code under which the language is stored: "en-US" or "zh-TW".
    pub fn code(self) -> (r: &'static str)
        ensures
            r@ == self.spec_code(),
    {
        match self {
            Language::English => "en-US",
            Language::TraditionalChinese => "zh-TW",
        }
    }

    /// Of an English and a Chinese text, the one in this language.
    pub fn text(self, en: &'static str, zh: &'static str) -> (r: &'static str)
        ensures
            r == (match self {
                Language::English => en,
                Language::TraditionalChinese => zh,
            }),
    {
        match self {
            Language::English => en,
            Language::TraditionalChinese => zh,
        }
    }
}

/// Reading a language back from its code gives the same language.
pub proof fn lemma_language_code_round_trip(language: Language)
    ensures
        (if language.spec_code() == "zh-TW"@ {
            Language::TraditionalChinese
        } else {
            Language::English
        }) == language,
{
    reveal_strlit("zh-TW");
    reveal_strlit("en-US");
    if language == Language::English {
        assert("en-US"@[0] != "zh-TW"@[0]);
    }
}

} // verus!
