//! The locales that have menu labels, the tag that selects each, and the
//! fallback for every other tag.

use vstd::prelude::*;
use crate::text::str_eq;

verus! {

/// A locale for which the shell has menu labels.
#[derive(Clone, Copy, Debug, PartialEq, Eq, Structural)]
pub enum Locale {
    /// Simplified Chinese, the fallback for every tag that is not recognised.
    ZhCn,
    /// Traditional Chinese.
    ZhTw,
    /// English.
    En,
}

impl Locale {
    /// The tag by which callers select the locale.
    pub open spec fn tag(self) -> Seq<char> {
        match self {
            Locale::ZhCn => "zh-CN"@,
            Locale::ZhTw => "zh-TW"@,
            Locale::En => "en"@,
        }
    }

    /// The locale that a tag selects. Tags are not validated: every tag other
    /// than the two recognised below selects the fallback.
    pub open spec fn of(lang: Seq<char>) -> Locale {
        if lang == "zh-TW"@ {
            Locale::ZhTw
        } else if lang == "en"@ {
            Locale::En
        } else {
            Locale::ZhCn
        }
    }

    /// The fallback locale.
    pub open spec fn fallback() -> Locale {
        Locale::ZhCn
    }

    /// The locale's tag as a string slice.
    pub fn as_str(self) -> (s: &'static str)
        ensures
            s@ == self.tag(),
    {
        match self {
            Locale::ZhCn => "zh-CN",
            Locale::ZhTw => "zh-TW",
            Locale::En => "en",
        }
    }

    /// The locale that `lang` selects.
    pub fn resolve(lang: &str) -> (locale: Locale)
        ensures
            locale == Locale::of(lang@),
    {
        if str_eq(lang, "zh-TW") {
            Locale::ZhTw
        } else if str_eq(lang, "en") {
            Locale::En
        } else {
            Locale::ZhCn
        }
    }
}

/// Every locale is selected by its own tag.
pub proof fn lemma_tag_selects_its_locale(locale: Locale)
    ensures
        Locale::of(locale.tag()) == locale,
{
    reveal_strlit("zh-CN");
    reveal_strlit("zh-TW");
    reveal_strlit("en");
    let tag = locale.tag();
    if tag == "zh-TW"@ {
        assert(tag.len() == "zh-TW"@.len());
        assert(tag[3] == "zh-TW"@[3]);
    }
    if tag == "en"@ {
        assert(tag.len() == "en"@.len());
    }
}

/// A tag that belongs to no locale selects the fallback, exactly as the
/// fallback's own tag does.
pub proof fn lemma_unknown_tag_selects_fallback(lang: Seq<char>)
    requires
        forall|l: Locale| l.tag() != lang,
    ensures
        Locale::of(lang) == Locale::fallback(),
        Locale::of(lang) == Locale::of(Locale::fallback().tag()),
{
    lemma_tag_selects_its_locale(Locale::fallback());
    assert(Locale::ZhTw.tag() != lang);
    assert(Locale::En.tag() != lang);
}

} // verus!
