//! Regions (a country and its language) and their locales.
use vstd::prelude::*;

use crate::text::str_eq;

verus! {

/// A locale: the country part of a region.
#[derive(Clone, Copy, Debug, PartialEq, Eq, Structural)]
pub enum Locale {
    NoLocale,
    Japan,
    UnitedStates,
    Europe,
    Korea,
    China,
}

impl Locale {
    pub open spec fn spec_ordinal(self) -> u32 {
        match self {
            Locale::NoLocale => 0,
            Locale::Japan => 1,
            Locale::UnitedStates => 2,
            Locale::Europe => 3,
            Locale::Korea => 4,
            Locale::China => 5,
        }
    }

    /// The stable number of the locale.
    pub fn ordinal(&self) -> (r: u32)
        ensures
            r == self.spec_ordinal(),
    {
        match self {
            Locale::NoLocale => 0,
            Locale::Japan => 1,
            Locale::UnitedStates => 2,
            Locale::Europe => 3,
            Locale::Korea => 4,
            Locale::China => 5,
        }
    }

    pub open spec fn spec_from_ordinal(n: int) -> Locale {
        if n == 1 {
            Locale::Japan
        } else if n == 2 {
            Locale::UnitedStates
        } else if n == 3 {
            Locale::Europe
        } else if n == 4 {
            Locale::Korea
        } else if n == 5 {
            Locale::China
        } else {
            Locale::NoLocale
        }
    }

    /// The locale of a number; any number without one gives the unnamed variant.
    pub fn from_ordinal(n: usize) -> (r: Locale)
        ensures
            r == Locale::spec_from_ordinal(n as int),
    {
        match n {
            1 => Locale::Japan,
            2 => Locale::UnitedStates,
            3 => Locale::Europe,
            4 => Locale::Korea,
            5 => Locale::China,
            _ => Locale::NoLocale,
        }
    }

    pub open spec fn spec_name(self) -> Seq<char> {
        match self {
            Locale::NoLocale => ""@,
            Locale::Japan => "jp"@,
            Locale::UnitedStates => "us"@,
            Locale::Europe => "eu"@,
            Locale::Korea => "kr"@,
            Locale::China => "zh"@,
        }
    }

    /// The short name of the locale; empty for the unnamed variant.
    pub fn name(&self) -> (r: &'static str)
        ensures
            r@ == self.spec_name(),
    {
        match self {
            Locale::NoLocale => "",
            Locale::Japan => "jp",
            Locale::UnitedStates => "us",
            Locale::Europe => "eu",
            Locale::Korea => "kr",
            Locale::China => "zh",
        }
    }

    pub fn to_string(&self) -> (r: String)
        ensures
            r@ == self.spec_name(),
    {
        self.name().to_owned()
    }

    pub open spec fn spec_from_name(s: Seq<char>) -> Locale {
        if s == "jp"@ {
            Locale::Japan
        } else if s == "us"@ {
            Locale::UnitedStates
        } else if s == "eu"@ {
            Locale::Europe
        } else if s == "kr"@ {
            Locale::Korea
        } else if s == "zh"@ {
            Locale::China
        } else {
            Locale::NoLocale
        }
    }

    /// Parses a short name; any other string gives the unnamed variant.
    pub fn from_name(s: &str) -> (r: Locale)
        ensures
            r == Locale::spec_from_name(s@),
    {
        if str_eq(s, "jp") {
            Locale::Japan
        } else if str_eq(s, "us") {
            Locale::UnitedStates
        } else if str_eq(s, "eu") {
            Locale::Europe
        } else if str_eq(s, "kr") {
            Locale::Korea
        } else if str_eq(s, "zh") {
            Locale::China
        } else {
            Locale::NoLocale
        }
    }
}

impl From<usize> for Locale {
    fn from(n: usize) -> (r: Locale)
        ensures
            r == Locale::spec_from_ordinal(n as int),
    {
        Locale::from_ordinal(n as usize)
    }
}

impl vstd::std_specs::convert::FromSpecImpl<usize> for Locale {
    open spec fn obeys_from_spec() -> bool {
        true
    }

    open spec fn from_spec(n: usize) -> Locale {
        Locale::spec_from_ordinal(n as int)
    }
}

impl From<u32> for Locale {
    fn from(n: u32) -> (r: Locale)
        ensures
            r == Locale::spec_from_ordinal(n as int),
    {
        Locale::from_ordinal(n as usize)
    }
}

impl vstd::std_specs::convert::FromSpecImpl<u32> for Locale {
    open spec fn obeys_from_spec() -> bool {
        true
    }

    open spec fn from_spec(n: u32) -> Locale {
        Locale::spec_from_ordinal(n as int)
    }
}

impl From<u16> for Locale {
    fn from(n: u16) -> (r: Locale)
        ensures
            r == Locale::spec_from_ordinal(n as int),
    {
        Locale::from_ordinal(n as usize)
    }
}

impl vstd::std_specs::convert::FromSpecImpl<u16> for Locale {
    open spec fn obeys_from_spec() -> bool {
        true
    }

    open spec fn from_spec(n: u16) -> Locale {
        Locale::spec_from_ordinal(n as int)
    }
}

impl From<u8> for Locale {
    fn from(n: u8) -> (r: Locale)
        ensures
            r == Locale::spec_from_ordinal(n as int),
    {
        Locale::from_ordinal(n as usize)
    }
}

impl vstd::std_specs::convert::FromSpecImpl<u8> for Locale {
    open spec fn obeys_from_spec() -> bool {
        true
    }

    open spec fn from_spec(n: u8) -> Locale {
        Locale::spec_from_ordinal(n as int)
    }
}

/// A country and its language. A regional file has one row for each, by ordinal.
#[derive(Clone, Copy, Debug, PartialEq, Eq, Structural)]
pub enum Region {
    NoRegion,
    Japanese,
    UsEnglish,
    UsFrench,
    UsSpanish,
    EuEnglish,
    EuFrench,
    EuSpanish,
    EuGerman,
    EuDutch,
    EuItalian,
    EuRussian,
    Korean,
    ChinaChinese,
    TaiwanChinese,
}

impl Region {
    pub open spec fn spec_ordinal(self) -> u32 {
        match self {
            Region::NoRegion => 0,
            Region::Japanese => 1,
            Region::UsEnglish => 2,
            Region::UsFrench => 3,
            Region::UsSpanish => 4,
            Region::EuEnglish => 5,
            Region::EuFrench => 6,
            Region::EuSpanish => 7,
            Region::EuGerman => 8,
            Region::EuDutch => 9,
            Region::EuItalian => 10,
            Region::EuRussian => 11,
            Region::Korean => 12,
            Region::ChinaChinese => 13,
            Region::TaiwanChinese => 14,
        }
    }

    /// The stable number of the region.
    pub fn ordinal(&self) -> (r: u32)
        ensures
            r == self.spec_ordinal(),
    {
        match self {
            Region::NoRegion => 0,
            Region::Japanese => 1,
            Region::UsEnglish => 2,
            Region::UsFrench => 3,
            Region::UsSpanish => 4,
            Region::EuEnglish => 5,
            Region::EuFrench => 6,
            Region::EuSpanish => 7,
            Region::EuGerman => 8,
            Region::EuDutch => 9,
            Region::EuItalian => 10,
            Region::EuRussian => 11,
            Region::Korean => 12,
            Region::ChinaChinese => 13,
            Region::TaiwanChinese => 14,
        }
    }

    pub open spec fn spec_from_ordinal(n: int) -> Region {
        if n == 1 {
            Region::Japanese
        } else if n == 2 {
            Region::UsEnglish
        } else if n == 3 {
            Region::UsFrench
        } else if n == 4 {
            Region::UsSpanish
        } else if n == 5 {
            Region::EuEnglish
        } else if n == 6 {
            Region::EuFrench
        } else if n == 7 {
            Region::EuSpanish
        } else if n == 8 {
            Region::EuGerman
        } else if n == 9 {
            Region::EuDutch
        } else if n == 10 {
            Region::EuItalian
        } else if n == 11 {
            Region::EuRussian
        } else if n == 12 {
            Region::Korean
        } else if n == 13 {
            Region::ChinaChinese
        } else if n == 14 {
            Region::TaiwanChinese
        } else {
            Region::NoRegion
        }
    }

    /// The region of a number; any number without one gives the unnamed variant.
    pub fn from_ordinal(n: usize) -> (r: Region)
        ensures
            r == Region::spec_from_ordinal(n as int),
    {
        match n {
            1 => Region::Japanese,
            2 => Region::UsEnglish,
            3 => Region::UsFrench,
            4 => Region::UsSpanish,
            5 => Region::EuEnglish,
            6 => Region::EuFrench,
            7 => Region::EuSpanish,
            8 => Region::EuGerman,
            9 => Region::EuDutch,
            10 => Region::EuItalian,
            11 => Region::EuRussian,
            12 => Region::Korean,
            13 => Region::ChinaChinese,
            14 => Region::TaiwanChinese,
            _ => Region::NoRegion,
        }
    }

    pub open spec fn spec_name(self) -> Seq<char> {
        match self {
            Region::NoRegion => ""@,
            Region::Japanese => "jp_ja"@,
            Region::UsEnglish => "us_en"@,
            Region::UsFrench => "us_fr"@,
            Region::UsSpanish => "us_es"@,
            Region::EuEnglish => "eu_en"@,
            Region::EuFrench => "eu_fr"@,
            Region::EuSpanish => "eu_es"@,
            Region::EuGerman => "eu_de"@,
            Region::EuDutch => "eu_nl"@,
            Region::EuItalian => "eu_it"@,
            Region::EuRussian => "eu_ru"@,
            Region::Korean => "kr_ko"@,
            Region::ChinaChinese => "zh_cn"@,
            Region::TaiwanChinese => "zh_tw"@,
        }
    }

    /// The short name of the region; empty for the unnamed variant.
    pub fn name(&self) -> (r: &'static str)
        ensures
            r@ == self.spec_name(),
    {
        match self {
            Region::NoRegion => "",
            Region::Japanese => "jp_ja",
            Region::UsEnglish => "us_en",
            Region::UsFrench => "us_fr",
            Region::UsSpanish => "us_es",
            Region::EuEnglish => "eu_en",
            Region::EuFrench => "eu_fr",
            Region::EuSpanish => "eu_es",
            Region::EuGerman => "eu_de",
            Region::EuDutch => "eu_nl",
            Region::EuItalian => "eu_it",
            Region::EuRussian => "eu_ru",
            Region::Korean => "kr_ko",
            Region::ChinaChinese => "zh_cn",
            Region::TaiwanChinese => "zh_tw",
        }
    }

    pub fn to_string(&self) -> (r: String)
        ensures
            r@ == self.spec_name(),
    {
        self.name().to_owned()
    }

    pub open spec fn spec_from_name(s: Seq<char>) -> Region {
        if s == "jp_ja"@ {
            Region::Japanese
        } else if s == "us_en"@ {
            Region::UsEnglish
        } else if s == "us_fr"@ {
            Region::UsFrench
        } else if s == "us_es"@ {
            Region::UsSpanish
        } else if s == "eu_en"@ {
            Region::EuEnglish
        } else if s == "eu_fr"@ {
            Region::EuFrench
        } else if s == "eu_es"@ {
            Region::EuSpanish
        } else if s == "eu_de"@ {
            Region::EuGerman
        } else if s == "eu_nl"@ {
            Region::EuDutch
        } else if s == "eu_it"@ {
            Region::EuItalian
        } else if s == "eu_ru"@ {
            Region::EuRussian
        } else if s == "kr_ko"@ {
            Region::Korean
        } else if s == "zh_cn"@ {
            Region::ChinaChinese
        } else if s == "zh_tw"@ {
            Region::TaiwanChinese
        } else {
            Region::NoRegion
        }
    }

    /// Parses a short name; any other string gives the unnamed variant.
    pub fn from_name(s: &str) -> (r: Region)
        ensures
            r == Region::spec_from_name(s@),
    {
        if str_eq(s, "jp_ja") {
            Region::Japanese
        } else if str_eq(s, "us_en") {
            Region::UsEnglish
        } else if str_eq(s, "us_fr") {
            Region::UsFrench
        } else if str_eq(s, "us_es") {
            Region::UsSpanish
        } else if str_eq(s, "eu_en") {
            Region::EuEnglish
        } else if str_eq(s, "eu_fr") {
            Region::EuFrench
        } else if str_eq(s, "eu_es") {
            Region::EuSpanish
        } else if str_eq(s, "eu_de") {
            Region::EuGerman
        } else if str_eq(s, "eu_nl") {
            Region::EuDutch
        } else if str_eq(s, "eu_it") {
            Region::EuItalian
        } else if str_eq(s, "eu_ru") {
            Region::EuRussian
        } else if str_eq(s, "kr_ko") {
            Region::Korean
        } else if str_eq(s, "zh_cn") {
            Region::ChinaChinese
        } else if str_eq(s, "zh_tw") {
            Region::TaiwanChinese
        } else {
            Region::NoRegion
        }
    }
}

impl From<usize> for Region {
    fn from(n: usize) -> (r: Region)
        ensures
            r == Region::spec_from_ordinal(n as int),
    {
        Region::from_ordinal(n as usize)
    }
}

impl vstd::std_specs::convert::FromSpecImpl<usize> for Region {
    open spec fn obeys_from_spec() -> bool {
        true
    }

    open spec fn from_spec(n: usize) -> Region {
        Region::spec_from_ordinal(n as int)
    }
}

impl From<u32> for Region {
    fn from(n: u32) -> (r: Region)
        ensures
            r == Region::spec_from_ordinal(n as int),
    {
        Region::from_ordinal(n as usize)
    }
}

impl vstd::std_specs::convert::FromSpecImpl<u32> for Region {
    open spec fn obeys_from_spec() -> bool {
        true
    }

    open spec fn from_spec(n: u32) -> Region {
        Region::spec_from_ordinal(n as int)
    }
}

impl From<u16> for Region {
    fn from(n: u16) -> (r: Region)
        ensures
            r == Region::spec_from_ordinal(n as int),
    {
        Region::from_ordinal(n as usize)
    }
}

impl vstd::std_specs::convert::FromSpecImpl<u16> for Region {
    open spec fn obeys_from_spec() -> bool {
        true
    }

    open spec fn from_spec(n: u16) -> Region {
        Region::spec_from_ordinal(n as int)
    }
}

impl From<u8> for Region {
    fn from(n: u8) -> (r: Region)
        ensures
            r == Region::spec_from_ordinal(n as int),
    {
        Region::from_ordinal(n as usize)
    }
}

impl vstd::std_specs::convert::FromSpecImpl<u8> for Region {
    open spec fn obeys_from_spec() -> bool {
        true
    }

    open spec fn from_spec(n: u8) -> Region {
        Region::spec_from_ordinal(n as int)
    }
}

impl Region {
    pub open spec fn spec_locale(self) -> Option<Locale> {
        match self {
            Region::NoRegion => None,
            Region::Japanese => Some(Locale::Japan),
            Region::UsEnglish => Some(Locale::UnitedStates),
            Region::UsFrench => Some(Locale::UnitedStates),
            Region::UsSpanish => Some(Locale::UnitedStates),
            Region::EuEnglish => Some(Locale::Europe),
            Region::EuFrench => Some(Locale::Europe),
            Region::EuSpanish => Some(Locale::Europe),
            Region::EuGerman => Some(Locale::Europe),
            Region::EuDutch => Some(Locale::Europe),
            Region::EuItalian => Some(Locale::Europe),
            Region::EuRussian => Some(Locale::Europe),
            Region::Korean => Some(Locale::Korea),
            Region::ChinaChinese => Some(Locale::China),
            Region::TaiwanChinese => Some(Locale::China),
        }
    }

    /// The locale of the region; `NoRegion` has none.
    pub fn get_locale(&self) -> (r: Option<Locale>)
        ensures
            r == self.spec_locale(),
    {
        match self {
            Region::NoRegion => None,
            Region::Japanese => Some(Locale::Japan),
            Region::UsEnglish => Some(Locale::UnitedStates),
            Region::UsFrench => Some(Locale::UnitedStates),
            Region::UsSpanish => Some(Locale::UnitedStates),
            Region::EuEnglish => Some(Locale::Europe),
            Region::EuFrench => Some(Locale::Europe),
            Region::EuSpanish => Some(Locale::Europe),
            Region::EuGerman => Some(Locale::Europe),
            Region::EuDutch => Some(Locale::Europe),
            Region::EuItalian => Some(Locale::Europe),
            Region::EuRussian => Some(Locale::Europe),
            Region::Korean => Some(Locale::Korea),
            Region::ChinaChinese => Some(Locale::China),
            Region::TaiwanChinese => Some(Locale::China),
        }
    }
}

impl std::str::FromStr for Region {
    type Err = std::convert::Infallible;

    fn from_str(s: &str) -> (r: Result<Region, std::convert::Infallible>)
        ensures
            r matches Ok(x) && x == Region::spec_from_name(s@),
    {
        Ok(Region::from_name(s))
    }
}

impl std::str::FromStr for Locale {
    type Err = std::convert::Infallible;

    fn from_str(s: &str) -> (r: Result<Locale, std::convert::Infallible>)
        ensures
            r matches Ok(x) && x == Locale::spec_from_name(s@),
    {
        Ok(Locale::from_name(s))
    }
}

/// Parsing the name of a region gives it back.
pub proof fn lemma_region_name_round_trip(x: Region)
    ensures
        Region::spec_from_name(x.spec_name()) == x,
{
    match x {
        Region::NoRegion => {
            reveal_strlit("");
            reveal_strlit("eu_de");
            reveal_strlit("eu_en");
            reveal_strlit("eu_es");
            reveal_strlit("eu_fr");
            reveal_strlit("eu_it");
            reveal_strlit("eu_nl");
            reveal_strlit("eu_ru");
            reveal_strlit("jp_ja");
            reveal_strlit("kr_ko");
            reveal_strlit("us_en");
            reveal_strlit("us_es");
            reveal_strlit("us_fr");
            reveal_strlit("zh_cn");
            reveal_strlit("zh_tw");
            assert(""@.len() != "jp_ja"@.len());
            assert(""@.len() != "us_en"@.len());
            assert(""@.len() != "us_fr"@.len());
            assert(""@.len() != "us_es"@.len());
            assert(""@.len() != "eu_en"@.len());
            assert(""@.len() != "eu_fr"@.len());
            assert(""@.len() != "eu_es"@.len());
            assert(""@.len() != "eu_de"@.len());
            assert(""@.len() != "eu_nl"@.len());
            assert(""@.len() != "eu_it"@.len());
            assert(""@.len() != "eu_ru"@.len());
            assert(""@.len() != "kr_ko"@.len());
            assert(""@.len() != "zh_cn"@.len());
            assert(""@.len() != "zh_tw"@.len());
        },
        Region::Japanese => {
            reveal_strlit("jp_ja");
        },
        Region::UsEnglish => {
            reveal_strlit("jp_ja");
            reveal_strlit("us_en");
            assert("us_en"@[0] != "jp_ja"@[0]);
        },
        Region::UsFrench => {
            reveal_strlit("jp_ja");
            reveal_strlit("us_en");
            reveal_strlit("us_fr");
            assert("us_fr"@[0] != "jp_ja"@[0]);
            assert("us_fr"@[3] != "us_en"@[3]);
        },
        Region::UsSpanish => {
            reveal_strlit("jp_ja");
            reveal_strlit("us_en");
            reveal_strlit("us_es");
            reveal_strlit("us_fr");
            assert("us_es"@[0] != "jp_ja"@[0]);
            assert("us_es"@[4] != "us_en"@[4]);
            assert("us_es"@[3] != "us_fr"@[3]);
        },
        Region::EuEnglish => {
            reveal_strlit("eu_en");
            reveal_strlit("jp_ja");
            reveal_strlit("us_en");
            reveal_strlit("us_es");
            reveal_strlit("us_fr");
            assert("eu_en"@[0] != "jp_ja"@[0]);
            assert("eu_en"@[0] != "us_en"@[0]);
            assert("eu_en"@[0] != "us_fr"@[0]);
            assert("eu_en"@[0] != "us_es"@[0]);
        },
        Region::EuFrench => {
            reveal_strlit("eu_en");
            reveal_strlit("eu_fr");
            reveal_strlit("jp_ja");
            reveal_strlit("us_en");
            reveal_strlit("us_es");
            reveal_strlit("us_fr");
            assert("eu_fr"@[0] != "jp_ja"@[0]);
            assert("eu_fr"@[0] != "us_en"@[0]);
            assert("eu_fr"@[0] != "us_fr"@[0]);
            assert("eu_fr"@[0] != "us_es"@[0]);
            assert("eu_fr"@[3] != "eu_en"@[3]);
        },
        Region::EuSpanish => {
            reveal_strlit("eu_en");
            reveal_strlit("eu_es");
            reveal_strlit("eu_fr");
            reveal_strlit("jp_ja");
            reveal_strlit("us_en");
            reveal_strlit("us_es");
            reveal_strlit("us_fr");
            assert("eu_es"@[0] != "jp_ja"@[0]);
            assert("eu_es"@[0] != "us_en"@[0]);
            assert("eu_es"@[0] != "us_fr"@[0]);
            assert("eu_es"@[0] != "us_es"@[0]);
            assert("eu_es"@[4] != "eu_en"@[4]);
            assert("eu_es"@[3] != "eu_fr"@[3]);
        },
        Region::EuGerman => {
            reveal_strlit("eu_de");
            reveal_strlit("eu_en");
            reveal_strlit("eu_es");
            reveal_strlit("eu_fr");
            reveal_strlit("jp_ja");
            reveal_strlit("us_en");
            reveal_strlit("us_es");
            reveal_strlit("us_fr");
            assert("eu_de"@[0] != "jp_ja"@[0]);
            assert("eu_de"@[0] != "us_en"@[0]);
            assert("eu_de"@[0] != "us_fr"@[0]);
            assert("eu_de"@[0] != "us_es"@[0]);
            assert("eu_de"@[3] != "eu_en"@[3]);
            assert("eu_de"@[3] != "eu_fr"@[3]);
            assert("eu_de"@[3] != "eu_es"@[3]);
        },
        Region::EuDutch => {
            reveal_strlit("eu_de");
            reveal_strlit("eu_en");
            reveal_strlit("eu_es");
            reveal_strlit("eu_fr");
            reveal_strlit("eu_nl");
            reveal_strlit("jp_ja");
            reveal_strlit("us_en");
            reveal_strlit("us_es");
            reveal_strlit("us_fr");
            assert("eu_nl"@[0] != "jp_ja"@[0]);
            assert("eu_nl"@[0] != "us_en"@[0]);
            assert("eu_nl"@[0] != "us_fr"@[0]);
            assert("eu_nl"@[0] != "us_es"@[0]);
            assert("eu_nl"@[3] != "eu_en"@[3]);
            assert("eu_nl"@[3] != "eu_fr"@[3]);
            assert("eu_nl"@[3] != "eu_es"@[3]);
            assert("eu_nl"@[3] != "eu_de"@[3]);
        },
        Region::EuItalian => {
            reveal_strlit("eu_de");
            reveal_strlit("eu_en");
            reveal_strlit("eu_es");
            reveal_strlit("eu_fr");
            reveal_strlit("eu_it");
            reveal_strlit("eu_nl");
            reveal_strlit("jp_ja");
            reveal_strlit("us_en");
            reveal_strlit("us_es");
            reveal_strlit("us_fr");
            assert("eu_it"@[0] != "jp_ja"@[0]);
            assert("eu_it"@[0] != "us_en"@[0]);
            assert("eu_it"@[0] != "us_fr"@[0]);
            assert("eu_it"@[0] != "us_es"@[0]);
            assert("eu_it"@[3] != "eu_en"@[3]);
            assert("eu_it"@[3] != "eu_fr"@[3]);
            assert("eu_it"@[3] != "eu_es"@[3]);
            assert("eu_it"@[3] != "eu_de"@[3]);
            assert("eu_it"@[3] != "eu_nl"@[3]);
        },
        Region::EuRussian => {
            reveal_strlit("eu_de");
            reveal_strlit("eu_en");
            reveal_strlit("eu_es");
            reveal_strlit("eu_fr");
            reveal_strlit("eu_it");
            reveal_strlit("eu_nl");
            reveal_strlit("eu_ru");
            reveal_strlit("jp_ja");
            reveal_strlit("us_en");
            reveal_strlit("us_es");
            reveal_strlit("us_fr");
            assert("eu_ru"@[0] != "jp_ja"@[0]);
            assert("eu_ru"@[0] != "us_en"@[0]);
            assert("eu_ru"@[0] != "us_fr"@[0]);
            assert("eu_ru"@[0] != "us_es"@[0]);
            assert("eu_ru"@[3] != "eu_en"@[3]);
            assert("eu_ru"@[3] != "eu_fr"@[3]);
            assert("eu_ru"@[3] != "eu_es"@[3]);
            assert("eu_ru"@[3] != "eu_de"@[3]);
            assert("eu_ru"@[3] != "eu_nl"@[3]);
            assert("eu_ru"@[3] != "eu_it"@[3]);
        },
        Region::Korean => {
            reveal_strlit("eu_de");
            reveal_strlit("eu_en");
            reveal_strlit("eu_es");
            reveal_strlit("eu_fr");
            reveal_strlit("eu_it");
            reveal_strlit("eu_nl");
            reveal_strlit("eu_ru");
            reveal_strlit("jp_ja");
            reveal_strlit("kr_ko");
            reveal_strlit("us_en");
            reveal_strlit("us_es");
            reveal_strlit("us_fr");
            assert("kr_ko"@[0] != "jp_ja"@[0]);
            assert("kr_ko"@[0] != "us_en"@[0]);
            assert("kr_ko"@[0] != "us_fr"@[0]);
            assert("kr_ko"@[0] != "us_es"@[0]);
            assert("kr_ko"@[0] != "eu_en"@[0]);
            assert("kr_ko"@[0] != "eu_fr"@[0]);
            assert("kr_ko"@[0] != "eu_es"@[0]);
            assert("kr_ko"@[0] != "eu_de"@[0]);
            assert("kr_ko"@[0] != "eu_nl"@[0]);
            assert("kr_ko"@[0] != "eu_it"@[0]);
            assert("kr_ko"@[0] != "eu_ru"@[0]);
        },
        Region::ChinaChinese => {
            reveal_strlit("eu_de");
            reveal_strlit("eu_en");
            reveal_strlit("eu_es");
            reveal_strlit("eu_fr");
            reveal_strlit("eu_it");
            reveal_strlit("eu_nl");
            reveal_strlit("eu_ru");
            reveal_strlit("jp_ja");
            reveal_strlit("kr_ko");
            reveal_strlit("us_en");
            reveal_strlit("us_es");
            reveal_strlit("us_fr");
            reveal_strlit("zh_cn");
            assert("zh_cn"@[0] != "jp_ja"@[0]);
            assert("zh_cn"@[0] != "us_en"@[0]);
            assert("zh_cn"@[0] != "us_fr"@[0]);
            assert("zh_cn"@[0] != "us_es"@[0]);
            assert("zh_cn"@[0] != "eu_en"@[0]);
            assert("zh_cn"@[0] != "eu_fr"@[0]);
            assert("zh_cn"@[0] != "eu_es"@[0]);
            assert("zh_cn"@[0] != "eu_de"@[0]);
            assert("zh_cn"@[0] != "eu_nl"@[0]);
            assert("zh_cn"@[0] != "eu_it"@[0]);
            assert("zh_cn"@[0] != "eu_ru"@[0]);
            assert("zh_cn"@[0] != "kr_ko"@[0]);
        },
        Region::TaiwanChinese => {
            reveal_strlit("eu_de");
            reveal_strlit("eu_en");
            reveal_strlit("eu_es");
            reveal_strlit("eu_fr");
            reveal_strlit("eu_it");
            reveal_strlit("eu_nl");
            reveal_strlit("eu_ru");
            reveal_strlit("jp_ja");
            reveal_strlit("kr_ko");
            reveal_strlit("us_en");
            reveal_strlit("us_es");
            reveal_strlit("us_fr");
            reveal_strlit("zh_cn");
            reveal_strlit("zh_tw");
            assert("zh_tw"@[0] != "jp_ja"@[0]);
            assert("zh_tw"@[0] != "us_en"@[0]);
            assert("zh_tw"@[0] != "us_fr"@[0]);
            assert("zh_tw"@[0] != "us_es"@[0]);
            assert("zh_tw"@[0] != "eu_en"@[0]);
            assert("zh_tw"@[0] != "eu_fr"@[0]);
            assert("zh_tw"@[0] != "eu_es"@[0]);
            assert("zh_tw"@[0] != "eu_de"@[0]);
            assert("zh_tw"@[0] != "eu_nl"@[0]);
            assert("zh_tw"@[0] != "eu_it"@[0]);
            assert("zh_tw"@[0] != "eu_ru"@[0]);
            assert("zh_tw"@[0] != "kr_ko"@[0]);
            assert("zh_tw"@[3] != "zh_cn"@[3]);
        },
    }
}

/// Parsing the name of a locale gives it back.
pub proof fn lemma_locale_name_round_trip(x: Locale)
    ensures
        Locale::spec_from_name(x.spec_name()) == x,
{
    match x {
        Locale::NoLocale => {
            reveal_strlit("");
            reveal_strlit("eu");
            reveal_strlit("jp");
            reveal_strlit("kr");
            reveal_strlit("us");
            reveal_strlit("zh");
            assert(""@.len() != "jp"@.len());
            assert(""@.len() != "us"@.len());
            assert(""@.len() != "eu"@.len());
            assert(""@.len() != "kr"@.len());
            assert(""@.len() != "zh"@.len());
        },
        Locale::Japan => {
            reveal_strlit("jp");
        },
        Locale::UnitedStates => {
            reveal_strlit("jp");
            reveal_strlit("us");
            assert("us"@[0] != "jp"@[0]);
        },
        Locale::Europe => {
            reveal_strlit("eu");
            reveal_strlit("jp");
            reveal_strlit("us");
            assert("eu"@[0] != "jp"@[0]);
            assert("eu"@[0] != "us"@[0]);
        },
        Locale::Korea => {
            reveal_strlit("eu");
            reveal_strlit("jp");
            reveal_strlit("kr");
            reveal_strlit("us");
            assert("kr"@[0] != "jp"@[0]);
            assert("kr"@[0] != "us"@[0]);
            assert("kr"@[0] != "eu"@[0]);
        },
        Locale::China => {
            reveal_strlit("eu");
            reveal_strlit("jp");
            reveal_strlit("kr");
            reveal_strlit("us");
            reveal_strlit("zh");
            assert("zh"@[0] != "jp"@[0]);
            assert("zh"@[0] != "us"@[0]);
            assert("zh"@[0] != "eu"@[0]);
            assert("zh"@[0] != "kr"@[0]);
        },
    }
}

} // verus!
