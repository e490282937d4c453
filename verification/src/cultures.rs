//! The cultures the installer's user interface can be localized to.
//!
//! A culture selects the language resources linked into the generated
//! installer.  Culture strings are read case-insensitively against the
//! culture codes the toolchain documents; anything else is rejected.

use vstd::prelude::*;
use crate::Error;
use crate::strutil::chars_eq_ci;
use crate::version::ErrView;

verus! {

/// A culture the linker can localize the installer to.
#[derive(Debug, Clone, Copy, PartialEq, Eq, Structural)]
pub enum Cultures {
    ArSa,
    BgBg,
    CaEs,
    HrHr,
    CsCz,
    DaDk,
    NlNl,
    EnUs,
    EtEe,
    FiFi,
    FrFr,
    DeDe,
    ElGr,
    HeIl,
    HiIn,
    HuHu,
    ItIt,
    JaJp,
    KkKz,
    KoKr,
    LvLv,
    LtLt,
    NbNo,
    PlPl,
    PtBr,
    PtPt,
    RoRo,
    RuRu,
    SrLatnCs,
    ZhCn,
    SkSk,
    SlSi,
    EsEs,
    SvSe,
    ThTh,
    ZhHk,
    ZhTw,
    TrTr,
    UkUa,
}

/// The culture a string names, read case-insensitively against the
/// culture codes.
pub open spec fn culture_of(s: Seq<char>) -> Option<Cultures> {
    if chars_eq_ci(s, "ar-SA"@) {
        Some(Cultures::ArSa)
    } else if chars_eq_ci(s, "bg-BG"@) {
        Some(Cultures::BgBg)
    } else if chars_eq_ci(s, "ca-ES"@) {
        Some(Cultures::CaEs)
    } else if chars_eq_ci(s, "hr-HR"@) {
        Some(Cultures::HrHr)
    } else if chars_eq_ci(s, "cs-CZ"@) {
        Some(Cultures::CsCz)
    } else if chars_eq_ci(s, "da-DK"@) {
        Some(Cultures::DaDk)
    } else if chars_eq_ci(s, "nl-NL"@) {
        Some(Cultures::NlNl)
    } else if chars_eq_ci(s, "en-US"@) {
        Some(Cultures::EnUs)
    } else if chars_eq_ci(s, "et-EE"@) {
        Some(Cultures::EtEe)
    } else if chars_eq_ci(s, "fi-FI"@) {
        Some(Cultures::FiFi)
    } else if chars_eq_ci(s, "fr-FR"@) {
        Some(Cultures::FrFr)
    } else if chars_eq_ci(s, "de-DE"@) {
        Some(Cultures::DeDe)
    } else if chars_eq_ci(s, "el-GR"@) {
        Some(Cultures::ElGr)
    } else if chars_eq_ci(s, "he-IL"@) {
        Some(Cultures::HeIl)
    } else if chars_eq_ci(s, "hi-IN"@) {
        Some(Cultures::HiIn)
    } else if chars_eq_ci(s, "hu-HU"@) {
        Some(Cultures::HuHu)
    } else if chars_eq_ci(s, "it-IT"@) {
        Some(Cultures::ItIt)
    } else if chars_eq_ci(s, "ja-JP"@) {
        Some(Cultures::JaJp)
    } else if chars_eq_ci(s, "kk-KZ"@) {
        Some(Cultures::KkKz)
    } else if chars_eq_ci(s, "ko-KR"@) {
        Some(Cultures::KoKr)
    } else if chars_eq_ci(s, "lv-LV"@) {
        Some(Cultures::LvLv)
    } else if chars_eq_ci(s, "lt-LT"@) {
        Some(Cultures::LtLt)
    } else if chars_eq_ci(s, "nb-NO"@) {
        Some(Cultures::NbNo)
    } else if chars_eq_ci(s, "pl-PL"@) {
        Some(Cultures::PlPl)
    } else if chars_eq_ci(s, "pt-BR"@) {
        Some(Cultures::PtBr)
    } else if chars_eq_ci(s, "pt-PT"@) {
        Some(Cultures::PtPt)
    } else if chars_eq_ci(s, "ro-RO"@) {
        Some(Cultures::RoRo)
    } else if chars_eq_ci(s, "ru-RU"@) {
        Some(Cultures::RuRu)
    } else if chars_eq_ci(s, "sr-Latn-CS"@) {
        Some(Cultures::SrLatnCs)
    } else if chars_eq_ci(s, "zh-CN"@) {
        Some(Cultures::ZhCn)
    } else if chars_eq_ci(s, "sk-SK"@) {
        Some(Cultures::SkSk)
    } else if chars_eq_ci(s, "sl-SI"@) {
        Some(Cultures::SlSi)
    } else if chars_eq_ci(s, "es-ES"@) {
        Some(Cultures::EsEs)
    } else if chars_eq_ci(s, "sv-SE"@) {
        Some(Cultures::SvSe)
    } else if chars_eq_ci(s, "th-TH"@) {
        Some(Cultures::ThTh)
    } else if chars_eq_ci(s, "zh-HK"@) {
        Some(Cultures::ZhHk)
    } else if chars_eq_ci(s, "zh-TW"@) {
        Some(Cultures::ZhTw)
    } else if chars_eq_ci(s, "tr-TR"@) {
        Some(Cultures::TrTr)
    } else if chars_eq_ci(s, "uk-UA"@) {
        Some(Cultures::UkUa)
    } else {
        None
    }
}

impl Cultures {
    /// The culture code handed to the linker.
    pub open spec fn code_chars(self) -> Seq<char> {
        match self {
            Cultures::ArSa => "ar-SA"@,
            Cultures::BgBg => "bg-BG"@,
            Cultures::CaEs => "ca-ES"@,
            Cultures::HrHr => "hr-HR"@,
            Cultures::CsCz => "cs-CZ"@,
            Cultures::DaDk => "da-DK"@,
            Cultures::NlNl => "nl-NL"@,
            Cultures::EnUs => "en-US"@,
            Cultures::EtEe => "et-EE"@,
            Cultures::FiFi => "fi-FI"@,
            Cultures::FrFr => "fr-FR"@,
            Cultures::DeDe => "de-DE"@,
            Cultures::ElGr => "el-GR"@,
            Cultures::HeIl => "he-IL"@,
            Cultures::HiIn => "hi-IN"@,
            Cultures::HuHu => "hu-HU"@,
            Cultures::ItIt => "it-IT"@,
            Cultures::JaJp => "ja-JP"@,
            Cultures::KkKz => "kk-KZ"@,
            Cultures::KoKr => "ko-KR"@,
            Cultures::LvLv => "lv-LV"@,
            Cultures::LtLt => "lt-LT"@,
            Cultures::NbNo => "nb-NO"@,
            Cultures::PlPl => "pl-PL"@,
            Cultures::PtBr => "pt-BR"@,
            Cultures::PtPt => "pt-PT"@,
            Cultures::RoRo => "ro-RO"@,
            Cultures::RuRu => "ru-RU"@,
            Cultures::SrLatnCs => "sr-Latn-CS"@,
            Cultures::ZhCn => "zh-CN"@,
            Cultures::SkSk => "sk-SK"@,
            Cultures::SlSi => "sl-SI"@,
            Cultures::EsEs => "es-ES"@,
            Cultures::SvSe => "sv-SE"@,
            Cultures::ThTh => "th-TH"@,
            Cultures::ZhHk => "zh-HK"@,
            Cultures::ZhTw => "zh-TW"@,
            Cultures::TrTr => "tr-TR"@,
            Cultures::UkUa => "uk-UA"@,
        }
    }

    /// The culture code handed to the linker.
    pub fn code(&self) -> (r: &'static str)
        ensures
            r@ == self.code_chars(),
    {
        match self {
            Cultures::ArSa => "ar-SA",
            Cultures::BgBg => "bg-BG",
            Cultures::CaEs => "ca-ES",
            Cultures::HrHr => "hr-HR",
            Cultures::CsCz => "cs-CZ",
            Cultures::DaDk => "da-DK",
            Cultures::NlNl => "nl-NL",
            Cultures::EnUs => "en-US",
            Cultures::EtEe => "et-EE",
            Cultures::FiFi => "fi-FI",
            Cultures::FrFr => "fr-FR",
            Cultures::DeDe => "de-DE",
            Cultures::ElGr => "el-GR",
            Cultures::HeIl => "he-IL",
            Cultures::HiIn => "hi-IN",
            Cultures::HuHu => "hu-HU",
            Cultures::ItIt => "it-IT",
            Cultures::JaJp => "ja-JP",
            Cultures::KkKz => "kk-KZ",
            Cultures::KoKr => "ko-KR",
            Cultures::LvLv => "lv-LV",
            Cultures::LtLt => "lt-LT",
            Cultures::NbNo => "nb-NO",
            Cultures::PlPl => "pl-PL",
            Cultures::PtBr => "pt-BR",
            Cultures::PtPt => "pt-PT",
            Cultures::RoRo => "ro-RO",
            Cultures::RuRu => "ru-RU",
            Cultures::SrLatnCs => "sr-Latn-CS",
            Cultures::ZhCn => "zh-CN",
            Cultures::SkSk => "sk-SK",
            Cultures::SlSi => "sl-SI",
            Cultures::EsEs => "es-ES",
            Cultures::SvSe => "sv-SE",
            Cultures::ThTh => "th-TH",
            Cultures::ZhHk => "zh-HK",
            Cultures::ZhTw => "zh-TW",
            Cultures::TrTr => "tr-TR",
            Cultures::UkUa => "uk-UA",
        }
    }

    /// Reads a culture string, case-insensitively; an unrecognized string
    /// is rejected with the string itself.
    pub fn from_str(s: &str) -> (r: Result<Cultures, Error>)
        ensures
            match r {
                Ok(c) => culture_of(s@) == Some(c),
                Err(e) => culture_of(s@) is None && e@ == ErrView::InvalidValue(s@),
            },
    {
        if crate::strutil::str_eq_ci(s, "ar-SA") {
            Ok(Cultures::ArSa)
        } else if crate::strutil::str_eq_ci(s, "bg-BG") {
            Ok(Cultures::BgBg)
        } else if crate::strutil::str_eq_ci(s, "ca-ES") {
            Ok(Cultures::CaEs)
        } else if crate::strutil::str_eq_ci(s, "hr-HR") {
            Ok(Cultures::HrHr)
        } else if crate::strutil::str_eq_ci(s, "cs-CZ") {
            Ok(Cultures::CsCz)
        } else if crate::strutil::str_eq_ci(s, "da-DK") {
            Ok(Cultures::DaDk)
        } else if crate::strutil::str_eq_ci(s, "nl-NL") {
            Ok(Cultures::NlNl)
        } else if crate::strutil::str_eq_ci(s, "en-US") {
            Ok(Cultures::EnUs)
        } else if crate::strutil::str_eq_ci(s, "et-EE") {
            Ok(Cultures::EtEe)
        } else if crate::strutil::str_eq_ci(s, "fi-FI") {
            Ok(Cultures::FiFi)
        } else if crate::strutil::str_eq_ci(s, "fr-FR") {
            Ok(Cultures::FrFr)
        } else if crate::strutil::str_eq_ci(s, "de-DE") {
            Ok(Cultures::DeDe)
        } else if crate::strutil::str_eq_ci(s, "el-GR") {
            Ok(Cultures::ElGr)
        } else if crate::strutil::str_eq_ci(s, "he-IL") {
            Ok(Cultures::HeIl)
        } else if crate::strutil::str_eq_ci(s, "hi-IN") {
            Ok(Cultures::HiIn)
        } else if crate::strutil::str_eq_ci(s, "hu-HU") {
            Ok(Cultures::HuHu)
        } else if crate::strutil::str_eq_ci(s, "it-IT") {
            Ok(Cultures::ItIt)
        } else if crate::strutil::str_eq_ci(s, "ja-JP") {
            Ok(Cultures::JaJp)
        } else if crate::strutil::str_eq_ci(s, "kk-KZ") {
            Ok(Cultures::KkKz)
        } else if crate::strutil::str_eq_ci(s, "ko-KR") {
            Ok(Cultures::KoKr)
        } else if crate::strutil::str_eq_ci(s, "lv-LV") {
            Ok(Cultures::LvLv)
        } else if crate::strutil::str_eq_ci(s, "lt-LT") {
            Ok(Cultures::LtLt)
        } else if crate::strutil::str_eq_ci(s, "nb-NO") {
            Ok(Cultures::NbNo)
        } else if crate::strutil::str_eq_ci(s, "pl-PL") {
            Ok(Cultures::PlPl)
        } else if crate::strutil::str_eq_ci(s, "pt-BR") {
            Ok(Cultures::PtBr)
        } else if crate::strutil::str_eq_ci(s, "pt-PT") {
            Ok(Cultures::PtPt)
        } else if crate::strutil::str_eq_ci(s, "ro-RO") {
            Ok(Cultures::RoRo)
        } else if crate::strutil::str_eq_ci(s, "ru-RU") {
            Ok(Cultures::RuRu)
        } else if crate::strutil::str_eq_ci(s, "sr-Latn-CS") {
            Ok(Cultures::SrLatnCs)
        } else if crate::strutil::str_eq_ci(s, "zh-CN") {
            Ok(Cultures::ZhCn)
        } else if crate::strutil::str_eq_ci(s, "sk-SK") {
            Ok(Cultures::SkSk)
        } else if crate::strutil::str_eq_ci(s, "sl-SI") {
            Ok(Cultures::SlSi)
        } else if crate::strutil::str_eq_ci(s, "es-ES") {
            Ok(Cultures::EsEs)
        } else if crate::strutil::str_eq_ci(s, "sv-SE") {
            Ok(Cultures::SvSe)
        } else if crate::strutil::str_eq_ci(s, "th-TH") {
            Ok(Cultures::ThTh)
        } else if crate::strutil::str_eq_ci(s, "zh-HK") {
            Ok(Cultures::ZhHk)
        } else if crate::strutil::str_eq_ci(s, "zh-TW") {
            Ok(Cultures::ZhTw)
        } else if crate::strutil::str_eq_ci(s, "tr-TR") {
            Ok(Cultures::TrTr)
        } else if crate::strutil::str_eq_ci(s, "uk-UA") {
            Ok(Cultures::UkUa)
        } else {
            Err(Error::InvalidValue(s.to_owned()))
        }
    }
}

} // verus!
