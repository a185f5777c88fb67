use vstd::prelude::*;
use vstd::string::StrSliceExecFns;

verus! {

/// The languages a catalog can be translated into, one per ISO-639-1 code.
#[derive(Debug, Clone, Copy, PartialEq, Eq, Structural)]
pub enum Language {
    Afar,
    Abkhazian,
    Avestan,
    Afrikaans,
    Akan,
    Amharic,
    Aragonese,
    Arabic,
    Assamese,
    Avaric,
    Aymara,
    Azerbaijani,
    Bashkir,
    Belarusian,
    Bulgarian,
    Bihari,
    Bislama,
    Bambara,
    Bengali,
    Tibetan,
    Breton,
    Bosnian,
    Catalan,
    Chechen,
    Chamorro,
    Corsican,
    Cree,
    Czech,
    ChurchSlavic,
    Chuvash,
    Welsh,
    Danish,
    German,
    Divehi,
    Dzongkha,
    Ewe,
    Greek,
    English,
    Esperanto,
    Spanish,
    Estonian,
    Basque,
    Persian,
    Fulah,
    Finnish,
    Fijian,
    Faroese,
    French,
    WesternFrisian,
    Irish,
    ScottishGaelic,
    Galician,
    Guarani,
    Gujarati,
    Manx,
    Hausa,
    Hebrew,
    Hindi,
    HiriMotu,
    Croatian,
    HaitianCreole,
    Hungarian,
    Armenian,
    Herero,
    Interlingua,
    Indonesian,
    Interlingue,
    Igbo,
    SichuanYi,
    Inupiaq,
    Ido,
    Icelandic,
    Italian,
    Inuktitut,
    Japanese,
    Javanese,
    Georgian,
    Kongo,
    Kikuyu,
    Kuanyama,
    Kazakh,
    Kalaallisut,
    CentralKhmer,
    Kannada,
    Korean,
    Kanuri,
    Kashmiri,
    Kurdish,
    Komi,
    Cornish,
    Kirghiz,
    Latin,
    Luxembourgish,
    Ganda,
    Limburgish,
    Lingala,
    Lao,
    Lithuanian,
    LubaKatanga,
    Latvian,
    Malagasy,
    Marshallese,
    Maori,
    Macedonian,
    Malayalam,
    Mongolian,
    Marathi,
    Malay,
    Maltese,
    Burmese,
    Nauru,
    NorwegianBokmal,
    NorthNdebele,
    Nepali,
    Ndonga,
    Dutch,
    NorwegianNynorsk,
    Norwegian,
    SouthNdebele,
    Navajo,
    Chichewa,
    Occitan,
    Ojibwe,
    Oromo,
    Oriya,
    Ossetian,
    Panjabi,
    Pali,
    Polish,
    Pushto,
    Portuguese,
    Quechua,
    Romansh,
    Rundi,
    Romanian,
    Russian,
    Kinyarwanda,
    Sanskrit,
    Sardinian,
    Sindhi,
    NorthernSami,
    Sango,
    Sinhalese,
    Slovak,
    Slovenian,
    Samoan,
    Shona,
    Somali,
    Albanian,
    Serbian,
    Swati,
    SothoSouthern,
    Sundanese,
    Swedish,
    Swahili,
    Tamil,
    Telugu,
    Tajik,
    Thai,
    Tigrinya,
    Turkmen,
    Tagalog,
    Tswana,
    Tonga,
    Turkish,
    Tsonga,
    Tatar,
    Twi,
    Tahitian,
    Uighur,
    Ukrainian,
    Urdu,
    Uzbek,
    Venda,
    Vietnamese,
    Volapuk,
    Walloon,
    Wolof,
    Xhosa,
    Yiddish,
    Yoruba,
    Zhuang,
    Chinese,
    Zulu,
}

impl Language {
    /// The language named by a two-letter ISO-639-1 code, if any.
    pub open spec fn spec_from_code(s: Seq<char>) -> Option<Language> {
        if s.len() != 2 {
            None
        } else {
            Language::spec_from_chars(s[0], s[1])
        }
    }

    pub open spec fn spec_from_chars(c0: char, c1: char) -> Option<Language> {
        if false {
            None
        } else if c0 == 'a' && c1 == 'a' {
            Some(Language::Afar)
        } else if c0 == 'a' && c1 == 'b' {
            Some(Language::Abkhazian)
        } else if c0 == 'a' && c1 == 'e' {
            Some(Language::Avestan)
        } else if c0 == 'a' && c1 == 'f' {
            Some(Language::Afrikaans)
        } else if c0 == 'a' && c1 == 'k' {
            Some(Language::Akan)
        } else if c0 == 'a' && c1 == 'm' {
            Some(Language::Amharic)
        } else if c0 == 'a' && c1 == 'n' {
            Some(Language::Aragonese)
        } else if c0 == 'a' && c1 == 'r' {
            Some(Language::Arabic)
        } else if c0 == 'a' && c1 == 's' {
            Some(Language::Assamese)
        } else if c0 == 'a' && c1 == 'v' {
            Some(Language::Avaric)
        } else if c0 == 'a' && c1 == 'y' {
            Some(Language::Aymara)
        } else if c0 == 'a' && c1 == 'z' {
            Some(Language::Azerbaijani)
        } else if c0 == 'b' && c1 == 'a' {
            Some(Language::Bashkir)
        } else if c0 == 'b' && c1 == 'e' {
            Some(Language::Belarusian)
        } else if c0 == 'b' && c1 == 'g' {
            Some(Language::Bulgarian)
        } else if c0 == 'b' && c1 == 'h' {
            Some(Language::Bihari)
        } else if c0 == 'b' && c1 == 'i' {
            Some(Language::Bislama)
        } else if c0 == 'b' && c1 == 'm' {
            Some(Language::Bambara)
        } else if c0 == 'b' && c1 == 'n' {
            Some(Language::Bengali)
        } else if c0 == 'b' && c1 == 'o' {
            Some(Language::Tibetan)
        } else if c0 == 'b' && c1 == 'r' {
            Some(Language::Breton)
        } else if c0 == 'b' && c1 == 's' {
            Some(Language::Bosnian)
        } else if c0 == 'c' && c1 == 'a' {
            Some(Language::Catalan)
        } else if c0 == 'c' && c1 == 'e' {
            Some(Language::Chechen)
        } else if c0 == 'c' && c1 == 'h' {
            Some(Language::Chamorro)
        } else if c0 == 'c' && c1 == 'o' {
            Some(Language::Corsican)
        } else if c0 == 'c' && c1 == 'r' {
            Some(Language::Cree)
        } else if c0 == 'c' && c1 == 's' {
            Some(Language::Czech)
        } else if c0 == 'c' && c1 == 'u' {
            Some(Language::ChurchSlavic)
        } else if c0 == 'c' && c1 == 'v' {
            Some(Language::Chuvash)
        } else if c0 == 'c' && c1 == 'y' {
            Some(Language::Welsh)
        } else if c0 == 'd' && c1 == 'a' {
            Some(Language::Danish)
        } else if c0 == 'd' && c1 == 'e' {
            Some(Language::German)
        } else if c0 == 'd' && c1 == 'v' {
            Some(Language::Divehi)
        } else if c0 == 'd' && c1 == 'z' {
            Some(Language::Dzongkha)
        } else if c0 == 'e' && c1 == 'e' {
            Some(Language::Ewe)
        } else if c0 == 'e' && c1 == 'l' {
            Some(Language::Greek)
        } else if c0 == 'e' && c1 == 'n' {
            Some(Language::English)
        } else if c0 == 'e' && c1 == 'o' {
            Some(Language::Esperanto)
        } else if c0 == 'e' && c1 == 's' {
            Some(Language::Spanish)
        } else if c0 == 'e' && c1 == 't' {
            Some(Language::Estonian)
        } else if c0 == 'e' && c1 == 'u' {
            Some(Language::Basque)
        } else if c0 == 'f' && c1 == 'a' {
            Some(Language::Persian)
        } else if c0 == 'f' && c1 == 'f' {
            Some(Language::Fulah)
        } else if c0 == 'f' && c1 == 'i' {
            Some(Language::Finnish)
        } else if c0 == 'f' && c1 == 'j' {
            Some(Language::Fijian)
        } else if c0 == 'f' && c1 == 'o' {
            Some(Language::Faroese)
        } else if c0 == 'f' && c1 == 'r' {
            Some(Language::French)
        } else if c0 == 'f' && c1 == 'y' {
            Some(Language::WesternFrisian)
        } else if c0 == 'g' && c1 == 'a' {
            Some(Language::Irish)
        } else if c0 == 'g' && c1 == 'd' {
            Some(Language::ScottishGaelic)
        } else if c0 == 'g' && c1 == 'l' {
            Some(Language::Galician)
        } else if c0 == 'g' && c1 == 'n' {
            Some(Language::Guarani)
        } else if c0 == 'g' && c1 == 'u' {
            Some(Language::Gujarati)
        } else if c0 == 'g' && c1 == 'v' {
            Some(Language::Manx)
        } else if c0 == 'h' && c1 == 'a' {
            Some(Language::Hausa)
        } else if c0 == 'h' && c1 == 'e' {
            Some(Language::Hebrew)
        } else if c0 == 'h' && c1 == 'i' {
            Some(Language::Hindi)
        } else if c0 == 'h' && c1 == 'o' {
            Some(Language::HiriMotu)
        } else if c0 == 'h' && c1 == 'r' {
            Some(Language::Croatian)
        } else if c0 == 'h' && c1 == 't' {
            Some(Language::HaitianCreole)
        } else if c0 == 'h' && c1 == 'u' {
            Some(Language::Hungarian)
        } else if c0 == 'h' && c1 == 'y' {
            Some(Language::Armenian)
        } else if c0 == 'h' && c1 == 'z' {
            Some(Language::Herero)
        } else if c0 == 'i' && c1 == 'a' {
            Some(Language::Interlingua)
        } else if c0 == 'i' && c1 == 'd' {
            Some(Language::Indonesian)
        } else if c0 == 'i' && c1 == 'e' {
            Some(Language::Interlingue)
        } else if c0 == 'i' && c1 == 'g' {
            Some(Language::Igbo)
        } else if c0 == 'i' && c1 == 'i' {
            Some(Language::SichuanYi)
        } else if c0 == 'i' && c1 == 'k' {
            Some(Language::Inupiaq)
        } else if c0 == 'i' && c1 == 'o' {
            Some(Language::Ido)
        } else if c0 == 'i' && c1 == 's' {
            Some(Language::Icelandic)
        } else if c0 == 'i' && c1 == 't' {
            Some(Language::Italian)
        } else if c0 == 'i' && c1 == 'u' {
            Some(Language::Inuktitut)
        } else if c0 == 'j' && c1 == 'a' {
            Some(Language::Japanese)
        } else if c0 == 'j' && c1 == 'v' {
            Some(Language::Javanese)
        } else if c0 == 'k' && c1 == 'a' {
            Some(Language::Georgian)
        } else if c0 == 'k' && c1 == 'g' {
            Some(Language::Kongo)
        } else if c0 == 'k' && c1 == 'i' {
            Some(Language::Kikuyu)
        } else if c0 == 'k' && c1 == 'j' {
            Some(Language::Kuanyama)
        } else if c0 == 'k' && c1 == 'k' {
            Some(Language::Kazakh)
        } else if c0 == 'k' && c1 == 'l' {
            Some(Language::Kalaallisut)
        } else if c0 == 'k' && c1 == 'm' {
            Some(Language::CentralKhmer)
        } else if c0 == 'k' && c1 == 'n' {
            Some(Language::Kannada)
        } else if c0 == 'k' && c1 == 'o' {
            Some(Language::Korean)
        } else if c0 == 'k' && c1 == 'r' {
            Some(Language::Kanuri)
        } else if c0 == 'k' && c1 == 's' {
            Some(Language::Kashmiri)
        } else if c0 == 'k' && c1 == 'u' {
            Some(Language::Kurdish)
        } else if c0 == 'k' && c1 == 'v' {
            Some(Language::Komi)
        } else if c0 == 'k' && c1 == 'w' {
            Some(Language::Cornish)
        } else if c0 == 'k' && c1 == 'y' {
            Some(Language::Kirghiz)
        } else if c0 == 'l' && c1 == 'a' {
            Some(Language::Latin)
        } else if c0 == 'l' && c1 == 'b' {
            Some(Language::Luxembourgish)
        } else if c0 == 'l' && c1 == 'g' {
            Some(Language::Ganda)
        } else if c0 == 'l' && c1 == 'i' {
            Some(Language::Limburgish)
        } else if c0 == 'l' && c1 == 'n' {
            Some(Language::Lingala)
        } else if c0 == 'l' && c1 == 'o' {
            Some(Language::Lao)
        } else if c0 == 'l' && c1 == 't' {
            Some(Language::Lithuanian)
        } else if c0 == 'l' && c1 == 'u' {
            Some(Language::LubaKatanga)
        } else if c0 == 'l' && c1 == 'v' {
            Some(Language::Latvian)
        } else if c0 == 'm' && c1 == 'g' {
            Some(Language::Malagasy)
        } else if c0 == 'm' && c1 == 'h' {
            Some(Language::Marshallese)
        } else if c0 == 'm' && c1 == 'i' {
            Some(Language::Maori)
        } else if c0 == 'm' && c1 == 'k' {
            Some(Language::Macedonian)
        } else if c0 == 'm' && c1 == 'l' {
            Some(Language::Malayalam)
        } else if c0 == 'm' && c1 == 'n' {
            Some(Language::Mongolian)
        } else if c0 == 'm' && c1 == 'r' {
            Some(Language::Marathi)
        } else if c0 == 'm' && c1 == 's' {
            Some(Language::Malay)
        } else if c0 == 'm' && c1 == 't' {
            Some(Language::Maltese)
        } else if c0 == 'm' && c1 == 'y' {
            Some(Language::Burmese)
        } else if c0 == 'n' && c1 == 'a' {
            Some(Language::Nauru)
        } else if c0 == 'n' && c1 == 'b' {
            Some(Language::NorwegianBokmal)
        } else if c0 == 'n' && c1 == 'd' {
            Some(Language::NorthNdebele)
        } else if c0 == 'n' && c1 == 'e' {
            Some(Language::Nepali)
        } else if c0 == 'n' && c1 == 'g' {
            Some(Language::Ndonga)
        } else if c0 == 'n' && c1 == 'l' {
            Some(Language::Dutch)
        } else if c0 == 'n' && c1 == 'n' {
            Some(Language::NorwegianNynorsk)
        } else if c0 == 'n' && c1 == 'o' {
            Some(Language::Norwegian)
        } else if c0 == 'n' && c1 == 'r' {
            Some(Language::SouthNdebele)
        } else if c0 == 'n' && c1 == 'v' {
            Some(Language::Navajo)
        } else if c0 == 'n' && c1 == 'y' {
            Some(Language::Chichewa)
        } else if c0 == 'o' && c1 == 'c' {
            Some(Language::Occitan)
        } else if c0 == 'o' && c1 == 'j' {
            Some(Language::Ojibwe)
        } else if c0 == 'o' && c1 == 'm' {
            Some(Language::Oromo)
        } else if c0 == 'o' && c1 == 'r' {
            Some(Language::Oriya)
        } else if c0 == 'o' && c1 == 's' {
            Some(Language::Ossetian)
        } else if c0 == 'p' && c1 == 'a' {
            Some(Language::Panjabi)
        } else if c0 == 'p' && c1 == 'i' {
            Some(Language::Pali)
        } else if c0 == 'p' && c1 == 'l' {
            Some(Language::Polish)
        } else if c0 == 'p' && c1 == 's' {
            Some(Language::Pushto)
        } else if c0 == 'p' && c1 == 't' {
            Some(Language::Portuguese)
        } else if c0 == 'q' && c1 == 'u' {
            Some(Language::Quechua)
        } else if c0 == 'r' && c1 == 'm' {
            Some(Language::Romansh)
        } else if c0 == 'r' && c1 == 'n' {
            Some(Language::Rundi)
        } else if c0 == 'r' && c1 == 'o' {
            Some(Language::Romanian)
        } else if c0 == 'r' && c1 == 'u' {
            Some(Language::Russian)
        } else if c0 == 'r' && c1 == 'w' {
            Some(Language::Kinyarwanda)
        } else if c0 == 's' && c1 == 'a' {
            Some(Language::Sanskrit)
        } else if c0 == 's' && c1 == 'c' {
            Some(Language::Sardinian)
        } else if c0 == 's' && c1 == 'd' {
            Some(Language::Sindhi)
        } else if c0 == 's' && c1 == 'e' {
            Some(Language::NorthernSami)
        } else if c0 == 's' && c1 == 'g' {
            Some(Language::Sango)
        } else if c0 == 's' && c1 == 'i' {
            Some(Language::Sinhalese)
        } else if c0 == 's' && c1 == 'k' {
            Some(Language::Slovak)
        } else if c0 == 's' && c1 == 'l' {
            Some(Language::Slovenian)
        } else if c0 == 's' && c1 == 'm' {
            Some(Language::Samoan)
        } else if c0 == 's' && c1 == 'n' {
            Some(Language::Shona)
        } else if c0 == 's' && c1 == 'o' {
            Some(Language::Somali)
        } else if c0 == 's' && c1 == 'q' {
            Some(Language::Albanian)
        } else if c0 == 's' && c1 == 'r' {
            Some(Language::Serbian)
        } else if c0 == 's' && c1 == 's' {
            Some(Language::Swati)
        } else if c0 == 's' && c1 == 't' {
            Some(Language::SothoSouthern)
        } else if c0 == 's' && c1 == 'u' {
            Some(Language::Sundanese)
        } else if c0 == 's' && c1 == 'v' {
            Some(Language::Swedish)
        } else if c0 == 's' && c1 == 'w' {
            Some(Language::Swahili)
        } else if c0 == 't' && c1 == 'a' {
            Some(Language::Tamil)
        } else if c0 == 't' && c1 == 'e' {
            Some(Language::Telugu)
        } else if c0 == 't' && c1 == 'g' {
            Some(Language::Tajik)
        } else if c0 == 't' && c1 == 'h' {
            Some(Language::Thai)
        } else if c0 == 't' && c1 == 'i' {
            Some(Language::Tigrinya)
        } else if c0 == 't' && c1 == 'k' {
            Some(Language::Turkmen)
        } else if c0 == 't' && c1 == 'l' {
            Some(Language::Tagalog)
        } else if c0 == 't' && c1 == 'n' {
            Some(Language::Tswana)
        } else if c0 == 't' && c1 == 'o' {
            Some(Language::Tonga)
        } else if c0 == 't' && c1 == 'r' {
            Some(Language::Turkish)
        } else if c0 == 't' && c1 == 's' {
            Some(Language::Tsonga)
        } else if c0 == 't' && c1 == 't' {
            Some(Language::Tatar)
        } else if c0 == 't' && c1 == 'w' {
            Some(Language::Twi)
        } else if c0 == 't' && c1 == 'y' {
            Some(Language::Tahitian)
        } else if c0 == 'u' && c1 == 'g' {
            Some(Language::Uighur)
        } else if c0 == 'u' && c1 == 'k' {
            Some(Language::Ukrainian)
        } else if c0 == 'u' && c1 == 'r' {
            Some(Language::Urdu)
        } else if c0 == 'u' && c1 == 'z' {
            Some(Language::Uzbek)
        } else if c0 == 'v' && c1 == 'e' {
            Some(Language::Venda)
        } else if c0 == 'v' && c1 == 'i' {
            Some(Language::Vietnamese)
        } else if c0 == 'v' && c1 == 'o' {
            Some(Language::Volapuk)
        } else if c0 == 'w' && c1 == 'a' {
            Some(Language::Walloon)
        } else if c0 == 'w' && c1 == 'o' {
            Some(Language::Wolof)
        } else if c0 == 'x' && c1 == 'h' {
            Some(Language::Xhosa)
        } else if c0 == 'y' && c1 == 'i' {
            Some(Language::Yiddish)
        } else if c0 == 'y' && c1 == 'o' {
            Some(Language::Yoruba)
        } else if c0 == 'z' && c1 == 'a' {
            Some(Language::Zhuang)
        } else if c0 == 'z' && c1 == 'h' {
            Some(Language::Chinese)
        } else if c0 == 'z' && c1 == 'u' {
            Some(Language::Zulu)
        } else {
            None
        }
    }

    /// The name of the language, as used when describing the target language
    /// to a translation backend.
    pub open spec fn spec_name(self) -> Seq<char> {
        match self {
            Language::Afar => "Afar"@,
            Language::Abkhazian => "Abkhazian"@,
            Language::Avestan => "Avestan"@,
            Language::Afrikaans => "Afrikaans"@,
            Language::Akan => "Akan"@,
            Language::Amharic => "Amharic"@,
            Language::Aragonese => "Aragonese"@,
            Language::Arabic => "Arabic"@,
            Language::Assamese => "Assamese"@,
            Language::Avaric => "Avaric"@,
            Language::Aymara => "Aymara"@,
            Language::Azerbaijani => "Azerbaijani"@,
            Language::Bashkir => "Bashkir"@,
            Language::Belarusian => "Belarusian"@,
            Language::Bulgarian => "Bulgarian"@,
            Language::Bihari => "Bihari"@,
            Language::Bislama => "Bislama"@,
            Language::Bambara => "Bambara"@,
            Language::Bengali => "Bengali"@,
            Language::Tibetan => "Tibetan"@,
            Language::Breton => "Breton"@,
            Language::Bosnian => "Bosnian"@,
            Language::Catalan => "Catalan"@,
            Language::Chechen => "Chechen"@,
            Language::Chamorro => "Chamorro"@,
            Language::Corsican => "Corsican"@,
            Language::Cree => "Cree"@,
            Language::Czech => "Czech"@,
            Language::ChurchSlavic => "ChurchSlavic"@,
            Language::Chuvash => "Chuvash"@,
            Language::Welsh => "Welsh"@,
            Language::Danish => "Danish"@,
            Language::German => "German"@,
            Language::Divehi => "Divehi"@,
            Language::Dzongkha => "Dzongkha"@,
            Language::Ewe => "Ewe"@,
            Language::Greek => "Greek"@,
            Language::English => "English"@,
            Language::Esperanto => "Esperanto"@,
            Language::Spanish => "Spanish"@,
            Language::Estonian => "Estonian"@,
            Language::Basque => "Basque"@,
            Language::Persian => "Persian"@,
            Language::Fulah => "Fulah"@,
            Language::Finnish => "Finnish"@,
            Language::Fijian => "Fijian"@,
            Language::Faroese => "Faroese"@,
            Language::French => "French"@,
            Language::WesternFrisian => "WesternFrisian"@,
            Language::Irish => "Irish"@,
            Language::ScottishGaelic => "ScottishGaelic"@,
            Language::Galician => "Galician"@,
            Language::Guarani => "Guarani"@,
            Language::Gujarati => "Gujarati"@,
            Language::Manx => "Manx"@,
            Language::Hausa => "Hausa"@,
            Language::Hebrew => "Hebrew"@,
            Language::Hindi => "Hindi"@,
            Language::HiriMotu => "HiriMotu"@,
            Language::Croatian => "Croatian"@,
            Language::HaitianCreole => "HaitianCreole"@,
            Language::Hungarian => "Hungarian"@,
            Language::Armenian => "Armenian"@,
            Language::Herero => "Herero"@,
            Language::Interlingua => "Interlingua"@,
            Language::Indonesian => "Indonesian"@,
            Language::Interlingue => "Interlingue"@,
            Language::Igbo => "Igbo"@,
            Language::SichuanYi => "SichuanYi"@,
            Language::Inupiaq => "Inupiaq"@,
            Language::Ido => "Ido"@,
            Language::Icelandic => "Icelandic"@,
            Language::Italian => "Italian"@,
            Language::Inuktitut => "Inuktitut"@,
            Language::Japanese => "Japanese"@,
            Language::Javanese => "Javanese"@,
            Language::Georgian => "Georgian"@,
            Language::Kongo => "Kongo"@,
            Language::Kikuyu => "Kikuyu"@,
            Language::Kuanyama => "Kuanyama"@,
            Language::Kazakh => "Kazakh"@,
            Language::Kalaallisut => "Kalaallisut"@,
            Language::CentralKhmer => "CentralKhmer"@,
            Language::Kannada => "Kannada"@,
            Language::Korean => "Korean"@,
            Language::Kanuri => "Kanuri"@,
            Language::Kashmiri => "Kashmiri"@,
            Language::Kurdish => "Kurdish"@,
            Language::Komi => "Komi"@,
            Language::Cornish => "Cornish"@,
            Language::Kirghiz => "Kirghiz"@,
            Language::Latin => "Latin"@,
            Language::Luxembourgish => "Luxembourgish"@,
            Language::Ganda => "Ganda"@,
            Language::Limburgish => "Limburgish"@,
            Language::Lingala => "Lingala"@,
            Language::Lao => "Lao"@,
            Language::Lithuanian => "Lithuanian"@,
            Language::LubaKatanga => "LubaKatanga"@,
            Language::Latvian => "Latvian"@,
            Language::Malagasy => "Malagasy"@,
            Language::Marshallese => "Marshallese"@,
            Language::Maori => "Maori"@,
            Language::Macedonian => "Macedonian"@,
            Language::Malayalam => "Malayalam"@,
            Language::Mongolian => "Mongolian"@,
            Language::Marathi => "Marathi"@,
            Language::Malay => "Malay"@,
            Language::Maltese => "Maltese"@,
            Language::Burmese => "Burmese"@,
            Language::Nauru => "Nauru"@,
            Language::NorwegianBokmal => "NorwegianBokmal"@,
            Language::NorthNdebele => "NorthNdebele"@,
            Language::Nepali => "Nepali"@,
            Language::Ndonga => "Ndonga"@,
            Language::Dutch => "Dutch"@,
            Language::NorwegianNynorsk => "NorwegianNynorsk"@,
            Language::Norwegian => "Norwegian"@,
            Language::SouthNdebele => "SouthNdebele"@,
            Language::Navajo => "Navajo"@,
            Language::Chichewa => "Chichewa"@,
            Language::Occitan => "Occitan"@,
            Language::Ojibwe => "Ojibwe"@,
            Language::Oromo => "Oromo"@,
            Language::Oriya => "Oriya"@,
            Language::Ossetian => "Ossetian"@,
            Language::Panjabi => "Panjabi"@,
            Language::Pali => "Pali"@,
            Language::Polish => "Polish"@,
            Language::Pushto => "Pushto"@,
            Language::Portuguese => "Portuguese"@,
            Language::Quechua => "Quechua"@,
            Language::Romansh => "Romansh"@,
            Language::Rundi => "Rundi"@,
            Language::Romanian => "Romanian"@,
            Language::Russian => "Russian"@,
            Language::Kinyarwanda => "Kinyarwanda"@,
            Language::Sanskrit => "Sanskrit"@,
            Language::Sardinian => "Sardinian"@,
            Language::Sindhi => "Sindhi"@,
            Language::NorthernSami => "NorthernSami"@,
            Language::Sango => "Sango"@,
            Language::Sinhalese => "Sinhalese"@,
            Language::Slovak => "Slovak"@,
            Language::Slovenian => "Slovenian"@,
            Language::Samoan => "Samoan"@,
            Language::Shona => "Shona"@,
            Language::Somali => "Somali"@,
            Language::Albanian => "Albanian"@,
            Language::Serbian => "Serbian"@,
            Language::Swati => "Swati"@,
            Language::SothoSouthern => "SothoSouthern"@,
            Language::Sundanese => "Sundanese"@,
            Language::Swedish => "Swedish"@,
            Language::Swahili => "Swahili"@,
            Language::Tamil => "Tamil"@,
            Language::Telugu => "Telugu"@,
            Language::Tajik => "Tajik"@,
            Language::Thai => "Thai"@,
            Language::Tigrinya => "Tigrinya"@,
            Language::Turkmen => "Turkmen"@,
            Language::Tagalog => "Tagalog"@,
            Language::Tswana => "Tswana"@,
            Language::Tonga => "Tonga"@,
            Language::Turkish => "Turkish"@,
            Language::Tsonga => "Tsonga"@,
            Language::Tatar => "Tatar"@,
            Language::Twi => "Twi"@,
            Language::Tahitian => "Tahitian"@,
            Language::Uighur => "Uighur"@,
            Language::Ukrainian => "Ukrainian"@,
            Language::Urdu => "Urdu"@,
            Language::Uzbek => "Uzbek"@,
            Language::Venda => "Venda"@,
            Language::Vietnamese => "Vietnamese"@,
            Language::Volapuk => "Volapuk"@,
            Language::Walloon => "Walloon"@,
            Language::Wolof => "Wolof"@,
            Language::Xhosa => "Xhosa"@,
            Language::Yiddish => "Yiddish"@,
            Language::Yoruba => "Yoruba"@,
            Language::Zhuang => "Zhuang"@,
            Language::Chinese => "Chinese"@,
            Language::Zulu => "Zulu"@,
        }
    }

    /// Parse a two-letter ISO-639-1 code.
    pub fn from_code(code: &str) -> (r: Option<Language>)
        ensures
            r == Language::spec_from_code(code@),
    {
        if code.unicode_len() != 2 {
            return None;
        }
        let c0 = code.get_char(0);
        let c1 = code.get_char(1);
        match (c0, c1) {
            ('a', 'a') => Some(Language::Afar),
            ('a', 'b') => Some(Language::Abkhazian),
            ('a', 'e') => Some(Language::Avestan),
            ('a', 'f') => Some(Language::Afrikaans),
            ('a', 'k') => Some(Language::Akan),
            ('a', 'm') => Some(Language::Amharic),
            ('a', 'n') => Some(Language::Aragonese),
            ('a', 'r') => Some(Language::Arabic),
            ('a', 's') => Some(Language::Assamese),
            ('a', 'v') => Some(Language::Avaric),
            ('a', 'y') => Some(Language::Aymara),
            ('a', 'z') => Some(Language::Azerbaijani),
            ('b', 'a') => Some(Language::Bashkir),
            ('b', 'e') => Some(Language::Belarusian),
            ('b', 'g') => Some(Language::Bulgarian),
            ('b', 'h') => Some(Language::Bihari),
            ('b', 'i') => Some(Language::Bislama),
            ('b', 'm') => Some(Language::Bambara),
            ('b', 'n') => Some(Language::Bengali),
            ('b', 'o') => Some(Language::Tibetan),
            ('b', 'r') => Some(Language::Breton),
            ('b', 's') => Some(Language::Bosnian),
            ('c', 'a') => Some(Language::Catalan),
            ('c', 'e') => Some(Language::Chechen),
            ('c', 'h') => Some(Language::Chamorro),
            ('c', 'o') => Some(Language::Corsican),
            ('c', 'r') => Some(Language::Cree),
            ('c', 's') => Some(Language::Czech),
            ('c', 'u') => Some(Language::ChurchSlavic),
            ('c', 'v') => Some(Language::Chuvash),
            ('c', 'y') => Some(Language::Welsh),
            ('d', 'a') => Some(Language::Danish),
            ('d', 'e') => Some(Language::German),
            ('d', 'v') => Some(Language::Divehi),
            ('d', 'z') => Some(Language::Dzongkha),
            ('e', 'e') => Some(Language::Ewe),
            ('e', 'l') => Some(Language::Greek),
            ('e', 'n') => Some(Language::English),
            ('e', 'o') => Some(Language::Esperanto),
            ('e', 's') => Some(Language::Spanish),
            ('e', 't') => Some(Language::Estonian),
            ('e', 'u') => Some(Language::Basque),
            ('f', 'a') => Some(Language::Persian),
            ('f', 'f') => Some(Language::Fulah),
            ('f', 'i') => Some(Language::Finnish),
            ('f', 'j') => Some(Language::Fijian),
            ('f', 'o') => Some(Language::Faroese),
            ('f', 'r') => Some(Language::French),
            ('f', 'y') => Some(Language::WesternFrisian),
            ('g', 'a') => Some(Language::Irish),
            ('g', 'd') => Some(Language::ScottishGaelic),
            ('g', 'l') => Some(Language::Galician),
            ('g', 'n') => Some(Language::Guarani),
            ('g', 'u') => Some(Language::Gujarati),
            ('g', 'v') => Some(Language::Manx),
            ('h', 'a') => Some(Language::Hausa),
            ('h', 'e') => Some(Language::Hebrew),
            ('h', 'i') => Some(Language::Hindi),
            ('h', 'o') => Some(Language::HiriMotu),
            ('h', 'r') => Some(Language::Croatian),
            ('h', 't') => Some(Language::HaitianCreole),
            ('h', 'u') => Some(Language::Hungarian),
            ('h', 'y') => Some(Language::Armenian),
            ('h', 'z') => Some(Language::Herero),
            ('i', 'a') => Some(Language::Interlingua),
            ('i', 'd') => Some(Language::Indonesian),
            ('i', 'e') => Some(Language::Interlingue),
            ('i', 'g') => Some(Language::Igbo),
            ('i', 'i') => Some(Language::SichuanYi),
            ('i', 'k') => Some(Language::Inupiaq),
            ('i', 'o') => Some(Language::Ido),
            ('i', 's') => Some(Language::Icelandic),
            ('i', 't') => Some(Language::Italian),
            ('i', 'u') => Some(Language::Inuktitut),
            ('j', 'a') => Some(Language::Japanese),
            ('j', 'v') => Some(Language::Javanese),
            ('k', 'a') => Some(Language::Georgian),
            ('k', 'g') => Some(Language::Kongo),
            ('k', 'i') => Some(Language::Kikuyu),
            ('k', 'j') => Some(Language::Kuanyama),
            ('k', 'k') => Some(Language::Kazakh),
            ('k', 'l') => Some(Language::Kalaallisut),
            ('k', 'm') => Some(Language::CentralKhmer),
            ('k', 'n') => Some(Language::Kannada),
            ('k', 'o') => Some(Language::Korean),
            ('k', 'r') => Some(Language::Kanuri),
            ('k', 's') => Some(Language::Kashmiri),
            ('k', 'u') => Some(Language::Kurdish),
            ('k', 'v') => Some(Language::Komi),
            ('k', 'w') => Some(Language::Cornish),
            ('k', 'y') => Some(Language::Kirghiz),
            ('l', 'a') => Some(Language::Latin),
            ('l', 'b') => Some(Language::Luxembourgish),
            ('l', 'g') => Some(Language::Ganda),
            ('l', 'i') => Some(Language::Limburgish),
            ('l', 'n') => Some(Language::Lingala),
            ('l', 'o') => Some(Language::Lao),
            ('l', 't') => Some(Language::Lithuanian),
            ('l', 'u') => Some(Language::LubaKatanga),
            ('l', 'v') => Some(Language::Latvian),
            ('m', 'g') => Some(Language::Malagasy),
            ('m', 'h') => Some(Language::Marshallese),
            ('m', 'i') => Some(Language::Maori),
            ('m', 'k') => Some(Language::Macedonian),
            ('m', 'l') => Some(Language::Malayalam),
            ('m', 'n') => Some(Language::Mongolian),
            ('m', 'r') => Some(Language::Marathi),
            ('m', 's') => Some(Language::Malay),
            ('m', 't') => Some(Language::Maltese),
            ('m', 'y') => Some(Language::Burmese),
            ('n', 'a') => Some(Language::Nauru),
            ('n', 'b') => Some(Language::NorwegianBokmal),
            ('n', 'd') => Some(Language::NorthNdebele),
            ('n', 'e') => Some(Language::Nepali),
            ('n', 'g') => Some(Language::Ndonga),
            ('n', 'l') => Some(Language::Dutch),
            ('n', 'n') => Some(Language::NorwegianNynorsk),
            ('n', 'o') => Some(Language::Norwegian),
            ('n', 'r') => Some(Language::SouthNdebele),
            ('n', 'v') => Some(Language::Navajo),
            ('n', 'y') => Some(Language::Chichewa),
            ('o', 'c') => Some(Language::Occitan),
            ('o', 'j') => Some(Language::Ojibwe),
            ('o', 'm') => Some(Language::Oromo),
            ('o', 'r') => Some(Language::Oriya),
            ('o', 's') => Some(Language::Ossetian),
            ('p', 'a') => Some(Language::Panjabi),
            ('p', 'i') => Some(Language::Pali),
            ('p', 'l') => Some(Language::Polish),
            ('p', 's') => Some(Language::Pushto),
            ('p', 't') => Some(Language::Portuguese),
            ('q', 'u') => Some(Language::Quechua),
            ('r', 'm') => Some(Language::Romansh),
            ('r', 'n') => Some(Language::Rundi),
            ('r', 'o') => Some(Language::Romanian),
            ('r', 'u') => Some(Language::Russian),
            ('r', 'w') => Some(Language::Kinyarwanda),
            ('s', 'a') => Some(Language::Sanskrit),
            ('s', 'c') => Some(Language::Sardinian),
            ('s', 'd') => Some(Language::Sindhi),
            ('s', 'e') => Some(Language::NorthernSami),
            ('s', 'g') => Some(Language::Sango),
            ('s', 'i') => Some(Language::Sinhalese),
            ('s', 'k') => Some(Language::Slovak),
            ('s', 'l') => Some(Language::Slovenian),
            ('s', 'm') => Some(Language::Samoan),
            ('s', 'n') => Some(Language::Shona),
            ('s', 'o') => Some(Language::Somali),
            ('s', 'q') => Some(Language::Albanian),
            ('s', 'r') => Some(Language::Serbian),
            ('s', 's') => Some(Language::Swati),
            ('s', 't') => Some(Language::SothoSouthern),
            ('s', 'u') => Some(Language::Sundanese),
            ('s', 'v') => Some(Language::Swedish),
            ('s', 'w') => Some(Language::Swahili),
            ('t', 'a') => Some(Language::Tamil),
            ('t', 'e') => Some(Language::Telugu),
            ('t', 'g') => Some(Language::Tajik),
            ('t', 'h') => Some(Language::Thai),
            ('t', 'i') => Some(Language::Tigrinya),
            ('t', 'k') => Some(Language::Turkmen),
            ('t', 'l') => Some(Language::Tagalog),
            ('t', 'n') => Some(Language::Tswana),
            ('t', 'o') => Some(Language::Tonga),
            ('t', 'r') => Some(Language::Turkish),
            ('t', 's') => Some(Language::Tsonga),
            ('t', 't') => Some(Language::Tatar),
            ('t', 'w') => Some(Language::Twi),
            ('t', 'y') => Some(Language::Tahitian),
            ('u', 'g') => Some(Language::Uighur),
            ('u', 'k') => Some(Language::Ukrainian),
            ('u', 'r') => Some(Language::Urdu),
            ('u', 'z') => Some(Language::Uzbek),
            ('v', 'e') => Some(Language::Venda),
            ('v', 'i') => Some(Language::Vietnamese),
            ('v', 'o') => Some(Language::Volapuk),
            ('w', 'a') => Some(Language::Walloon),
            ('w', 'o') => Some(Language::Wolof),
            ('x', 'h') => Some(Language::Xhosa),
            ('y', 'i') => Some(Language::Yiddish),
            ('y', 'o') => Some(Language::Yoruba),
            ('z', 'a') => Some(Language::Zhuang),
            ('z', 'h') => Some(Language::Chinese),
            ('z', 'u') => Some(Language::Zulu),
            _ => None,
        }
    }

    /// The name of the language.
    pub fn name(&self) -> (s: String)
        ensures
            s@ == self.spec_name(),
    {
        match self {
            Language::Afar => "Afar".to_owned(),
            Language::Abkhazian => "Abkhazian".to_owned(),
            Language::Avestan => "Avestan".to_owned(),
            Language::Afrikaans => "Afrikaans".to_owned(),
            Language::Akan => "Akan".to_owned(),
            Language::Amharic => "Amharic".to_owned(),
            Language::Aragonese => "Aragonese".to_owned(),
            Language::Arabic => "Arabic".to_owned(),
            Language::Assamese => "Assamese".to_owned(),
            Language::Avaric => "Avaric".to_owned(),
            Language::Aymara => "Aymara".to_owned(),
            Language::Azerbaijani => "Azerbaijani".to_owned(),
            Language::Bashkir => "Bashkir".to_owned(),
            Language::Belarusian => "Belarusian".to_owned(),
            Language::Bulgarian => "Bulgarian".to_owned(),
            Language::Bihari => "Bihari".to_owned(),
            Language::Bislama => "Bislama".to_owned(),
            Language::Bambara => "Bambara".to_owned(),
            Language::Bengali => "Bengali".to_owned(),
            Language::Tibetan => "Tibetan".to_owned(),
            Language::Breton => "Breton".to_owned(),
            Language::Bosnian => "Bosnian".to_owned(),
            Language::Catalan => "Catalan".to_owned(),
            Language::Chechen => "Chechen".to_owned(),
            Language::Chamorro => "Chamorro".to_owned(),
            Language::Corsican => "Corsican".to_owned(),
            Language::Cree => "Cree".to_owned(),
            Language::Czech => "Czech".to_owned(),
            Language::ChurchSlavic => "ChurchSlavic".to_owned(),
            Language::Chuvash => "Chuvash".to_owned(),
            Language::Welsh => "Welsh".to_owned(),
            Language::Danish => "Danish".to_owned(),
            Language::German => "German".to_owned(),
            Language::Divehi => "Divehi".to_owned(),
            Language::Dzongkha => "Dzongkha".to_owned(),
            Language::Ewe => "Ewe".to_owned(),
            Language::Greek => "Greek".to_owned(),
            Language::English => "English".to_owned(),
            Language::Esperanto => "Esperanto".to_owned(),
            Language::Spanish => "Spanish".to_owned(),
            Language::Estonian => "Estonian".to_owned(),
            Language::Basque => "Basque".to_owned(),
            Language::Persian => "Persian".to_owned(),
            Language::Fulah => "Fulah".to_owned(),
            Language::Finnish => "Finnish".to_owned(),
            Language::Fijian => "Fijian".to_owned(),
            Language::Faroese => "Faroese".to_owned(),
            Language::French => "French".to_owned(),
            Language::WesternFrisian => "WesternFrisian".to_owned(),
            Language::Irish => "Irish".to_owned(),
            Language::ScottishGaelic => "ScottishGaelic".to_owned(),
            Language::Galician => "Galician".to_owned(),
            Language::Guarani => "Guarani".to_owned(),
            Language::Gujarati => "Gujarati".to_owned(),
            Language::Manx => "Manx".to_owned(),
            Language::Hausa => "Hausa".to_owned(),
            Language::Hebrew => "Hebrew".to_owned(),
            Language::Hindi => "Hindi".to_owned(),
            Language::HiriMotu => "HiriMotu".to_owned(),
            Language::Croatian => "Croatian".to_owned(),
            Language::HaitianCreole => "HaitianCreole".to_owned(),
            Language::Hungarian => "Hungarian".to_owned(),
            Language::Armenian => "Armenian".to_owned(),
            Language::Herero => "Herero".to_owned(),
            Language::Interlingua => "Interlingua".to_owned(),
            Language::Indonesian => "Indonesian".to_owned(),
            Language::Interlingue => "Interlingue".to_owned(),
            Language::Igbo => "Igbo".to_owned(),
            Language::SichuanYi => "SichuanYi".to_owned(),
            Language::Inupiaq => "Inupiaq".to_owned(),
            Language::Ido => "Ido".to_owned(),
            Language::Icelandic => "Icelandic".to_owned(),
            Language::Italian => "Italian".to_owned(),
            Language::Inuktitut => "Inuktitut".to_owned(),
            Language::Japanese => "Japanese".to_owned(),
            Language::Javanese => "Javanese".to_owned(),
            Language::Georgian => "Georgian".to_owned(),
            Language::Kongo => "Kongo".to_owned(),
            Language::Kikuyu => "Kikuyu".to_owned(),
            Language::Kuanyama => "Kuanyama".to_owned(),
            Language::Kazakh => "Kazakh".to_owned(),
            Language::Kalaallisut => "Kalaallisut".to_owned(),
            Language::CentralKhmer => "CentralKhmer".to_owned(),
            Language::Kannada => "Kannada".to_owned(),
            Language::Korean => "Korean".to_owned(),
            Language::Kanuri => "Kanuri".to_owned(),
            Language::Kashmiri => "Kashmiri".to_owned(),
            Language::Kurdish => "Kurdish".to_owned(),
            Language::Komi => "Komi".to_owned(),
            Language::Cornish => "Cornish".to_owned(),
            Language::Kirghiz => "Kirghiz".to_owned(),
            Language::Latin => "Latin".to_owned(),
            Language::Luxembourgish => "Luxembourgish".to_owned(),
            Language::Ganda => "Ganda".to_owned(),
            Language::Limburgish => "Limburgish".to_owned(),
            Language::Lingala => "Lingala".to_owned(),
            Language::Lao => "Lao".to_owned(),
            Language::Lithuanian => "Lithuanian".to_owned(),
            Language::LubaKatanga => "LubaKatanga".to_owned(),
            Language::Latvian => "Latvian".to_owned(),
            Language::Malagasy => "Malagasy".to_owned(),
            Language::Marshallese => "Marshallese".to_owned(),
            Language::Maori => "Maori".to_owned(),
            Language::Macedonian => "Macedonian".to_owned(),
            Language::Malayalam => "Malayalam".to_owned(),
            Language::Mongolian => "Mongolian".to_owned(),
            Language::Marathi => "Marathi".to_owned(),
            Language::Malay => "Malay".to_owned(),
            Language::Maltese => "Maltese".to_owned(),
            Language::Burmese => "Burmese".to_owned(),
            Language::Nauru => "Nauru".to_owned(),
            Language::NorwegianBokmal => "NorwegianBokmal".to_owned(),
            Language::NorthNdebele => "NorthNdebele".to_owned(),
            Language::Nepali => "Nepali".to_owned(),
            Language::Ndonga => "Ndonga".to_owned(),
            Language::Dutch => "Dutch".to_owned(),
            Language::NorwegianNynorsk => "NorwegianNynorsk".to_owned(),
            Language::Norwegian => "Norwegian".to_owned(),
            Language::SouthNdebele => "SouthNdebele".to_owned(),
            Language::Navajo => "Navajo".to_owned(),
            Language::Chichewa => "Chichewa".to_owned(),
            Language::Occitan => "Occitan".to_owned(),
            Language::Ojibwe => "Ojibwe".to_owned(),
            Language::Oromo => "Oromo".to_owned(),
            Language::Oriya => "Oriya".to_owned(),
            Language::Ossetian => "Ossetian".to_owned(),
            Language::Panjabi => "Panjabi".to_owned(),
            Language::Pali => "Pali".to_owned(),
            Language::Polish => "Polish".to_owned(),
            Language::Pushto => "Pushto".to_owned(),
            Language::Portuguese => "Portuguese".to_owned(),
            Language::Quechua => "Quechua".to_owned(),
            Language::Romansh => "Romansh".to_owned(),
            Language::Rundi => "Rundi".to_owned(),
            Language::Romanian => "Romanian".to_owned(),
            Language::Russian => "Russian".to_owned(),
            Language::Kinyarwanda => "Kinyarwanda".to_owned(),
            Language::Sanskrit => "Sanskrit".to_owned(),
            Language::Sardinian => "Sardinian".to_owned(),
            Language::Sindhi => "Sindhi".to_owned(),
            Language::NorthernSami => "NorthernSami".to_owned(),
            Language::Sango => "Sango".to_owned(),
            Language::Sinhalese => "Sinhalese".to_owned(),
            Language::Slovak => "Slovak".to_owned(),
            Language::Slovenian => "Slovenian".to_owned(),
            Language::Samoan => "Samoan".to_owned(),
            Language::Shona => "Shona".to_owned(),
            Language::Somali => "Somali".to_owned(),
            Language::Albanian => "Albanian".to_owned(),
            Language::Serbian => "Serbian".to_owned(),
            Language::Swati => "Swati".to_owned(),
            Language::SothoSouthern => "SothoSouthern".to_owned(),
            Language::Sundanese => "Sundanese".to_owned(),
            Language::Swedish => "Swedish".to_owned(),
            Language::Swahili => "Swahili".to_owned(),
            Language::Tamil => "Tamil".to_owned(),
            Language::Telugu => "Telugu".to_owned(),
            Language::Tajik => "Tajik".to_owned(),
            Language::Thai => "Thai".to_owned(),
            Language::Tigrinya => "Tigrinya".to_owned(),
            Language::Turkmen => "Turkmen".to_owned(),
            Language::Tagalog => "Tagalog".to_owned(),
            Language::Tswana => "Tswana".to_owned(),
            Language::Tonga => "Tonga".to_owned(),
            Language::Turkish => "Turkish".to_owned(),
            Language::Tsonga => "Tsonga".to_owned(),
            Language::Tatar => "Tatar".to_owned(),
            Language::Twi => "Twi".to_owned(),
            Language::Tahitian => "Tahitian".to_owned(),
            Language::Uighur => "Uighur".to_owned(),
            Language::Ukrainian => "Ukrainian".to_owned(),
            Language::Urdu => "Urdu".to_owned(),
            Language::Uzbek => "Uzbek".to_owned(),
            Language::Venda => "Venda".to_owned(),
            Language::Vietnamese => "Vietnamese".to_owned(),
            Language::Volapuk => "Volapuk".to_owned(),
            Language::Walloon => "Walloon".to_owned(),
            Language::Wolof => "Wolof".to_owned(),
            Language::Xhosa => "Xhosa".to_owned(),
            Language::Yiddish => "Yiddish".to_owned(),
            Language::Yoruba => "Yoruba".to_owned(),
            Language::Zhuang => "Zhuang".to_owned(),
            Language::Chinese => "Chinese".to_owned(),
            Language::Zulu => "Zulu".to_owned(),
        }
    }
}

/// The error of parsing a string that names no known language.
#[derive(Debug)]
pub struct ParseLanguageError;

impl core::str::FromStr for Language {
    type Err = ParseLanguageError;

    fn from_str(s: &str) -> Result<Language, ParseLanguageError> {
        match Language::from_code(s) {
            Some(l) => Ok(l),
            None => Err(ParseLanguageError {  }),
        }
    }
}

} // verus!
