//! The languages a translation can be requested in, with their display
//! names and the codes the translation services take.
use vstd::prelude::*;

verus! {

/// A target language for translation.
#[derive(Clone, Copy, Debug, PartialEq, Eq, Hash, Structural)]
pub enum Language {
    Afrikaans,
    Albanian,
    Amharic,
    Arabic,
    Armenian,
    Assamese,
    Aymara,
    Azerbaijani,
    Bambara,
    Basque,
    Belarusian,
    Bengali,
    Bhojpuri,
    Bosnian,
    Bulgarian,
    Catalan,
    Cebuano,
    ChineseSimplified,
    ChineseTraditional,
    Corsican,
    Croatian,
    Czech,
    Danish,
    Dhivehi,
    Dogri,
    Dutch,
    English,
    Esperanto,
    Estonian,
    Ewe,
    Filipino,
    Finnish,
    French,
    Frisian,
    Galician,
    Georgian,
    German,
    Greek,
    Guarani,
    Gujarati,
    HaitianCreole,
    Hausa,
    Hawaiian,
    Hebrew,
    Hindi,
    Hmong,
    Hungarian,
    Icelandic,
    Igbo,
    Ilocano,
    Indonesian,
    Irish,
    Italian,
    Japanese,
    Javanese,
    Kannada,
    Kazakh,
    Khmer,
    Kinyarwanda,
    Konkani,
    Korean,
    Krio,
    KurdishKurmanji,
    KurdishSorani,
    Kyrgyz,
    Lao,
    Latin,
    Latvian,
    Lingala,
    Lithuanian,
    Luganda,
    Luxembourgish,
    Macedonian,
    Maithili,
    Malagasy,
    Malay,
    Malayalam,
    Maltese,
    Maori,
    Marathi,
    Meiteilon,
    Mizo,
    Mongolian,
    Myanmar,
    Nepali,
    Norwegian,
    Nyanja,
    Odia,
    Oromo,
    Pashto,
    Persian,
    Polish,
    Portuguese,
    Punjabi,
    Quechua,
    Romanian,
    Russian,
    Samoan,
    Sanskrit,
    ScotsGaelic,
    Sepedi,
    Serbian,
    Sesotho,
    Shona,
    Sindhi,
    Sinhala,
    Slovak,
    Slovenian,
    Somali,
    Spanish,
    Sundanese,
    Swahili,
    Swedish,
    Tajik,
    Tamil,
    Tatar,
    Telugu,
    Thai,
    Tigrinya,
    Tsonga,
    Turkish,
    Turkmen,
    Twi,
    Ukrainian,
    Urdu,
    Uyghur,
    Uzbek,
    Vietnamese,
    Welsh,
    Xhosa,
    Yiddish,
    Yoruba,
    Zulu,
}

/// How many languages there are.
pub const LANGUAGE_COUNT: usize = 133;

/// The language at position `i` of the picker order.
pub open spec fn language_at(i: int) -> Language {
    if i == 0 {
        Language::Afrikaans
    } else if i == 1 {
        Language::Albanian
    } else if i == 2 {
        Language::Amharic
    } else if i == 3 {
        Language::Arabic
    } else if i == 4 {
        Language::Armenian
    } else if i == 5 {
        Language::Assamese
    } else if i == 6 {
        Language::Aymara
    } else if i == 7 {
        Language::Azerbaijani
    } else if i == 8 {
        Language::Bambara
    } else if i == 9 {
        Language::Basque
    } else if i == 10 {
        Language::Belarusian
    } else if i == 11 {
        Language::Bengali
    } else if i == 12 {
        Language::Bhojpuri
    } else if i == 13 {
        Language::Bosnian
    } else if i == 14 {
        Language::Bulgarian
    } else if i == 15 {
        Language::Catalan
    } else if i == 16 {
        Language::Cebuano
    } else if i == 17 {
        Language::ChineseSimplified
    } else if i == 18 {
        Language::ChineseTraditional
    } else if i == 19 {
        Language::Corsican
    } else if i == 20 {
        Language::Croatian
    } else if i == 21 {
        Language::Czech
    } else if i == 22 {
        Language::Danish
    } else if i == 23 {
        Language::Dhivehi
    } else if i == 24 {
        Language::Dogri
    } else if i == 25 {
        Language::Dutch
    } else if i == 26 {
        Language::English
    } else if i == 27 {
        Language::Esperanto
    } else if i == 28 {
        Language::Estonian
    } else if i == 29 {
        Language::Ewe
    } else if i == 30 {
        Language::Filipino
    } else if i == 31 {
        Language::Finnish
    } else if i == 32 {
        Language::French
    } else if i == 33 {
        Language::Frisian
    } else if i == 34 {
        Language::Galician
    } else if i == 35 {
        Language::Georgian
    } else if i == 36 {
        Language::German
    } else if i == 37 {
        Language::Greek
    } else if i == 38 {
        Language::Guarani
    } else if i == 39 {
        Language::Gujarati
    } else if i == 40 {
        Language::HaitianCreole
    } else if i == 41 {
        Language::Hausa
    } else if i == 42 {
        Language::Hawaiian
    } else if i == 43 {
        Language::Hebrew
    } else if i == 44 {
        Language::Hindi
    } else if i == 45 {
        Language::Hmong
    } else if i == 46 {
        Language::Hungarian
    } else if i == 47 {
        Language::Icelandic
    } else if i == 48 {
        Language::Igbo
    } else if i == 49 {
        Language::Ilocano
    } else if i == 50 {
        Language::Indonesian
    } else if i == 51 {
        Language::Irish
    } else if i == 52 {
        Language::Italian
    } else if i == 53 {
        Language::Japanese
    } else if i == 54 {
        Language::Javanese
    } else if i == 55 {
        Language::Kannada
    } else if i == 56 {
        Language::Kazakh
    } else if i == 57 {
        Language::Khmer
    } else if i == 58 {
        Language::Kinyarwanda
    } else if i == 59 {
        Language::Konkani
    } else if i == 60 {
        Language::Korean
    } else if i == 61 {
        Language::Krio
    } else if i == 62 {
        Language::KurdishKurmanji
    } else if i == 63 {
        Language::KurdishSorani
    } else if i == 64 {
        Language::Kyrgyz
    } else if i == 65 {
        Language::Lao
    } else if i == 66 {
        Language::Latin
    } else if i == 67 {
        Language::Latvian
    } else if i == 68 {
        Language::Lingala
    } else if i == 69 {
        Language::Lithuanian
    } else if i == 70 {
        Language::Luganda
    } else if i == 71 {
        Language::Luxembourgish
    } else if i == 72 {
        Language::Macedonian
    } else if i == 73 {
        Language::Maithili
    } else if i == 74 {
        Language::Malagasy
    } else if i == 75 {
        Language::Malay
    } else if i == 76 {
        Language::Malayalam
    } else if i == 77 {
        Language::Maltese
    } else if i == 78 {
        Language::Maori
    } else if i == 79 {
        Language::Marathi
    } else if i == 80 {
        Language::Meiteilon
    } else if i == 81 {
        Language::Mizo
    } else if i == 82 {
        Language::Mongolian
    } else if i == 83 {
        Language::Myanmar
    } else if i == 84 {
        Language::Nepali
    } else if i == 85 {
        Language::Norwegian
    } else if i == 86 {
        Language::Nyanja
    } else if i == 87 {
        Language::Odia
    } else if i == 88 {
        Language::Oromo
    } else if i == 89 {
        Language::Pashto
    } else if i == 90 {
        Language::Persian
    } else if i == 91 {
        Language::Polish
    } else if i == 92 {
        Language::Portuguese
    } else if i == 93 {
        Language::Punjabi
    } else if i == 94 {
        Language::Quechua
    } else if i == 95 {
        Language::Romanian
    } else if i == 96 {
        Language::Russian
    } else if i == 97 {
        Language::Samoan
    } else if i == 98 {
        Language::Sanskrit
    } else if i == 99 {
        Language::ScotsGaelic
    } else if i == 100 {
        Language::Sepedi
    } else if i == 101 {
        Language::Serbian
    } else if i == 102 {
        Language::Sesotho
    } else if i == 103 {
        Language::Shona
    } else if i == 104 {
        Language::Sindhi
    } else if i == 105 {
        Language::Sinhala
    } else if i == 106 {
        Language::Slovak
    } else if i == 107 {
        Language::Slovenian
    } else if i == 108 {
        Language::Somali
    } else if i == 109 {
        Language::Spanish
    } else if i == 110 {
        Language::Sundanese
    } else if i == 111 {
        Language::Swahili
    } else if i == 112 {
        Language::Swedish
    } else if i == 113 {
        Language::Tajik
    } else if i == 114 {
        Language::Tamil
    } else if i == 115 {
        Language::Tatar
    } else if i == 116 {
        Language::Telugu
    } else if i == 117 {
        Language::Thai
    } else if i == 118 {
        Language::Tigrinya
    } else if i == 119 {
        Language::Tsonga
    } else if i == 120 {
        Language::Turkish
    } else if i == 121 {
        Language::Turkmen
    } else if i == 122 {
        Language::Twi
    } else if i == 123 {
        Language::Ukrainian
    } else if i == 124 {
        Language::Urdu
    } else if i == 125 {
        Language::Uyghur
    } else if i == 126 {
        Language::Uzbek
    } else if i == 127 {
        Language::Vietnamese
    } else if i == 128 {
        Language::Welsh
    } else if i == 129 {
        Language::Xhosa
    } else if i == 130 {
        Language::Yiddish
    } else if i == 131 {
        Language::Yoruba
    } else {
        Language::Zulu
    }
}

/// The position of `l` in the picker order.
pub open spec fn index_of(l: Language) -> int {
    match l {
        Language::Afrikaans => 0,
        Language::Albanian => 1,
        Language::Amharic => 2,
        Language::Arabic => 3,
        Language::Armenian => 4,
        Language::Assamese => 5,
        Language::Aymara => 6,
        Language::Azerbaijani => 7,
        Language::Bambara => 8,
        Language::Basque => 9,
        Language::Belarusian => 10,
        Language::Bengali => 11,
        Language::Bhojpuri => 12,
        Language::Bosnian => 13,
        Language::Bulgarian => 14,
        Language::Catalan => 15,
        Language::Cebuano => 16,
        Language::ChineseSimplified => 17,
        Language::ChineseTraditional => 18,
        Language::Corsican => 19,
        Language::Croatian => 20,
        Language::Czech => 21,
        Language::Danish => 22,
        Language::Dhivehi => 23,
        Language::Dogri => 24,
        Language::Dutch => 25,
        Language::English => 26,
        Language::Esperanto => 27,
        Language::Estonian => 28,
        Language::Ewe => 29,
        Language::Filipino => 30,
        Language::Finnish => 31,
        Language::French => 32,
        Language::Frisian => 33,
        Language::Galician => 34,
        Language::Georgian => 35,
        Language::German => 36,
        Language::Greek => 37,
        Language::Guarani => 38,
        Language::Gujarati => 39,
        Language::HaitianCreole => 40,
        Language::Hausa => 41,
        Language::Hawaiian => 42,
        Language::Hebrew => 43,
        Language::Hindi => 44,
        Language::Hmong => 45,
        Language::Hungarian => 46,
        Language::Icelandic => 47,
        Language::Igbo => 48,
        Language::Ilocano => 49,
        Language::Indonesian => 50,
        Language::Irish => 51,
        Language::Italian => 52,
        Language::Japanese => 53,
        Language::Javanese => 54,
        Language::Kannada => 55,
        Language::Kazakh => 56,
        Language::Khmer => 57,
        Language::Kinyarwanda => 58,
        Language::Konkani => 59,
        Language::Korean => 60,
        Language::Krio => 61,
        Language::KurdishKurmanji => 62,
        Language::KurdishSorani => 63,
        Language::Kyrgyz => 64,
        Language::Lao => 65,
        Language::Latin => 66,
        Language::Latvian => 67,
        Language::Lingala => 68,
        Language::Lithuanian => 69,
        Language::Luganda => 70,
        Language::Luxembourgish => 71,
        Language::Macedonian => 72,
        Language::Maithili => 73,
        Language::Malagasy => 74,
        Language::Malay => 75,
        Language::Malayalam => 76,
        Language::Maltese => 77,
        Language::Maori => 78,
        Language::Marathi => 79,
        Language::Meiteilon => 80,
        Language::Mizo => 81,
        Language::Mongolian => 82,
        Language::Myanmar => 83,
        Language::Nepali => 84,
        Language::Norwegian => 85,
        Language::Nyanja => 86,
        Language::Odia => 87,
        Language::Oromo => 88,
        Language::Pashto => 89,
        Language::Persian => 90,
        Language::Polish => 91,
        Language::Portuguese => 92,
        Language::Punjabi => 93,
        Language::Quechua => 94,
        Language::Romanian => 95,
        Language::Russian => 96,
        Language::Samoan => 97,
        Language::Sanskrit => 98,
        Language::ScotsGaelic => 99,
        Language::Sepedi => 100,
        Language::Serbian => 101,
        Language::Sesotho => 102,
        Language::Shona => 103,
        Language::Sindhi => 104,
        Language::Sinhala => 105,
        Language::Slovak => 106,
        Language::Slovenian => 107,
        Language::Somali => 108,
        Language::Spanish => 109,
        Language::Sundanese => 110,
        Language::Swahili => 111,
        Language::Swedish => 112,
        Language::Tajik => 113,
        Language::Tamil => 114,
        Language::Tatar => 115,
        Language::Telugu => 116,
        Language::Thai => 117,
        Language::Tigrinya => 118,
        Language::Tsonga => 119,
        Language::Turkish => 120,
        Language::Turkmen => 121,
        Language::Twi => 122,
        Language::Ukrainian => 123,
        Language::Urdu => 124,
        Language::Uyghur => 125,
        Language::Uzbek => 126,
        Language::Vietnamese => 127,
        Language::Welsh => 128,
        Language::Xhosa => 129,
        Language::Yiddish => 130,
        Language::Yoruba => 131,
        Language::Zulu => 132,
    }
}

/// The name the picker shows for `l`.
pub open spec fn display_name(l: Language) -> Seq<char> {
    match l {
        Language::Afrikaans => "Afrikaans"@,
        Language::Albanian => "Albanian"@,
        Language::Amharic => "Amharic"@,
        Language::Arabic => "Arabic"@,
        Language::Armenian => "Armenian"@,
        Language::Assamese => "Assamese"@,
        Language::Aymara => "Aymara"@,
        Language::Azerbaijani => "Azerbaijani"@,
        Language::Bambara => "Bambara"@,
        Language::Basque => "Basque"@,
        Language::Belarusian => "Belarusian"@,
        Language::Bengali => "Bengali"@,
        Language::Bhojpuri => "Bhojpuri"@,
        Language::Bosnian => "Bosnian"@,
        Language::Bulgarian => "Bulgarian"@,
        Language::Catalan => "Catalan"@,
        Language::Cebuano => "Cebuano"@,
        Language::ChineseSimplified => "Chinese (Simplified)"@,
        Language::ChineseTraditional => "Chinese (Traditional)"@,
        Language::Corsican => "Corsican"@,
        Language::Croatian => "Croatian"@,
        Language::Czech => "Czech"@,
        Language::Danish => "Danish"@,
        Language::Dhivehi => "Dhivehi"@,
        Language::Dogri => "Dogri"@,
        Language::Dutch => "Dutch"@,
        Language::English => "English"@,
        Language::Esperanto => "Esperanto"@,
        Language::Estonian => "Estonian"@,
        Language::Ewe => "Ewe"@,
        Language::Filipino => "Filipino"@,
        Language::Finnish => "Finnish"@,
        Language::French => "French"@,
        Language::Frisian => "Frisian"@,
        Language::Galician => "Galician"@,
        Language::Georgian => "Georgian"@,
        Language::German => "German"@,
        Language::Greek => "Greek"@,
        Language::Guarani => "Guarani"@,
        Language::Gujarati => "Gujarati"@,
        Language::HaitianCreole => "Haitian Creole"@,
        Language::Hausa => "Hausa"@,
        Language::Hawaiian => "Hawaiian"@,
        Language::Hebrew => "Hebrew"@,
        Language::Hindi => "Hindi"@,
        Language::Hmong => "Hmong"@,
        Language::Hungarian => "Hungarian"@,
        Language::Icelandic => "Icelandic"@,
        Language::Igbo => "Igbo"@,
        Language::Ilocano => "Ilocano"@,
        Language::Indonesian => "Indonesian"@,
        Language::Irish => "Irish"@,
        Language::Italian => "Italian"@,
        Language::Japanese => "Japanese"@,
        Language::Javanese => "Javanese"@,
        Language::Kannada => "Kannada"@,
        Language::Kazakh => "Kazakh"@,
        Language::Khmer => "Khmer"@,
        Language::Kinyarwanda => "Kinyarwanda"@,
        Language::Konkani => "Konkani"@,
        Language::Korean => "Korean"@,
        Language::Krio => "Krio"@,
        Language::KurdishKurmanji => "Kurdish (Kurmanji)"@,
        Language::KurdishSorani => "Kurdish (Sorani)"@,
        Language::Kyrgyz => "Kyrgyz"@,
        Language::Lao => "Lao"@,
        Language::Latin => "Latin"@,
        Language::Latvian => "Latvian"@,
        Language::Lingala => "Lingala"@,
        Language::Lithuanian => "Lithuanian"@,
        Language::Luganda => "Luganda"@,
        Language::Luxembourgish => "Luxembourgish"@,
        Language::Macedonian => "Macedonian"@,
        Language::Maithili => "Maithili"@,
        Language::Malagasy => "Malagasy"@,
        Language::Malay => "Malay"@,
        Language::Malayalam => "Malayalam"@,
        Language::Maltese => "Maltese"@,
        Language::Maori => "Maori"@,
        Language::Marathi => "Marathi"@,
        Language::Meiteilon => "Meiteilon (Manipuri)"@,
        Language::Mizo => "Mizo"@,
        Language::Mongolian => "Mongolian"@,
        Language::Myanmar => "Myanmar (Burmese)"@,
        Language::Nepali => "Nepali"@,
        Language::Norwegian => "Norwegian"@,
        Language::Nyanja => "Nyanja (Chichewa)"@,
        Language::Odia => "Odia (Oriya)"@,
        Language::Oromo => "Oromo"@,
        Language::Pashto => "Pashto"@,
        Language::Persian => "Persian"@,
        Language::Polish => "Polish"@,
        Language::Portuguese => "Portuguese"@,
        Language::Punjabi => "Punjabi"@,
        Language::Quechua => "Quechua"@,
        Language::Romanian => "Romanian"@,
        Language::Russian => "Russian"@,
        Language::Samoan => "Samoan"@,
        Language::Sanskrit => "Sanskrit"@,
        Language::ScotsGaelic => "Scots Gaelic"@,
        Language::Sepedi => "Sepedi"@,
        Language::Serbian => "Serbian"@,
        Language::Sesotho => "Sesotho"@,
        Language::Shona => "Shona"@,
        Language::Sindhi => "Sindhi"@,
        Language::Sinhala => "Sinhala"@,
        Language::Slovak => "Slovak"@,
        Language::Slovenian => "Slovenian"@,
        Language::Somali => "Somali"@,
        Language::Spanish => "Spanish"@,
        Language::Sundanese => "Sundanese"@,
        Language::Swahili => "Swahili"@,
        Language::Swedish => "Swedish"@,
        Language::Tajik => "Tajik"@,
        Language::Tamil => "Tamil"@,
        Language::Tatar => "Tatar"@,
        Language::Telugu => "Telugu"@,
        Language::Thai => "Thai"@,
        Language::Tigrinya => "Tigrinya"@,
        Language::Tsonga => "Tsonga"@,
        Language::Turkish => "Turkish"@,
        Language::Turkmen => "Turkmen"@,
        Language::Twi => "Twi"@,
        Language::Ukrainian => "Ukrainian"@,
        Language::Urdu => "Urdu"@,
        Language::Uyghur => "Uyghur"@,
        Language::Uzbek => "Uzbek"@,
        Language::Vietnamese => "Vietnamese"@,
        Language::Welsh => "Welsh"@,
        Language::Xhosa => "Xhosa"@,
        Language::Yiddish => "Yiddish"@,
        Language::Yoruba => "Yoruba"@,
        Language::Zulu => "Zulu"@,
    }
}

/// The code the translation services take for `l`.
pub open spec fn service_code(l: Language) -> Seq<char> {
    match l {
        Language::Afrikaans => "af"@,
        Language::Albanian => "sq"@,
        Language::Amharic => "am"@,
        Language::Arabic => "ar"@,
        Language::Armenian => "hy"@,
        Language::Assamese => "as"@,
        Language::Aymara => "ay"@,
        Language::Azerbaijani => "az"@,
        Language::Bambara => "bm"@,
        Language::Basque => "eu"@,
        Language::Belarusian => "be"@,
        Language::Bengali => "bn"@,
        Language::Bhojpuri => "bho"@,
        Language::Bosnian => "bs"@,
        Language::Bulgarian => "bg"@,
        Language::Catalan => "ca"@,
        Language::Cebuano => "ceb"@,
        Language::ChineseSimplified => "zh-CN"@,
        Language::ChineseTraditional => "zh-TW"@,
        Language::Corsican => "co"@,
        Language::Croatian => "hr"@,
        Language::Czech => "cs"@,
        Language::Danish => "da"@,
        Language::Dhivehi => "dv"@,
        Language::Dogri => "doi"@,
        Language::Dutch => "nl"@,
        Language::English => "en"@,
        Language::Esperanto => "eo"@,
        Language::Estonian => "et"@,
        Language::Ewe => "ee"@,
        Language::Filipino => "fil"@,
        Language::Finnish => "fi"@,
        Language::French => "fr"@,
        Language::Frisian => "fy"@,
        Language::Galician => "gl"@,
        Language::Georgian => "ka"@,
        Language::German => "de"@,
        Language::Greek => "el"@,
        Language::Guarani => "gn"@,
        Language::Gujarati => "gu"@,
        Language::HaitianCreole => "ht"@,
        Language::Hausa => "ha"@,
        Language::Hawaiian => "haw"@,
        Language::Hebrew => "iw"@,
        Language::Hindi => "hi"@,
        Language::Hmong => "hmn"@,
        Language::Hungarian => "hu"@,
        Language::Icelandic => "is"@,
        Language::Igbo => "ig"@,
        Language::Ilocano => "ilo"@,
        Language::Indonesian => "id"@,
        Language::Irish => "ga"@,
        Language::Italian => "it"@,
        Language::Japanese => "ja"@,
        Language::Javanese => "jw"@,
        Language::Kannada => "kn"@,
        Language::Kazakh => "kk"@,
        Language::Khmer => "km"@,
        Language::Kinyarwanda => "rw"@,
        Language::Konkani => "gom"@,
        Language::Korean => "ko"@,
        Language::Krio => "kri"@,
        Language::KurdishKurmanji => "ku"@,
        Language::KurdishSorani => "ckb"@,
        Language::Kyrgyz => "ky"@,
        Language::Lao => "lo"@,
        Language::Latin => "la"@,
        Language::Latvian => "lv"@,
        Language::Lingala => "ln"@,
        Language::Lithuanian => "lt"@,
        Language::Luganda => "lg"@,
        Language::Luxembourgish => "lb"@,
        Language::Macedonian => "mk"@,
        Language::Maithili => "mai"@,
        Language::Malagasy => "mg"@,
        Language::Malay => "ms"@,
        Language::Malayalam => "ml"@,
        Language::Maltese => "mt"@,
        Language::Maori => "mi"@,
        Language::Marathi => "mr"@,
        Language::Meiteilon => "mni-Mtei"@,
        Language::Mizo => "lus"@,
        Language::Mongolian => "mn"@,
        Language::Myanmar => "my"@,
        Language::Nepali => "ne"@,
        Language::Norwegian => "no"@,
        Language::Nyanja => "ny"@,
        Language::Odia => "or"@,
        Language::Oromo => "om"@,
        Language::Pashto => "ps"@,
        Language::Persian => "fa"@,
        Language::Polish => "pl"@,
        Language::Portuguese => "pt"@,
        Language::Punjabi => "pa"@,
        Language::Quechua => "qu"@,
        Language::Romanian => "ro"@,
        Language::Russian => "ru"@,
        Language::Samoan => "sm"@,
        Language::Sanskrit => "sa"@,
        Language::ScotsGaelic => "gd"@,
        Language::Sepedi => "nso"@,
        Language::Serbian => "sr"@,
        Language::Sesotho => "st"@,
        Language::Shona => "sn"@,
        Language::Sindhi => "sd"@,
        Language::Sinhala => "si"@,
        Language::Slovak => "sk"@,
        Language::Slovenian => "sl"@,
        Language::Somali => "so"@,
        Language::Spanish => "es"@,
        Language::Sundanese => "su"@,
        Language::Swahili => "sw"@,
        Language::Swedish => "sv"@,
        Language::Tajik => "tg"@,
        Language::Tamil => "ta"@,
        Language::Tatar => "tt"@,
        Language::Telugu => "te"@,
        Language::Thai => "th"@,
        Language::Tigrinya => "ti"@,
        Language::Tsonga => "ts"@,
        Language::Turkish => "tr"@,
        Language::Turkmen => "tk"@,
        Language::Twi => "ak"@,
        Language::Ukrainian => "uk"@,
        Language::Urdu => "ur"@,
        Language::Uyghur => "ug"@,
        Language::Uzbek => "uz"@,
        Language::Vietnamese => "vi"@,
        Language::Welsh => "cy"@,
        Language::Xhosa => "xh"@,
        Language::Yiddish => "yi"@,
        Language::Yoruba => "yo"@,
        Language::Zulu => "zu"@,
    }
}

/// The two written forms of Chinese.
pub open spec fn is_chinese_language(l: Language) -> bool {
    l == Language::ChineseSimplified || l == Language::ChineseTraditional
}

/// Every language, in picker order.
pub open spec fn all_languages() -> Seq<Language> {
    Seq::new(LANGUAGE_COUNT as nat, |i: int| language_at(i))
}

/// `s` with the Chinese languages left out, order kept.
pub open spec fn without_chinese(s: Seq<Language>) -> Seq<Language>
    decreases s.len(),
{
    if s.len() == 0 {
        seq![]
    } else if is_chinese_language(s.last()) {
        without_chinese(s.drop_last())
    } else {
        without_chinese(s.drop_last()).push(s.last())
    }
}

impl Language {
    /// The language at position `i` of the picker order.
    fn at(i: usize) -> (l: Language)
        requires
            i < LANGUAGE_COUNT,
        ensures
            l == language_at(i as int),
    {
        match i {
            0 => Language::Afrikaans,
            1 => Language::Albanian,
            2 => Language::Amharic,
            3 => Language::Arabic,
            4 => Language::Armenian,
            5 => Language::Assamese,
            6 => Language::Aymara,
            7 => Language::Azerbaijani,
            8 => Language::Bambara,
            9 => Language::Basque,
            10 => Language::Belarusian,
            11 => Language::Bengali,
            12 => Language::Bhojpuri,
            13 => Language::Bosnian,
            14 => Language::Bulgarian,
            15 => Language::Catalan,
            16 => Language::Cebuano,
            17 => Language::ChineseSimplified,
            18 => Language::ChineseTraditional,
            19 => Language::Corsican,
            20 => Language::Croatian,
            21 => Language::Czech,
            22 => Language::Danish,
            23 => Language::Dhivehi,
            24 => Language::Dogri,
            25 => Language::Dutch,
            26 => Language::English,
            27 => Language::Esperanto,
            28 => Language::Estonian,
            29 => Language::Ewe,
            30 => Language::Filipino,
            31 => Language::Finnish,
            32 => Language::French,
            33 => Language::Frisian,
            34 => Language::Galician,
            35 => Language::Georgian,
            36 => Language::German,
            37 => Language::Greek,
            38 => Language::Guarani,
            39 => Language::Gujarati,
            40 => Language::HaitianCreole,
            41 => Language::Hausa,
            42 => Language::Hawaiian,
            43 => Language::Hebrew,
            44 => Language::Hindi,
            45 => Language::Hmong,
            46 => Language::Hungarian,
            47 => Language::Icelandic,
            48 => Language::Igbo,
            49 => Language::Ilocano,
            50 => Language::Indonesian,
            51 => Language::Irish,
            52 => Language::Italian,
            53 => Language::Japanese,
            54 => Language::Javanese,
            55 => Language::Kannada,
            56 => Language::Kazakh,
            57 => Language::Khmer,
            58 => Language::Kinyarwanda,
            59 => Language::Konkani,
            60 => Language::Korean,
            61 => Language::Krio,
            62 => Language::KurdishKurmanji,
            63 => Language::KurdishSorani,
            64 => Language::Kyrgyz,
            65 => Language::Lao,
            66 => Language::Latin,
            67 => Language::Latvian,
            68 => Language::Lingala,
            69 => Language::Lithuanian,
            70 => Language::Luganda,
            71 => Language::Luxembourgish,
            72 => Language::Macedonian,
            73 => Language::Maithili,
            74 => Language::Malagasy,
            75 => Language::Malay,
            76 => Language::Malayalam,
            77 => Language::Maltese,
            78 => Language::Maori,
            79 => Language::Marathi,
            80 => Language::Meiteilon,
            81 => Language::Mizo,
            82 => Language::Mongolian,
            83 => Language::Myanmar,
            84 => Language::Nepali,
            85 => Language::Norwegian,
            86 => Language::Nyanja,
            87 => Language::Odia,
            88 => Language::Oromo,
            89 => Language::Pashto,
            90 => Language::Persian,
            91 => Language::Polish,
            92 => Language::Portuguese,
            93 => Language::Punjabi,
            94 => Language::Quechua,
            95 => Language::Romanian,
            96 => Language::Russian,
            97 => Language::Samoan,
            98 => Language::Sanskrit,
            99 => Language::ScotsGaelic,
            100 => Language::Sepedi,
            101 => Language::Serbian,
            102 => Language::Sesotho,
            103 => Language::Shona,
            104 => Language::Sindhi,
            105 => Language::Sinhala,
            106 => Language::Slovak,
            107 => Language::Slovenian,
            108 => Language::Somali,
            109 => Language::Spanish,
            110 => Language::Sundanese,
            111 => Language::Swahili,
            112 => Language::Swedish,
            113 => Language::Tajik,
            114 => Language::Tamil,
            115 => Language::Tatar,
            116 => Language::Telugu,
            117 => Language::Thai,
            118 => Language::Tigrinya,
            119 => Language::Tsonga,
            120 => Language::Turkish,
            121 => Language::Turkmen,
            122 => Language::Twi,
            123 => Language::Ukrainian,
            124 => Language::Urdu,
            125 => Language::Uyghur,
            126 => Language::Uzbek,
            127 => Language::Vietnamese,
            128 => Language::Welsh,
            129 => Language::Xhosa,
            130 => Language::Yiddish,
            131 => Language::Yoruba,
            _ => Language::Zulu,
        }
    }

    /// Every language, in picker order.
    pub fn all() -> (r: Vec<Language>)
        ensures
            r@ == all_languages(),
    {
        let mut r: Vec<Language> = Vec::new();
        let mut i: usize = 0;
        while i < LANGUAGE_COUNT
            invariant
                i <= LANGUAGE_COUNT,
                r@ == all_languages().take(i as int),
            decreases LANGUAGE_COUNT - i,
        {
            r.push(Self::at(i));
            assert(all_languages().take(i + 1) == all_languages().take(i as int).push(language_at(i as int)));
            i = i + 1;
        }
        assert(all_languages().take(LANGUAGE_COUNT as int) == all_languages());
        r
    }

    /// The languages offered as translation targets: all but Chinese, which
    /// is the source language.
    pub fn all_for_picker() -> (r: Vec<Language>)
        ensures
            r@ == without_chinese(all_languages()),
    {
        let all = Self::all();
        let mut r: Vec<Language> = Vec::new();
        let n = all.len();
        assert(all@.take(0) == Seq::<Language>::empty());
        for i in 0..n
            invariant
                n == all@.len(),
                r@ == without_chinese(all@.take(i as int)),
        {
            assert(all@.take(i + 1).drop_last() == all@.take(i as int));
            if !all[i].is_chinese() {
                r.push(all[i]);
            }
        }
        assert(all@.take(n as int) == all@);
        r
    }

    /// The name shown for the language.
    pub fn name(&self) -> (r: &'static str)
        ensures
            r@ == display_name(*self),
    {
        match self {
            Language::Afrikaans => "Afrikaans",
            Language::Albanian => "Albanian",
            Language::Amharic => "Amharic",
            Language::Arabic => "Arabic",
            Language::Armenian => "Armenian",
            Language::Assamese => "Assamese",
            Language::Aymara => "Aymara",
            Language::Azerbaijani => "Azerbaijani",
            Language::Bambara => "Bambara",
            Language::Basque => "Basque",
            Language::Belarusian => "Belarusian",
            Language::Bengali => "Bengali",
            Language::Bhojpuri => "Bhojpuri",
            Language::Bosnian => "Bosnian",
            Language::Bulgarian => "Bulgarian",
            Language::Catalan => "Catalan",
            Language::Cebuano => "Cebuano",
            Language::ChineseSimplified => "Chinese (Simplified)",
            Language::ChineseTraditional => "Chinese (Traditional)",
            Language::Corsican => "Corsican",
            Language::Croatian => "Croatian",
            Language::Czech => "Czech",
            Language::Danish => "Danish",
            Language::Dhivehi => "Dhivehi",
            Language::Dogri => "Dogri",
            Language::Dutch => "Dutch",
            Language::English => "English",
            Language::Esperanto => "Esperanto",
            Language::Estonian => "Estonian",
            Language::Ewe => "Ewe",
            Language::Filipino => "Filipino",
            Language::Finnish => "Finnish",
            Language::French => "French",
            Language::Frisian => "Frisian",
            Language::Galician => "Galician",
            Language::Georgian => "Georgian",
            Language::German => "German",
            Language::Greek => "Greek",
            Language::Guarani => "Guarani",
            Language::Gujarati => "Gujarati",
            Language::HaitianCreole => "Haitian Creole",
            Language::Hausa => "Hausa",
            Language::Hawaiian => "Hawaiian",
            Language::Hebrew => "Hebrew",
            Language::Hindi => "Hindi",
            Language::Hmong => "Hmong",
            Language::Hungarian => "Hungarian",
            Language::Icelandic => "Icelandic",
            Language::Igbo => "Igbo",
            Language::Ilocano => "Ilocano",
            Language::Indonesian => "Indonesian",
            Language::Irish => "Irish",
            Language::Italian => "Italian",
            Language::Japanese => "Japanese",
            Language::Javanese => "Javanese",
            Language::Kannada => "Kannada",
            Language::Kazakh => "Kazakh",
            Language::Khmer => "Khmer",
            Language::Kinyarwanda => "Kinyarwanda",
            Language::Konkani => "Konkani",
            Language::Korean => "Korean",
            Language::Krio => "Krio",
            Language::KurdishKurmanji => "Kurdish (Kurmanji)",
            Language::KurdishSorani => "Kurdish (Sorani)",
            Language::Kyrgyz => "Kyrgyz",
            Language::Lao => "Lao",
            Language::Latin => "Latin",
            Language::Latvian => "Latvian",
            Language::Lingala => "Lingala",
            Language::Lithuanian => "Lithuanian",
            Language::Luganda => "Luganda",
            Language::Luxembourgish => "Luxembourgish",
            Language::Macedonian => "Macedonian",
            Language::Maithili => "Maithili",
            Language::Malagasy => "Malagasy",
            Language::Malay => "Malay",
            Language::Malayalam => "Malayalam",
            Language::Maltese => "Maltese",
            Language::Maori => "Maori",
            Language::Marathi => "Marathi",
            Language::Meiteilon => "Meiteilon (Manipuri)",
            Language::Mizo => "Mizo",
            Language::Mongolian => "Mongolian",
            Language::Myanmar => "Myanmar (Burmese)",
            Language::Nepali => "Nepali",
            Language::Norwegian => "Norwegian",
            Language::Nyanja => "Nyanja (Chichewa)",
            Language::Odia => "Odia (Oriya)",
            Language::Oromo => "Oromo",
            Language::Pashto => "Pashto",
            Language::Persian => "Persian",
            Language::Polish => "Polish",
            Language::Portuguese => "Portuguese",
            Language::Punjabi => "Punjabi",
            Language::Quechua => "Quechua",
            Language::Romanian => "Romanian",
            Language::Russian => "Russian",
            Language::Samoan => "Samoan",
            Language::Sanskrit => "Sanskrit",
            Language::ScotsGaelic => "Scots Gaelic",
            Language::Sepedi => "Sepedi",
            Language::Serbian => "Serbian",
            Language::Sesotho => "Sesotho",
            Language::Shona => "Shona",
            Language::Sindhi => "Sindhi",
            Language::Sinhala => "Sinhala",
            Language::Slovak => "Slovak",
            Language::Slovenian => "Slovenian",
            Language::Somali => "Somali",
            Language::Spanish => "Spanish",
            Language::Sundanese => "Sundanese",
            Language::Swahili => "Swahili",
            Language::Swedish => "Swedish",
            Language::Tajik => "Tajik",
            Language::Tamil => "Tamil",
            Language::Tatar => "Tatar",
            Language::Telugu => "Telugu",
            Language::Thai => "Thai",
            Language::Tigrinya => "Tigrinya",
            Language::Tsonga => "Tsonga",
            Language::Turkish => "Turkish",
            Language::Turkmen => "Turkmen",
            Language::Twi => "Twi",
            Language::Ukrainian => "Ukrainian",
            Language::Urdu => "Urdu",
            Language::Uyghur => "Uyghur",
            Language::Uzbek => "Uzbek",
            Language::Vietnamese => "Vietnamese",
            Language::Welsh => "Welsh",
            Language::Xhosa => "Xhosa",
            Language::Yiddish => "Yiddish",
            Language::Yoruba => "Yoruba",
            Language::Zulu => "Zulu",
        }
    }

    /// The code the translation services take for the language.
    pub fn google_code(&self) -> (r: &'static str)
        ensures
            r@ == service_code(*self),
    {
        match self {
            Language::Afrikaans => "af",
            Language::Albanian => "sq",
            Language::Amharic => "am",
            Language::Arabic => "ar",
            Language::Armenian => "hy",
            Language::Assamese => "as",
            Language::Aymara => "ay",
            Language::Azerbaijani => "az",
            Language::Bambara => "bm",
            Language::Basque => "eu",
            Language::Belarusian => "be",
            Language::Bengali => "bn",
            Language::Bhojpuri => "bho",
            Language::Bosnian => "bs",
            Language::Bulgarian => "bg",
            Language::Catalan => "ca",
            Language::Cebuano => "ceb",
            Language::ChineseSimplified => "zh-CN",
            Language::ChineseTraditional => "zh-TW",
            Language::Corsican => "co",
            Language::Croatian => "hr",
            Language::Czech => "cs",
            Language::Danish => "da",
            Language::Dhivehi => "dv",
            Language::Dogri => "doi",
            Language::Dutch => "nl",
            Language::English => "en",
            Language::Esperanto => "eo",
            Language::Estonian => "et",
            Language::Ewe => "ee",
            Language::Filipino => "fil",
            Language::Finnish => "fi",
            Language::French => "fr",
            Language::Frisian => "fy",
            Language::Galician => "gl",
            Language::Georgian => "ka",
            Language::German => "de",
            Language::Greek => "el",
            Language::Guarani => "gn",
            Language::Gujarati => "gu",
            Language::HaitianCreole => "ht",
            Language::Hausa => "ha",
            Language::Hawaiian => "haw",
            Language::Hebrew => "iw",
            Language::Hindi => "hi",
            Language::Hmong => "hmn",
            Language::Hungarian => "hu",
            Language::Icelandic => "is",
            Language::Igbo => "ig",
            Language::Ilocano => "ilo",
            Language::Indonesian => "id",
            Language::Irish => "ga",
            Language::Italian => "it",
            Language::Japanese => "ja",
            Language::Javanese => "jw",
            Language::Kannada => "kn",
            Language::Kazakh => "kk",
            Language::Khmer => "km",
            Language::Kinyarwanda => "rw",
            Language::Konkani => "gom",
            Language::Korean => "ko",
            Language::Krio => "kri",
            Language::KurdishKurmanji => "ku",
            Language::KurdishSorani => "ckb",
            Language::Kyrgyz => "ky",
            Language::Lao => "lo",
            Language::Latin => "la",
            Language::Latvian => "lv",
            Language::Lingala => "ln",
            Language::Lithuanian => "lt",
            Language::Luganda => "lg",
            Language::Luxembourgish => "lb",
            Language::Macedonian => "mk",
            Language::Maithili => "mai",
            Language::Malagasy => "mg",
            Language::Malay => "ms",
            Language::Malayalam => "ml",
            Language::Maltese => "mt",
            Language::Maori => "mi",
            Language::Marathi => "mr",
            Language::Meiteilon => "mni-Mtei",
            Language::Mizo => "lus",
            Language::Mongolian => "mn",
            Language::Myanmar => "my",
            Language::Nepali => "ne",
            Language::Norwegian => "no",
            Language::Nyanja => "ny",
            Language::Odia => "or",
            Language::Oromo => "om",
            Language::Pashto => "ps",
            Language::Persian => "fa",
            Language::Polish => "pl",
            Language::Portuguese => "pt",
            Language::Punjabi => "pa",
            Language::Quechua => "qu",
            Language::Romanian => "ro",
            Language::Russian => "ru",
            Language::Samoan => "sm",
            Language::Sanskrit => "sa",
            Language::ScotsGaelic => "gd",
            Language::Sepedi => "nso",
            Language::Serbian => "sr",
            Language::Sesotho => "st",
            Language::Shona => "sn",
            Language::Sindhi => "sd",
            Language::Sinhala => "si",
            Language::Slovak => "sk",
            Language::Slovenian => "sl",
            Language::Somali => "so",
            Language::Spanish => "es",
            Language::Sundanese => "su",
            Language::Swahili => "sw",
            Language::Swedish => "sv",
            Language::Tajik => "tg",
            Language::Tamil => "ta",
            Language::Tatar => "tt",
            Language::Telugu => "te",
            Language::Thai => "th",
            Language::Tigrinya => "ti",
            Language::Tsonga => "ts",
            Language::Turkish => "tr",
            Language::Turkmen => "tk",
            Language::Twi => "ak",
            Language::Ukrainian => "uk",
            Language::Urdu => "ur",
            Language::Uyghur => "ug",
            Language::Uzbek => "uz",
            Language::Vietnamese => "vi",
            Language::Welsh => "cy",
            Language::Xhosa => "xh",
            Language::Yiddish => "yi",
            Language::Yoruba => "yo",
            Language::Zulu => "zu",
        }
    }

    /// Whether this is one of the two written forms of Chinese.
    pub fn is_chinese(&self) -> (r: bool)
        ensures
            r == is_chinese_language(*self),
    {
        match self {
            Language::ChineseSimplified | Language::ChineseTraditional => true,
            _ => false,
        }
    }
}

impl Default for Language {
    fn default() -> (r: Self)
        ensures
            r == Language::English,
    {
        Language::English
    }
}

/// Every language is listed exactly once: `index_of` and `language_at` undo
/// each other over the whole list.
pub proof fn law_all_lists_every_language_once(l: Language, i: int)
    ensures
        0 <= index_of(l) < LANGUAGE_COUNT,
        language_at(index_of(l)) == l,
        all_languages()[index_of(l)] == l,
        0 <= i < LANGUAGE_COUNT ==> index_of(language_at(i)) == i,
        0 <= i < LANGUAGE_COUNT ==> all_languages()[i] == language_at(i),
{
}

/// The only Chinese entries of the list are simplified and traditional
/// Chinese.
pub proof fn law_exactly_two_languages_are_chinese(i: int)
    ensures
        0 <= i < LANGUAGE_COUNT && is_chinese_language(all_languages()[i]) <==> i == index_of(
            Language::ChineseSimplified,
        ) || i == index_of(Language::ChineseTraditional),
        index_of(Language::ChineseSimplified) != index_of(Language::ChineseTraditional),
{
    law_all_lists_every_language_once(Language::ChineseSimplified, i);
    law_all_lists_every_language_once(Language::ChineseTraditional, i);
}

} // verus!
