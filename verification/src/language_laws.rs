//! The language tables cannot be confused: no two languages share a
//! display name or a service code.
use vstd::prelude::*;
use crate::language::{Language, LANGUAGE_COUNT, display_name, index_of, language_at, law_all_lists_every_language_once, service_code};

verus! {

/// Whether `a` comes strictly before `b` in the order of their characters.
pub open spec fn text_before(a: Seq<char>, b: Seq<char>) -> bool
    decreases a.len(),
{
    if a.len() == 0 {
        b.len() > 0
    } else if b.len() == 0 {
        false
    } else if a[0] != b[0] {
        a[0] < b[0]
    } else {
        text_before(a.drop_first(), b.drop_first())
    }
}

proof fn lemma_text_before_irreflexive(a: Seq<char>)
    ensures
        !text_before(a, a),
    decreases a.len(),
{
    if a.len() > 0 {
        lemma_text_before_irreflexive(a.drop_first());
    }
}

proof fn lemma_text_before_transitive(a: Seq<char>, b: Seq<char>, c: Seq<char>)
    requires
        text_before(a, b),
        text_before(b, c),
    ensures
        text_before(a, c),
    decreases a.len(),
{
    if a.len() > 0 && b.len() > 0 && c.len() > 0 && a[0] == b[0] && b[0] == c[0] {
        lemma_text_before_transitive(a.drop_first(), b.drop_first(), c.drop_first());
    }
}

/// The languages in the order of their service codes.
pub open spec fn language_by_code(k: int) -> Language {
    if k == 0 {
        Language::Afrikaans
    } else if k == 1 {
        Language::Twi
    } else if k == 2 {
        Language::Amharic
    } else if k == 3 {
        Language::Arabic
    } else if k == 4 {
        Language::Assamese
    } else if k == 5 {
        Language::Aymara
    } else if k == 6 {
        Language::Azerbaijani
    } else if k == 7 {
        Language::Belarusian
    } else if k == 8 {
        Language::Bulgarian
    } else if k == 9 {
        Language::Bhojpuri
    } else if k == 10 {
        Language::Bambara
    } else if k == 11 {
        Language::Bengali
    } else if k == 12 {
        Language::Bosnian
    } else if k == 13 {
        Language::Catalan
    } else if k == 14 {
        Language::Cebuano
    } else if k == 15 {
        Language::KurdishSorani
    } else if k == 16 {
        Language::Corsican
    } else if k == 17 {
        Language::Czech
    } else if k == 18 {
        Language::Welsh
    } else if k == 19 {
        Language::Danish
    } else if k == 20 {
        Language::German
    } else if k == 21 {
        Language::Dogri
    } else if k == 22 {
        Language::Dhivehi
    } else if k == 23 {
        Language::Ewe
    } else if k == 24 {
        Language::Greek
    } else if k == 25 {
        Language::English
    } else if k == 26 {
        Language::Esperanto
    } else if k == 27 {
        Language::Spanish
    } else if k == 28 {
        Language::Estonian
    } else if k == 29 {
        Language::Basque
    } else if k == 30 {
        Language::Persian
    } else if k == 31 {
        Language::Finnish
    } else if k == 32 {
        Language::Filipino
    } else if k == 33 {
        Language::French
    } else if k == 34 {
        Language::Frisian
    } else if k == 35 {
        Language::Irish
    } else if k == 36 {
        Language::ScotsGaelic
    } else if k == 37 {
        Language::Galician
    } else if k == 38 {
        Language::Guarani
    } else if k == 39 {
        Language::Konkani
    } else if k == 40 {
        Language::Gujarati
    } else if k == 41 {
        Language::Hausa
    } else if k == 42 {
        Language::Hawaiian
    } else if k == 43 {
        Language::Hindi
    } else if k == 44 {
        Language::Hmong
    } else if k == 45 {
        Language::Croatian
    } else if k == 46 {
        Language::HaitianCreole
    } else if k == 47 {
        Language::Hungarian
    } else if k == 48 {
        Language::Armenian
    } else if k == 49 {
        Language::Indonesian
    } else if k == 50 {
        Language::Igbo
    } else if k == 51 {
        Language::Ilocano
    } else if k == 52 {
        Language::Icelandic
    } else if k == 53 {
        Language::Italian
    } else if k == 54 {
        Language::Hebrew
    } else if k == 55 {
        Language::Japanese
    } else if k == 56 {
        Language::Javanese
    } else if k == 57 {
        Language::Georgian
    } else if k == 58 {
        Language::Kazakh
    } else if k == 59 {
        Language::Khmer
    } else if k == 60 {
        Language::Kannada
    } else if k == 61 {
        Language::Korean
    } else if k == 62 {
        Language::Krio
    } else if k == 63 {
        Language::KurdishKurmanji
    } else if k == 64 {
        Language::Kyrgyz
    } else if k == 65 {
        Language::Latin
    } else if k == 66 {
        Language::Luxembourgish
    } else if k == 67 {
        Language::Luganda
    } else if k == 68 {
        Language::Lingala
    } else if k == 69 {
        Language::Lao
    } else if k == 70 {
        Language::Lithuanian
    } else if k == 71 {
        Language::Mizo
    } else if k == 72 {
        Language::Latvian
    } else if k == 73 {
        Language::Maithili
    } else if k == 74 {
        Language::Malagasy
    } else if k == 75 {
        Language::Maori
    } else if k == 76 {
        Language::Macedonian
    } else if k == 77 {
        Language::Malayalam
    } else if k == 78 {
        Language::Mongolian
    } else if k == 79 {
        Language::Meiteilon
    } else if k == 80 {
        Language::Marathi
    } else if k == 81 {
        Language::Malay
    } else if k == 82 {
        Language::Maltese
    } else if k == 83 {
        Language::Myanmar
    } else if k == 84 {
        Language::Nepali
    } else if k == 85 {
        Language::Dutch
    } else if k == 86 {
        Language::Norwegian
    } else if k == 87 {
        Language::Sepedi
    } else if k == 88 {
        Language::Nyanja
    } else if k == 89 {
        Language::Oromo
    } else if k == 90 {
        Language::Odia
    } else if k == 91 {
        Language::Punjabi
    } else if k == 92 {
        Language::Polish
    } else if k == 93 {
        Language::Pashto
    } else if k == 94 {
        Language::Portuguese
    } else if k == 95 {
        Language::Quechua
    } else if k == 96 {
        Language::Romanian
    } else if k == 97 {
        Language::Russian
    } else if k == 98 {
        Language::Kinyarwanda
    } else if k == 99 {
        Language::Sanskrit
    } else if k == 100 {
        Language::Sindhi
    } else if k == 101 {
        Language::Sinhala
    } else if k == 102 {
        Language::Slovak
    } else if k == 103 {
        Language::Slovenian
    } else if k == 104 {
        Language::Samoan
    } else if k == 105 {
        Language::Shona
    } else if k == 106 {
        Language::Somali
    } else if k == 107 {
        Language::Albanian
    } else if k == 108 {
        Language::Serbian
    } else if k == 109 {
        Language::Sesotho
    } else if k == 110 {
        Language::Sundanese
    } else if k == 111 {
        Language::Swedish
    } else if k == 112 {
        Language::Swahili
    } else if k == 113 {
        Language::Tamil
    } else if k == 114 {
        Language::Telugu
    } else if k == 115 {
        Language::Tajik
    } else if k == 116 {
        Language::Thai
    } else if k == 117 {
        Language::Tigrinya
    } else if k == 118 {
        Language::Turkmen
    } else if k == 119 {
        Language::Turkish
    } else if k == 120 {
        Language::Tsonga
    } else if k == 121 {
        Language::Tatar
    } else if k == 122 {
        Language::Uyghur
    } else if k == 123 {
        Language::Ukrainian
    } else if k == 124 {
        Language::Urdu
    } else if k == 125 {
        Language::Uzbek
    } else if k == 126 {
        Language::Vietnamese
    } else if k == 127 {
        Language::Xhosa
    } else if k == 128 {
        Language::Yiddish
    } else if k == 129 {
        Language::Yoruba
    } else if k == 130 {
        Language::ChineseSimplified
    } else if k == 131 {
        Language::ChineseTraditional
    } else if k == 132 {
        Language::Zulu
    } else {
        Language::Zulu
    }
}

/// The position of `l` in the order of service codes.
pub open spec fn code_rank(l: Language) -> int {
    match l {
        Language::Afrikaans => 0,
        Language::Twi => 1,
        Language::Amharic => 2,
        Language::Arabic => 3,
        Language::Assamese => 4,
        Language::Aymara => 5,
        Language::Azerbaijani => 6,
        Language::Belarusian => 7,
        Language::Bulgarian => 8,
        Language::Bhojpuri => 9,
        Language::Bambara => 10,
        Language::Bengali => 11,
        Language::Bosnian => 12,
        Language::Catalan => 13,
        Language::Cebuano => 14,
        Language::KurdishSorani => 15,
        Language::Corsican => 16,
        Language::Czech => 17,
        Language::Welsh => 18,
        Language::Danish => 19,
        Language::German => 20,
        Language::Dogri => 21,
        Language::Dhivehi => 22,
        Language::Ewe => 23,
        Language::Greek => 24,
        Language::English => 25,
        Language::Esperanto => 26,
        Language::Spanish => 27,
        Language::Estonian => 28,
        Language::Basque => 29,
        Language::Persian => 30,
        Language::Finnish => 31,
        Language::Filipino => 32,
        Language::French => 33,
        Language::Frisian => 34,
        Language::Irish => 35,
        Language::ScotsGaelic => 36,
        Language::Galician => 37,
        Language::Guarani => 38,
        Language::Konkani => 39,
        Language::Gujarati => 40,
        Language::Hausa => 41,
        Language::Hawaiian => 42,
        Language::Hindi => 43,
        Language::Hmong => 44,
        Language::Croatian => 45,
        Language::HaitianCreole => 46,
        Language::Hungarian => 47,
        Language::Armenian => 48,
        Language::Indonesian => 49,
        Language::Igbo => 50,
        Language::Ilocano => 51,
        Language::Icelandic => 52,
        Language::Italian => 53,
        Language::Hebrew => 54,
        Language::Japanese => 55,
        Language::Javanese => 56,
        Language::Georgian => 57,
        Language::Kazakh => 58,
        Language::Khmer => 59,
        Language::Kannada => 60,
        Language::Korean => 61,
        Language::Krio => 62,
        Language::KurdishKurmanji => 63,
        Language::Kyrgyz => 64,
        Language::Latin => 65,
        Language::Luxembourgish => 66,
        Language::Luganda => 67,
        Language::Lingala => 68,
        Language::Lao => 69,
        Language::Lithuanian => 70,
        Language::Mizo => 71,
        Language::Latvian => 72,
        Language::Maithili => 73,
        Language::Malagasy => 74,
        Language::Maori => 75,
        Language::Macedonian => 76,
        Language::Malayalam => 77,
        Language::Mongolian => 78,
        Language::Meiteilon => 79,
        Language::Marathi => 80,
        Language::Malay => 81,
        Language::Maltese => 82,
        Language::Myanmar => 83,
        Language::Nepali => 84,
        Language::Dutch => 85,
        Language::Norwegian => 86,
        Language::Sepedi => 87,
        Language::Nyanja => 88,
        Language::Oromo => 89,
        Language::Odia => 90,
        Language::Punjabi => 91,
        Language::Polish => 92,
        Language::Pashto => 93,
        Language::Portuguese => 94,
        Language::Quechua => 95,
        Language::Romanian => 96,
        Language::Russian => 97,
        Language::Kinyarwanda => 98,
        Language::Sanskrit => 99,
        Language::Sindhi => 100,
        Language::Sinhala => 101,
        Language::Slovak => 102,
        Language::Slovenian => 103,
        Language::Samoan => 104,
        Language::Shona => 105,
        Language::Somali => 106,
        Language::Albanian => 107,
        Language::Serbian => 108,
        Language::Sesotho => 109,
        Language::Sundanese => 110,
        Language::Swedish => 111,
        Language::Swahili => 112,
        Language::Tamil => 113,
        Language::Telugu => 114,
        Language::Tajik => 115,
        Language::Thai => 116,
        Language::Tigrinya => 117,
        Language::Turkmen => 118,
        Language::Turkish => 119,
        Language::Tsonga => 120,
        Language::Tatar => 121,
        Language::Uyghur => 122,
        Language::Ukrainian => 123,
        Language::Urdu => 124,
        Language::Uzbek => 125,
        Language::Vietnamese => 126,
        Language::Xhosa => 127,
        Language::Yiddish => 128,
        Language::Yoruba => 129,
        Language::ChineseSimplified => 130,
        Language::ChineseTraditional => 131,
        Language::Zulu => 132,
    }
}

proof fn lemma_code_rank(l: Language)
    ensures
        0 <= code_rank(l) < LANGUAGE_COUNT,
        language_by_code(code_rank(l)) == l,
{
}

proof fn lemma_names_ascend_0(k: int)
    requires
        0 <= k < 12,
    ensures
        text_before(display_name(language_at(k)), display_name(language_at(k + 1))),
{
    if k == 0 {
        reveal_strlit("Afrikaans");
        reveal_strlit("Albanian");
        reveal_with_fuel(text_before, 3);
        assert(text_before("Afrikaans"@, "Albanian"@));
    }     else if k == 1 {
        reveal_strlit("Albanian");
        reveal_strlit("Amharic");
        reveal_with_fuel(text_before, 3);
        assert(text_before("Albanian"@, "Amharic"@));
    }     else if k == 2 {
        reveal_strlit("Amharic");
        reveal_strlit("Arabic");
        reveal_with_fuel(text_before, 3);
        assert(text_before("Amharic"@, "Arabic"@));
    }     else if k == 3 {
        reveal_strlit("Arabic");
        reveal_strlit("Armenian");
        reveal_with_fuel(text_before, 4);
        assert(text_before("Arabic"@, "Armenian"@));
    }     else if k == 4 {
        reveal_strlit("Armenian");
        reveal_strlit("Assamese");
        reveal_with_fuel(text_before, 3);
        assert(text_before("Armenian"@, "Assamese"@));
    }     else if k == 5 {
        reveal_strlit("Assamese");
        reveal_strlit("Aymara");
        reveal_with_fuel(text_before, 3);
        assert(text_before("Assamese"@, "Aymara"@));
    }     else if k == 6 {
        reveal_strlit("Aymara");
        reveal_strlit("Azerbaijani");
        reveal_with_fuel(text_before, 3);
        assert(text_before("Aymara"@, "Azerbaijani"@));
    }     else if k == 7 {
        reveal_strlit("Azerbaijani");
        reveal_strlit("Bambara");
        reveal_with_fuel(text_before, 2);
        assert(text_before("Azerbaijani"@, "Bambara"@));
    }     else if k == 8 {
        reveal_strlit("Bambara");
        reveal_strlit("Basque");
        reveal_with_fuel(text_before, 4);
        assert(text_before("Bambara"@, "Basque"@));
    }     else if k == 9 {
        reveal_strlit("Basque");
        reveal_strlit("Belarusian");
        reveal_with_fuel(text_before, 3);
        assert(text_before("Basque"@, "Belarusian"@));
    }     else if k == 10 {
        reveal_strlit("Belarusian");
        reveal_strlit("Bengali");
        reveal_with_fuel(text_before, 4);
        assert(text_before("Belarusian"@, "Bengali"@));
    }     else if k == 11 {
        reveal_strlit("Bengali");
        reveal_strlit("Bhojpuri");
        reveal_with_fuel(text_before, 3);
        assert(text_before("Bengali"@, "Bhojpuri"@));
    }
}

proof fn lemma_names_ascend_12(k: int)
    requires
        12 <= k < 24,
    ensures
        text_before(display_name(language_at(k)), display_name(language_at(k + 1))),
{
    if k == 12 {
        reveal_strlit("Bhojpuri");
        reveal_strlit("Bosnian");
        reveal_with_fuel(text_before, 3);
        assert(text_before("Bhojpuri"@, "Bosnian"@));
    }     else if k == 13 {
        reveal_strlit("Bosnian");
        reveal_strlit("Bulgarian");
        reveal_with_fuel(text_before, 3);
        assert(text_before("Bosnian"@, "Bulgarian"@));
    }     else if k == 14 {
        reveal_strlit("Bulgarian");
        reveal_strlit("Catalan");
        reveal_with_fuel(text_before, 2);
        assert(text_before("Bulgarian"@, "Catalan"@));
    }     else if k == 15 {
        reveal_strlit("Catalan");
        reveal_strlit("Cebuano");
        reveal_with_fuel(text_before, 3);
        assert(text_before("Catalan"@, "Cebuano"@));
    }     else if k == 16 {
        reveal_strlit("Cebuano");
        reveal_strlit("Chinese (Simplified)");
        reveal_with_fuel(text_before, 3);
        assert(text_before("Cebuano"@, "Chinese (Simplified)"@));
    }     else if k == 17 {
        reveal_strlit("Chinese (Simplified)");
        reveal_strlit("Chinese (Traditional)");
        reveal_with_fuel(text_before, 11);
        assert(text_before("Chinese (Simplified)"@, "Chinese (Traditional)"@));
    }     else if k == 18 {
        reveal_strlit("Chinese (Traditional)");
        reveal_strlit("Corsican");
        reveal_with_fuel(text_before, 3);
        assert(text_before("Chinese (Traditional)"@, "Corsican"@));
    }     else if k == 19 {
        reveal_strlit("Corsican");
        reveal_strlit("Croatian");
        reveal_with_fuel(text_before, 3);
        assert(text_before("Corsican"@, "Croatian"@));
    }     else if k == 20 {
        reveal_strlit("Croatian");
        reveal_strlit("Czech");
        reveal_with_fuel(text_before, 3);
        assert(text_before("Croatian"@, "Czech"@));
    }     else if k == 21 {
        reveal_strlit("Czech");
        reveal_strlit("Danish");
        reveal_with_fuel(text_before, 2);
        assert(text_before("Czech"@, "Danish"@));
    }     else if k == 22 {
        reveal_strlit("Danish");
        reveal_strlit("Dhivehi");
        reveal_with_fuel(text_before, 3);
        assert(text_before("Danish"@, "Dhivehi"@));
    }     else if k == 23 {
        reveal_strlit("Dhivehi");
        reveal_strlit("Dogri");
        reveal_with_fuel(text_before, 3);
        assert(text_before("Dhivehi"@, "Dogri"@));
    }
}

proof fn lemma_names_ascend_24(k: int)
    requires
        24 <= k < 36,
    ensures
        text_before(display_name(language_at(k)), display_name(language_at(k + 1))),
{
    if k == 24 {
        reveal_strlit("Dogri");
        reveal_strlit("Dutch");
        reveal_with_fuel(text_before, 3);
        assert(text_before("Dogri"@, "Dutch"@));
    }     else if k == 25 {
        reveal_strlit("Dutch");
        reveal_strlit("English");
        reveal_with_fuel(text_before, 2);
        assert(text_before("Dutch"@, "English"@));
    }     else if k == 26 {
        reveal_strlit("English");
        reveal_strlit("Esperanto");
        reveal_with_fuel(text_before, 3);
        assert(text_before("English"@, "Esperanto"@));
    }     else if k == 27 {
        reveal_strlit("Esperanto");
        reveal_strlit("Estonian");
        reveal_with_fuel(text_before, 4);
        assert(text_before("Esperanto"@, "Estonian"@));
    }     else if k == 28 {
        reveal_strlit("Estonian");
        reveal_strlit("Ewe");
        reveal_with_fuel(text_before, 3);
        assert(text_before("Estonian"@, "Ewe"@));
    }     else if k == 29 {
        reveal_strlit("Ewe");
        reveal_strlit("Filipino");
        reveal_with_fuel(text_before, 2);
        assert(text_before("Ewe"@, "Filipino"@));
    }     else if k == 30 {
        reveal_strlit("Filipino");
        reveal_strlit("Finnish");
        reveal_with_fuel(text_before, 4);
        assert(text_before("Filipino"@, "Finnish"@));
    }     else if k == 31 {
        reveal_strlit("Finnish");
        reveal_strlit("French");
        reveal_with_fuel(text_before, 3);
        assert(text_before("Finnish"@, "French"@));
    }     else if k == 32 {
        reveal_strlit("French");
        reveal_strlit("Frisian");
        reveal_with_fuel(text_before, 4);
        assert(text_before("French"@, "Frisian"@));
    }     else if k == 33 {
        reveal_strlit("Frisian");
        reveal_strlit("Galician");
        reveal_with_fuel(text_before, 2);
        assert(text_before("Frisian"@, "Galician"@));
    }     else if k == 34 {
        reveal_strlit("Galician");
        reveal_strlit("Georgian");
        reveal_with_fuel(text_before, 3);
        assert(text_before("Galician"@, "Georgian"@));
    }     else if k == 35 {
        reveal_strlit("Georgian");
        reveal_strlit("German");
        reveal_with_fuel(text_before, 4);
        assert(text_before("Georgian"@, "German"@));
    }
}

proof fn lemma_names_ascend_36(k: int)
    requires
        36 <= k < 48,
    ensures
        text_before(display_name(language_at(k)), display_name(language_at(k + 1))),
{
    if k == 36 {
        reveal_strlit("German");
        reveal_strlit("Greek");
        reveal_with_fuel(text_before, 3);
        assert(text_before("German"@, "Greek"@));
    }     else if k == 37 {
        reveal_strlit("Greek");
        reveal_strlit("Guarani");
        reveal_with_fuel(text_before, 3);
        assert(text_before("Greek"@, "Guarani"@));
    }     else if k == 38 {
        reveal_strlit("Guarani");
        reveal_strlit("Gujarati");
        reveal_with_fuel(text_before, 4);
        assert(text_before("Guarani"@, "Gujarati"@));
    }     else if k == 39 {
        reveal_strlit("Gujarati");
        reveal_strlit("Haitian Creole");
        reveal_with_fuel(text_before, 2);
        assert(text_before("Gujarati"@, "Haitian Creole"@));
    }     else if k == 40 {
        reveal_strlit("Haitian Creole");
        reveal_strlit("Hausa");
        reveal_with_fuel(text_before, 4);
        assert(text_before("Haitian Creole"@, "Hausa"@));
    }     else if k == 41 {
        reveal_strlit("Hausa");
        reveal_strlit("Hawaiian");
        reveal_with_fuel(text_before, 4);
        assert(text_before("Hausa"@, "Hawaiian"@));
    }     else if k == 42 {
        reveal_strlit("Hawaiian");
        reveal_strlit("Hebrew");
        reveal_with_fuel(text_before, 3);
        assert(text_before("Hawaiian"@, "Hebrew"@));
    }     else if k == 43 {
        reveal_strlit("Hebrew");
        reveal_strlit("Hindi");
        reveal_with_fuel(text_before, 3);
        assert(text_before("Hebrew"@, "Hindi"@));
    }     else if k == 44 {
        reveal_strlit("Hindi");
        reveal_strlit("Hmong");
        reveal_with_fuel(text_before, 3);
        assert(text_before("Hindi"@, "Hmong"@));
    }     else if k == 45 {
        reveal_strlit("Hmong");
        reveal_strlit("Hungarian");
        reveal_with_fuel(text_before, 3);
        assert(text_before("Hmong"@, "Hungarian"@));
    }     else if k == 46 {
        reveal_strlit("Hungarian");
        reveal_strlit("Icelandic");
        reveal_with_fuel(text_before, 2);
        assert(text_before("Hungarian"@, "Icelandic"@));
    }     else if k == 47 {
        reveal_strlit("Icelandic");
        reveal_strlit("Igbo");
        reveal_with_fuel(text_before, 3);
        assert(text_before("Icelandic"@, "Igbo"@));
    }
}

proof fn lemma_names_ascend_48(k: int)
    requires
        48 <= k < 60,
    ensures
        text_before(display_name(language_at(k)), display_name(language_at(k + 1))),
{
    if k == 48 {
        reveal_strlit("Igbo");
        reveal_strlit("Ilocano");
        reveal_with_fuel(text_before, 3);
        assert(text_before("Igbo"@, "Ilocano"@));
    }     else if k == 49 {
        reveal_strlit("Ilocano");
        reveal_strlit("Indonesian");
        reveal_with_fuel(text_before, 3);
        assert(text_before("Ilocano"@, "Indonesian"@));
    }     else if k == 50 {
        reveal_strlit("Indonesian");
        reveal_strlit("Irish");
        reveal_with_fuel(text_before, 3);
        assert(text_before("Indonesian"@, "Irish"@));
    }     else if k == 51 {
        reveal_strlit("Irish");
        reveal_strlit("Italian");
        reveal_with_fuel(text_before, 3);
        assert(text_before("Irish"@, "Italian"@));
    }     else if k == 52 {
        reveal_strlit("Italian");
        reveal_strlit("Japanese");
        reveal_with_fuel(text_before, 2);
        assert(text_before("Italian"@, "Japanese"@));
    }     else if k == 53 {
        reveal_strlit("Japanese");
        reveal_strlit("Javanese");
        reveal_with_fuel(text_before, 4);
        assert(text_before("Japanese"@, "Javanese"@));
    }     else if k == 54 {
        reveal_strlit("Javanese");
        reveal_strlit("Kannada");
        reveal_with_fuel(text_before, 2);
        assert(text_before("Javanese"@, "Kannada"@));
    }     else if k == 55 {
        reveal_strlit("Kannada");
        reveal_strlit("Kazakh");
        reveal_with_fuel(text_before, 4);
        assert(text_before("Kannada"@, "Kazakh"@));
    }     else if k == 56 {
        reveal_strlit("Kazakh");
        reveal_strlit("Khmer");
        reveal_with_fuel(text_before, 3);
        assert(text_before("Kazakh"@, "Khmer"@));
    }     else if k == 57 {
        reveal_strlit("Khmer");
        reveal_strlit("Kinyarwanda");
        reveal_with_fuel(text_before, 3);
        assert(text_before("Khmer"@, "Kinyarwanda"@));
    }     else if k == 58 {
        reveal_strlit("Kinyarwanda");
        reveal_strlit("Konkani");
        reveal_with_fuel(text_before, 3);
        assert(text_before("Kinyarwanda"@, "Konkani"@));
    }     else if k == 59 {
        reveal_strlit("Konkani");
        reveal_strlit("Korean");
        reveal_with_fuel(text_before, 4);
        assert(text_before("Konkani"@, "Korean"@));
    }
}

proof fn lemma_names_ascend_60(k: int)
    requires
        60 <= k < 72,
    ensures
        text_before(display_name(language_at(k)), display_name(language_at(k + 1))),
{
    if k == 60 {
        reveal_strlit("Korean");
        reveal_strlit("Krio");
        reveal_with_fuel(text_before, 3);
        assert(text_before("Korean"@, "Krio"@));
    }     else if k == 61 {
        reveal_strlit("Krio");
        reveal_strlit("Kurdish (Kurmanji)");
        reveal_with_fuel(text_before, 3);
        assert(text_before("Krio"@, "Kurdish (Kurmanji)"@));
    }     else if k == 62 {
        reveal_strlit("Kurdish (Kurmanji)");
        reveal_strlit("Kurdish (Sorani)");
        reveal_with_fuel(text_before, 11);
        assert(text_before("Kurdish (Kurmanji)"@, "Kurdish (Sorani)"@));
    }     else if k == 63 {
        reveal_strlit("Kurdish (Sorani)");
        reveal_strlit("Kyrgyz");
        reveal_with_fuel(text_before, 3);
        assert(text_before("Kurdish (Sorani)"@, "Kyrgyz"@));
    }     else if k == 64 {
        reveal_strlit("Kyrgyz");
        reveal_strlit("Lao");
        reveal_with_fuel(text_before, 2);
        assert(text_before("Kyrgyz"@, "Lao"@));
    }     else if k == 65 {
        reveal_strlit("Lao");
        reveal_strlit("Latin");
        reveal_with_fuel(text_before, 4);
        assert(text_before("Lao"@, "Latin"@));
    }     else if k == 66 {
        reveal_strlit("Latin");
        reveal_strlit("Latvian");
        reveal_with_fuel(text_before, 5);
        assert(text_before("Latin"@, "Latvian"@));
    }     else if k == 67 {
        reveal_strlit("Latvian");
        reveal_strlit("Lingala");
        reveal_with_fuel(text_before, 3);
        assert(text_before("Latvian"@, "Lingala"@));
    }     else if k == 68 {
        reveal_strlit("Lingala");
        reveal_strlit("Lithuanian");
        reveal_with_fuel(text_before, 4);
        assert(text_before("Lingala"@, "Lithuanian"@));
    }     else if k == 69 {
        reveal_strlit("Lithuanian");
        reveal_strlit("Luganda");
        reveal_with_fuel(text_before, 3);
        assert(text_before("Lithuanian"@, "Luganda"@));
    }     else if k == 70 {
        reveal_strlit("Luganda");
        reveal_strlit("Luxembourgish");
        reveal_with_fuel(text_before, 4);
        assert(text_before("Luganda"@, "Luxembourgish"@));
    }     else if k == 71 {
        reveal_strlit("Luxembourgish");
        reveal_strlit("Macedonian");
        reveal_with_fuel(text_before, 2);
        assert(text_before("Luxembourgish"@, "Macedonian"@));
    }
}

proof fn lemma_names_ascend_72(k: int)
    requires
        72 <= k < 84,
    ensures
        text_before(display_name(language_at(k)), display_name(language_at(k + 1))),
{
    if k == 72 {
        reveal_strlit("Macedonian");
        reveal_strlit("Maithili");
        reveal_with_fuel(text_before, 4);
        assert(text_before("Macedonian"@, "Maithili"@));
    }     else if k == 73 {
        reveal_strlit("Maithili");
        reveal_strlit("Malagasy");
        reveal_with_fuel(text_before, 4);
        assert(text_before("Maithili"@, "Malagasy"@));
    }     else if k == 74 {
        reveal_strlit("Malagasy");
        reveal_strlit("Malay");
        reveal_with_fuel(text_before, 6);
        assert(text_before("Malagasy"@, "Malay"@));
    }     else if k == 75 {
        reveal_strlit("Malay");
        reveal_strlit("Malayalam");
        reveal_with_fuel(text_before, 7);
        assert(text_before("Malay"@, "Malayalam"@));
    }     else if k == 76 {
        reveal_strlit("Malayalam");
        reveal_strlit("Maltese");
        reveal_with_fuel(text_before, 5);
        assert(text_before("Malayalam"@, "Maltese"@));
    }     else if k == 77 {
        reveal_strlit("Maltese");
        reveal_strlit("Maori");
        reveal_with_fuel(text_before, 4);
        assert(text_before("Maltese"@, "Maori"@));
    }     else if k == 78 {
        reveal_strlit("Maori");
        reveal_strlit("Marathi");
        reveal_with_fuel(text_before, 4);
        assert(text_before("Maori"@, "Marathi"@));
    }     else if k == 79 {
        reveal_strlit("Marathi");
        reveal_strlit("Meiteilon (Manipuri)");
        reveal_with_fuel(text_before, 3);
        assert(text_before("Marathi"@, "Meiteilon (Manipuri)"@));
    }     else if k == 80 {
        reveal_strlit("Meiteilon (Manipuri)");
        reveal_strlit("Mizo");
        reveal_with_fuel(text_before, 3);
        assert(text_before("Meiteilon (Manipuri)"@, "Mizo"@));
    }     else if k == 81 {
        reveal_strlit("Mizo");
        reveal_strlit("Mongolian");
        reveal_with_fuel(text_before, 3);
        assert(text_before("Mizo"@, "Mongolian"@));
    }     else if k == 82 {
        reveal_strlit("Mongolian");
        reveal_strlit("Myanmar (Burmese)");
        reveal_with_fuel(text_before, 3);
        assert(text_before("Mongolian"@, "Myanmar (Burmese)"@));
    }     else if k == 83 {
        reveal_strlit("Myanmar (Burmese)");
        reveal_strlit("Nepali");
        reveal_with_fuel(text_before, 2);
        assert(text_before("Myanmar (Burmese)"@, "Nepali"@));
    }
}

proof fn lemma_names_ascend_84(k: int)
    requires
        84 <= k < 96,
    ensures
        text_before(display_name(language_at(k)), display_name(language_at(k + 1))),
{
    if k == 84 {
        reveal_strlit("Nepali");
        reveal_strlit("Norwegian");
        reveal_with_fuel(text_before, 3);
        assert(text_before("Nepali"@, "Norwegian"@));
    }     else if k == 85 {
        reveal_strlit("Norwegian");
        reveal_strlit("Nyanja (Chichewa)");
        reveal_with_fuel(text_before, 3);
        assert(text_before("Norwegian"@, "Nyanja (Chichewa)"@));
    }     else if k == 86 {
        reveal_strlit("Nyanja (Chichewa)");
        reveal_strlit("Odia (Oriya)");
        reveal_with_fuel(text_before, 2);
        assert(text_before("Nyanja (Chichewa)"@, "Odia (Oriya)"@));
    }     else if k == 87 {
        reveal_strlit("Odia (Oriya)");
        reveal_strlit("Oromo");
        reveal_with_fuel(text_before, 3);
        assert(text_before("Odia (Oriya)"@, "Oromo"@));
    }     else if k == 88 {
        reveal_strlit("Oromo");
        reveal_strlit("Pashto");
        reveal_with_fuel(text_before, 2);
        assert(text_before("Oromo"@, "Pashto"@));
    }     else if k == 89 {
        reveal_strlit("Pashto");
        reveal_strlit("Persian");
        reveal_with_fuel(text_before, 3);
        assert(text_before("Pashto"@, "Persian"@));
    }     else if k == 90 {
        reveal_strlit("Persian");
        reveal_strlit("Polish");
        reveal_with_fuel(text_before, 3);
        assert(text_before("Persian"@, "Polish"@));
    }     else if k == 91 {
        reveal_strlit("Polish");
        reveal_strlit("Portuguese");
        reveal_with_fuel(text_before, 4);
        assert(text_before("Polish"@, "Portuguese"@));
    }     else if k == 92 {
        reveal_strlit("Portuguese");
        reveal_strlit("Punjabi");
        reveal_with_fuel(text_before, 3);
        assert(text_before("Portuguese"@, "Punjabi"@));
    }     else if k == 93 {
        reveal_strlit("Punjabi");
        reveal_strlit("Quechua");
        reveal_with_fuel(text_before, 2);
        assert(text_before("Punjabi"@, "Quechua"@));
    }     else if k == 94 {
        reveal_strlit("Quechua");
        reveal_strlit("Romanian");
        reveal_with_fuel(text_before, 2);
        assert(text_before("Quechua"@, "Romanian"@));
    }     else if k == 95 {
        reveal_strlit("Romanian");
        reveal_strlit("Russian");
        reveal_with_fuel(text_before, 3);
        assert(text_before("Romanian"@, "Russian"@));
    }
}

proof fn lemma_names_ascend_96(k: int)
    requires
        96 <= k < 108,
    ensures
        text_before(display_name(language_at(k)), display_name(language_at(k + 1))),
{
    if k == 96 {
        reveal_strlit("Russian");
        reveal_strlit("Samoan");
        reveal_with_fuel(text_before, 2);
        assert(text_before("Russian"@, "Samoan"@));
    }     else if k == 97 {
        reveal_strlit("Samoan");
        reveal_strlit("Sanskrit");
        reveal_with_fuel(text_before, 4);
        assert(text_before("Samoan"@, "Sanskrit"@));
    }     else if k == 98 {
        reveal_strlit("Sanskrit");
        reveal_strlit("Scots Gaelic");
        reveal_with_fuel(text_before, 3);
        assert(text_before("Sanskrit"@, "Scots Gaelic"@));
    }     else if k == 99 {
        reveal_strlit("Scots Gaelic");
        reveal_strlit("Sepedi");
        reveal_with_fuel(text_before, 3);
        assert(text_before("Scots Gaelic"@, "Sepedi"@));
    }     else if k == 100 {
        reveal_strlit("Sepedi");
        reveal_strlit("Serbian");
        reveal_with_fuel(text_before, 4);
        assert(text_before("Sepedi"@, "Serbian"@));
    }     else if k == 101 {
        reveal_strlit("Serbian");
        reveal_strlit("Sesotho");
        reveal_with_fuel(text_before, 4);
        assert(text_before("Serbian"@, "Sesotho"@));
    }     else if k == 102 {
        reveal_strlit("Sesotho");
        reveal_strlit("Shona");
        reveal_with_fuel(text_before, 3);
        assert(text_before("Sesotho"@, "Shona"@));
    }     else if k == 103 {
        reveal_strlit("Shona");
        reveal_strlit("Sindhi");
        reveal_with_fuel(text_before, 3);
        assert(text_before("Shona"@, "Sindhi"@));
    }     else if k == 104 {
        reveal_strlit("Sindhi");
        reveal_strlit("Sinhala");
        reveal_with_fuel(text_before, 5);
        assert(text_before("Sindhi"@, "Sinhala"@));
    }     else if k == 105 {
        reveal_strlit("Sinhala");
        reveal_strlit("Slovak");
        reveal_with_fuel(text_before, 3);
        assert(text_before("Sinhala"@, "Slovak"@));
    }     else if k == 106 {
        reveal_strlit("Slovak");
        reveal_strlit("Slovenian");
        reveal_with_fuel(text_before, 6);
        assert(text_before("Slovak"@, "Slovenian"@));
    }     else if k == 107 {
        reveal_strlit("Slovenian");
        reveal_strlit("Somali");
        reveal_with_fuel(text_before, 3);
        assert(text_before("Slovenian"@, "Somali"@));
    }
}

proof fn lemma_names_ascend_108(k: int)
    requires
        108 <= k < 120,
    ensures
        text_before(display_name(language_at(k)), display_name(language_at(k + 1))),
{
    if k == 108 {
        reveal_strlit("Somali");
        reveal_strlit("Spanish");
        reveal_with_fuel(text_before, 3);
        assert(text_before("Somali"@, "Spanish"@));
    }     else if k == 109 {
        reveal_strlit("Spanish");
        reveal_strlit("Sundanese");
        reveal_with_fuel(text_before, 3);
        assert(text_before("Spanish"@, "Sundanese"@));
    }     else if k == 110 {
        reveal_strlit("Sundanese");
        reveal_strlit("Swahili");
        reveal_with_fuel(text_before, 3);
        assert(text_before("Sundanese"@, "Swahili"@));
    }     else if k == 111 {
        reveal_strlit("Swahili");
        reveal_strlit("Swedish");
        reveal_with_fuel(text_before, 4);
        assert(text_before("Swahili"@, "Swedish"@));
    }     else if k == 112 {
        reveal_strlit("Swedish");
        reveal_strlit("Tajik");
        reveal_with_fuel(text_before, 2);
        assert(text_before("Swedish"@, "Tajik"@));
    }     else if k == 113 {
        reveal_strlit("Tajik");
        reveal_strlit("Tamil");
        reveal_with_fuel(text_before, 4);
        assert(text_before("Tajik"@, "Tamil"@));
    }     else if k == 114 {
        reveal_strlit("Tamil");
        reveal_strlit("Tatar");
        reveal_with_fuel(text_before, 4);
        assert(text_before("Tamil"@, "Tatar"@));
    }     else if k == 115 {
        reveal_strlit("Tatar");
        reveal_strlit("Telugu");
        reveal_with_fuel(text_before, 3);
        assert(text_before("Tatar"@, "Telugu"@));
    }     else if k == 116 {
        reveal_strlit("Telugu");
        reveal_strlit("Thai");
        reveal_with_fuel(text_before, 3);
        assert(text_before("Telugu"@, "Thai"@));
    }     else if k == 117 {
        reveal_strlit("Thai");
        reveal_strlit("Tigrinya");
        reveal_with_fuel(text_before, 3);
        assert(text_before("Thai"@, "Tigrinya"@));
    }     else if k == 118 {
        reveal_strlit("Tigrinya");
        reveal_strlit("Tsonga");
        reveal_with_fuel(text_before, 3);
        assert(text_before("Tigrinya"@, "Tsonga"@));
    }     else if k == 119 {
        reveal_strlit("Tsonga");
        reveal_strlit("Turkish");
        reveal_with_fuel(text_before, 3);
        assert(text_before("Tsonga"@, "Turkish"@));
    }
}

proof fn lemma_names_ascend_120(k: int)
    requires
        120 <= k < 132,
    ensures
        text_before(display_name(language_at(k)), display_name(language_at(k + 1))),
{
    if k == 120 {
        reveal_strlit("Turkish");
        reveal_strlit("Turkmen");
        reveal_with_fuel(text_before, 6);
        assert(text_before("Turkish"@, "Turkmen"@));
    }     else if k == 121 {
        reveal_strlit("Turkmen");
        reveal_strlit("Twi");
        reveal_with_fuel(text_before, 3);
        assert(text_before("Turkmen"@, "Twi"@));
    }     else if k == 122 {
        reveal_strlit("Twi");
        reveal_strlit("Ukrainian");
        reveal_with_fuel(text_before, 2);
        assert(text_before("Twi"@, "Ukrainian"@));
    }     else if k == 123 {
        reveal_strlit("Ukrainian");
        reveal_strlit("Urdu");
        reveal_with_fuel(text_before, 3);
        assert(text_before("Ukrainian"@, "Urdu"@));
    }     else if k == 124 {
        reveal_strlit("Urdu");
        reveal_strlit("Uyghur");
        reveal_with_fuel(text_before, 3);
        assert(text_before("Urdu"@, "Uyghur"@));
    }     else if k == 125 {
        reveal_strlit("Uyghur");
        reveal_strlit("Uzbek");
        reveal_with_fuel(text_before, 3);
        assert(text_before("Uyghur"@, "Uzbek"@));
    }     else if k == 126 {
        reveal_strlit("Uzbek");
        reveal_strlit("Vietnamese");
        reveal_with_fuel(text_before, 2);
        assert(text_before("Uzbek"@, "Vietnamese"@));
    }     else if k == 127 {
        reveal_strlit("Vietnamese");
        reveal_strlit("Welsh");
        reveal_with_fuel(text_before, 2);
        assert(text_before("Vietnamese"@, "Welsh"@));
    }     else if k == 128 {
        reveal_strlit("Welsh");
        reveal_strlit("Xhosa");
        reveal_with_fuel(text_before, 2);
        assert(text_before("Welsh"@, "Xhosa"@));
    }     else if k == 129 {
        reveal_strlit("Xhosa");
        reveal_strlit("Yiddish");
        reveal_with_fuel(text_before, 2);
        assert(text_before("Xhosa"@, "Yiddish"@));
    }     else if k == 130 {
        reveal_strlit("Yiddish");
        reveal_strlit("Yoruba");
        reveal_with_fuel(text_before, 3);
        assert(text_before("Yiddish"@, "Yoruba"@));
    }     else if k == 131 {
        reveal_strlit("Yoruba");
        reveal_strlit("Zulu");
        reveal_with_fuel(text_before, 2);
        assert(text_before("Yoruba"@, "Zulu"@));
    }
}

proof fn lemma_codes_ascend_0(k: int)
    requires
        0 <= k < 12,
    ensures
        text_before(service_code(language_by_code(k)), service_code(language_by_code(k + 1))),
{
    if k == 0 {
        reveal_strlit("af");
        reveal_strlit("ak");
        reveal_with_fuel(text_before, 3);
        assert(text_before("af"@, "ak"@));
    }     else if k == 1 {
        reveal_strlit("ak");
        reveal_strlit("am");
        reveal_with_fuel(text_before, 3);
        assert(text_before("ak"@, "am"@));
    }     else if k == 2 {
        reveal_strlit("am");
        reveal_strlit("ar");
        reveal_with_fuel(text_before, 3);
        assert(text_before("am"@, "ar"@));
    }     else if k == 3 {
        reveal_strlit("ar");
        reveal_strlit("as");
        reveal_with_fuel(text_before, 3);
        assert(text_before("ar"@, "as"@));
    }     else if k == 4 {
        reveal_strlit("as");
        reveal_strlit("ay");
        reveal_with_fuel(text_before, 3);
        assert(text_before("as"@, "ay"@));
    }     else if k == 5 {
        reveal_strlit("ay");
        reveal_strlit("az");
        reveal_with_fuel(text_before, 3);
        assert(text_before("ay"@, "az"@));
    }     else if k == 6 {
        reveal_strlit("az");
        reveal_strlit("be");
        reveal_with_fuel(text_before, 2);
        assert(text_before("az"@, "be"@));
    }     else if k == 7 {
        reveal_strlit("be");
        reveal_strlit("bg");
        reveal_with_fuel(text_before, 3);
        assert(text_before("be"@, "bg"@));
    }     else if k == 8 {
        reveal_strlit("bg");
        reveal_strlit("bho");
        reveal_with_fuel(text_before, 3);
        assert(text_before("bg"@, "bho"@));
    }     else if k == 9 {
        reveal_strlit("bho");
        reveal_strlit("bm");
        reveal_with_fuel(text_before, 3);
        assert(text_before("bho"@, "bm"@));
    }     else if k == 10 {
        reveal_strlit("bm");
        reveal_strlit("bn");
        reveal_with_fuel(text_before, 3);
        assert(text_before("bm"@, "bn"@));
    }     else if k == 11 {
        reveal_strlit("bn");
        reveal_strlit("bs");
        reveal_with_fuel(text_before, 3);
        assert(text_before("bn"@, "bs"@));
    }
}

proof fn lemma_codes_ascend_12(k: int)
    requires
        12 <= k < 24,
    ensures
        text_before(service_code(language_by_code(k)), service_code(language_by_code(k + 1))),
{
    if k == 12 {
        reveal_strlit("bs");
        reveal_strlit("ca");
        reveal_with_fuel(text_before, 2);
        assert(text_before("bs"@, "ca"@));
    }     else if k == 13 {
        reveal_strlit("ca");
        reveal_strlit("ceb");
        reveal_with_fuel(text_before, 3);
        assert(text_before("ca"@, "ceb"@));
    }     else if k == 14 {
        reveal_strlit("ceb");
        reveal_strlit("ckb");
        reveal_with_fuel(text_before, 3);
        assert(text_before("ceb"@, "ckb"@));
    }     else if k == 15 {
        reveal_strlit("ckb");
        reveal_strlit("co");
        reveal_with_fuel(text_before, 3);
        assert(text_before("ckb"@, "co"@));
    }     else if k == 16 {
        reveal_strlit("co");
        reveal_strlit("cs");
        reveal_with_fuel(text_before, 3);
        assert(text_before("co"@, "cs"@));
    }     else if k == 17 {
        reveal_strlit("cs");
        reveal_strlit("cy");
        reveal_with_fuel(text_before, 3);
        assert(text_before("cs"@, "cy"@));
    }     else if k == 18 {
        reveal_strlit("cy");
        reveal_strlit("da");
        reveal_with_fuel(text_before, 2);
        assert(text_before("cy"@, "da"@));
    }     else if k == 19 {
        reveal_strlit("da");
        reveal_strlit("de");
        reveal_with_fuel(text_before, 3);
        assert(text_before("da"@, "de"@));
    }     else if k == 20 {
        reveal_strlit("de");
        reveal_strlit("doi");
        reveal_with_fuel(text_before, 3);
        assert(text_before("de"@, "doi"@));
    }     else if k == 21 {
        reveal_strlit("doi");
        reveal_strlit("dv");
        reveal_with_fuel(text_before, 3);
        assert(text_before("doi"@, "dv"@));
    }     else if k == 22 {
        reveal_strlit("dv");
        reveal_strlit("ee");
        reveal_with_fuel(text_before, 2);
        assert(text_before("dv"@, "ee"@));
    }     else if k == 23 {
        reveal_strlit("ee");
        reveal_strlit("el");
        reveal_with_fuel(text_before, 3);
        assert(text_before("ee"@, "el"@));
    }
}

proof fn lemma_codes_ascend_24(k: int)
    requires
        24 <= k < 36,
    ensures
        text_before(service_code(language_by_code(k)), service_code(language_by_code(k + 1))),
{
    if k == 24 {
        reveal_strlit("el");
        reveal_strlit("en");
        reveal_with_fuel(text_before, 3);
        assert(text_before("el"@, "en"@));
    }     else if k == 25 {
        reveal_strlit("en");
        reveal_strlit("eo");
        reveal_with_fuel(text_before, 3);
        assert(text_before("en"@, "eo"@));
    }     else if k == 26 {
        reveal_strlit("eo");
        reveal_strlit("es");
        reveal_with_fuel(text_before, 3);
        assert(text_before("eo"@, "es"@));
    }     else if k == 27 {
        reveal_strlit("es");
        reveal_strlit("et");
        reveal_with_fuel(text_before, 3);
        assert(text_before("es"@, "et"@));
    }     else if k == 28 {
        reveal_strlit("et");
        reveal_strlit("eu");
        reveal_with_fuel(text_before, 3);
        assert(text_before("et"@, "eu"@));
    }     else if k == 29 {
        reveal_strlit("eu");
        reveal_strlit("fa");
        reveal_with_fuel(text_before, 2);
        assert(text_before("eu"@, "fa"@));
    }     else if k == 30 {
        reveal_strlit("fa");
        reveal_strlit("fi");
        reveal_with_fuel(text_before, 3);
        assert(text_before("fa"@, "fi"@));
    }     else if k == 31 {
        reveal_strlit("fi");
        reveal_strlit("fil");
        reveal_with_fuel(text_before, 4);
        assert(text_before("fi"@, "fil"@));
    }     else if k == 32 {
        reveal_strlit("fil");
        reveal_strlit("fr");
        reveal_with_fuel(text_before, 3);
        assert(text_before("fil"@, "fr"@));
    }     else if k == 33 {
        reveal_strlit("fr");
        reveal_strlit("fy");
        reveal_with_fuel(text_before, 3);
        assert(text_before("fr"@, "fy"@));
    }     else if k == 34 {
        reveal_strlit("fy");
        reveal_strlit("ga");
        reveal_with_fuel(text_before, 2);
        assert(text_before("fy"@, "ga"@));
    }     else if k == 35 {
        reveal_strlit("ga");
        reveal_strlit("gd");
        reveal_with_fuel(text_before, 3);
        assert(text_before("ga"@, "gd"@));
    }
}

proof fn lemma_codes_ascend_36(k: int)
    requires
        36 <= k < 48,
    ensures
        text_before(service_code(language_by_code(k)), service_code(language_by_code(k + 1))),
{
    if k == 36 {
        reveal_strlit("gd");
        reveal_strlit("gl");
        reveal_with_fuel(text_before, 3);
        assert(text_before("gd"@, "gl"@));
    }     else if k == 37 {
        reveal_strlit("gl");
        reveal_strlit("gn");
        reveal_with_fuel(text_before, 3);
        assert(text_before("gl"@, "gn"@));
    }     else if k == 38 {
        reveal_strlit("gn");
        reveal_strlit("gom");
        reveal_with_fuel(text_before, 3);
        assert(text_before("gn"@, "gom"@));
    }     else if k == 39 {
        reveal_strlit("gom");
        reveal_strlit("gu");
        reveal_with_fuel(text_before, 3);
        assert(text_before("gom"@, "gu"@));
    }     else if k == 40 {
        reveal_strlit("gu");
        reveal_strlit("ha");
        reveal_with_fuel(text_before, 2);
        assert(text_before("gu"@, "ha"@));
    }     else if k == 41 {
        reveal_strlit("ha");
        reveal_strlit("haw");
        reveal_with_fuel(text_before, 4);
        assert(text_before("ha"@, "haw"@));
    }     else if k == 42 {
        reveal_strlit("haw");
        reveal_strlit("hi");
        reveal_with_fuel(text_before, 3);
        assert(text_before("haw"@, "hi"@));
    }     else if k == 43 {
        reveal_strlit("hi");
        reveal_strlit("hmn");
        reveal_with_fuel(text_before, 3);
        assert(text_before("hi"@, "hmn"@));
    }     else if k == 44 {
        reveal_strlit("hmn");
        reveal_strlit("hr");
        reveal_with_fuel(text_before, 3);
        assert(text_before("hmn"@, "hr"@));
    }     else if k == 45 {
        reveal_strlit("hr");
        reveal_strlit("ht");
        reveal_with_fuel(text_before, 3);
        assert(text_before("hr"@, "ht"@));
    }     else if k == 46 {
        reveal_strlit("ht");
        reveal_strlit("hu");
        reveal_with_fuel(text_before, 3);
        assert(text_before("ht"@, "hu"@));
    }     else if k == 47 {
        reveal_strlit("hu");
        reveal_strlit("hy");
        reveal_with_fuel(text_before, 3);
        assert(text_before("hu"@, "hy"@));
    }
}

proof fn lemma_codes_ascend_48(k: int)
    requires
        48 <= k < 60,
    ensures
        text_before(service_code(language_by_code(k)), service_code(language_by_code(k + 1))),
{
    if k == 48 {
        reveal_strlit("hy");
        reveal_strlit("id");
        reveal_with_fuel(text_before, 2);
        assert(text_before("hy"@, "id"@));
    }     else if k == 49 {
        reveal_strlit("id");
        reveal_strlit("ig");
        reveal_with_fuel(text_before, 3);
        assert(text_before("id"@, "ig"@));
    }     else if k == 50 {
        reveal_strlit("ig");
        reveal_strlit("ilo");
        reveal_with_fuel(text_before, 3);
        assert(text_before("ig"@, "ilo"@));
    }     else if k == 51 {
        reveal_strlit("ilo");
        reveal_strlit("is");
        reveal_with_fuel(text_before, 3);
        assert(text_before("ilo"@, "is"@));
    }     else if k == 52 {
        reveal_strlit("is");
        reveal_strlit("it");
        reveal_with_fuel(text_before, 3);
        assert(text_before("is"@, "it"@));
    }     else if k == 53 {
        reveal_strlit("it");
        reveal_strlit("iw");
        reveal_with_fuel(text_before, 3);
        assert(text_before("it"@, "iw"@));
    }     else if k == 54 {
        reveal_strlit("iw");
        reveal_strlit("ja");
        reveal_with_fuel(text_before, 2);
        assert(text_before("iw"@, "ja"@));
    }     else if k == 55 {
        reveal_strlit("ja");
        reveal_strlit("jw");
        reveal_with_fuel(text_before, 3);
        assert(text_before("ja"@, "jw"@));
    }     else if k == 56 {
        reveal_strlit("jw");
        reveal_strlit("ka");
        reveal_with_fuel(text_before, 2);
        assert(text_before("jw"@, "ka"@));
    }     else if k == 57 {
        reveal_strlit("ka");
        reveal_strlit("kk");
        reveal_with_fuel(text_before, 3);
        assert(text_before("ka"@, "kk"@));
    }     else if k == 58 {
        reveal_strlit("kk");
        reveal_strlit("km");
        reveal_with_fuel(text_before, 3);
        assert(text_before("kk"@, "km"@));
    }     else if k == 59 {
        reveal_strlit("km");
        reveal_strlit("kn");
        reveal_with_fuel(text_before, 3);
        assert(text_before("km"@, "kn"@));
    }
}

proof fn lemma_codes_ascend_60(k: int)
    requires
        60 <= k < 72,
    ensures
        text_before(service_code(language_by_code(k)), service_code(language_by_code(k + 1))),
{
    if k == 60 {
        reveal_strlit("kn");
        reveal_strlit("ko");
        reveal_with_fuel(text_before, 3);
        assert(text_before("kn"@, "ko"@));
    }     else if k == 61 {
        reveal_strlit("ko");
        reveal_strlit("kri");
        reveal_with_fuel(text_before, 3);
        assert(text_before("ko"@, "kri"@));
    }     else if k == 62 {
        reveal_strlit("kri");
        reveal_strlit("ku");
        reveal_with_fuel(text_before, 3);
        assert(text_before("kri"@, "ku"@));
    }     else if k == 63 {
        reveal_strlit("ku");
        reveal_strlit("ky");
        reveal_with_fuel(text_before, 3);
        assert(text_before("ku"@, "ky"@));
    }     else if k == 64 {
        reveal_strlit("ky");
        reveal_strlit("la");
        reveal_with_fuel(text_before, 2);
        assert(text_before("ky"@, "la"@));
    }     else if k == 65 {
        reveal_strlit("la");
        reveal_strlit("lb");
        reveal_with_fuel(text_before, 3);
        assert(text_before("la"@, "lb"@));
    }     else if k == 66 {
        reveal_strlit("lb");
        reveal_strlit("lg");
        reveal_with_fuel(text_before, 3);
        assert(text_before("lb"@, "lg"@));
    }     else if k == 67 {
        reveal_strlit("lg");
        reveal_strlit("ln");
        reveal_with_fuel(text_before, 3);
        assert(text_before("lg"@, "ln"@));
    }     else if k == 68 {
        reveal_strlit("ln");
        reveal_strlit("lo");
        reveal_with_fuel(text_before, 3);
        assert(text_before("ln"@, "lo"@));
    }     else if k == 69 {
        reveal_strlit("lo");
        reveal_strlit("lt");
        reveal_with_fuel(text_before, 3);
        assert(text_before("lo"@, "lt"@));
    }     else if k == 70 {
        reveal_strlit("lt");
        reveal_strlit("lus");
        reveal_with_fuel(text_before, 3);
        assert(text_before("lt"@, "lus"@));
    }     else if k == 71 {
        reveal_strlit("lus");
        reveal_strlit("lv");
        reveal_with_fuel(text_before, 3);
        assert(text_before("lus"@, "lv"@));
    }
}

proof fn lemma_codes_ascend_72(k: int)
    requires
        72 <= k < 84,
    ensures
        text_before(service_code(language_by_code(k)), service_code(language_by_code(k + 1))),
{
    if k == 72 {
        reveal_strlit("lv");
        reveal_strlit("mai");
        reveal_with_fuel(text_before, 2);
        assert(text_before("lv"@, "mai"@));
    }     else if k == 73 {
        reveal_strlit("mai");
        reveal_strlit("mg");
        reveal_with_fuel(text_before, 3);
        assert(text_before("mai"@, "mg"@));
    }     else if k == 74 {
        reveal_strlit("mg");
        reveal_strlit("mi");
        reveal_with_fuel(text_before, 3);
        assert(text_before("mg"@, "mi"@));
    }     else if k == 75 {
        reveal_strlit("mi");
        reveal_strlit("mk");
        reveal_with_fuel(text_before, 3);
        assert(text_before("mi"@, "mk"@));
    }     else if k == 76 {
        reveal_strlit("mk");
        reveal_strlit("ml");
        reveal_with_fuel(text_before, 3);
        assert(text_before("mk"@, "ml"@));
    }     else if k == 77 {
        reveal_strlit("ml");
        reveal_strlit("mn");
        reveal_with_fuel(text_before, 3);
        assert(text_before("ml"@, "mn"@));
    }     else if k == 78 {
        reveal_strlit("mn");
        reveal_strlit("mni-Mtei");
        reveal_with_fuel(text_before, 4);
        assert(text_before("mn"@, "mni-Mtei"@));
    }     else if k == 79 {
        reveal_strlit("mni-Mtei");
        reveal_strlit("mr");
        reveal_with_fuel(text_before, 3);
        assert(text_before("mni-Mtei"@, "mr"@));
    }     else if k == 80 {
        reveal_strlit("mr");
        reveal_strlit("ms");
        reveal_with_fuel(text_before, 3);
        assert(text_before("mr"@, "ms"@));
    }     else if k == 81 {
        reveal_strlit("ms");
        reveal_strlit("mt");
        reveal_with_fuel(text_before, 3);
        assert(text_before("ms"@, "mt"@));
    }     else if k == 82 {
        reveal_strlit("mt");
        reveal_strlit("my");
        reveal_with_fuel(text_before, 3);
        assert(text_before("mt"@, "my"@));
    }     else if k == 83 {
        reveal_strlit("my");
        reveal_strlit("ne");
        reveal_with_fuel(text_before, 2);
        assert(text_before("my"@, "ne"@));
    }
}

proof fn lemma_codes_ascend_84(k: int)
    requires
        84 <= k < 96,
    ensures
        text_before(service_code(language_by_code(k)), service_code(language_by_code(k + 1))),
{
    if k == 84 {
        reveal_strlit("ne");
        reveal_strlit("nl");
        reveal_with_fuel(text_before, 3);
        assert(text_before("ne"@, "nl"@));
    }     else if k == 85 {
        reveal_strlit("nl");
        reveal_strlit("no");
        reveal_with_fuel(text_before, 3);
        assert(text_before("nl"@, "no"@));
    }     else if k == 86 {
        reveal_strlit("no");
        reveal_strlit("nso");
        reveal_with_fuel(text_before, 3);
        assert(text_before("no"@, "nso"@));
    }     else if k == 87 {
        reveal_strlit("nso");
        reveal_strlit("ny");
        reveal_with_fuel(text_before, 3);
        assert(text_before("nso"@, "ny"@));
    }     else if k == 88 {
        reveal_strlit("ny");
        reveal_strlit("om");
        reveal_with_fuel(text_before, 2);
        assert(text_before("ny"@, "om"@));
    }     else if k == 89 {
        reveal_strlit("om");
        reveal_strlit("or");
        reveal_with_fuel(text_before, 3);
        assert(text_before("om"@, "or"@));
    }     else if k == 90 {
        reveal_strlit("or");
        reveal_strlit("pa");
        reveal_with_fuel(text_before, 2);
        assert(text_before("or"@, "pa"@));
    }     else if k == 91 {
        reveal_strlit("pa");
        reveal_strlit("pl");
        reveal_with_fuel(text_before, 3);
        assert(text_before("pa"@, "pl"@));
    }     else if k == 92 {
        reveal_strlit("pl");
        reveal_strlit("ps");
        reveal_with_fuel(text_before, 3);
        assert(text_before("pl"@, "ps"@));
    }     else if k == 93 {
        reveal_strlit("ps");
        reveal_strlit("pt");
        reveal_with_fuel(text_before, 3);
        assert(text_before("ps"@, "pt"@));
    }     else if k == 94 {
        reveal_strlit("pt");
        reveal_strlit("qu");
        reveal_with_fuel(text_before, 2);
        assert(text_before("pt"@, "qu"@));
    }     else if k == 95 {
        reveal_strlit("qu");
        reveal_strlit("ro");
        reveal_with_fuel(text_before, 2);
        assert(text_before("qu"@, "ro"@));
    }
}

proof fn lemma_codes_ascend_96(k: int)
    requires
        96 <= k < 108,
    ensures
        text_before(service_code(language_by_code(k)), service_code(language_by_code(k + 1))),
{
    if k == 96 {
        reveal_strlit("ro");
        reveal_strlit("ru");
        reveal_with_fuel(text_before, 3);
        assert(text_before("ro"@, "ru"@));
    }     else if k == 97 {
        reveal_strlit("ru");
        reveal_strlit("rw");
        reveal_with_fuel(text_before, 3);
        assert(text_before("ru"@, "rw"@));
    }     else if k == 98 {
        reveal_strlit("rw");
        reveal_strlit("sa");
        reveal_with_fuel(text_before, 2);
        assert(text_before("rw"@, "sa"@));
    }     else if k == 99 {
        reveal_strlit("sa");
        reveal_strlit("sd");
        reveal_with_fuel(text_before, 3);
        assert(text_before("sa"@, "sd"@));
    }     else if k == 100 {
        reveal_strlit("sd");
        reveal_strlit("si");
        reveal_with_fuel(text_before, 3);
        assert(text_before("sd"@, "si"@));
    }     else if k == 101 {
        reveal_strlit("si");
        reveal_strlit("sk");
        reveal_with_fuel(text_before, 3);
        assert(text_before("si"@, "sk"@));
    }     else if k == 102 {
        reveal_strlit("sk");
        reveal_strlit("sl");
        reveal_with_fuel(text_before, 3);
        assert(text_before("sk"@, "sl"@));
    }     else if k == 103 {
        reveal_strlit("sl");
        reveal_strlit("sm");
        reveal_with_fuel(text_before, 3);
        assert(text_before("sl"@, "sm"@));
    }     else if k == 104 {
        reveal_strlit("sm");
        reveal_strlit("sn");
        reveal_with_fuel(text_before, 3);
        assert(text_before("sm"@, "sn"@));
    }     else if k == 105 {
        reveal_strlit("sn");
        reveal_strlit("so");
        reveal_with_fuel(text_before, 3);
        assert(text_before("sn"@, "so"@));
    }     else if k == 106 {
        reveal_strlit("so");
        reveal_strlit("sq");
        reveal_with_fuel(text_before, 3);
        assert(text_before("so"@, "sq"@));
    }     else if k == 107 {
        reveal_strlit("sq");
        reveal_strlit("sr");
        reveal_with_fuel(text_before, 3);
        assert(text_before("sq"@, "sr"@));
    }
}

proof fn lemma_codes_ascend_108(k: int)
    requires
        108 <= k < 120,
    ensures
        text_before(service_code(language_by_code(k)), service_code(language_by_code(k + 1))),
{
    if k == 108 {
        reveal_strlit("sr");
        reveal_strlit("st");
        reveal_with_fuel(text_before, 3);
        assert(text_before("sr"@, "st"@));
    }     else if k == 109 {
        reveal_strlit("st");
        reveal_strlit("su");
        reveal_with_fuel(text_before, 3);
        assert(text_before("st"@, "su"@));
    }     else if k == 110 {
        reveal_strlit("su");
        reveal_strlit("sv");
        reveal_with_fuel(text_before, 3);
        assert(text_before("su"@, "sv"@));
    }     else if k == 111 {
        reveal_strlit("sv");
        reveal_strlit("sw");
        reveal_with_fuel(text_before, 3);
        assert(text_before("sv"@, "sw"@));
    }     else if k == 112 {
        reveal_strlit("sw");
        reveal_strlit("ta");
        reveal_with_fuel(text_before, 2);
        assert(text_before("sw"@, "ta"@));
    }     else if k == 113 {
        reveal_strlit("ta");
        reveal_strlit("te");
        reveal_with_fuel(text_before, 3);
        assert(text_before("ta"@, "te"@));
    }     else if k == 114 {
        reveal_strlit("te");
        reveal_strlit("tg");
        reveal_with_fuel(text_before, 3);
        assert(text_before("te"@, "tg"@));
    }     else if k == 115 {
        reveal_strlit("tg");
        reveal_strlit("th");
        reveal_with_fuel(text_before, 3);
        assert(text_before("tg"@, "th"@));
    }     else if k == 116 {
        reveal_strlit("th");
        reveal_strlit("ti");
        reveal_with_fuel(text_before, 3);
        assert(text_before("th"@, "ti"@));
    }     else if k == 117 {
        reveal_strlit("ti");
        reveal_strlit("tk");
        reveal_with_fuel(text_before, 3);
        assert(text_before("ti"@, "tk"@));
    }     else if k == 118 {
        reveal_strlit("tk");
        reveal_strlit("tr");
        reveal_with_fuel(text_before, 3);
        assert(text_before("tk"@, "tr"@));
    }     else if k == 119 {
        reveal_strlit("tr");
        reveal_strlit("ts");
        reveal_with_fuel(text_before, 3);
        assert(text_before("tr"@, "ts"@));
    }
}

proof fn lemma_codes_ascend_120(k: int)
    requires
        120 <= k < 132,
    ensures
        text_before(service_code(language_by_code(k)), service_code(language_by_code(k + 1))),
{
    if k == 120 {
        reveal_strlit("ts");
        reveal_strlit("tt");
        reveal_with_fuel(text_before, 3);
        assert(text_before("ts"@, "tt"@));
    }     else if k == 121 {
        reveal_strlit("tt");
        reveal_strlit("ug");
        reveal_with_fuel(text_before, 2);
        assert(text_before("tt"@, "ug"@));
    }     else if k == 122 {
        reveal_strlit("ug");
        reveal_strlit("uk");
        reveal_with_fuel(text_before, 3);
        assert(text_before("ug"@, "uk"@));
    }     else if k == 123 {
        reveal_strlit("uk");
        reveal_strlit("ur");
        reveal_with_fuel(text_before, 3);
        assert(text_before("uk"@, "ur"@));
    }     else if k == 124 {
        reveal_strlit("ur");
        reveal_strlit("uz");
        reveal_with_fuel(text_before, 3);
        assert(text_before("ur"@, "uz"@));
    }     else if k == 125 {
        reveal_strlit("uz");
        reveal_strlit("vi");
        reveal_with_fuel(text_before, 2);
        assert(text_before("uz"@, "vi"@));
    }     else if k == 126 {
        reveal_strlit("vi");
        reveal_strlit("xh");
        reveal_with_fuel(text_before, 2);
        assert(text_before("vi"@, "xh"@));
    }     else if k == 127 {
        reveal_strlit("xh");
        reveal_strlit("yi");
        reveal_with_fuel(text_before, 2);
        assert(text_before("xh"@, "yi"@));
    }     else if k == 128 {
        reveal_strlit("yi");
        reveal_strlit("yo");
        reveal_with_fuel(text_before, 3);
        assert(text_before("yi"@, "yo"@));
    }     else if k == 129 {
        reveal_strlit("yo");
        reveal_strlit("zh-CN");
        reveal_with_fuel(text_before, 2);
        assert(text_before("yo"@, "zh-CN"@));
    }     else if k == 130 {
        reveal_strlit("zh-CN");
        reveal_strlit("zh-TW");
        reveal_with_fuel(text_before, 5);
        assert(text_before("zh-CN"@, "zh-TW"@));
    }     else if k == 131 {
        reveal_strlit("zh-TW");
        reveal_strlit("zu");
        reveal_with_fuel(text_before, 3);
        assert(text_before("zh-TW"@, "zu"@));
    }
}

proof fn lemma_names_ascend(k: int)
    requires
        0 <= k < 132,
    ensures
        text_before(display_name(language_at(k)), display_name(language_at(k + 1))),
{
    if k < 12 {
        lemma_names_ascend_0(k);
    }     else if k < 24 {
        lemma_names_ascend_12(k);
    }     else if k < 36 {
        lemma_names_ascend_24(k);
    }     else if k < 48 {
        lemma_names_ascend_36(k);
    }     else if k < 60 {
        lemma_names_ascend_48(k);
    }     else if k < 72 {
        lemma_names_ascend_60(k);
    }     else if k < 84 {
        lemma_names_ascend_72(k);
    }     else if k < 96 {
        lemma_names_ascend_84(k);
    }     else if k < 108 {
        lemma_names_ascend_96(k);
    }     else if k < 120 {
        lemma_names_ascend_108(k);
    }     else if k < 132 {
        lemma_names_ascend_120(k);
    }
}

proof fn lemma_codes_ascend(k: int)
    requires
        0 <= k < 132,
    ensures
        text_before(service_code(language_by_code(k)), service_code(language_by_code(k + 1))),
{
    if k < 12 {
        lemma_codes_ascend_0(k);
    }     else if k < 24 {
        lemma_codes_ascend_12(k);
    }     else if k < 36 {
        lemma_codes_ascend_24(k);
    }     else if k < 48 {
        lemma_codes_ascend_36(k);
    }     else if k < 60 {
        lemma_codes_ascend_48(k);
    }     else if k < 72 {
        lemma_codes_ascend_60(k);
    }     else if k < 84 {
        lemma_codes_ascend_72(k);
    }     else if k < 96 {
        lemma_codes_ascend_84(k);
    }     else if k < 108 {
        lemma_codes_ascend_96(k);
    }     else if k < 120 {
        lemma_codes_ascend_108(k);
    }     else if k < 132 {
        lemma_codes_ascend_120(k);
    }
}

proof fn lemma_names_increase(i: int, j: int)
    requires
        0 <= i < j < LANGUAGE_COUNT,
    ensures
        text_before(display_name(language_at(i)), display_name(language_at(j))),
    decreases j - i,
{
    lemma_names_ascend(j - 1);
    if i < j - 1 {
        lemma_names_increase(i, j - 1);
        lemma_text_before_transitive(
            display_name(language_at(i)),
            display_name(language_at(j - 1)),
            display_name(language_at(j)),
        );
    }
}

proof fn lemma_codes_increase(i: int, j: int)
    requires
        0 <= i < j < LANGUAGE_COUNT,
    ensures
        text_before(service_code(language_by_code(i)), service_code(language_by_code(j))),
    decreases j - i,
{
    lemma_codes_ascend(j - 1);
    if i < j - 1 {
        lemma_codes_increase(i, j - 1);
        lemma_text_before_transitive(
            service_code(language_by_code(i)),
            service_code(language_by_code(j - 1)),
            service_code(language_by_code(j)),
        );
    }
}

/// No two languages share a display name, so the picker tells them all
/// apart.
pub proof fn law_language_names_are_distinct(a: Language, b: Language)
    requires
        a != b,
    ensures
        display_name(a) != display_name(b),
{
    law_all_lists_every_language_once(a, 0);
    law_all_lists_every_language_once(b, 0);
    let i = index_of(a);
    let j = index_of(b);
    if i < j {
        lemma_names_increase(i, j);
    } else {
        lemma_names_increase(j, i);
    }
    lemma_text_before_irreflexive(display_name(a));
}

/// No two languages share a service code, so each can be asked for.
pub proof fn law_language_codes_are_distinct(a: Language, b: Language)
    requires
        a != b,
    ensures
        service_code(a) != service_code(b),
{
    lemma_code_rank(a);
    lemma_code_rank(b);
    let i = code_rank(a);
    let j = code_rank(b);
    if i < j {
        lemma_codes_increase(i, j);
    } else {
        lemma_codes_increase(j, i);
    }
    lemma_text_before_irreflexive(service_code(a));
}

} // verus!
