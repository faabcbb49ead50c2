//! Character-range language heuristic.
//!
//! This is a cheap pre-filter, not a classifier: it only tells Japanese,
//! Chinese and Korean scripts apart by Unicode ranges and falls back to
//! `en` for everything else, so Latin-script languages other than English
//! are reported as `en` as well. The Chinese/Japanese split rests on a tiny
//! fixed set of common Chinese function-word characters; that limitation is
//! deliberate and kept as is.

use vstd::prelude::*;

verus! {

pub struct DetectLanguageRequest {
    pub text: String,
}

pub struct DetectLanguageResponse {
    /// An ISO 639-1 two-letter code, always one of `ja`, `zh`, `ko`, `en`.
    pub language: String,
}

/// The closed set of languages the heuristic can report.
#[derive(Clone, Copy, PartialEq, Eq, Structural, Debug)]
pub enum Language {
    Ja,
    Zh,
    Ko,
    En,
}

pub open spec fn is_hiragana(c: char) -> bool {
    0x3040 <= c as u32 <= 0x309F
}

pub open spec fn is_katakana(c: char) -> bool {
    0x30A0 <= c as u32 <= 0x30FF
}

/// Hiragana or Katakana: the ranges are adjacent, together 0x3040..=0x30FF.
pub open spec fn is_kana(c: char) -> bool {
    is_hiragana(c) || is_katakana(c)
}

pub open spec fn is_cjk_ideograph(c: char) -> bool {
    0x4E00 <= c as u32 <= 0x9FAF
}

/// Any character that makes the text look Japanese or Chinese at all.
pub open spec fn is_cjk_or_kana(c: char) -> bool {
    is_kana(c) || is_cjk_ideograph(c)
}

pub open spec fn is_hangul_syllable(c: char) -> bool {
    0xAC00 <= c as u32 <= 0xD7AF
}

/// A few function-word characters far more common in Chinese than in
/// Japanese running text; their presence, with no kana at all, tips the
/// CJK classification from `ja` to `zh`.
pub open spec fn is_chinese_function_word(c: char) -> bool {
    ||| c == '\u{7684}'
    ||| c == '\u{662F}'
    ||| c == '\u{5728}'
    ||| c == '\u{6709}'
    ||| c == '\u{4E86}'
    ||| c == '\u{548C}'
}

/// The detection rule, first match wins: any CJK-or-kana character makes the
/// text `ja`, unless a Chinese function word appears and no kana does, which
/// makes it `zh`; otherwise any Hangul syllable makes it `ko`; otherwise the
/// fallback is `en`.
pub open spec fn spec_detect(s: Seq<char>) -> Language {
    if exists|i: int| 0 <= i < s.len() && #[trigger] is_cjk_or_kana(s[i]) {
        if (exists|i: int| 0 <= i < s.len() && #[trigger] is_chinese_function_word(s[i]))
            && !(exists|i: int| 0 <= i < s.len() && #[trigger] is_kana(s[i])) {
            Language::Zh
        } else {
            Language::Ja
        }
    } else if exists|i: int| 0 <= i < s.len() && #[trigger] is_hangul_syllable(s[i]) {
        Language::Ko
    } else {
        Language::En
    }
}

/// The two-letter code for each detectable language.
pub open spec fn language_code(l: Language) -> Seq<char> {
    match l {
        Language::Ja => "ja"@,
        Language::Zh => "zh"@,
        Language::Ko => "ko"@,
        Language::En => "en"@,
    }
}

fn char_is_cjk_or_kana(c: char) -> (r: bool)
    ensures
        r == is_cjk_or_kana(c),
{
    let u = c as u32;
    (0x3040 <= u && u <= 0x30FF) || (0x4E00 <= u && u <= 0x9FAF)
}

fn char_is_kana(c: char) -> (r: bool)
    ensures
        r == is_kana(c),
{
    let u = c as u32;
    0x3040 <= u && u <= 0x30FF
}

fn char_is_hangul_syllable(c: char) -> (r: bool)
    ensures
        r == is_hangul_syllable(c),
{
    let u = c as u32;
    0xAC00 <= u && u <= 0xD7AF
}

fn char_is_chinese_function_word(c: char) -> (r: bool)
    ensures
        r == is_chinese_function_word(c),
{
    c == '\u{7684}' || c == '\u{662F}' || c == '\u{5728}' || c == '\u{6709}'
        || c == '\u{4E86}' || c == '\u{548C}'
}

/// Classify `text` by one pass over its characters.
pub fn detect(text: &str) -> (lang: Language)
    ensures
        lang == spec_detect(text@),
{
    let n = text.unicode_len();
    let mut has_cjk_or_kana = false;
    let mut has_kana = false;
    let mut has_function_word = false;
    let mut has_hangul = false;
    for i in 0..n
        invariant
            n == text@.len(),
            has_cjk_or_kana == exists|j: int| 0 <= j < i && #[trigger] is_cjk_or_kana(text@[j]),
            has_kana == exists|j: int| 0 <= j < i && #[trigger] is_kana(text@[j]),
            has_function_word == exists|j: int|
                0 <= j < i && #[trigger] is_chinese_function_word(text@[j]),
            has_hangul == exists|j: int| 0 <= j < i && #[trigger] is_hangul_syllable(text@[j]),
    {
        let c = text.get_char(i);
        if char_is_cjk_or_kana(c) {
            has_cjk_or_kana = true;
        }
        if char_is_kana(c) {
            has_kana = true;
        }
        if char_is_chinese_function_word(c) {
            has_function_word = true;
        }
        if char_is_hangul_syllable(c) {
            has_hangul = true;
        }
    }
    if has_cjk_or_kana {
        if has_function_word && !has_kana {
            Language::Zh
        } else {
            Language::Ja
        }
    } else if has_hangul {
        Language::Ko
    } else {
        Language::En
    }
}

/// Classify the request's text and return its two-letter code.
pub fn detect_language(request: &DetectLanguageRequest) -> (response: DetectLanguageResponse)
    ensures
        response.language@ == language_code(spec_detect(request.text@)),
{
    let code: &str = match detect(request.text.as_str()) {
        Language::Ja => "ja",
        Language::Zh => "zh",
        Language::Ko => "ko",
        Language::En => "en",
    };
    DetectLanguageResponse { language: code.to_owned() }
}

pub open spec fn is_ascii_letter(c: char) -> bool {
    ('A' <= c && c <= 'Z') || ('a' <= c && c <= 'z')
}

/// Law: a nonempty text of Hangul syllables alone is classified `ko`.
/// Nonemptiness matters: the empty text falls through to `en`.
pub proof fn lemma_detect_only_hangul(s: Seq<char>)
    requires
        s.len() > 0,
        forall|i: int| 0 <= i < s.len() ==> #[trigger] is_hangul_syllable(s[i]),
    ensures
        spec_detect(s) == Language::Ko,
{
    assert(is_hangul_syllable(s[0]));
    assert forall|i: int| 0 <= i < s.len() implies !#[trigger] is_cjk_or_kana(s[i]) by {
        assert(is_hangul_syllable(s[i]));
    }
}

/// Law: a text of ASCII Latin letters alone is classified `en`.
pub proof fn lemma_detect_only_ascii_letters(s: Seq<char>)
    requires
        forall|i: int| 0 <= i < s.len() ==> #[trigger] is_ascii_letter(s[i]),
    ensures
        spec_detect(s) == Language::En,
{
    assert forall|i: int| 0 <= i < s.len() implies !#[trigger] is_cjk_or_kana(s[i]) by {
        assert(is_ascii_letter(s[i]));
    }
    assert forall|i: int| 0 <= i < s.len() implies !#[trigger] is_hangul_syllable(s[i]) by {
        assert(is_ascii_letter(s[i]));
    }
}

} // verus!
