use neural_translator::lang::{detect_language, DetectLanguageRequest};

fn detect(text: &str) -> String {
    detect_language(&DetectLanguageRequest { text: text.to_string() }).language
}

#[test]
fn hangul_text_is_korean() {
    assert_eq!(detect("안녕하세요"), "ko");
    assert_eq!(detect("한"), "ko");
}

#[test]
fn ascii_latin_text_is_english() {
    assert_eq!(detect("Hello there"), "en");
    assert_eq!(detect("xyz"), "en");
}

#[test]
fn empty_text_falls_back_to_english() {
    assert_eq!(detect(""), "en");
}

#[test]
fn kana_text_is_japanese() {
    assert_eq!(detect("こんにちは"), "ja");
    assert_eq!(detect("カタカナ"), "ja");
}

#[test]
fn ideographs_without_function_words_are_japanese() {
    // Plain CJK ideographs with no Chinese function word default to `ja`.
    assert_eq!(detect("漢字"), "ja");
}

#[test]
fn function_words_without_kana_are_chinese() {
    assert_eq!(detect("我们是学生"), "zh");
    assert_eq!(detect("他有一本书"), "zh");
}

#[test]
fn function_words_with_kana_stay_japanese() {
    // A Chinese function-word character amid kana still classifies as `ja`.
    assert_eq!(detect("これは的な文"), "ja");
}

#[test]
fn latin_script_languages_also_report_english() {
    // A documented limitation: the fallback cannot tell Latin-script
    // languages apart.
    assert_eq!(detect("bonjour"), "en");
}
