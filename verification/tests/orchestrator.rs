use neural_translator::orchestrator::{
    build_enhanced_prompt, build_improvement_prompt, build_translate_prompt,
    get_translation_models, join_strings, run_fallback, AttemptOutcome, TranslateError,
    TranslateRequest,
};
use neural_translator::text::trim_str;

const ADDRESS: &str = "http://localhost:11434";

#[test]
fn connection_failure_aborts_after_one_attempt() {
    // An unreachable server ends the walk at the first attempt: exactly one
    // outbound call, a ConnectionError naming the address, and no further
    // candidate tried.
    let candidates = get_translation_models();
    let outcomes = vec![
        AttemptOutcome::ConnectionFailed,
        AttemptOutcome::ConnectionFailed,
        AttemptOutcome::ConnectionFailed,
        AttemptOutcome::ConnectionFailed,
        AttemptOutcome::ConnectionFailed,
        AttemptOutcome::ConnectionFailed,
    ];
    let (result, attempts) = run_fallback(&candidates, outcomes, ADDRESS);
    assert_eq!(attempts, 1, "only one outbound request may happen");
    match result {
        Err(TranslateError::ConnectionError { address }) => assert_eq!(address, ADDRESS),
        _ => panic!("expected a ConnectionError"),
    }
}

#[test]
fn third_candidate_success_makes_three_attempts() {
    let candidates = get_translation_models();
    let outcomes = vec![
        AttemptOutcome::Failed,
        AttemptOutcome::Failed,
        AttemptOutcome::Success { body: "  Guten Tag \n".to_string() },
        AttemptOutcome::Failed,
        AttemptOutcome::Failed,
        AttemptOutcome::Failed,
    ];
    let (result, attempts) = run_fallback(&candidates, outcomes, ADDRESS);
    assert_eq!(attempts, 3, "exactly three outbound attempts");
    let response = result.expect("the third candidate's output is delivered");
    assert_eq!(response.translated_text, "Guten Tag");
}

#[test]
fn first_success_wins_immediately() {
    let candidates = get_translation_models();
    let outcomes = vec![
        AttemptOutcome::Success { body: "hola".to_string() },
        AttemptOutcome::Success { body: "never reached".to_string() },
        AttemptOutcome::Failed,
        AttemptOutcome::Failed,
        AttemptOutcome::Failed,
        AttemptOutcome::Failed,
    ];
    let (result, attempts) = run_fallback(&candidates, outcomes, ADDRESS);
    assert_eq!(attempts, 1);
    assert_eq!(result.unwrap().translated_text, "hola");
}

#[test]
fn exhausted_candidates_report_all_of_them() {
    let candidates = get_translation_models();
    let outcomes = vec![
        AttemptOutcome::Failed,
        AttemptOutcome::Failed,
        AttemptOutcome::Failed,
        AttemptOutcome::Failed,
        AttemptOutcome::Failed,
        AttemptOutcome::Failed,
    ];
    let (result, attempts) = run_fallback(&candidates, outcomes, ADDRESS);
    assert_eq!(attempts, 6);
    match result {
        Err(e @ TranslateError::NoModelAvailable { .. }) => {
            let message = e.message();
            assert_eq!(
                message,
                "No suitable model available. Please install one of: aya:8b, qwen2.5:3b, \
                 llama3.3:8b-instruct, llama3.1:8b, gemma3:3b, phi4-mini"
            );
        }
        _ => panic!("expected NoModelAvailable"),
    }
}

#[test]
fn connection_error_message_names_the_address() {
    let e = TranslateError::ConnectionError { address: ADDRESS.to_string() };
    assert_eq!(
        e.message(),
        "Cannot connect to Ollama server at http://localhost:11434. \
         Please make sure Ollama is running."
    );
}

#[test]
fn recommended_models_in_priority_order() {
    let models = get_translation_models();
    assert_eq!(
        models,
        vec![
            "aya:8b",
            "qwen2.5:3b",
            "llama3.3:8b-instruct",
            "llama3.1:8b",
            "gemma3:3b",
            "phi4-mini"
        ]
    );
}

#[test]
fn translate_prompt_has_minimal_template() {
    let request = TranslateRequest {
        text: "good morning".to_string(),
        from_lang: "English".to_string(),
        to_lang: "Japanese".to_string(),
    };
    assert_eq!(
        build_translate_prompt(&request),
        "Translate English to Japanese:\ngood morning"
    );
}

#[test]
fn enhanced_prompt_embeds_languages_and_text() {
    let prompt = build_enhanced_prompt("English", "French", "good evening");
    assert!(prompt.starts_with(
        "You are an expert professional translator specializing in English to French translation."
    ));
    assert!(prompt.ends_with("Text to translate:\ngood evening"));
    assert!(prompt.contains("Return ONLY the translation"));
}

#[test]
fn improvement_prompt_follows_language() {
    let en = build_improvement_prompt("English", "some text");
    assert!(en.starts_with("You are a professional English editor"));
    assert!(en.ends_with("Text to improve:\nsome text"));

    let ja = build_improvement_prompt("Japanese", "ある文章");
    assert!(ja.contains("日本語"));
    assert!(ja.ends_with("改善するテキスト：\nある文章"));

    // An unknown language gets the generic template.
    let other = build_improvement_prompt("Esperanto", "teksto");
    assert!(other.starts_with("You are a professional text editor and improvement specialist."));
    assert!(other.ends_with("Text to improve:\nteksto"));
}

#[test]
fn trim_removes_surrounding_whitespace_only() {
    assert_eq!(trim_str("  hello world \n\t"), "hello world");
    assert_eq!(trim_str("unchanged"), "unchanged");
    assert_eq!(trim_str(" \n \r "), "");
    assert_eq!(trim_str("\u{3000}日本語\u{3000}"), "日本語");
}

#[test]
fn join_strings_uses_separator_between_items() {
    let items: Vec<String> = vec!["a".to_string(), "b".to_string(), "c".to_string()];
    assert_eq!(join_strings(&items, ", "), "a, b, c");
    let one: Vec<String> = vec!["solo".to_string()];
    assert_eq!(join_strings(&one, ", "), "solo");
    let none: Vec<String> = Vec::new();
    assert_eq!(join_strings(&none, ", "), "");
}
