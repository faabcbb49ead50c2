use neural_translator::health::{interpret_health_probe, ProbeOutcome};
use neural_translator::orchestrator::get_translation_models;

#[test]
fn unreachable_server_is_unhealthy_not_an_error() {
    let candidates = get_translation_models();
    assert!(!interpret_health_probe(ProbeOutcome::Unreachable, &candidates));
}

#[test]
fn http_failure_is_unhealthy() {
    let candidates = get_translation_models();
    assert!(!interpret_health_probe(ProbeOutcome::Failed, &candidates));
}

#[test]
fn catalog_with_candidate_is_healthy() {
    let candidates = get_translation_models();
    let body = r#"{"models":[{"name":"qwen2.5:3b"},{"name":"mistral:7b"}]}"#.to_string();
    assert!(interpret_health_probe(ProbeOutcome::Catalog { body }, &candidates));
}

#[test]
fn catalog_without_candidates_is_unhealthy() {
    let candidates = get_translation_models();
    let body = r#"{"models":[{"name":"mistral:7b"},{"name":"codellama:13b"}]}"#.to_string();
    assert!(!interpret_health_probe(ProbeOutcome::Catalog { body }, &candidates));
}

#[test]
fn empty_catalog_is_unhealthy() {
    let candidates = get_translation_models();
    assert!(!interpret_health_probe(ProbeOutcome::Catalog { body: String::new() }, &candidates));
}
