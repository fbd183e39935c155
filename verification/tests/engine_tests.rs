use tera_inference::engine::{resolve_stop_id, DecodeCore};
use tera_inference::errors::EngineError;

fn fresh_core(prompt: Vec<u32>, max_new: usize) -> DecodeCore {
    DecodeCore::new(prompt, vec![50256, 198], max_new, 64).unwrap()
}

#[test]
fn empty_prompt_is_rejected() {
    let r = DecodeCore::new(vec![], vec![50256, 198], 400, 64);
    assert!(matches!(r, Err(EngineError::EmptyPrompt)));
}

#[test]
fn fresh_core_holds_prompt_only() {
    let core = fresh_core(vec![5, 7, 9], 400);
    assert_eq!(core.tokens, vec![5, 7, 9]);
    assert_eq!(core.prompt_len, 3);
    assert_eq!(core.generated, 0);
    assert!(!core.finished);
}

#[test]
fn first_window_is_whole_sequence_then_single_token() {
    let mut core = fresh_core(vec![5, 7, 9], 400);
    assert_eq!(core.context_start(), 0);
    let stopped = core.accept(11);
    assert!(!stopped);
    assert_eq!(core.context_start(), core.tokens.len() - 1);
    core.accept(12);
    assert_eq!(core.context_start(), core.tokens.len() - 1);
}

#[test]
fn stop_on_first_token_ends_run_with_empty_text() {
    let mut core = fresh_core(vec![5, 7], 400);
    let stopped = core.accept(50256);
    assert!(stopped);
    assert!(core.finished);
    assert_eq!(core.generated, 1);
    assert_eq!(core.render(), "");
}

#[test]
fn newline_sentinel_also_stops() {
    let mut core = fresh_core(vec![5], 400);
    let stopped = core.accept(198);
    assert!(stopped);
    assert!(core.finished);
}

#[test]
fn budget_is_never_exceeded() {
    let mut core = fresh_core(vec![5], 3);
    for t in [10, 11, 12] {
        let stopped = core.accept(t);
        assert!(!stopped);
    }
    assert_eq!(core.generated, 3);
    assert!(core.finished);
    assert_eq!(core.tokens, vec![5, 10, 11, 12]);
}

#[test]
fn zero_budget_finishes_at_once() {
    let core = fresh_core(vec![5], 0);
    assert!(core.finished);
    assert_eq!(core.render(), "");
}

#[test]
fn penalty_window_is_trailing_min() {
    let core = fresh_core(vec![1, 2, 3], 400);
    assert_eq!(core.penalty_start(), 0);
    let short = DecodeCore::new(vec![1, 2, 3], vec![50256], 400, 2).unwrap();
    assert_eq!(short.penalty_start(), 1);
}

#[test]
fn response_is_trimmed_at_render() {
    let mut core = fresh_core(vec![5], 400);
    core.accept(10);
    core.append_fragment(" The capital");
    core.accept(11);
    core.append_fragment(" is Paris. \n");
    assert_eq!(core.render(), "The capital is Paris.");
}

#[test]
fn stop_token_contributes_no_text() {
    let mut core = fresh_core(vec![5], 400);
    core.accept(10);
    core.append_fragment("Paris");
    let stopped = core.accept(50256);
    assert!(stopped);
    assert_eq!(core.render(), "Paris");
    assert_eq!(core.generated, 2);
}

#[test]
fn render_trims_unicode_whitespace() {
    let mut core = fresh_core(vec![5], 400);
    core.accept(10);
    core.append_fragment("\u{a0}\u{2028}hi there\u{3000} ");
    assert_eq!(core.render(), "hi there");
}

#[test]
fn all_whitespace_response_renders_empty() {
    let mut core = fresh_core(vec![5], 400);
    core.accept(10);
    core.append_fragment(" \t \n ");
    assert_eq!(core.render(), "");
}

#[test]
fn missing_stop_token_is_fatal() {
    let r = resolve_stop_id(None);
    assert!(matches!(r, Err(EngineError::MissingStopToken)));
}

#[test]
fn found_stop_token_is_used() {
    let r = resolve_stop_id(Some(50256));
    assert_eq!(r.unwrap(), 50256);
}
