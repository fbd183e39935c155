use tera_inference::errors::EngineError;
use tera_inference::prompt::ContextSnippet;
use tera_inference::service::{
    answer_plan, default_repeat_penalty_text, default_temperature_text, no_content_reply,
    select_model, AnswerPlan, Model, DEFAULT_MAX_NEW_TOKENS, DEFAULT_REPEAT_LAST_N, DEFAULT_SEED,
};

const NO_CONTENT: &str = "Non of your saved content is relevant to this question. I can only answer based on your saved content.";

#[test]
fn fixed_no_content_message() {
    assert_eq!(no_content_reply(), NO_CONTENT);
}

#[test]
fn empty_snippets_short_circuit_to_fixed_message() {
    let r = answer_plan("What is the capital of France?", &vec![], "Monday, January 15, 2024");
    match r.unwrap() {
        AnswerPlan::NoContent(m) => assert_eq!(m, NO_CONTENT),
        AnswerPlan::Generate(_) => panic!("no generation may be planned without snippets"),
    }
}

#[test]
fn snippets_lead_to_a_generation_plan() {
    let snippets = vec![ContextSnippet {
        content: "Paris is the capital of France.".to_string(),
        metadata: "{\"id\":1}".to_string(),
    }];
    let r = answer_plan("Summarize this.", &snippets, "Monday, January 15, 2024");
    match r.unwrap() {
        AnswerPlan::Generate(prompt) => {
            assert!(prompt.contains("Summarize this."));
            assert!(prompt.contains("Paris is the capital of France."));
            assert!(prompt.contains("Monday, January 15, 2024"));
        },
        AnswerPlan::NoContent(_) => panic!("snippets were supplied"),
    }
}

#[test]
fn blank_query_with_snippets_is_rejected() {
    let snippets = vec![ContextSnippet {
        content: "x".to_string(),
        metadata: "null".to_string(),
    }];
    let r = answer_plan("  \n", &snippets, "Monday, January 15, 2024");
    assert!(matches!(r, Err(EngineError::EmptyQuery)));
}

#[test]
fn planning_is_deterministic() {
    let snippets = vec![ContextSnippet {
        content: "alpha".to_string(),
        metadata: "7".to_string(),
    }];
    let a = answer_plan("q", &snippets, "Friday, January  5, 2024");
    let b = answer_plan("q", &snippets, "Friday, January  5, 2024");
    match (a.unwrap(), b.unwrap()) {
        (AnswerPlan::Generate(x), AnswerPlan::Generate(y)) => assert_eq!(x, y),
        _ => panic!("both plans must generate"),
    }
}

#[test]
fn model_selection_names_the_artifacts() {
    let (repo, tokenizer, weights) = select_model(Model::Phi2);
    assert_eq!(repo, "Demonthos/dolphin-2_6-phi-2-candle");
    assert_eq!(tokenizer, "tokenizer.json");
    assert_eq!(weights, "model-q4k.gguf");
    let (repo, tokenizer, weights) = select_model(Model::Mixtral8x7b);
    assert_eq!(repo, "mistralai/Mixtral-8x7B-v0.1");
    assert_eq!(tokenizer, "tokenizer.json");
    assert_eq!(weights, "dolphin-2.6-mixtral-8x7b.Q8_0.gguf");
}

#[test]
fn default_settings_match_the_fixed_policy() {
    assert_eq!(DEFAULT_SEED, 398752958);
    assert_eq!(default_temperature_text().parse::<f64>().unwrap(), 0.3);
    assert_eq!(default_repeat_penalty_text().parse::<f32>().unwrap(), 1.1);
    assert_eq!(DEFAULT_REPEAT_LAST_N, 64);
    assert_eq!(DEFAULT_MAX_NEW_TOKENS, 400);
}
