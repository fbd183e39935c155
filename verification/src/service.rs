//! The public entry point: validate that context exists, build the prompt,
//! and drive a generation pipeline with the fixed default settings.
use vstd::prelude::*;
use crate::date::CalendarDate;
use crate::date::format_date;
use crate::engine::TextGeneration;
use crate::errors::EngineError;
use crate::prompt::{assemble_prompt, is_blank, prompt_text, snippets_json, ContextSnippet};
use candle_core::Device;
use candle_transformers::models::quantized_mixformer::MixFormerSequentialForCausalLM;
use tokenizers::Tokenizer;

verus! {

/// Which model the service runs.
#[allow(dead_code)]
pub enum Model {
    Phi2,
    Mixtral8x7b,
}

/// The repository, tokenizer file and weight file for `model`.
pub fn select_model(model: Model) -> (r: (String, String, String))
    ensures
        model is Phi2 ==> r.0@ == "Demonthos/dolphin-2_6-phi-2-candle"@ && r.1@
            == "tokenizer.json"@ && r.2@ == "model-q4k.gguf"@,
        model is Mixtral8x7b ==> r.0@ == "mistralai/Mixtral-8x7B-v0.1"@ && r.1@
            == "tokenizer.json"@ && r.2@ == "dolphin-2.6-mixtral-8x7b.Q8_0.gguf"@,
{
    match model {
        Model::Phi2 => (
            "Demonthos/dolphin-2_6-phi-2-candle".to_owned(),
            "tokenizer.json".to_owned(),
            "model-q4k.gguf".to_owned(),
        ),
        Model::Mixtral8x7b => (
            "mistralai/Mixtral-8x7B-v0.1".to_owned(),
            "tokenizer.json".to_owned(),
            "dolphin-2.6-mixtral-8x7b.Q8_0.gguf".to_owned(),
        ),
    }
}

/// The fixed seed of the sampling policy: generation for a given prompt and
/// model is fully reproducible.
pub const DEFAULT_SEED: u64 = 398752958;

/// The default temperature as decimal text.
pub fn default_temperature_text() -> (r: &'static str)
    ensures
        r@ == "0.3"@,
        crate::text::is_decimal_text(r@),
{
    proof {
        reveal_strlit("0.3");
    }
    "0.3"
}

/// The default repetition-penalty factor as decimal text.
pub fn default_repeat_penalty_text() -> (r: &'static str)
    ensures
        r@ == "1.1"@,
        crate::text::is_decimal_text(r@),
{
    proof {
        reveal_strlit("1.1");
    }
    "1.1"
}

/// How many trailing tokens the repetition penalty looks at.
pub const DEFAULT_REPEAT_LAST_N: usize = 64;

/// The cap on generated tokens per run.
pub const DEFAULT_MAX_NEW_TOKENS: usize = 400;

/// The fixed reply when no saved content is relevant.
pub open spec fn no_content_text() -> Seq<char> {
    "Non of your saved content is relevant to this question. I can only answer based on your saved content."@
}

/// The fixed reply when no saved content is relevant: absence of retrieved
/// context is a definitive successful outcome, not an error.
pub fn no_content_reply() -> (r: String)
    ensures
        r@ == no_content_text(),
{
    "Non of your saved content is relevant to this question. I can only answer based on your saved content.".to_owned()
}

/// What one `answer` call decides before any model work.
pub enum AnswerPlan {
    /// No snippets: reply with the fixed message and touch no capability.
    NoContent(String),
    /// Snippets exist: run generation over this assembled prompt.
    Generate(String),
}

/// The decision step of the service: an empty snippet list short-circuits to
/// the fixed message before the prompt is assembled; otherwise the prompt is
/// exactly the assembled instruction over query, date and snippets, and a
/// blank query is rejected.
pub fn answer_plan(query: &str, snippets: &Vec<ContextSnippet>, date_text: &str) -> (r: Result<
    AnswerPlan,
    EngineError,
>)
    ensures
        snippets@.len() == 0 ==> (r matches Ok(p) && p matches AnswerPlan::NoContent(m) && m@
            == no_content_text()),
        snippets@.len() > 0 ==> {
            &&& r is Err <==> is_blank(query@)
            &&& r is Err ==> r->Err_0 is EmptyQuery
            &&& r matches Ok(p) ==> p matches AnswerPlan::Generate(prompt) && prompt@
                == prompt_text(query@, date_text@, snippets_json(snippets@))
        },
{
    if snippets.len() == 0 {
        return Ok(AnswerPlan::NoContent(no_content_reply()));
    }
    match assemble_prompt(query, snippets, date_text) {
        Ok(prompt) => Ok(AnswerPlan::Generate(prompt)),
        Err(e) => Err(e),
    }
}

/// Answers `query` from the caller-supplied `snippets` alone, on the given
/// model/tokenizer pair. With no snippets the fixed message comes back at
/// once and no tokenizer or model call is made. Otherwise the prompt is
/// assembled with today's date and a pipeline with the fixed defaults runs
/// it; the reply is the trimmed generation output.
pub fn answer_with_context(
    query: &str,
    snippets: &Vec<ContextSnippet>,
    today: &CalendarDate,
    model: MixFormerSequentialForCausalLM,
    tokenizer: Tokenizer,
    device: Device,
) -> (r: Result<String, EngineError>)
    requires
        today.wf(),
    ensures
        snippets@.len() == 0 ==> (r matches Ok(m) && m@ == no_content_text()),
        snippets@.len() > 0 && is_blank(query@) ==> (r matches Err(e) && e is EmptyQuery),
        r matches Err(e) ==> (e is EmptyQuery ==> is_blank(query@)),
        snippets@.len() > 0 ==> (r matches Ok(out) ==> {
            &&& out@.len() > 0 ==> !crate::text::is_ws_char(out@[0])
            &&& out@.len() > 0 ==> !crate::text::is_ws_char(out@[out@.len() - 1])
        }),
{
    if snippets.len() == 0 {
        return Ok(no_content_reply());
    }
    if crate::prompt::is_blank_text(query) {
        return Err(EngineError::EmptyQuery);
    }
    let date_text = format_date(today);
    let prompt = match assemble_prompt(query, snippets, date_text.as_str()) {
        Ok(prompt) => prompt,
        Err(e) => {
            return Err(e);
        },
    };
    let mut pipeline = TextGeneration::new(
        model,
        tokenizer,
        DEFAULT_SEED,
        Some(default_temperature_text()),
        None,
        Some(default_repeat_penalty_text()),
        DEFAULT_REPEAT_LAST_N,
        device,
    );
    pipeline.run(prompt.as_str(), DEFAULT_MAX_NEW_TOKENS)
}

} // verus!
