//! The outside capabilities the engine drives: the tokenizer, the model's
//! forward pass, the sampler, and the date renderer. Each stands behind a
//! declared type or a thin wrapper whose contract states only what the
//! outside crate's source shows.
use vstd::prelude::*;
use std::fmt::Write;
use crate::errors::EngineError;
use crate::text::is_decimal_text;
use candle_core::Device;
use candle_core::Tensor;
use candle_transformers::generation::LogitsProcessor;
use candle_transformers::models::quantized_mixformer::MixFormerSequentialForCausalLM;
use tokenizers::Tokenizer;

verus! {

#[verifier::external_type_specification]
#[verifier::external_body]
pub struct ExTensor(Tensor);

#[verifier::external_type_specification]
#[verifier::external_body]
pub struct ExCandleError(candle_core::Error);

#[verifier::external_type_specification]
#[verifier::external_body]
pub struct ExDevice(Device);

#[verifier::external_type_specification]
#[verifier::external_body]
pub struct ExLogitsProcessor(LogitsProcessor);

#[verifier::external_type_specification]
#[verifier::external_body]
pub struct ExMixFormer(MixFormerSequentialForCausalLM);

#[verifier::external_type_specification]
#[verifier::external_body]
pub struct ExTokenizer(Tokenizer);

/// What chrono renders for the calendar day `y`-`m`-`d` under the format
/// string `fmt`: a function of these arguments alone.
pub uninterp spec fn chrono_formatted(y: int, m: int, d: int, fmt: Seq<char>) -> Seq<char>;

/// Relies on `chrono::NaiveDate::from_ymd_opt`, which returns a date for
/// every existing calendar day in years 1 through 9999, and on chrono's
/// formatter, whose output depends only on the date and the format string.
/// With the long date format — date-only items, all recognized — rendering a
/// date cannot fail, and writing into a `String` never fails, so an existing
/// day always yields `Some`; a format error on another format string comes
/// back as `None` instead of panicking.
#[verifier::external_body]
pub(crate) fn chrono_format_ymd(y: i32, m: u32, d: u32, fmt: &str) -> (r: Option<String>)
    ensures
        r matches Some(s) ==> s@ == chrono_formatted(y as int, m as int, d as int, fmt@),
        crate::date::valid_ymd(y as int, m as int, d as int) && fmt@ == "%A, %B %e, %Y"@
            ==> r is Some,
{
    let date = match chrono::NaiveDate::from_ymd_opt(y, m, d) {
        Some(date) => date,
        None => return None,
    };
    let mut out = String::new();
    match write!(out, "{}", date.format(fmt)) {
        Ok(()) => Some(out),
        Err(_) => None,
    }
}

/// Relies on `tokenizers::Tokenizer::encode` with special tokens added: the
/// ids of the encoding, in order. What they are depends on the loaded
/// tokenizer, so nothing more is stated.
#[verifier::external_body]
pub(crate) fn encode_text(tokenizer: &Tokenizer, text: &str) -> (r: Result<Vec<u32>, EngineError>)
    ensures
        r matches Err(e) ==> e is Generation,
{
    match tokenizer.encode(text, true) {
        Ok(encoding) => Ok(encoding.get_ids().to_vec()),
        Err(e) => Err(EngineError::Generation(e.to_string())),
    }
}

/// Relies on `tokenizers::Tokenizer::token_to_id`: the id of `token` in the
/// vocabulary, added tokens included, or `None` if the vocabulary lacks it.
#[verifier::external_body]
pub(crate) fn lookup_token(tokenizer: &Tokenizer, token: &str) -> (r: Option<u32>) {
    tokenizer.token_to_id(token)
}

/// Relies on `tokenizers::Tokenizer::decode` with special tokens skipped: the
/// text fragment of the single id `token`.
#[verifier::external_body]
pub(crate) fn decode_token(tokenizer: &Tokenizer, token: u32) -> (r: Result<String, EngineError>)
    ensures
        r matches Err(e) ==> e is Generation,
{
    match tokenizer.decode(&[token], true) {
        Ok(text) => Ok(text),
        Err(e) => Err(EngineError::Generation(e.to_string())),
    }
}

/// Relies on `candle_core::Tensor::new` over a slice of token ids: a
/// one-dimensional tensor holding them, on `device`.
#[verifier::external_body]
pub(crate) fn tensor_from_ids(ids: &[u32], device: &Device) -> (r: Result<Tensor, EngineError>)
    ensures
        r matches Err(e) ==> e is Generation,
{
    match Tensor::new(ids, device) {
        Ok(t) => Ok(t),
        Err(e) => Err(EngineError::Generation(e.to_string())),
    }
}

/// Relies on `candle_core::Tensor::unsqueeze`: the same data with one new
/// axis of size one at `dim`.
#[verifier::external_body]
pub(crate) fn tensor_unsqueeze(t: &Tensor, dim: usize) -> (r: Result<Tensor, EngineError>)
    ensures
        r matches Err(e) ==> e is Generation,
{
    match t.unsqueeze(dim) {
        Ok(t) => Ok(t),
        Err(e) => Err(EngineError::Generation(e.to_string())),
    }
}

/// Relies on `candle_core::Tensor::squeeze`: the same data with the size-one
/// axis at `dim` removed.
#[verifier::external_body]
pub(crate) fn tensor_squeeze(t: &Tensor, dim: usize) -> (r: Result<Tensor, EngineError>)
    ensures
        r matches Err(e) ==> e is Generation,
{
    match t.squeeze(dim) {
        Ok(t) => Ok(t),
        Err(e) => Err(EngineError::Generation(e.to_string())),
    }
}

/// Relies on `candle_core::Tensor::to_dtype`: the scores narrowed to
/// single-precision floating point for downstream processing.
#[verifier::external_body]
pub(crate) fn tensor_to_single_precision(t: &Tensor) -> (r: Result<Tensor, EngineError>)
    ensures
        r matches Err(e) ==> e is Generation,
{
    match t.to_dtype(candle_core::DType::F32) {
        Ok(t) => Ok(t),
        Err(e) => Err(EngineError::Generation(e.to_string())),
    }
}

/// Relies on `MixFormerSequentialForCausalLM::forward`: one decode step over
/// the window `input`, returning per-vocabulary scores. The model keeps its
/// own cache between calls within a run, so the result depends on that state
/// too; nothing is stated of it.
#[verifier::external_body]
pub(crate) fn model_forward(model: &mut MixFormerSequentialForCausalLM, input: &Tensor) -> (r:
    Result<Tensor, EngineError>)
    ensures
        r matches Err(e) ==> e is Generation,
{
    match model.forward(input) {
        Ok(t) => Ok(t),
        Err(e) => Err(EngineError::Generation(e.to_string())),
    }
}

/// Relies on `candle_transformers::generation::LogitsProcessor::new`. The
/// temperature and nucleus bound travel as simple decimal text and are
/// parsed one for one into the numeric arguments, which always succeeds on
/// that form.
#[verifier::external_body]
pub(crate) fn new_sampler(seed: u64, temperature: Option<&str>, top_p: Option<&str>) -> (r:
    LogitsProcessor)
    requires
        temperature matches Some(t) ==> is_decimal_text(t@),
        top_p matches Some(t) ==> is_decimal_text(t@),
{
    LogitsProcessor::new(
        seed,
        temperature.map(|t| t.parse().unwrap()),
        top_p.map(|t| t.parse().unwrap()),
    )
}

/// Relies on `LogitsProcessor::sample`: draws one token id from the score
/// vector, advancing the sampler's seeded random stream. Which id comes back
/// depends on that stream, so nothing more is stated.
#[verifier::external_body]
pub(crate) fn sample_token(sampler: &mut LogitsProcessor, scores: &Tensor) -> (r: Result<
    u32,
    EngineError,
>)
    ensures
        r matches Err(e) ==> e is Generation,
{
    match sampler.sample(scores) {
        Ok(id) => Ok(id),
        Err(e) => Err(EngineError::Generation(e.to_string())),
    }
}

/// Relies on `candle_transformers::utils::apply_repeat_penalty`: down-weights
/// the scores of the ids in `recent` by the penalty factor, which travels as
/// simple decimal text and is parsed one for one into the numeric argument,
/// which always succeeds on that form.
#[verifier::external_body]
pub(crate) fn apply_penalty(scores: &Tensor, penalty: &str, recent: &[u32]) -> (r: Result<
    Tensor,
    EngineError,
>)
    requires
        is_decimal_text(penalty@),
    ensures
        r matches Err(e) ==> e is Generation,
{
    match candle_transformers::utils::apply_repeat_penalty(scores, penalty.parse().unwrap(), recent)
    {
        Ok(t) => Ok(t),
        Err(e) => Err(EngineError::Generation(e.to_string())),
    }
}

/// Relies on `String::from_iter` over `char`: the characters of the result
/// are exactly those of `v`.
#[verifier::external_body]
pub(crate) fn chars_to_string(v: &Vec<char>) -> (r: String)
    ensures
        r@ == v@,
{
    v.iter().collect()
}

} // verus!
