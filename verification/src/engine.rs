//! The bounded token-generation loop: context-window selection, repetition
//! suppression, sampling, stop-condition evaluation, and rendering of the
//! final text.
use vstd::prelude::*;
use vstd::slice::slice_subrange;
use crate::capability::{
    apply_penalty, decode_token, encode_text, lookup_token, model_forward, new_sampler,
    sample_token, tensor_from_ids, tensor_squeeze, tensor_to_single_precision, tensor_unsqueeze,
};
use crate::errors::EngineError;
use crate::text::{chars_to_trimmed_string, is_decimal_text, is_ws_char, trim_ws};
use candle_core::{Device, Tensor};
use candle_transformers::generation::LogitsProcessor;
use candle_transformers::models::quantized_mixformer::MixFormerSequentialForCausalLM;
use tokenizers::Tokenizer;

verus! {

/// The vocabulary entry whose id terminates generation.
pub const END_OF_TEXT_TOKEN: &'static str = "<|endoftext|>";

/// The literal-newline token id that also terminates generation.
pub const NEWLINE_STOP_ID: u32 = 198;

/// The token sequence and bookkeeping of one decode run, apart from the
/// outside capabilities: what the loop appends, when it stops, and what text
/// it has gathered. Everything here is plain data, so every rule of the loop
/// is stated and checked on this type.
pub struct DecodeCore {
    /// Prompt tokens followed by every generated token, append-only.
    pub tokens: Vec<u32>,
    /// How many of `tokens` came from the prompt.
    pub prompt_len: usize,
    /// How many tokens the loop has generated.
    pub generated: usize,
    /// The budget of new tokens; the loop never exceeds it.
    pub max_new_tokens: usize,
    /// How many trailing tokens count toward the repetition penalty.
    pub repeat_window: usize,
    /// The ids whose sampling terminates the loop.
    pub stop_ids: Vec<u32>,
    /// The decoded text fragments gathered so far.
    pub response: Vec<char>,
    /// Whether the loop is over: a stop id was sampled or the budget is spent.
    pub finished: bool,
}

impl DecodeCore {
    /// The bookkeeping invariant of a run.
    pub open spec fn wf(&self) -> bool {
        &&& self.prompt_len >= 1
        &&& self.generated <= self.max_new_tokens
        &&& self.tokens@.len() == self.prompt_len + self.generated
        &&& (self.generated == self.max_new_tokens ==> self.finished)
    }

    /// Whether sampling `t` stops the loop.
    pub open spec fn is_stop(&self, t: u32) -> bool {
        self.stop_ids@.contains(t)
    }

    /// Starts a run over the encoded prompt. An empty encoding is a hard
    /// input error; otherwise the state holds exactly the prompt tokens, no
    /// generated ones, and an empty response.
    pub fn new(prompt_ids: Vec<u32>, stop_ids: Vec<u32>, max_new_tokens: usize, repeat_window: usize)
        -> (r: Result<DecodeCore, EngineError>)
        ensures
            r is Err <==> prompt_ids@.len() == 0,
            r is Err ==> r->Err_0 is EmptyPrompt,
            r matches Ok(c) ==> {
                &&& c.wf()
                &&& c.tokens@ == prompt_ids@
                &&& c.prompt_len == prompt_ids@.len()
                &&& c.generated == 0
                &&& c.max_new_tokens == max_new_tokens
                &&& c.repeat_window == repeat_window
                &&& c.stop_ids@ == stop_ids@
                &&& c.response@ == Seq::<char>::empty()
                &&& c.finished == (max_new_tokens == 0)
            },
    {
        if prompt_ids.len() == 0 {
            return Err(EngineError::EmptyPrompt);
        }
        let prompt_len = prompt_ids.len();
        let finished = max_new_tokens == 0;
        Ok(DecodeCore {
            tokens: prompt_ids,
            prompt_len,
            generated: 0,
            max_new_tokens,
            repeat_window,
            stop_ids,
            response: Vec::new(),
            finished,
        })
    }

    /// Where the context window for the next model call starts: the first
    /// step feeds the whole sequence, every later step only the single most
    /// recently appended token. The model carries its decode state forward
    /// between the calls of one run.
    pub fn context_start(&self) -> (r: usize)
        requires
            self.wf(),
        ensures
            self.generated == 0 ==> r == 0,
            self.generated > 0 ==> r == self.tokens@.len() - 1,
            r < self.tokens@.len(),
    {
        if self.generated > 0 {
            self.tokens.len() - 1
        } else {
            0
        }
    }

    /// Where the repetition-penalty window starts: the trailing
    /// `min(repeat_window, len(tokens))` tokens count.
    pub fn penalty_start(&self) -> (r: usize)
        ensures
            self.repeat_window <= self.tokens@.len() ==> r == self.tokens@.len()
                - self.repeat_window,
            self.repeat_window > self.tokens@.len() ==> r == 0,
    {
        if self.repeat_window > self.tokens.len() {
            0
        } else {
            self.tokens.len() - self.repeat_window
        }
    }

    /// Whether `t` is one of the configured stop ids.
    pub fn is_stop_token(&self, t: u32) -> (r: bool)
        ensures
            r == self.is_stop(t),
    {
        let mut i: usize = 0;
        while i < self.stop_ids.len()
            invariant
                0 <= i <= self.stop_ids@.len(),
                forall|k: int| 0 <= k < i ==> self.stop_ids@[k] != t,
            decreases self.stop_ids@.len() - i,
        {
            if self.stop_ids[i] == t {
                return true;
            }
            i = i + 1;
        }
        false
    }

    /// What one `accept` call does to the state.
    pub open spec fn accept_post(pre: DecodeCore, post: DecodeCore, t: u32, stopped: bool) -> bool {
        &&& stopped == pre.is_stop(t)
        &&& post.tokens@ == pre.tokens@.push(t)
        &&& post.generated == pre.generated + 1
        &&& post.finished == (pre.is_stop(t) || pre.generated + 1 == pre.max_new_tokens)
        &&& post.response@ == pre.response@
        &&& post.prompt_len == pre.prompt_len
        &&& post.max_new_tokens == pre.max_new_tokens
        &&& post.repeat_window == pre.repeat_window
        &&& post.stop_ids@ == pre.stop_ids@
    }

    /// One decode step's bookkeeping: append the sampled token, count it, and
    /// evaluate the stop condition. The terminating token itself never
    /// reaches the response text.
    pub fn accept(&mut self, t: u32) -> (stopped: bool)
        requires
            old(self).wf(),
            !old(self).finished,
        ensures
            final(self).wf(),
            DecodeCore::accept_post(*old(self), *final(self), t, stopped),
    {
        let stopped = self.is_stop_token(t);
        self.tokens.push(t);
        self.generated = self.generated + 1;
        if stopped || self.generated == self.max_new_tokens {
            self.finished = true;
        }
        stopped
    }

    /// Append the decoded fragment of a non-stop token to the response.
    pub fn append_fragment(&mut self, fragment: &str)
        requires
            old(self).wf(),
        ensures
            final(self).wf(),
            final(self).response@ == old(self).response@ + fragment@,
            final(self).tokens@ == old(self).tokens@,
            final(self).generated == old(self).generated,
            final(self).finished == old(self).finished,
            final(self).prompt_len == old(self).prompt_len,
            final(self).max_new_tokens == old(self).max_new_tokens,
            final(self).repeat_window == old(self).repeat_window,
            final(self).stop_ids@ == old(self).stop_ids@,
    {
        crate::text::push_str_chars(&mut self.response, fragment);
    }

    /// The gathered response with leading and trailing whitespace removed.
    pub fn render(&self) -> (r: String)
        ensures
            r@ == trim_ws(self.response@),
            r@.len() > 0 ==> !is_ws_char(r@[0]),
            r@.len() > 0 ==> !is_ws_char(r@[r@.len() - 1]),
    {
        chars_to_trimmed_string(&self.response)
    }
}

/// If the very first sampled token is a stop id, the run is over after
/// exactly one step and that token contributes no text: the response is
/// still what it was — empty — so the rendered output is empty too.
pub proof fn lemma_stop_on_first_token(pre: DecodeCore, post: DecodeCore, t: u32, stopped: bool)
    requires
        pre.wf(),
        pre.generated == 0,
        pre.is_stop(t),
        DecodeCore::accept_post(pre, post, t, stopped),
    ensures
        stopped,
        post.finished,
        post.generated == 1,
        post.response@ == pre.response@,
        pre.response@.len() == 0 ==> trim_ws(post.response@).len() == 0,
{
    if pre.response@.len() == 0 {
        assert(trim_ws(post.response@) =~= Seq::<char>::empty());
    }
}

/// The decode pipeline of one run: the loaded model and tokenizer, the
/// device, the seeded sampler, and the repetition-penalty settings. The
/// penalty factor travels as simple decimal text, `None` meaning a factor
/// of one — repetition suppression disabled.
pub struct TextGeneration {
    pub model: MixFormerSequentialForCausalLM,
    pub device: Device,
    pub tokenizer: Tokenizer,
    pub logits_processor: LogitsProcessor,
    pub repeat_penalty: Option<String>,
    pub repeat_last_n: usize,
    /// How many tokens the last `run` generated; observability only.
    pub generated_tokens: usize,
}

impl TextGeneration {
    /// The penalty factor, if any, is decimal text the outside routine can
    /// take.
    pub open spec fn wf(&self) -> bool {
        match self.repeat_penalty {
            Some(p) => is_decimal_text(p@),
            None => true,
        }
    }

    /// Whether repetition suppression is switched off (penalty factor one).
    pub open spec fn penalty_disabled(&self) -> bool {
        self.repeat_penalty is None
    }

    /// Binds a pipeline to a model/tokenizer pair and a freshly seeded
    /// sampler. Each run must own its pipeline: the model value carries the
    /// decode cache of the run.
    pub fn new(
        model: MixFormerSequentialForCausalLM,
        tokenizer: Tokenizer,
        seed: u64,
        temperature: Option<&str>,
        top_p: Option<&str>,
        repeat_penalty: Option<&str>,
        repeat_last_n: usize,
        device: Device,
    ) -> (r: TextGeneration)
        requires
            temperature matches Some(t) ==> is_decimal_text(t@),
            top_p matches Some(t) ==> is_decimal_text(t@),
            repeat_penalty matches Some(p) ==> is_decimal_text(p@),
        ensures
            r.wf(),
            r.model == model,
            r.tokenizer == tokenizer,
            r.device == device,
            r.penalty_disabled() <==> repeat_penalty is None,
            repeat_penalty matches Some(p) ==> (r.repeat_penalty matches Some(q) && q@ == p@),
            r.repeat_last_n == repeat_last_n,
            r.generated_tokens == 0,
    {
        let logits_processor = new_sampler(seed, temperature, top_p);
        let repeat_penalty = match repeat_penalty {
            Some(p) => Some(p.to_owned()),
            None => None,
        };
        TextGeneration {
            model,
            device,
            tokenizer,
            logits_processor,
            repeat_penalty,
            repeat_last_n,
            generated_tokens: 0,
        }
    }

    /// Repetition suppression: what stands between the model's raw scores
    /// and sampling. With the penalty disabled the scores pass through
    /// untouched — the very tensor the model returned; otherwise the
    /// trailing window of the sequence is down-weighted by the outside
    /// penalty routine.
    pub fn adjust_scores(&self, scores: Tensor, core: &DecodeCore) -> (r: Result<
        Tensor,
        EngineError,
    >)
        requires
            self.wf(),
            core.wf(),
        ensures
            self.penalty_disabled() ==> (r matches Ok(t) && t == scores),
            r matches Err(e) ==> e is Generation,
    {
        match &self.repeat_penalty {
            None => Ok(scores),
            Some(penalty) => {
                let start = core.penalty_start();
                let recent = slice_subrange(core.tokens.as_slice(), start, core.tokens.len());
                apply_penalty(&scores, penalty.as_str(), recent)
            },
        }
    }

    /// Drives the decode loop over `prompt` for at most `sample_len` new
    /// tokens and returns the trimmed response text. Fails with
    /// `EmptyPrompt` when the prompt encodes to nothing, with
    /// `MissingStopToken` when the vocabulary lacks the end-of-text entry —
    /// before any decode step — and with `Generation` when a capability call
    /// fails; no partial response is returned.
    pub fn run(&mut self, prompt: &str, sample_len: usize) -> (r: Result<String, EngineError>)
        requires
            old(self).wf(),
        ensures
            final(self).generated_tokens <= sample_len,
            r matches Ok(out) ==> {
                &&& out@.len() > 0 ==> !is_ws_char(out@[0])
                &&& out@.len() > 0 ==> !is_ws_char(out@[out@.len() - 1])
            },
            r matches Err(e) ==> (e is EmptyPrompt || e is MissingStopToken || e is Generation),
    {
        self.generated_tokens = 0;
        let prompt_ids = match encode_text(&self.tokenizer, prompt) {
            Ok(ids) => ids,
            Err(e) => {
                return Err(e);
            },
        };
        if prompt_ids.len() == 0 {
            return Err(EngineError::EmptyPrompt);
        }
        let eos_id = match resolve_stop_id(lookup_token(&self.tokenizer, END_OF_TEXT_TOKEN)) {
            Ok(id) => id,
            Err(e) => {
                return Err(e);
            },
        };
        let mut stop_ids: Vec<u32> = Vec::new();
        stop_ids.push(eos_id);
        stop_ids.push(NEWLINE_STOP_ID);
        let mut core = match DecodeCore::new(prompt_ids, stop_ids, sample_len, self.repeat_last_n) {
            Ok(core) => core,
            Err(e) => {
                return Err(e);
            },
        };
        while !core.finished
            invariant
                self.wf(),
                core.wf(),
                core.max_new_tokens == sample_len,
                self.generated_tokens == core.generated,
            decreases core.max_new_tokens - core.generated,
        {
            let start = core.context_start();
            let window = slice_subrange(core.tokens.as_slice(), start, core.tokens.len());
            let input = match tensor_from_ids(window, &self.device) {
                Ok(t) => t,
                Err(e) => {
                    return Err(e);
                },
            };
            let input = match tensor_unsqueeze(&input, 0) {
                Ok(t) => t,
                Err(e) => {
                    return Err(e);
                },
            };
            let logits = match model_forward(&mut self.model, &input) {
                Ok(t) => t,
                Err(e) => {
                    return Err(e);
                },
            };
            let logits = match tensor_squeeze(&logits, 0) {
                Ok(t) => t,
                Err(e) => {
                    return Err(e);
                },
            };
            let logits = match tensor_to_single_precision(&logits) {
                Ok(t) => t,
                Err(e) => {
                    return Err(e);
                },
            };
            let scores = match self.adjust_scores(logits, &core) {
                Ok(t) => t,
                Err(e) => {
                    return Err(e);
                },
            };
            let next_token = match sample_token(&mut self.logits_processor, &scores) {
                Ok(id) => id,
                Err(e) => {
                    return Err(e);
                },
            };
            let stopped = core.accept(next_token);
            self.generated_tokens = core.generated;
            if !stopped {
                let fragment = match decode_token(&self.tokenizer, next_token) {
                    Ok(text) => text,
                    Err(e) => {
                        return Err(e);
                    },
                };
                core.append_fragment(fragment.as_str());
            }
        }
        Ok(core.render())
    }
}

/// Turns the vocabulary lookup of the end-of-text entry into the run's stop
/// id: a missing entry is the fatal model/tokenizer mismatch, never defaulted.
pub fn resolve_stop_id(found: Option<u32>) -> (r: Result<u32, EngineError>)
    ensures
        r is Ok <==> found is Some,
        found matches Some(id) ==> r matches Ok(got) && got == id,
        r is Err ==> r->Err_0 is MissingStopToken,
{
    match found {
        Some(id) => Ok(id),
        None => Err(EngineError::MissingStopToken),
    }
}

} // verus!
