//! The parameters that a caller may override for one inference.

use crate::error::Error;
use crate::function::{
    attempted, candidate_variants, candidates_of, failure_names_distinct, function_index,
    get_function,
    is_unknown_function, next_attempt, variant_failed, with_failure, Attempt, FunctionConfig,
    Variant,
};
use crate::inference::types::{opt_text, Float32, ToolCall, Usage};
use crate::clock::{read_clock, Reading};
use crate::uuid_util::{
    episode_id_valid, minted_at, refuses_episode_id, stamp_millis, validate_episode_id, Id,
    EARLIEST_EPISODE_SECONDS,
};
use vstd::prelude::*;
use vstd::string::*;

verus! {

/// The overrides for a chat completion; what is absent is left to the
/// variant.
#[derive(Clone, Copy, Debug, PartialEq, Eq, Structural)]
pub struct ChatCompletionInferenceParams {
    pub temperature: Option<Float32>,
    pub max_tokens: Option<u32>,
    pub seed: Option<u32>,
    pub top_p: Option<Float32>,
    pub presence_penalty: Option<Float32>,
    pub frequency_penalty: Option<Float32>,
}

impl ChatCompletionInferenceParams {
    /// The parameters that override nothing.
    pub open spec fn none() -> Self {
        ChatCompletionInferenceParams {
            temperature: None,
            max_tokens: None,
            seed: None,
            top_p: None,
            presence_penalty: None,
            frequency_penalty: None,
        }
    }
}

impl Default for ChatCompletionInferenceParams {
    fn default() -> (params: Self)
        ensures
            params == Self::none(),
    {
        ChatCompletionInferenceParams {
            temperature: None,
            max_tokens: None,
            seed: None,
            top_p: None,
            presence_penalty: None,
            frequency_penalty: None,
        }
    }
}

/// The overrides for one inference, by the kind of variant that they are
/// for.
#[derive(Clone, Copy, Debug, PartialEq, Eq, Structural)]
pub struct InferenceParams {
    pub chat_completion: ChatCompletionInferenceParams,
}

impl Default for InferenceParams {
    fn default() -> (params: Self)
        ensures
            params.chat_completion == ChatCompletionInferenceParams::none(),
    {
        InferenceParams { chat_completion: ChatCompletionInferenceParams::default() }
    }
}

/// One block of the content that a chat function answers with.
#[derive(Clone, Debug, PartialEq)]
pub enum ContentBlockOutput {
    Text { text: String },
    ToolCall(ToolCall),
}

/// What a JSON function answers with: the text as the model wrote it, and
/// the document that it parses to, where it does.
#[derive(Clone, Debug, PartialEq)]
pub struct JsonInferenceOutput {
    pub raw: String,
    pub parsed: Option<serde_json::Value>,
}

/// The answer of a chat function.
#[derive(Clone, Debug, PartialEq)]
pub struct ChatInferenceResponse {
    pub inference_id: Id,
    pub episode_id: Id,
    pub variant_name: String,
    pub content: Vec<ContentBlockOutput>,
    pub usage: Usage,
}

/// The blocks that the answer of a model is shown as: its text, where it has
/// any, and then its tool calls in their order.
pub open spec fn content_blocks(content: Option<String>, tool_calls: Option<Vec<ToolCall>>) -> Seq<
    ContentBlockOutput,
> {
    let text_blocks = match content {
        Some(text) => seq![ContentBlockOutput::Text { text }],
        None => Seq::<ContentBlockOutput>::empty(),
    };
    let call_blocks = match tool_calls {
        Some(calls) => calls@.map_values(|c: ToolCall| ContentBlockOutput::ToolCall(c)),
        None => Seq::<ContentBlockOutput>::empty(),
    };
    text_blocks + call_blocks
}

impl ChatInferenceResponse {
    /// The answer of a chat function that a variant has served: the ids of
    /// the inference and of its episode, the name of the variant, and what
    /// the model answered, block by block, with the tokens it used.
    pub fn new(
        inference_id: Id,
        episode_id: Id,
        variant_name: String,
        content: Option<String>,
        tool_calls: Option<Vec<ToolCall>>,
        usage: Usage,
    ) -> (response: Self)
        ensures
            response.inference_id == inference_id,
            response.episode_id == episode_id,
            response.variant_name == variant_name,
            response.content@ == content_blocks(content, tool_calls),
            response.usage == usage,
    {
        let mut blocks: Vec<ContentBlockOutput> = Vec::new();
        if let Some(text) = content {
            blocks.push(ContentBlockOutput::Text { text });
        }
        let ghost text_blocks = blocks@;
        if let Some(calls) = tool_calls {
            let ghost all = calls@;
            for call in iter: calls.into_iter()
                invariant
                    iter.seq() == all,
                    blocks@ == text_blocks + all.take(iter.index()).map_values(
                        |c: ToolCall| ContentBlockOutput::ToolCall(c),
                    ),
            {
                blocks.push(ContentBlockOutput::ToolCall(call));
                assert(blocks@ =~= text_blocks + all.take(iter.index() + 1).map_values(
                    |c: ToolCall| ContentBlockOutput::ToolCall(c),
                ));
            }
            assert(all.take(all.len() as int) =~= all);
        } else {
            assert(blocks@ =~= text_blocks + Seq::<ContentBlockOutput>::empty());
        }
        ChatInferenceResponse { inference_id, episode_id, variant_name, content: blocks, usage }
    }
}

/// The answer of a JSON function.
#[derive(Clone, Debug, PartialEq)]
pub struct JsonInferenceResponse {
    pub inference_id: Id,
    pub episode_id: Id,
    pub variant_name: String,
    pub output: JsonInferenceOutput,
    pub usage: Usage,
}

/// What is sent to the client for one inference.
#[derive(Clone, Debug, PartialEq)]
pub enum InferenceResponse {
    Chat(ChatInferenceResponse),
    Json(JsonInferenceResponse),
}

impl InferenceResponse {
    /// The id of the inference, whatever the kind of the function.
    pub open spec fn inference_id_spec(&self) -> Id {
        match self {
            InferenceResponse::Chat(response) => response.inference_id,
            InferenceResponse::Json(response) => response.inference_id,
        }
    }

    /// The id of the episode, whatever the kind of the function.
    pub open spec fn episode_id_spec(&self) -> Id {
        match self {
            InferenceResponse::Chat(response) => response.episode_id,
            InferenceResponse::Json(response) => response.episode_id,
        }
    }

    /// The tokens that the inference used, whatever the kind of the
    /// function.
    pub open spec fn usage_spec(&self) -> Usage {
        match self {
            InferenceResponse::Chat(response) => response.usage,
            InferenceResponse::Json(response) => response.usage,
        }
    }

    /// The id of the inference.
    pub fn inference_id(&self) -> (id: Id)
        ensures
            id == self.inference_id_spec(),
    {
        match self {
            InferenceResponse::Chat(response) => response.inference_id,
            InferenceResponse::Json(response) => response.inference_id,
        }
    }

    /// The id of the episode.
    pub fn episode_id(&self) -> (id: Id)
        ensures
            id == self.episode_id_spec(),
    {
        match self {
            InferenceResponse::Chat(response) => response.episode_id,
            InferenceResponse::Json(response) => response.episode_id,
        }
    }

    /// The tokens that the inference used.
    pub fn usage(&self) -> (usage: Usage)
        ensures
            usage == self.usage_spec(),
    {
        match self {
            InferenceResponse::Chat(response) => response.usage,
            InferenceResponse::Json(response) => response.usage,
        }
    }
}

/// What the dispatcher needs to know of a request for one inference to
/// decide who serves it.
pub struct Params {
    /// The name of the function.
    pub function_name: String,
    /// The episode that the inference belongs to; a new one where none is
    /// given.
    pub episode_id: Option<Id>,
    /// Whether the answer is to be streamed.
    pub stream: bool,
    /// The one variant to use, where the caller insists on one.
    pub variant_name: Option<String>,
}

/// An inference that has been admitted and waits for a variant to serve
/// it: its ids, the variants that are still to be tried, and the failures
/// of those that were.
pub struct InferencePlan {
    pub function_name: String,
    pub inference_id: Id,
    pub episode_id: Id,
    pub stream: bool,
    pub candidates: Vec<Variant>,
    pub variant_errors: Vec<(String, Error)>,
}

/// The text of the failure for a function without variants.
pub open spec fn no_variants_text(function_name: Seq<char>) -> Seq<char> {
    "Function `"@ + function_name + "` has no variants"@
}

/// Whether `plan` is the plan for an admitted request with the given
/// episode, when the clock reads as given.
pub open spec fn plan_for(
    function: FunctionConfig,
    params: Params,
    reading: Reading,
    episode_id: Id,
    plan: InferencePlan,
) -> bool {
    &&& plan.function_name == params.function_name
    &&& minted_at(plan.inference_id.bits, reading)
    &&& plan.episode_id == episode_id
    &&& episode_id_valid(episode_id.bits)
    &&& plan.stream == params.stream
    &&& plan.candidates@ == candidates_of(function.variants@, opt_text(params.variant_name))
    &&& plan.candidates@.len() > 0
    &&& plan.variant_errors@.len() == 0
}

/// Whether an id that is minted at the reading may name an episode for
/// certain: the reading lies at or after the earliest second allowed, and
/// within the range of the timestamp of an id.
pub open spec fn mints_valid_ids(reading: Reading) -> bool {
    reading.seconds >= EARLIEST_EPISODE_SECONDS && stamp_millis(reading) < 0x1_0000_0000_0000
}

/// Whether `res` is what the episode of a request comes to when the clock
/// reads as given. An id that the caller gave is the episode where it may
/// name one, and is refused with what is wrong with it where it may not.
/// Where none was given, one is minted at the reading; it is the episode
/// where it may name one, which it may for certain at a reading at which
/// valid ids are minted, and is refused like any other where it may not.
pub open spec fn episode_settled(given: Option<Id>, reading: Reading, res: Result<Id, Error>) -> bool {
    match given {
        Some(id) => if episode_id_valid(id.bits) {
            res == Ok::<Id, Error>(id)
        } else {
            res matches Err(e) && refuses_episode_id(e, id.bits)
        },
        None => match res {
            Ok(id) => minted_at(id.bits, reading) && episode_id_valid(id.bits),
            Err(e) => !mints_valid_ids(reading) && exists|bits: u128|
                minted_at(bits, reading) && #[trigger] refuses_episode_id(e, bits),
        },
    }
}

/// Whether `res` is what the admission of a request comes to when the clock
/// reads as given. `objection` holds what the function's schema objects to
/// the input, if anything. The checks are made in this order, and the first
/// that fails decides: the function is known; it has a variant; the input
/// is not objected to; the pinned variant exists; the episode id may name an
/// episode.
pub open spec fn admission_outcome(
    functions: Seq<FunctionConfig>,
    params: Params,
    objection: Option<String>,
    reading: Reading,
    res: Result<InferencePlan, Error>,
) -> bool {
    let name = params.function_name@;
    let k = function_index(functions, name);
    if k >= functions.len() {
        res matches Err(e) && is_unknown_function(e, name)
    } else if functions[k].variants@.len() == 0 {
        res matches Err(Error::InvalidFunctionVariants { message }) && message@
            == no_variants_text(name)
    } else if objection is Some {
        res == Err::<InferencePlan, Error>(Error::InputValidation { message: objection->0 })
    } else if candidates_of(functions[k].variants@, opt_text(params.variant_name)).len() == 0 {
        res matches Err(Error::UnknownVariant { name: pinned }) && Some(pinned@) == opt_text(
            params.variant_name,
        )
    } else {
        exists|episode: Result<Id, Error>| #[trigger]
            episode_settled(params.episode_id, reading, episode) && match episode {
                Ok(id) => res matches Ok(plan) && plan_for(functions[k], params, reading, id, plan),
                Err(e) => res == Err::<InferencePlan, Error>(e),
            }
    }
}

/// Whether a request passes every check that does not hang on the clock.
pub open spec fn admission_passes(
    functions: Seq<FunctionConfig>,
    params: Params,
    objection: Option<String>,
) -> bool {
    let k = function_index(functions, params.function_name@);
    &&& 0 <= k < functions.len()
    &&& functions[k].variants@.len() > 0
    &&& objection is None
    &&& candidates_of(functions[k].variants@, opt_text(params.variant_name)).len() > 0
    &&& params.episode_id matches Some(id) ==> episode_id_valid(id.bits)
}

/// Settles the episode of a request when the clock reads as given.
pub fn settle_episode_id_at(given: Option<Id>, reading: Reading) -> (res: Result<Id, Error>)
    ensures
        episode_settled(given, reading, res),
{
    let id: Id = match given {
        Some(id) => id,
        None => Id::new_v7(reading),
    };
    match validate_episode_id(id) {
        Ok(_) => Ok(id),
        Err(e) => Err(e),
    }
}

/// Settles the episode of a request. Whatever the clock reads, the result
/// is what `settle_episode_id_at` gives for that reading.
pub fn settle_episode_id(given: Option<Id>) -> (res: Result<Id, Error>)
    ensures
        exists|reading: Reading|
            reading.well_formed() && #[trigger] episode_settled(given, reading, res),
        given matches Some(g) ==> (res is Ok <==> episode_id_valid(g.bits)),
{
    let reading = read_clock();
    let res = settle_episode_id_at(given, reading);
    assert(episode_settled(given, reading, res));
    res
}

/// Admits a request for one inference and plans who serves it, when the
/// clock reads as given. Nothing has been sent to any provider when this
/// returns. A request that passes every check is admitted without fail
/// where the reading is one at which valid ids are minted.
pub fn start_inference_at(
    functions: &Vec<FunctionConfig>,
    params: Params,
    objection: Option<String>,
    reading: Reading,
) -> (res: Result<InferencePlan, Error>)
    ensures
        admission_outcome(functions@, params, objection, reading, res),
        admission_passes(functions@, params, objection) && mints_valid_ids(reading) ==> res is Ok,
{
    let ghost submitted = params;
    let Params { function_name, episode_id, stream, variant_name } = params;
    let function: &FunctionConfig = match get_function(functions, function_name.as_str()) {
        Ok(function) => function,
        Err(e) => {
            return Err(e);
        },
    };
    if function.variants.len() == 0 {
        let mut message: String = "Function `".to_owned();
        message.append(function_name.as_str());
        message.append("` has no variants");
        return Err(Error::InvalidFunctionVariants { message });
    }
    if let Some(message) = objection {
        return Err(Error::InputValidation { message });
    }
    let candidates: Vec<Variant> = candidate_variants(&function.variants, &variant_name);
    if candidates.len() == 0 {
        if let Some(name) = variant_name {
            return Err(Error::UnknownVariant { name });
        }
    }
    let settled = settle_episode_id_at(episode_id, reading);
    let episode_id: Id = match settled {
        Ok(id) => id,
        Err(e) => {
            return Err(e);
        },
    };
    let plan = InferencePlan {
        function_name,
        inference_id: Id::new_v7(reading),
        episode_id,
        stream,
        candidates,
        variant_errors: Vec::new(),
    };
    assert(plan_for(*function, submitted, reading, episode_id, plan));
    Ok(plan)
}

/// Admits a request for one inference and plans who serves it. Nothing
/// has been sent to any provider when this returns. Whatever the clock
/// reads, the result is what `start_inference_at` gives for that reading.
pub fn start_inference(
    functions: &Vec<FunctionConfig>,
    params: Params,
    objection: Option<String>,
) -> (res: Result<InferencePlan, Error>)
    ensures
        exists|reading: Reading|
            reading.well_formed() && #[trigger] admission_outcome(
                functions@,
                params,
                objection,
                reading,
                res,
            ),
{
    let reading = read_clock();
    start_inference_at(functions, params, objection, reading)
}

impl InferencePlan {
    /// Whether two plans are for the same inference.
    pub open spec fn same_inference(&self, other: &InferencePlan) -> bool {
        &&& self.function_name == other.function_name
        &&& self.inference_id == other.inference_id
        &&& self.episode_id == other.episode_id
        &&& self.stream == other.stream
    }

    /// Says which variant is to be tried next. The variant is drawn with the
    /// episode of the inference as the key, so all inferences of one
    /// episode are served by the same variant of a function as long as it
    /// does not fail.
    pub fn next_attempt(&mut self) -> (attempt: Attempt)
        ensures
            final(self).same_inference(old(self)),
            attempted(
                old(self).candidates@,
                old(self).variant_errors,
                old(self).function_name@,
                old(self).episode_id.bits,
                final(self).candidates@,
                final(self).variant_errors,
                attempt,
            ),
    {
        next_attempt(
            &mut self.candidates,
            &mut self.variant_errors,
            self.function_name.as_str(),
            self.episode_id,
        )
    }

    /// Takes note that the variant of the last attempt has failed. A
    /// failure that the provider blames on the request ends the inference
    /// at once and is handed back; any other is recorded under the
    /// variant's name, and the next variant may be tried.
    pub fn variant_failed(&mut self, variant_name: String, error: Error) -> (fatal: Option<Error>)
        ensures
            final(self).same_inference(old(self)),
            final(self).candidates == old(self).candidates,
            error is ClientError ==> fatal == Some(error) && final(self).variant_errors == old(self).variant_errors,
            !(error is ClientError) ==> fatal is None && final(self).variant_errors@
                == with_failure(old(self).variant_errors@, variant_name, error),
            failure_names_distinct(old(self).variant_errors@) ==> failure_names_distinct(
                final(self).variant_errors@,
            ),
    {
        variant_failed(&mut self.variant_errors, variant_name, error)
    }
}

} // verus!
