//! Batch inference: the shape that a submission must have, the rows that
//! record it, and what a poll reports.

pub mod poll;
pub mod rows;
pub mod submit;

pub use self::poll::{
    get_batch_request, BatchRequest, PollInferenceQuery, PollInferenceQueryParams,
    PollInferenceResponse,
};
pub use self::rows::{
    write_inference, BatchInferenceDatabaseInsertMetadata, BatchModelInferenceInsert,
    BatchModelInferenceWithMetadata, BatchRequestInsert, BatchStatus,
    PrepareBatchInferenceOutput,
};
pub use self::submit::{start_batch_inference, BatchTags, Params};
pub use crate::endpoints::inference::{
    ChatInferenceResponse, InferenceResponse, JsonInferenceResponse,
};

use crate::endpoints::inference::{
    mints_valid_ids, ChatCompletionInferenceParams, InferenceParams,
};
use crate::error::Error;
use crate::inference::types::{Float32, Tool, ToolChoice};
use crate::text::{decimal, push_decimal};
use crate::clock::{read_clock, Reading};
use crate::uuid_util::{
    episode_id_valid, episode_refusal_text, lemma_minted_id_validates, minted_at,
    validate_episode_id, Id,
};
use vstd::prelude::*;
use vstd::std_specs::convert::TryFromSpecImpl;
use vstd::string::*;

verus! {

/// The text of the failure for a list that is not as long as the batch.
pub open spec fn length_mismatch_text(field: Seq<char>, len: nat, num_inferences: nat) -> Seq<
    char,
> {
    field + " vector length ("@ + decimal(len) + ") does not match number of inferences ("@
        + decimal(num_inferences) + ")"@
}

/// Whether a failure is the refusal of a request with the given message.
pub open spec fn is_invalid_request(e: Error, text: Seq<char>) -> bool {
    e matches Error::InvalidRequest { message } && message@ == text
}

/// The failure for a list that is not as long as the batch.
pub fn length_mismatch(field: &str, len: usize, num_inferences: usize) -> (e: Error)
    ensures
        is_invalid_request(e, length_mismatch_text(field@, len as nat, num_inferences as nat)),
{
    let mut message: String = field.to_owned();
    message.append(" vector length (");
    push_decimal(&mut message, len);
    message.append(") does not match number of inferences (");
    push_decimal(&mut message, num_inferences);
    message.append(")");
    Error::InvalidRequest { message }
}

/// The overrides of a batch: for each parameter, one optional value for
/// each inference, or nothing at all.
#[derive(Clone, Debug, PartialEq)]
pub struct BatchChatCompletionInferenceParams {
    pub temperature: Option<Vec<Option<Float32>>>,
    pub max_tokens: Option<Vec<Option<u32>>>,
    pub seed: Option<Vec<Option<u32>>>,
    pub top_p: Option<Vec<Option<Float32>>>,
    pub presence_penalty: Option<Vec<Option<Float32>>>,
    pub frequency_penalty: Option<Vec<Option<Float32>>>,
}

impl Default for BatchChatCompletionInferenceParams {
    fn default() -> (params: Self)
        ensures
            params.temperature is None,
            params.max_tokens is None,
            params.seed is None,
            params.top_p is None,
            params.presence_penalty is None,
            params.frequency_penalty is None,
    {
        BatchChatCompletionInferenceParams {
            temperature: None,
            max_tokens: None,
            seed: None,
            top_p: None,
            presence_penalty: None,
            frequency_penalty: None,
        }
    }
}

/// The overrides of a batch, by the kind of variant that they are for.
#[derive(Clone, Debug, PartialEq)]
pub struct BatchInferenceParams {
    pub chat_completion: BatchChatCompletionInferenceParams,
}

impl Default for BatchInferenceParams {
    fn default() -> (params: Self)
        ensures
            params.chat_completion.temperature is None,
            params.chat_completion.max_tokens is None,
            params.chat_completion.seed is None,
            params.chat_completion.top_p is None,
            params.chat_completion.presence_penalty is None,
            params.chat_completion.frequency_penalty is None,
    {
        BatchInferenceParams { chat_completion: BatchChatCompletionInferenceParams::default() }
    }
}

/// The length of a list, where there is one.
pub open spec fn opt_len<T>(list: Option<Vec<T>>) -> Option<nat> {
    match list {
        Some(v) => Some(v@.len()),
        None => None,
    }
}

/// The contents of a list, where there is one.
pub open spec fn opt_view<T>(list: Option<Vec<T>>) -> Option<Seq<T>> {
    match list {
        Some(v) => Some(v@),
        None => None,
    }
}

/// Whether a list, where there is one, is not as long as the batch.
pub open spec fn mismatches(len: Option<nat>, num_inferences: nat) -> bool {
    len matches Some(l) && l != num_inferences
}

/// The entry of a list for one inference; nothing where there is no list.
pub open spec fn entry_at<T>(list: Option<Vec<Option<T>>>, i: int) -> Option<T> {
    match list {
        Some(v) => v@[i],
        None => None,
    }
}

impl BatchChatCompletionInferenceParams {
    /// The first list that is not as long as the batch, by its name and its
    /// length. The lists are looked at in the order of the fields.
    pub open spec fn first_mismatch(&self, num_inferences: nat) -> Option<(Seq<char>, nat)> {
        if mismatches(opt_len(self.temperature), num_inferences) {
            Some(("temperature"@, opt_len(self.temperature)->0))
        } else if mismatches(opt_len(self.max_tokens), num_inferences) {
            Some(("max_tokens"@, opt_len(self.max_tokens)->0))
        } else if mismatches(opt_len(self.seed), num_inferences) {
            Some(("seed"@, opt_len(self.seed)->0))
        } else if mismatches(opt_len(self.top_p), num_inferences) {
            Some(("top_p"@, opt_len(self.top_p)->0))
        } else if mismatches(opt_len(self.presence_penalty), num_inferences) {
            Some(("presence_penalty"@, opt_len(self.presence_penalty)->0))
        } else if mismatches(opt_len(self.frequency_penalty), num_inferences) {
            Some(("frequency_penalty"@, opt_len(self.frequency_penalty)->0))
        } else {
            None
        }
    }

    /// The overrides for the inference at place `i`.
    pub open spec fn params_at(&self, i: int) -> ChatCompletionInferenceParams {
        ChatCompletionInferenceParams {
            temperature: entry_at(self.temperature, i),
            max_tokens: entry_at(self.max_tokens, i),
            seed: entry_at(self.seed, i),
            top_p: entry_at(self.top_p, i),
            presence_penalty: entry_at(self.presence_penalty, i),
            frequency_penalty: entry_at(self.frequency_penalty, i),
        }
    }
}

/// Refuses a list that is not as long as the batch.
pub(crate) fn check_length<T>(field: &str, list: &Option<Vec<T>>, num_inferences: usize) -> (res: Result<
    (),
    Error,
>)
    ensures
        match res {
            Ok(_) => !mismatches(opt_len(*list), num_inferences as nat),
            Err(e) => mismatches(opt_len(*list), num_inferences as nat) && is_invalid_request(
                e,
                length_mismatch_text(field@, opt_len(*list)->0, num_inferences as nat),
            ),
        },
{
    match list {
        Some(v) => {
            if v.len() != num_inferences {
                Err(length_mismatch(field, v.len(), num_inferences))
            } else {
                Ok(())
            }
        },
        None => Ok(()),
    }
}

/// The entry of a list for one inference.
fn entry<T: Copy>(list: &Option<Vec<Option<T>>>, i: usize) -> (e: Option<T>)
    requires
        list matches Some(v) ==> i < v@.len(),
    ensures
        e == entry_at(*list, i as int),
{
    match list {
        Some(v) => v[i],
        None => None,
    }
}

/// The overrides of a batch, and the number of its inferences.
pub struct BatchChatCompletionParamsWithSize(pub BatchChatCompletionInferenceParams, pub usize);

/// Whether `res` is what the overrides of a batch of `num_inferences`
/// inferences come to: the refusal that names the first list of another
/// length, or the overrides of each inference in turn.
pub open spec fn chat_params_outcome(
    params: BatchChatCompletionInferenceParams,
    num_inferences: nat,
    res: Result<Vec<ChatCompletionInferenceParams>, Error>,
) -> bool {
    match params.first_mismatch(num_inferences) {
        Some((field, len)) => res matches Err(e) && is_invalid_request(
            e,
            length_mismatch_text(field, len, num_inferences),
        ),
        None => {
            &&& res matches Ok(all)
            &&& all@.len() == num_inferences
            &&& forall|i: int| 0 <= i < num_inferences ==> #[trigger] all@[i] == params.params_at(i)
        },
    }
}

impl TryFrom<BatchChatCompletionParamsWithSize> for Vec<ChatCompletionInferenceParams> {
    type Error = Error;

    /// Turns the lists of a batch, one for each parameter, into the
    /// overrides of each inference. Every list that is present must be as
    /// long as the batch.
    fn try_from(sized: BatchChatCompletionParamsWithSize) -> (res: Result<Self, Error>)
        ensures
            chat_params_outcome(sized.0, sized.1 as nat, res),
    {
        let BatchChatCompletionParamsWithSize(params, num_inferences) = sized;
        match check_length("temperature", &params.temperature, num_inferences) {
            Ok(_) => {},
            Err(e) => {
                return Err(e);
            },
        }
        match check_length("max_tokens", &params.max_tokens, num_inferences) {
            Ok(_) => {},
            Err(e) => {
                return Err(e);
            },
        }
        match check_length("seed", &params.seed, num_inferences) {
            Ok(_) => {},
            Err(e) => {
                return Err(e);
            },
        }
        match check_length("top_p", &params.top_p, num_inferences) {
            Ok(_) => {},
            Err(e) => {
                return Err(e);
            },
        }
        match check_length("presence_penalty", &params.presence_penalty, num_inferences) {
            Ok(_) => {},
            Err(e) => {
                return Err(e);
            },
        }
        match check_length("frequency_penalty", &params.frequency_penalty, num_inferences) {
            Ok(_) => {},
            Err(e) => {
                return Err(e);
            },
        }
        let mut all_inference_params: Vec<ChatCompletionInferenceParams> = Vec::new();
        let mut i: usize = 0;
        while i < num_inferences
            invariant
                i <= num_inferences,
                params.first_mismatch(num_inferences as nat) is None,
                all_inference_params@.len() == i,
                forall|j: int|
                    0 <= j < i ==> #[trigger] all_inference_params@[j] == params.params_at(j),
            decreases num_inferences - i,
        {
            all_inference_params.push(
                ChatCompletionInferenceParams {
                    temperature: entry(&params.temperature, i),
                    max_tokens: entry(&params.max_tokens, i),
                    seed: entry(&params.seed, i),
                    top_p: entry(&params.top_p, i),
                    presence_penalty: entry(&params.presence_penalty, i),
                    frequency_penalty: entry(&params.frequency_penalty, i),
                },
            );
            i = i + 1;
        }
        Ok(all_inference_params)
    }
}

/// What the conversion returns is stated by its `ensures`, as a relation
/// between the lists and the result.
impl TryFromSpecImpl<BatchChatCompletionParamsWithSize> for Vec<ChatCompletionInferenceParams> {
    open spec fn obeys_try_from_spec() -> bool {
        false
    }

    open spec fn try_from_spec(sized: BatchChatCompletionParamsWithSize) -> Result<Self, Error> {
        arbitrary()
    }
}

/// The overrides of a batch by kind of variant, and the number of its
/// inferences.
pub struct BatchInferenceParamsWithSize(pub BatchInferenceParams, pub usize);

/// Whether `res` is what the overrides of a batch come to, by kind of
/// variant.
pub open spec fn params_outcome(
    params: BatchInferenceParams,
    num_inferences: nat,
    res: Result<Vec<InferenceParams>, Error>,
) -> bool {
    match params.chat_completion.first_mismatch(num_inferences) {
        Some((field, len)) => res matches Err(e) && is_invalid_request(
            e,
            length_mismatch_text(field, len, num_inferences),
        ),
        None => {
            &&& res matches Ok(all)
            &&& all@.len() == num_inferences
            &&& forall|i: int|
                0 <= i < num_inferences ==> (#[trigger] all@[i]).chat_completion
                    == params.chat_completion.params_at(i)
        },
    }
}

impl TryFrom<BatchInferenceParamsWithSize> for Vec<InferenceParams> {
    type Error = Error;

    /// Turns the lists of a batch into the overrides of each inference.
    fn try_from(sized: BatchInferenceParamsWithSize) -> (res: Result<Self, Error>)
        ensures
            params_outcome(sized.0, sized.1 as nat, res),
    {
        let BatchInferenceParamsWithSize(params, num_inferences) = sized;
        let BatchInferenceParams { chat_completion } = params;
        let chat_completion_params: Vec<ChatCompletionInferenceParams> = match Vec::<
            ChatCompletionInferenceParams,
        >::try_from(BatchChatCompletionParamsWithSize(chat_completion, num_inferences)) {
            Ok(all) => all,
            Err(e) => {
                return Err(e);
            },
        };
        let mut all: Vec<InferenceParams> = Vec::new();
        let mut i: usize = 0;
        while i < num_inferences
            invariant
                i <= num_inferences,
                chat_completion_params@.len() == num_inferences,
                all@.len() == i,
                forall|j: int|
                    0 <= j < i ==> (#[trigger] all@[j]).chat_completion
                        == chat_completion_params@[j],
            decreases num_inferences - i,
        {
            all.push(InferenceParams { chat_completion: chat_completion_params[i] });
            i = i + 1;
        }
        Ok(all)
    }
}

/// What the conversion returns is stated by its `ensures`, as a relation
/// between the lists and the result.
impl TryFromSpecImpl<BatchInferenceParamsWithSize> for Vec<InferenceParams> {
    open spec fn obeys_try_from_spec() -> bool {
        false
    }

    open spec fn try_from_spec(sized: BatchInferenceParamsWithSize) -> Result<Self, Error> {
        arbitrary()
    }
}

/// The episode ids of a batch: for each inference the id that the caller
/// gave, or nothing where the gateway is to mint one.
pub type BatchEpisodeIdInput = Vec<Option<Id>>;

/// The episode ids of a batch, one for each inference.
pub type BatchEpisodeIds = Vec<Id>;

/// The episode ids that the caller gave, if any, and the number of
/// inferences of the batch.
pub struct BatchEpisodeIdsWithSize(pub Option<BatchEpisodeIdInput>, pub usize);

/// The text of the failure for a list of episode ids that is not as long as
/// the batch.
pub open spec fn episode_ids_mismatch_text(len: nat, num_inferences: nat) -> Seq<char> {
    "Number of episode_ids ("@ + decimal(len) + ") does not match number of inputs ("@ + decimal(
        num_inferences,
    ) + ")"@
}

/// The text that the refusal of an episode id reads as.
pub open spec fn invalid_episode_id_text(bits: u128) -> Seq<char> {
    "Invalid Episode ID: "@ + episode_refusal_text(bits)
}

/// The place of the first id that may not name an episode; the number of
/// the ids where every one of them may.
pub open spec fn first_invalid(ids: Seq<Id>) -> int
    decreases ids.len(),
{
    if ids.len() == 0 {
        0
    } else if !episode_id_valid(ids[0].bits) {
        0
    } else {
        1 + first_invalid(ids.skip(1))
    }
}

/// Whether `res` is what validating the episode ids of a batch comes to:
/// the refusal of the first id that may not name an episode, by its place
/// and with the reason, or nothing to object.
pub open spec fn episode_ids_checked(ids: Seq<Id>, res: Result<(), Error>) -> bool {
    let k = first_invalid(ids);
    if k < ids.len() {
        res matches Err(Error::BatchInputValidation { index, message }) && index == k && message@
            == invalid_episode_id_text(ids[k].bits)
    } else {
        res is Ok
    }
}

/// The first invalid id is a place among the ids, or their number; every id
/// before it is valid, and it is not.
pub proof fn lemma_first_invalid(ids: Seq<Id>)
    ensures
        0 <= first_invalid(ids) <= ids.len(),
        forall|j: int| 0 <= j < first_invalid(ids) ==> episode_id_valid(#[trigger] ids[j].bits),
        first_invalid(ids) < ids.len() ==> !episode_id_valid(ids[first_invalid(ids)].bits),
    decreases ids.len(),
{
    if ids.len() > 0 && episode_id_valid(ids[0].bits) {
        let rest = ids.skip(1);
        lemma_first_invalid(rest);
        assert forall|j: int| 0 <= j < first_invalid(ids) implies episode_id_valid(
            #[trigger] ids[j].bits,
        ) by {
            if j > 0 {
                assert(ids[j] == rest[j - 1]);
            }
        }
    }
}

/// Validates the episode ids of a batch, in their order.
pub fn validate_episode_ids(ids: &Vec<Id>) -> (res: Result<(), Error>)
    ensures
        episode_ids_checked(ids@, res),
{
    let n: usize = ids.len();
    let mut i: usize = 0;
    proof {
        assert(ids@.skip(0) =~= ids@);
    }
    while i < n
        invariant
            i <= n,
            n == ids@.len(),
            first_invalid(ids@) == i + first_invalid(ids@.skip(i as int)),
        decreases n - i,
    {
        proof {
            assert(ids@.skip(i as int)[0] == ids@[i as int]);
            assert(ids@.skip(i as int).skip(1) =~= ids@.skip(i + 1));
        }
        match validate_episode_id(ids[i]) {
            Ok(_) => {},
            Err(e) => {
                let message: String = e.to_text();
                return Err(Error::BatchInputValidation { index: i, message });
            },
        }
        i = i + 1;
    }
    Ok(())
}

/// Whether `ids` are the given ids, with an id that is minted at the given
/// reading of the clock wherever none was given.
pub open spec fn filled_in(
    given: Option<Seq<Option<Id>>>,
    num_inferences: nat,
    reading: Reading,
    ids: Seq<Id>,
) -> bool {
    &&& ids.len() == num_inferences
    &&& forall|i: int|
        #![trigger ids[i]]
        0 <= i < num_inferences ==> match given {
            Some(list) => match list[i] {
                Some(id) => ids[i] == id,
                None => minted_at(ids[i].bits, reading),
            },
            None => minted_at(ids[i].bits, reading),
        }
}

/// Whether every id that the caller gave may name an episode.
pub open spec fn given_ids_valid(given: Option<Seq<Option<Id>>>) -> bool {
    match given {
        Some(list) => forall|i: int|
            0 <= i < list.len() ==> (#[trigger] list[i] matches Some(id) ==> episode_id_valid(
                id.bits,
            )),
        None => true,
    }
}

/// Whether `res` is what the episode ids of a batch come to when the clock
/// reads as given. A list of another length than the batch is refused. Else
/// an id is minted wherever none was given, and all of them are validated:
/// the result is the ids, or the refusal of the first that may not name an
/// episode.
pub open spec fn episode_ids_outcome(
    given: Option<Seq<Option<Id>>>,
    num_inferences: nat,
    reading: Reading,
    res: Result<Vec<Id>, Error>,
) -> bool {
    if given matches Some(list) && list.len() != num_inferences {
        res matches Err(e) && is_invalid_request(
            e,
            episode_ids_mismatch_text(given->0.len(), num_inferences),
        )
    } else {
        exists|ids: Seq<Id>| #[trigger]
            filled_in(given, num_inferences, reading, ids) && match res {
                Ok(out) => out@ == ids && first_invalid(ids) == ids.len(),
                Err(e) => episode_ids_checked(ids, Err::<(), Error>(e)) && first_invalid(ids)
                    < ids.len(),
            }
    }
}

/// Where every given id may name an episode and the clock reads a time at
/// which valid ids are minted, the episode ids of a batch are settled
/// without fail.
pub proof fn lemma_episode_ids_settle(
    given: Option<Seq<Option<Id>>>,
    num_inferences: nat,
    reading: Reading,
    res: Result<Vec<Id>, Error>,
)
    requires
        episode_ids_outcome(given, num_inferences, reading, res),
        !(given matches Some(list) && list.len() != num_inferences),
        given_ids_valid(given),
        mints_valid_ids(reading),
    ensures
        res matches Ok(out) && out@.len() == num_inferences && forall|i: int|
            0 <= i < out@.len() ==> episode_id_valid(#[trigger] out@[i].bits),
{
    let ids = choose|ids: Seq<Id>| #[trigger]
        filled_in(given, num_inferences, reading, ids) && match res {
            Ok(out) => out@ == ids && first_invalid(ids) == ids.len(),
            Err(e) => episode_ids_checked(ids, Err::<(), Error>(e)) && first_invalid(ids)
                < ids.len(),
        };
    lemma_first_invalid(ids);
    assert forall|i: int| 0 <= i < ids.len() implies episode_id_valid(#[trigger] ids[i].bits) by {
        match given {
            Some(list) => {
                if list[i] is Some {
                    assert(ids[i] == list[i]->0);
                } else {
                    lemma_minted_id_validates(ids[i].bits, reading);
                }
            },
            None => {
                lemma_minted_id_validates(ids[i].bits, reading);
            },
        }
    }
}

impl BatchEpisodeIdsWithSize {
    /// Settles the episode ids of a batch when the clock reads as given:
    /// the caller's where given, ids minted at that reading elsewhere, and
    /// every one of them fit to name an episode.
    pub fn settle(self, reading: Reading) -> (res: Result<Vec<Id>, Error>)
        ensures
            episode_ids_outcome(opt_view(self.0), self.1 as nat, reading, res),
            res matches Ok(ids) ==> forall|i: int|
                0 <= i < ids@.len() ==> episode_id_valid(#[trigger] ids@[i].bits),
            !mismatches(opt_len(self.0), self.1 as nat) && given_ids_valid(opt_view(self.0))
                && mints_valid_ids(reading) ==> res is Ok,
    {
        let BatchEpisodeIdsWithSize(episode_ids, num_inferences) = self;
        let ghost given: Option<Seq<Option<Id>>> = opt_view(episode_ids);
        let mut ids: Vec<Id> = Vec::new();
        match &episode_ids {
            Some(list) => {
                if list.len() != num_inferences {
                    let mut message: String = "Number of episode_ids (".to_owned();
                    push_decimal(&mut message, list.len());
                    message.append(") does not match number of inputs (");
                    push_decimal(&mut message, num_inferences);
                    message.append(")");
                    return Err(Error::InvalidRequest { message });
                }
                let mut i: usize = 0;
                while i < num_inferences
                    invariant
                        i <= num_inferences,
                        list@.len() == num_inferences,
                        ids@.len() == i,
                        forall|j: int|
                            #![trigger ids@[j]]
                            0 <= j < i ==> match list@[j] {
                                Some(id) => ids@[j] == id,
                                None => minted_at(ids@[j].bits, reading),
                            },
                    decreases num_inferences - i,
                {
                    let id: Id = match list[i] {
                        Some(id) => id,
                        None => Id::new_v7(reading),
                    };
                    ids.push(id);
                    i = i + 1;
                }
            },
            None => {
                let mut i: usize = 0;
                while i < num_inferences
                    invariant
                        i <= num_inferences,
                        ids@.len() == i,
                        forall|j: int| 0 <= j < i ==> minted_at((#[trigger] ids@[j]).bits, reading),
                    decreases num_inferences - i,
                {
                    ids.push(Id::new_v7(reading));
                    i = i + 1;
                }
            },
        }
        assert(filled_in(given, num_inferences as nat, reading, ids@));
        proof {
            lemma_first_invalid(ids@);
        }
        let res = match validate_episode_ids(&ids) {
            Ok(_) => Ok(ids),
            Err(e) => Err(e),
        };
        proof {
            assert(episode_ids_outcome(given, num_inferences as nat, reading, res));
            if given_ids_valid(given) && mints_valid_ids(reading) {
                lemma_episode_ids_settle(given, num_inferences as nat, reading, res);
            }
        }
        res
    }
}

impl TryFrom<BatchEpisodeIdsWithSize> for Vec<Id> {
    type Error = Error;

    /// Settles the episode ids of a batch: the caller's where given, fresh
    /// ones elsewhere, and every one of them fit to name an episode.
    /// Whatever the clock reads, the result is what `settle` gives for that
    /// reading.
    fn try_from(sized: BatchEpisodeIdsWithSize) -> (res: Result<Self, Error>)
        ensures
            exists|reading: Reading|
                reading.well_formed() && #[trigger] episode_ids_outcome(
                    opt_view(sized.0),
                    sized.1 as nat,
                    reading,
                    res,
                ),
            res matches Ok(ids) ==> forall|i: int|
                0 <= i < ids@.len() ==> episode_id_valid(#[trigger] ids@[i].bits),
    {
        let reading = read_clock();
        sized.settle(reading)
    }
}

/// What the conversion returns depends on the ids that are minted, and is
/// stated by its `ensures`.
impl TryFromSpecImpl<BatchEpisodeIdsWithSize> for Vec<Id> {
    open spec fn obeys_try_from_spec() -> bool {
        false
    }

    open spec fn try_from_spec(sized: BatchEpisodeIdsWithSize) -> Result<Self, Error> {
        arbitrary()
    }
}

/// One list of a batch with an entry for each inference: the list itself
/// where there is one, else as many empty entries as the batch has
/// inferences.
pub(crate) fn spread<T>(list: Option<Vec<Option<T>>>, num_inferences: usize) -> (out: Vec<Option<T>>)
    requires
        !mismatches(opt_len(list), num_inferences as nat),
    ensures
        out@.len() == num_inferences,
        forall|i: int| 0 <= i < num_inferences ==> #[trigger] out@[i] == entry_at(list, i),
{
    match list {
        Some(v) => v,
        None => {
            let mut out: Vec<Option<T>> = Vec::new();
            let mut i: usize = 0;
            while i < num_inferences
                invariant
                    i <= num_inferences,
                    out@.len() == i,
                    forall|j: int| 0 <= j < i ==> #[trigger] out@[j] is None,
                decreases num_inferences - i,
            {
                out.push(None);
                i = i + 1;
            }
            out
        },
    }
}

/// Takes the last entry off a list.
fn take_last<T>(list: &mut Vec<Option<T>>) -> (last: Option<T>)
    requires
        old(list)@.len() > 0,
    ensures
        last == old(list)@.last(),
        final(list)@ == old(list)@.drop_last(),
{
    match list.pop() {
        Some(entry) => entry,
        None => None,
    }
}

/// The same entries in the opposite order.
fn reversed<T>(list: Vec<T>) -> (out: Vec<T>)
    ensures
        out@ == list@.reverse(),
{
    let mut list = list;
    let ghost original = list@;
    let mut out: Vec<T> = Vec::new();
    while list.len() > 0
        invariant
            list@.len() + out@.len() == original.len(),
            list@ == original.take(list@.len() as int),
            forall|j: int|
                0 <= j < out@.len() ==> #[trigger] out@[j] == original[original.len() - 1 - j],
        decreases list@.len(),
    {
        let ghost before = list@;
        match list.pop() {
            Some(entry) => {
                out.push(entry);
            },
            None => {},
        }
        assert(list@ =~= original.take(list@.len() as int));
    }
    assert(out@ =~= original.reverse());
    out
}

/// A JSON schema that the caller brings along for the output of one
/// inference. It is checked only when it is used.
#[derive(Clone, Debug, PartialEq)]
pub struct DynamicJSONSchema {
    pub value: serde_json::Value,
}

impl DynamicJSONSchema {
    /// The schema that the document describes.
    pub fn new(value: serde_json::Value) -> (schema: Self)
        ensures
            schema.value == value,
    {
        DynamicJSONSchema { value }
    }
}

/// The output schemas of a batch: for each inference the schema that the
/// caller gave, if any.
pub type BatchOutputSchemas = Vec<Option<serde_json::Value>>;

/// The output schemas that the caller gave, if any, and the number of
/// inferences of the batch.
pub struct BatchOutputSchemasWithSize(pub Option<BatchOutputSchemas>, pub usize);

/// The schema of a document, where there is one.
pub open spec fn schema_of(value: Option<serde_json::Value>) -> Option<DynamicJSONSchema> {
    match value {
        Some(value) => Some(DynamicJSONSchema { value }),
        None => None,
    }
}

/// Whether `res` is what the output schemas of a batch come to: the refusal
/// of a list of another length than the batch, or one optional schema for
/// each inference.
pub open spec fn output_schemas_outcome(
    schemas: Option<BatchOutputSchemas>,
    num_inferences: nat,
    res: Result<Vec<Option<DynamicJSONSchema>>, Error>,
) -> bool {
    if mismatches(opt_len(schemas), num_inferences) {
        res matches Err(e) && is_invalid_request(
            e,
            length_mismatch_text("output_schemas"@, opt_len(schemas)->0, num_inferences),
        )
    } else {
        &&& res matches Ok(all)
        &&& all@.len() == num_inferences
        &&& forall|i: int|
            0 <= i < num_inferences ==> #[trigger] all@[i] == schema_of(entry_at(schemas, i))
    }
}

impl TryFrom<BatchOutputSchemasWithSize> for Vec<Option<DynamicJSONSchema>> {
    type Error = Error;

    /// Settles the output schemas of a batch.
    fn try_from(sized: BatchOutputSchemasWithSize) -> (res: Result<Self, Error>)
        ensures
            output_schemas_outcome(sized.0, sized.1 as nat, res),
    {
        let BatchOutputSchemasWithSize(schemas, num_inferences) = sized;
        match check_length("output_schemas", &schemas, num_inferences) {
            Ok(_) => {},
            Err(e) => {
                return Err(e);
            },
        }
        let values: Vec<Option<serde_json::Value>> = spread(schemas, num_inferences);
        let ghost original = values@;
        let mut all: Vec<Option<DynamicJSONSchema>> = Vec::new();
        for value in iter: values.into_iter()
            invariant
                iter.seq() == original,
                all@.len() == iter.index(),
                forall|j: int| 0 <= j < iter.index() ==> #[trigger] all@[j] == schema_of(original[j]),
        {
            let schema: Option<DynamicJSONSchema> = match value {
                Some(value) => Some(DynamicJSONSchema::new(value)),
                None => None,
            };
            all.push(schema);
        }
        Ok(all)
    }
}

/// What the conversion returns is stated by its `ensures`, as a relation
/// between the list and the result.
impl TryFromSpecImpl<BatchOutputSchemasWithSize> for Vec<Option<DynamicJSONSchema>> {
    open spec fn obeys_try_from_spec() -> bool {
        false
    }

    open spec fn try_from_spec(sized: BatchOutputSchemasWithSize) -> Result<Self, Error> {
        arbitrary()
    }
}

/// What a caller may change about the tools of one inference.
#[derive(Clone, Debug, PartialEq)]
pub struct DynamicToolParams {
    pub allowed_tools: Option<Vec<String>>,
    pub additional_tools: Option<Vec<Tool>>,
    pub tool_choice: Option<ToolChoice>,
    pub parallel_tool_calls: Option<bool>,
}

/// What a caller may change about the tools of a batch: for each setting,
/// one optional value for each inference, or nothing at all.
#[derive(Clone, Debug, PartialEq)]
pub struct BatchDynamicToolParams {
    pub allowed_tools: Option<Vec<Option<Vec<String>>>>,
    pub additional_tools: Option<Vec<Option<Vec<Tool>>>>,
    pub tool_choice: Option<Vec<Option<ToolChoice>>>,
    pub parallel_tool_calls: Option<Vec<Option<bool>>>,
}

impl Default for BatchDynamicToolParams {
    fn default() -> (params: Self)
        ensures
            params.allowed_tools is None,
            params.additional_tools is None,
            params.tool_choice is None,
            params.parallel_tool_calls is None,
    {
        BatchDynamicToolParams {
            allowed_tools: None,
            additional_tools: None,
            tool_choice: None,
            parallel_tool_calls: None,
        }
    }
}

impl BatchDynamicToolParams {
    /// The first list that is not as long as the batch, by its name and its
    /// length. The lists are looked at in the order of the fields.
    pub open spec fn first_mismatch(&self, num_inferences: nat) -> Option<(Seq<char>, nat)> {
        if mismatches(opt_len(self.allowed_tools), num_inferences) {
            Some(("allowed_tools"@, opt_len(self.allowed_tools)->0))
        } else if mismatches(opt_len(self.additional_tools), num_inferences) {
            Some(("additional_tools"@, opt_len(self.additional_tools)->0))
        } else if mismatches(opt_len(self.tool_choice), num_inferences) {
            Some(("tool_choice"@, opt_len(self.tool_choice)->0))
        } else if mismatches(opt_len(self.parallel_tool_calls), num_inferences) {
            Some(("parallel_tool_calls"@, opt_len(self.parallel_tool_calls)->0))
        } else {
            None
        }
    }

    /// The settings for the inference at place `i`.
    pub open spec fn params_at(&self, i: int) -> DynamicToolParams {
        DynamicToolParams {
            allowed_tools: entry_at(self.allowed_tools, i),
            additional_tools: entry_at(self.additional_tools, i),
            tool_choice: entry_at(self.tool_choice, i),
            parallel_tool_calls: entry_at(self.parallel_tool_calls, i),
        }
    }
}

/// The tool settings of a batch, and the number of its inferences.
pub struct BatchDynamicToolParamsWithSize(pub BatchDynamicToolParams, pub usize);

/// Whether `res` is what the tool settings of a batch come to: the refusal
/// that names the first list of another length, or the settings of each
/// inference in turn.
pub open spec fn tool_params_outcome(
    params: BatchDynamicToolParams,
    num_inferences: nat,
    res: Result<Vec<DynamicToolParams>, Error>,
) -> bool {
    match params.first_mismatch(num_inferences) {
        Some((field, len)) => res matches Err(e) && is_invalid_request(
            e,
            length_mismatch_text(field, len, num_inferences),
        ),
        None => {
            &&& res matches Ok(all)
            &&& all@.len() == num_inferences
            &&& forall|i: int| 0 <= i < num_inferences ==> #[trigger] all@[i] == params.params_at(i)
        },
    }
}

impl TryFrom<BatchDynamicToolParamsWithSize> for Vec<DynamicToolParams> {
    type Error = Error;

    /// Turns the lists of a batch, one for each setting, into the settings
    /// of each inference. Every list that is present must be as long as the
    /// batch.
    fn try_from(sized: BatchDynamicToolParamsWithSize) -> (res: Result<Self, Error>)
        ensures
            tool_params_outcome(sized.0, sized.1 as nat, res),
    {
        let BatchDynamicToolParamsWithSize(params, num_inferences) = sized;
        match check_length("allowed_tools", &params.allowed_tools, num_inferences) {
            Ok(_) => {},
            Err(e) => {
                return Err(e);
            },
        }
        match check_length("additional_tools", &params.additional_tools, num_inferences) {
            Ok(_) => {},
            Err(e) => {
                return Err(e);
            },
        }
        match check_length("tool_choice", &params.tool_choice, num_inferences) {
            Ok(_) => {},
            Err(e) => {
                return Err(e);
            },
        }
        match check_length("parallel_tool_calls", &params.parallel_tool_calls, num_inferences) {
            Ok(_) => {},
            Err(e) => {
                return Err(e);
            },
        }
        let BatchDynamicToolParams {
            allowed_tools,
            additional_tools,
            tool_choice,
            parallel_tool_calls,
        } = params;
        let mut allowed = spread(allowed_tools, num_inferences);
        let mut additional = spread(additional_tools, num_inferences);
        let mut choices = spread(tool_choice, num_inferences);
        let mut parallel = spread(parallel_tool_calls, num_inferences);
        let ghost all_allowed = allowed@;
        let ghost all_additional = additional@;
        let ghost all_choices = choices@;
        let ghost all_parallel = parallel@;
        let mut backwards: Vec<DynamicToolParams> = Vec::new();
        let mut left: usize = num_inferences;
        while left > 0
            invariant
                left <= num_inferences,
                all_allowed.len() == num_inferences,
                all_additional.len() == num_inferences,
                all_choices.len() == num_inferences,
                all_parallel.len() == num_inferences,
                allowed@ == all_allowed.take(left as int),
                additional@ == all_additional.take(left as int),
                choices@ == all_choices.take(left as int),
                parallel@ == all_parallel.take(left as int),
                backwards@.len() == num_inferences - left,
                forall|j: int|
                    0 <= j < backwards@.len() ==> #[trigger] backwards@[j] == (DynamicToolParams {
                        allowed_tools: all_allowed[num_inferences - 1 - j],
                        additional_tools: all_additional[num_inferences - 1 - j],
                        tool_choice: all_choices[num_inferences - 1 - j],
                        parallel_tool_calls: all_parallel[num_inferences - 1 - j],
                    }),
            decreases left,
        {
            let one = DynamicToolParams {
                allowed_tools: take_last(&mut allowed),
                additional_tools: take_last(&mut additional),
                tool_choice: take_last(&mut choices),
                parallel_tool_calls: take_last(&mut parallel),
            };
            backwards.push(one);
            left = left - 1;
            proof {
                assert(allowed@ =~= all_allowed.take(left as int));
                assert(additional@ =~= all_additional.take(left as int));
                assert(choices@ =~= all_choices.take(left as int));
                assert(parallel@ =~= all_parallel.take(left as int));
            }
        }
        let all = reversed(backwards);
        Ok(all)
    }
}

/// What the conversion returns is stated by its `ensures`, as a relation
/// between the lists and the result.
impl TryFromSpecImpl<BatchDynamicToolParamsWithSize> for Vec<DynamicToolParams> {
    open spec fn obeys_try_from_spec() -> bool {
        false
    }

    open spec fn try_from_spec(sized: BatchDynamicToolParamsWithSize) -> Result<Self, Error> {
        arbitrary()
    }
}

} // verus!
