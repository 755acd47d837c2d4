//! Functions and their variants: which variant serves an episode, and what
//! happens when a variant fails.

use crate::error::Error;
use crate::inference::types::FunctionType;
use crate::uuid_util::Id;
use vstd::prelude::*;
use vstd::string::*;
use vstd::utf8::encode_utf8;

verus! {

/// A variant of a function, as far as sampling is concerned: its name and
/// the weight that it is drawn with.
#[derive(Debug, PartialEq, Eq)]
pub struct Variant {
    pub name: String,
    pub weight: u32,
}

impl Clone for Variant {
    fn clone(&self) -> (res: Self)
        ensures
            res == *self,
    {
        Variant { name: self.name.clone(), weight: self.weight }
    }
}

/// A function: a named task with its kind and its variants.
#[derive(Debug, PartialEq, Eq)]
pub struct FunctionConfig {
    pub name: String,
    pub function_type: FunctionType,
    pub variants: Vec<Variant>,
}

/// Whether no two variants bear the same name.
pub open spec fn names_distinct(variants: Seq<Variant>) -> bool {
    forall|i: int, j: int|
        0 <= i < j < variants.len() ==> (#[trigger] variants[i]).name@ != (
        #[trigger] variants[j]).name@
}

impl FunctionConfig {
    /// The invariant of a function: it has a variant, its variants differ
    /// in their names, and one of them at least has weight.
    pub open spec fn well_formed(&self) -> bool {
        &&& self.variants@.len() > 0
        &&& names_distinct(self.variants@)
        &&& total_weight(weights_of(self.variants@)) > 0
    }
}

/// The place of the first function of the given name; the number of the
/// functions where there is none.
pub open spec fn function_index(functions: Seq<FunctionConfig>, name: Seq<char>) -> int
    decreases functions.len(),
{
    if functions.len() == 0 {
        0
    } else if functions[0].name@ == name {
        0
    } else {
        1 + function_index(functions.skip(1), name)
    }
}

/// Whether a failure says that no function of the given name is known.
pub open spec fn is_unknown_function(e: Error, name: Seq<char>) -> bool {
    e matches Error::UnknownFunction { name: n } && n@ == name
}

/// Looks a function up by its name.
pub fn get_function<'a>(functions: &'a Vec<FunctionConfig>, name: &str) -> (res: Result<
    &'a FunctionConfig,
    Error,
>)
    ensures
        0 <= function_index(functions@, name@) <= functions@.len(),
        match res {
            Ok(function) => function_index(functions@, name@) < functions@.len() && *function
                == functions@[function_index(functions@, name@)] && function.name@ == name@,
            Err(e) => function_index(functions@, name@) == functions@.len()
                && is_unknown_function(e, name@),
        },
{
    let wanted: String = name.to_owned();
    let n: usize = functions.len();
    let mut i: usize = 0;
    proof {
        assert(functions@.skip(0) =~= functions@);
    }
    while i < n
        invariant
            i <= n,
            n == functions@.len(),
            wanted@ == name@,
            function_index(functions@, name@) == i + function_index(
                functions@.skip(i as int),
                name@,
            ),
        decreases n - i,
    {
        proof {
            assert(functions@.skip(i as int)[0] == functions@[i as int]);
            assert(functions@.skip(i as int).skip(1) =~= functions@.skip(i + 1));
        }
        let function: &'a FunctionConfig = &functions[i];
        if function.name == wanted {
            return Ok(function);
        }
        i = i + 1;
    }
    Err(Error::UnknownFunction { name: wanted })
}

/// The variants that may serve a request: the one that the caller pins,
/// where one is pinned, else all of them, in their order.
pub open spec fn candidates_of(variants: Seq<Variant>, pinned: Option<Seq<char>>) -> Seq<Variant> {
    match pinned {
        Some(name) => variants.filter(is_named(name)),
        None => variants,
    }
}

/// The test whether a variant bears the given name.
pub open spec fn is_named(name: Seq<char>) -> spec_fn(Variant) -> bool {
    |v: Variant| v.name@ == name
}

/// Where no two variants bear the same name, a pinned name leaves one
/// candidate at most.
pub proof fn lemma_pinned_candidate_unique(variants: Seq<Variant>, name: Seq<char>)
    requires
        names_distinct(variants),
    ensures
        candidates_of(variants, Some(name)).len() <= 1,
    decreases variants.len(),
{
    reveal(Seq::filter);
    if variants.len() > 0 {
        let rest = variants.drop_last();
        assert(names_distinct(rest)) by {
            assert forall|i: int, j: int| 0 <= i < j < rest.len() implies (#[trigger] rest[i]).name@
                != (#[trigger] rest[j]).name@ by {
                assert(rest[i] == variants[i] && rest[j] == variants[j]);
            }
        }
        lemma_pinned_candidate_unique(rest, name);
        let kept = rest.filter(is_named(name));
        if is_named(name)(variants.last()) && kept.len() > 0 {
            let e = kept[0];
            rest.lemma_filter_pred(is_named(name), 0);
            assert(kept.contains(e));
            rest.lemma_filter_contains_rev(is_named(name), e);
            let j = choose|j: int| 0 <= j < rest.len() && rest[j] == e;
            assert(variants[j].name@ == name);
            assert(variants[variants.len() - 1].name@ == name);
        }
    }
}

/// A well-formed function is never without a candidate unless a variant is
/// pinned that it does not have.
pub proof fn lemma_well_formed_function_has_candidates(function: FunctionConfig)
    requires
        function.well_formed(),
    ensures
        candidates_of(function.variants@, None).len() > 0,
        forall|i: int|
            0 <= i < function.variants@.len() ==> candidates_of(
                function.variants@,
                Some(#[trigger] function.variants@[i].name@),
            ).len() == 1,
{
    assert forall|i: int| 0 <= i < function.variants@.len() implies candidates_of(
        function.variants@,
        Some(#[trigger] function.variants@[i].name@),
    ).len() == 1 by {
        let name = function.variants@[i].name@;
        lemma_pinned_candidate_unique(function.variants@, name);
        function.variants@.lemma_filter_contains(is_named(name), i);
    }
}

/// Lists the variants that may serve a request.
pub fn candidate_variants(variants: &Vec<Variant>, pinned: &Option<String>) -> (candidates: Vec<
    Variant,
>)
    ensures
        candidates@ == candidates_of(variants@, crate::inference::types::opt_text(*pinned)),
{
    let ghost wanted = crate::inference::types::opt_text(*pinned);
    let mut candidates: Vec<Variant> = Vec::new();
    let n: usize = variants.len();
    let mut i: usize = 0;
    proof {
        reveal(Seq::filter);
        assert(variants@.take(0) =~= Seq::<Variant>::empty());
    }
    while i < n
        invariant
            i <= n,
            n == variants@.len(),
            wanted == crate::inference::types::opt_text(*pinned),
            candidates@ == candidates_of(variants@.take(i as int), wanted),
        decreases n - i,
    {
        let variant: &Variant = &variants[i];
        let fits: bool = match pinned {
            Some(name) => variant.name == *name,
            None => true,
        };
        proof {
            reveal(Seq::filter);
            assert(variants@.take(i + 1).drop_last() =~= variants@.take(i as int));
            assert(variants@.take(i + 1).last() == *variant);
            assert(variants@.take(i + 1) =~= variants@.take(i as int).push(*variant));
        }
        if fits {
            candidates.push(variant.clone());
        }
        i = i + 1;
    }
    proof {
        assert(variants@.take(n as int) =~= variants@);
    }
    candidates
}

/// The weights of the variants, in their order.
pub open spec fn weights_of(variants: Seq<Variant>) -> Seq<nat> {
    variants.map_values(|v: Variant| v.weight as nat)
}

/// The sum of the first `n` weights.
pub open spec fn cumulative_weight(weights: Seq<nat>, n: int) -> nat
    decreases n,
{
    if n <= 0 {
        0
    } else {
        cumulative_weight(weights, n - 1) + weights[n - 1]
    }
}

/// The sum of all weights.
pub open spec fn total_weight(weights: Seq<nat>) -> nat {
    cumulative_weight(weights, weights.len() as int)
}

/// Whether `index` is the place whose window of cumulative weight holds the
/// draw `u`.
pub open spec fn window_contains(weights: Seq<nat>, index: int, u: nat) -> bool {
    &&& 0 <= index < weights.len()
    &&& cumulative_weight(weights, index) <= u < cumulative_weight(weights, index + 1)
}

/// The first place at or after `from` whose cumulative weight exceeds `u`.
pub open spec fn first_window(weights: Seq<nat>, from: int, u: nat) -> int
    decreases weights.len() - from,
{
    if from >= weights.len() || u < cumulative_weight(weights, from + 1) {
        from
    } else {
        first_window(weights, from + 1, u)
    }
}

/// The place of the variant that a key selects. The key is reduced modulo
/// the total weight and falls into the window of exactly one variant; where
/// no variant has any weight, the key is reduced modulo their number.
pub open spec fn chosen_index(weights: Seq<nat>, key: u64) -> int
    recommends
        weights.len() > 0,
{
    if total_weight(weights) == 0 {
        (key as int) % (weights.len() as int)
    } else {
        first_window(weights, 0, (key as nat) % total_weight(weights))
    }
}

/// The offset that the hash starts from.
pub const HASH_OFFSET: u64 = 0xcbf2_9ce4_8422_2325;

/// The prime that the hash multiplies by.
pub const HASH_PRIME: u64 = 0x0000_0100_0000_01b3;

/// One round of the hash: the word is mixed in and the state multiplied,
/// modulo 2^64.
pub open spec fn hash_round(state: u64, word: u64) -> u64 {
    (state ^ word).wrapping_mul(HASH_PRIME)
}

/// The state of the hash after the given bytes.
pub open spec fn hash_bytes(bytes: Seq<u8>) -> u64
    decreases bytes.len(),
{
    if bytes.len() == 0 {
        HASH_OFFSET
    } else {
        hash_round(hash_bytes(bytes.drop_last()), bytes.last() as u64)
    }
}

/// The upper 64 bits of an id.
pub open spec fn upper_half(bits: u128) -> u64 {
    (bits >> 64) as u64
}

/// The lower 64 bits of an id.
pub open spec fn lower_half(bits: u128) -> u64 {
    (bits & 0xffff_ffff_ffff_ffff) as u64
}

/// The key that an episode draws its variant of a function with: a hash
/// of the function's name in UTF-8 and of the two halves of the episode's
/// id. It depends on nothing else.
pub open spec fn sampling_key(function_name: Seq<char>, episode: u128) -> u64 {
    hash_round(
        hash_round(hash_bytes(encode_utf8(function_name)), upper_half(episode)),
        lower_half(episode),
    )
}

/// Computes the key that an episode draws its variant of a function with.
pub fn compute_sampling_key(function_name: &str, episode_id: Id) -> (key: u64)
    ensures
        key == sampling_key(function_name@, episode_id.bits),
{
    let bytes = function_name.as_bytes();
    let n: usize = bytes.len();
    let mut state: u64 = HASH_OFFSET;
    let mut i: usize = 0;
    while i < n
        invariant
            i <= n,
            n == bytes@.len(),
            state == hash_bytes(bytes@.take(i as int)),
        decreases n - i,
    {
        proof {
            assert(bytes@.take(i + 1).drop_last() =~= bytes@.take(i as int));
        }
        state = (state ^ (bytes[i] as u64)).wrapping_mul(HASH_PRIME);
        i = i + 1;
    }
    proof {
        assert(bytes@.take(n as int) =~= bytes@);
    }
    let upper: u64 = (episode_id.bits >> 64) as u64;
    let lower: u64 = (episode_id.bits & 0xffff_ffff_ffff_ffff) as u64;
    state = (state ^ upper).wrapping_mul(HASH_PRIME);
    (state ^ lower).wrapping_mul(HASH_PRIME)
}

/// The cumulative weight grows with the number of weights counted.
pub proof fn lemma_cumulative_weight_monotonic(weights: Seq<nat>, i: int, j: int)
    requires
        i <= j,
    ensures
        cumulative_weight(weights, i) <= cumulative_weight(weights, j),
    decreases j - i,
{
    if i < j {
        lemma_cumulative_weight_monotonic(weights, i, j - 1);
    }
}

/// A draw below the total weight falls into exactly one window, the one
/// that `first_window` finds: every window before it ends at or below the
/// draw.
pub proof fn lemma_first_window(weights: Seq<nat>, from: int, u: nat)
    requires
        0 <= from < weights.len(),
        cumulative_weight(weights, from) <= u < total_weight(weights),
    ensures
        window_contains(weights, first_window(weights, from, u), u),
        from <= first_window(weights, from, u),
    decreases weights.len() - from,
{
    if u < cumulative_weight(weights, from + 1) {
    } else {
        if from + 1 >= weights.len() {
            assert(cumulative_weight(weights, from + 1) == total_weight(weights));
        } else {
            lemma_first_window(weights, from + 1, u);
        }
    }
}

/// The window that holds a draw is unique.
pub proof fn lemma_window_unique(weights: Seq<nat>, i: int, j: int, u: nat)
    requires
        window_contains(weights, i, u),
        window_contains(weights, j, u),
    ensures
        i == j,
{
    if i < j {
        lemma_cumulative_weight_monotonic(weights, i + 1, j);
    } else if j < i {
        lemma_cumulative_weight_monotonic(weights, j + 1, i);
    }
}

/// The key selects a variant that exists. Where some variant has weight,
/// the selected one is the one whose window holds the key reduced modulo
/// the total weight, so a variant without weight is never selected.
pub proof fn lemma_chosen_index(weights: Seq<nat>, key: u64)
    requires
        weights.len() > 0,
    ensures
        0 <= chosen_index(weights, key) < weights.len(),
        total_weight(weights) > 0 ==> window_contains(
            weights,
            chosen_index(weights, key),
            (key as nat) % total_weight(weights),
        ),
        total_weight(weights) > 0 ==> weights[chosen_index(weights, key)] > 0,
{
    if total_weight(weights) > 0 {
        let u = (key as nat) % total_weight(weights);
        lemma_first_window(weights, 0, u);
    }
}

/// The sum of the weights of the variants.
fn sum_weights(candidates: &Vec<Variant>) -> (total: u128)
    ensures
        total == total_weight(weights_of(candidates@)),
        total <= candidates@.len() * 0xffff_ffff,
{
    let n: usize = candidates.len();
    let ghost weights = weights_of(candidates@);
    let mut total: u128 = 0;
    let mut i: usize = 0;
    while i < n
        invariant
            i <= n,
            n == candidates@.len(),
            n <= u64::MAX,
            weights == weights_of(candidates@),
            total == cumulative_weight(weights, i as int),
            total <= i * 0xffff_ffff,
        decreases n - i,
    {
        total = total + candidates[i].weight as u128;
        i = i + 1;
    }
    total
}

/// Finds the window that holds the draw.
fn find_window(candidates: &Vec<Variant>, u: u128) -> (index: usize)
    requires
        0 < candidates@.len(),
        u < total_weight(weights_of(candidates@)),
    ensures
        index == first_window(weights_of(candidates@), 0, u as nat),
        index < candidates@.len(),
{
    let n: usize = candidates.len();
    let ghost weights = weights_of(candidates@);
    let mut cumulative: u128 = 0;
    let mut i: usize = 0;
    proof {
        lemma_first_window(weights, 0, u as nat);
    }
    while i < n
        invariant
            i <= n,
            n == candidates@.len(),
            n <= u64::MAX,
            weights == weights_of(candidates@),
            cumulative == cumulative_weight(weights, i as int),
            cumulative <= i * 0xffff_ffff,
            cumulative <= u,
            u < total_weight(weights),
            first_window(weights, 0, u as nat) == first_window(weights, i as int, u as nat),
            first_window(weights, 0, u as nat) < n,
        decreases n - i,
    {
        cumulative = cumulative + candidates[i].weight as u128;
        if u < cumulative {
            return i;
        }
        i = i + 1;
    }
    proof {
        assert(cumulative == total_weight(weights));
    }
    0
}

/// Whether `res` and `after` are what sampling among `before` gives: the
/// variant at the chosen place is taken out, the last candidate takes its
/// place, and the others stay where they are.
pub open spec fn sampled(
    before: Seq<Variant>,
    function_name: Seq<char>,
    episode: u128,
    after: Seq<Variant>,
    res: Option<Variant>,
) -> bool {
    if before.len() == 0 {
        res is None && after == before
    } else {
        let k = chosen_index(weights_of(before), sampling_key(function_name, episode));
        &&& 0 <= k < before.len()
        &&& res == Some(before[k])
        &&& after == before.update(k, before.last()).drop_last()
    }
}

/// Draws the variant that serves an episode of a function and takes it out
/// of the candidates. The draw depends on the function's name, the
/// episode's id and the candidates' weights, and on nothing else. There is
/// no variant where there is no candidate.
pub fn sample_variant(
    candidates: &mut Vec<Variant>,
    function_name: &str,
    episode_id: Id,
) -> (res: Option<Variant>)
    ensures
        sampled(old(candidates)@, function_name@, episode_id.bits, final(candidates)@, res),
{
    let n: usize = candidates.len();
    if n == 0 {
        return None;
    }
    let key: u64 = compute_sampling_key(function_name, episode_id);
    let total: u128 = sum_weights(candidates);
    proof {
        lemma_chosen_index(weights_of(candidates@), key);
    }
    let index: usize = if total == 0 {
        (key % (n as u64)) as usize
    } else {
        find_window(candidates, (key as u128) % total)
    };
    Some(candidates.swap_remove(index))
}

/// What is to be done next for a request that is served by one of several
/// variants.
#[derive(Debug, PartialEq)]
pub enum Attempt {
    /// This variant is to be tried.
    Start(Variant),
    /// No variant is left to try, or trying is pointless, for this reason.
    Fail(Error),
}

/// Whether `attempt` is what is to be done next, and `after` and
/// `errors_after` what is left to try and to report. A variant is drawn
/// among the candidates and taken off them; where none is left, the request
/// fails with the failures of all that were tried, which are handed over.
pub open spec fn attempted(
    candidates: Seq<Variant>,
    errors: Vec<(String, Error)>,
    function_name: Seq<char>,
    episode: u128,
    after: Seq<Variant>,
    errors_after: Vec<(String, Error)>,
    attempt: Attempt,
) -> bool {
    if candidates.len() == 0 {
        &&& attempt == Attempt::Fail(Error::AllVariantsFailed { errors })
        &&& after.len() == 0
        &&& errors_after@.len() == 0
    } else {
        &&& attempt matches Attempt::Start(variant)
        &&& sampled(candidates, function_name, episode, after, Some(variant))
        &&& errors_after == errors
    }
}

/// An attempt leaves no name twice among the failures, and none among
/// those that it hands over when it gives up.
pub proof fn lemma_attempt_keeps_names_distinct(
    candidates: Seq<Variant>,
    errors: Vec<(String, Error)>,
    function_name: Seq<char>,
    episode: u128,
    after: Seq<Variant>,
    errors_after: Vec<(String, Error)>,
    attempt: Attempt,
)
    requires
        failure_names_distinct(errors@),
        attempted(candidates, errors, function_name, episode, after, errors_after, attempt),
    ensures
        failure_names_distinct(errors_after@),
        attempt matches Attempt::Fail(Error::AllVariantsFailed { errors: all })
            ==> failure_names_distinct(all@),
{
}

/// Says which variant is to be tried next for an episode of a function.
pub fn next_attempt(
    candidates: &mut Vec<Variant>,
    errors: &mut Vec<(String, Error)>,
    function_name: &str,
    episode_id: Id,
) -> (attempt: Attempt)
    ensures
        attempted(
            old(candidates)@,
            *old(errors),
            function_name@,
            episode_id.bits,
            final(candidates)@,
            *final(errors),
            attempt,
        ),
{
    match sample_variant(candidates, function_name, episode_id) {
        Some(variant) => Attempt::Start(variant),
        None => {
            let mut all: Vec<(String, Error)> = Vec::new();
            std::mem::swap(&mut all, errors);
            Attempt::Fail(Error::AllVariantsFailed { errors: all })
        },
    }
}

/// Whether no two failures are recorded under the same name.
pub open spec fn failure_names_distinct(errors: Seq<(String, Error)>) -> bool {
    forall|i: int, j: int|
        0 <= i < j < errors.len() ==> (#[trigger] errors[i]).0@ != (#[trigger] errors[j]).0@
}

/// The place of the failure that is recorded under the given name; the
/// number of the failures where there is none.
pub open spec fn failure_index(errors: Seq<(String, Error)>, name: Seq<char>) -> int
    decreases errors.len(),
{
    if errors.len() == 0 {
        0
    } else if errors[0].0@ == name {
        0
    } else {
        1 + failure_index(errors.skip(1), name)
    }
}

/// The failures with one more: the failure of a variant is recorded under
/// the variant's name, in place of an earlier failure under that name where
/// there is one, and behind all others where there is none.
pub open spec fn with_failure(errors: Seq<(String, Error)>, name: String, error: Error) -> Seq<
    (String, Error),
> {
    let k = failure_index(errors, name@);
    if 0 <= k < errors.len() {
        errors.update(k, (name, error))
    } else {
        errors.push((name, error))
    }
}

/// The place that `failure_index` gives is the first under the name, or
/// the number of the failures where the name does not occur.
pub proof fn lemma_failure_index(errors: Seq<(String, Error)>, name: Seq<char>)
    ensures
        0 <= failure_index(errors, name) <= errors.len(),
        forall|j: int| 0 <= j < failure_index(errors, name) ==> (#[trigger] errors[j]).0@ != name,
        failure_index(errors, name) < errors.len() ==> errors[failure_index(errors, name)].0@
            == name,
    decreases errors.len(),
{
    if errors.len() > 0 && errors[0].0@ != name {
        let rest = errors.skip(1);
        lemma_failure_index(rest, name);
        assert forall|j: int| 0 <= j < failure_index(errors, name) implies (
        #[trigger] errors[j]).0@ != name by {
            if j > 0 {
                assert(errors[j] == rest[j - 1]);
            }
        }
    }
}

/// Recording one more failure leaves no name twice among the failures.
pub proof fn lemma_with_failure_distinct(errors: Seq<(String, Error)>, name: String, error: Error)
    requires
        failure_names_distinct(errors),
    ensures
        failure_names_distinct(with_failure(errors, name, error)),
{
    lemma_failure_index(errors, name@);
    let k = failure_index(errors, name@);
    let after = with_failure(errors, name, error);
    assert forall|i: int, j: int| 0 <= i < j < after.len() implies (#[trigger] after[i]).0@ != (
    #[trigger] after[j]).0@ by {
        if k < errors.len() {
            assert(errors[k].0@ == name@);
            if i == k {
                assert(after[j] == errors[j]);
                assert(errors[i].0@ != errors[j].0@);
            } else if j == k {
                assert(after[i] == errors[i]);
                assert(errors[i].0@ != errors[j].0@);
            } else {
                assert(after[i] == errors[i] && after[j] == errors[j]);
            }
        } else {
            if j == errors.len() {
                assert(after[i] == errors[i]);
                assert(errors[i].0@ != name@);
            } else {
                assert(after[i] == errors[i] && after[j] == errors[j]);
            }
        }
    }
}

/// Takes note that a variant has failed. A failure that the provider blames
/// on the request makes every further attempt pointless and is handed back;
/// any other is recorded under the variant's name, where it takes the place
/// of an earlier failure of that variant. So no name occurs twice among the
/// failures.
pub fn variant_failed(errors: &mut Vec<(String, Error)>, variant_name: String, error: Error) -> (fatal:
    Option<Error>)
    ensures
        error is ClientError ==> fatal == Some(error) && *final(errors) == *old(errors),
        !(error is ClientError) ==> fatal is None && final(errors)@ == with_failure(
            old(errors)@,
            variant_name,
            error,
        ),
        failure_names_distinct(old(errors)@) ==> failure_names_distinct(final(errors)@),
{
    if error.ends_failover() {
        return Some(error);
    }
    proof {
        lemma_failure_index(errors@, variant_name@);
        if failure_names_distinct(errors@) {
            lemma_with_failure_distinct(errors@, variant_name, error);
        }
        assert(errors@.skip(0) =~= errors@);
    }
    let n: usize = errors.len();
    let mut i: usize = 0;
    while i < n
        invariant
            i <= n,
            n == errors@.len(),
            errors@ == old(errors)@,
            !(error is ClientError),
            0 <= failure_index(errors@, variant_name@) <= n,
            failure_names_distinct(errors@) ==> failure_names_distinct(
                with_failure(errors@, variant_name, error),
            ),
            failure_index(errors@, variant_name@) == i + failure_index(
                errors@.skip(i as int),
                variant_name@,
            ),
        decreases n - i,
    {
        proof {
            assert(errors@.skip(i as int)[0] == errors@[i as int]);
            assert(errors@.skip(i as int).skip(1) =~= errors@.skip(i + 1));
        }
        if errors[i].0 == variant_name {
            errors.set(i, (variant_name, error));
            return None;
        }
        i = i + 1;
    }
    errors.push((variant_name, error));
    None
}

/// Says whether the failure of a provider of a model is the failure of the
/// model. The providers of a model are tried in their order. A failure that
/// the provider blames on the request is surfaced at once, since no other
/// provider would judge the request otherwise; any other failure is
/// surfaced only when no provider is left to try.
pub fn provider_failure_is_final(error: &Error, providers_left: usize) -> (last: bool)
    ensures
        last == (*error is ClientError || providers_left == 0),
{
    error.ends_failover() || providers_left == 0
}

/// Every attempt takes one variant off the candidates, so a request is
/// tried with each variant once at most and the attempts come to an end.
pub proof fn lemma_attempts_shrink(
    candidates: Seq<Variant>,
    function_name: Seq<char>,
    episode: u128,
    after: Seq<Variant>,
    variant: Variant,
)
    requires
        sampled(candidates, function_name, episode, after, Some(variant)),
    ensures
        candidates.len() > 0,
        after.len() == candidates.len() - 1,
        candidates.contains(variant),
        forall|v: Variant| after.contains(v) ==> candidates.contains(v),
{
    let k = chosen_index(weights_of(candidates), sampling_key(function_name, episode));
    assert(candidates[k] == variant);
    assert forall|v: Variant| after.contains(v) implies candidates.contains(v) by {
        let j = choose|j: int| 0 <= j < after.len() && after[j] == v;
        if j == k {
            assert(after[j] == candidates.last());
            assert(candidates[candidates.len() - 1] == v);
        } else {
            assert(after[j] == candidates[j]);
        }
    }
}

} // verus!
