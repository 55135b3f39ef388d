//! Batches of independent generation requests: the requests, the result of
//! each item, the aggregate report, and the collector that keeps results
//! in the order of the requests whatever the order of completion.

use crate::error::Error;
use crate::types::{GenerationConfig, GenerationResult};
use std::time::Duration;
use vstd::prelude::*;

verus! {

/// One request of a batch.
#[derive(Clone, Debug)]
pub struct BatchRequest {
    /// The prompt to generate from.
    pub prompt: String,
    /// Settings of this request; the settings of the batch where absent.
    pub config: Option<GenerationConfig>,
    /// Identifier chosen by the caller, for correlation.
    pub id: Option<String>,
}

impl BatchRequest {
    /// A request with the settings of the batch and no identifier.
    pub fn new(prompt: &str) -> (r: Self)
        ensures
            r.prompt@ == prompt@,
            r.config is None,
            r.id is None,
    {
        BatchRequest { prompt: prompt.to_owned(), config: None, id: None }
    }

    /// A request with settings of its own.
    pub fn with_config(prompt: &str, config: GenerationConfig) -> (r: Self)
        ensures
            r.prompt@ == prompt@,
            r.config == Some(config),
            r.id is None,
    {
        BatchRequest { prompt: prompt.to_owned(), config: Some(config), id: None }
    }

    /// The same request with an identifier.
    pub fn with_id(self, id: &str) -> (r: Self)
        ensures
            r.prompt == self.prompt,
            r.config == self.config,
            r.id is Some,
            r.id->0@ == id@,
    {
        let mut r = self;
        r.id = Some(id.to_owned());
        r
    }

    /// The settings that apply to this request: its own where it has some,
    /// else those of the batch.
    pub fn effective_config<'a>(&'a self, default_config: &'a GenerationConfig) -> (r:
        &'a GenerationConfig)
        ensures
            *r == match self.config {
                Some(own) => own,
                None => *default_config,
            },
    {
        match &self.config {
            Some(own) => own,
            None => default_config,
        }
    }

    /// One request for each prompt, in order, each with the settings of the
    /// batch and no identifier.
    pub fn from_prompts(prompts: Vec<String>) -> (r: Vec<BatchRequest>)
        ensures
            r@.len() == prompts@.len(),
            forall|i: int|
                0 <= i < r@.len() ==> (#[trigger] r@[i]).prompt == prompts@[i] && r@[i].config
                    is None && r@[i].id is None,
    {
        let mut requests: Vec<BatchRequest> = Vec::new();
        let mut i: usize = 0;
        while i < prompts.len()
            invariant
                i <= prompts.len(),
                requests@.len() == i,
                forall|k: int|
                    0 <= k < i ==> (#[trigger] requests@[k]).prompt == prompts@[k]
                        && requests@[k].config is None && requests@[k].id is None,
            decreases prompts.len() - i,
        {
            requests.push(BatchRequest { prompt: prompts[i].clone(), config: None, id: None });
            i += 1;
        }
        requests
    }
}

/// The result of one item of a batch. The prompt and the identifier of the
/// request are kept whatever the outcome.
#[derive(Clone, Debug)]
pub struct BatchItemResult {
    /// Identifier of the request, if it had one.
    pub id: Option<String>,
    /// The prompt of the request.
    pub prompt: String,
    /// The answer, if the item succeeded.
    pub result: Option<GenerationResult>,
    /// The failure, if the item failed.
    pub error: Option<Error>,
}

impl BatchItemResult {
    /// The result of an item that succeeded.
    pub fn success(id: Option<String>, prompt: String, result: GenerationResult) -> (r: Self)
        ensures
            r == (BatchItemResult { id, prompt, result: Some(result), error: None }),
    {
        BatchItemResult { id, prompt, result: Some(result), error: None }
    }

    /// The result of an item that failed.
    pub fn failure(id: Option<String>, prompt: String, error: Error) -> (r: Self)
        ensures
            r == (BatchItemResult { id, prompt, result: None, error: Some(error) }),
    {
        BatchItemResult { id, prompt, result: None, error: Some(error) }
    }

    /// Whether the item succeeded: it carries no failure.
    pub fn is_success(&self) -> (r: bool)
        ensures
            r == (self.error is None),
    {
        self.error.is_none()
    }

    /// Whether the item failed: it carries a failure.
    pub fn is_failure(&self) -> (r: bool)
        ensures
            r == (self.error is Some),
    {
        self.error.is_some()
    }
}

/// How many of `items` carry no failure.
pub open spec fn count_successes(items: Seq<BatchItemResult>) -> nat
    decreases items.len(),
{
    if items.len() == 0 {
        0
    } else {
        count_successes(items.drop_last()) + if items.last().error is None {
            1nat
        } else {
            0nat
        }
    }
}

/// The answers that `items` carry, in order.
pub open spec fn answers_of(items: Seq<BatchItemResult>) -> Seq<GenerationResult>
    decreases items.len(),
{
    if items.len() == 0 {
        Seq::empty()
    } else {
        answers_of(items.drop_last()) + match items.last().result {
            Some(answer) => seq![answer],
            None => Seq::empty(),
        }
    }
}

/// The failures that `items` carry, each with the prompt of its item, in
/// order.
pub open spec fn failures_of(items: Seq<BatchItemResult>) -> Seq<(Seq<char>, Error)>
    decreases items.len(),
{
    if items.len() == 0 {
        Seq::empty()
    } else {
        failures_of(items.drop_last()) + match items.last().error {
            Some(error) => seq![(items.last().prompt@, error)],
            None => Seq::empty(),
        }
    }
}

/// The report of a batch: the result of every item, in the order of the
/// requests, with the counts derived from them.
#[derive(Clone, Debug)]
pub struct BatchGenerationResult {
    /// The result of every item, in the order of the requests.
    pub results: Vec<BatchItemResult>,
    /// How many items there are.
    pub total: usize,
    /// How many items succeeded.
    pub successful: usize,
    /// How many items failed.
    pub failed: usize,
    /// How long the batch took.
    pub duration: Duration,
}

/// The values behind a vector of references to answers.
pub open spec fn answers_view(answers: Seq<&GenerationResult>) -> Seq<GenerationResult> {
    answers.map_values(|a: &GenerationResult| *a)
}

/// The values behind a vector of prompts with their failures.
pub open spec fn failures_view(failures: Seq<(&str, &Error)>) -> Seq<(Seq<char>, Error)> {
    failures.map_values(|f: (&str, &Error)| (f.0@, *f.1))
}

impl BatchGenerationResult {
    /// Whether the counts are those of the results: the total is their
    /// number, the successes are those without a failure, and the failures
    /// are the rest.
    pub open spec fn wf(&self) -> bool {
        &&& self.total == self.results@.len()
        &&& self.successful == count_successes(self.results@)
        &&& self.successful + self.failed == self.total
    }

    /// The report of the given results, which took `duration`.
    pub fn new(results: Vec<BatchItemResult>, duration: Duration) -> (r: Self)
        ensures
            r.wf(),
            r.results == results,
            r.duration == duration,
    {
        let mut successful: usize = 0;
        let mut i: usize = 0;
        while i < results.len()
            invariant
                i <= results.len(),
                successful <= i,
                successful == count_successes(results@.take(i as int)),
            decreases results.len() - i,
        {
            proof {
                assert(results@.take(i + 1).drop_last() =~= results@.take(i as int));
            }
            if results[i].is_success() {
                successful += 1;
            }
            i += 1;
        }
        proof {
            assert(results@.take(i as int) =~= results@);
        }
        let total = results.len();
        BatchGenerationResult { total, successful, failed: total - successful, results, duration }
    }

    /// The answers of the items that have one, in order.
    pub fn successes(&self) -> (r: Vec<&GenerationResult>)
        ensures
            answers_view(r@) == answers_of(self.results@),
    {
        let mut answers: Vec<&GenerationResult> = Vec::new();
        let mut i: usize = 0;
        proof {
            assert(answers_view(answers@) =~= answers_of(self.results@.take(0)));
        }
        while i < self.results.len()
            invariant
                i <= self.results.len(),
                answers_view(answers@) == answers_of(self.results@.take(i as int)),
            decreases self.results.len() - i,
        {
            let ghost before = answers_view(answers@);
            proof {
                assert(self.results@.take(i + 1).drop_last() =~= self.results@.take(i as int));
            }
            match &self.results[i].result {
                Some(answer) => {
                    answers.push(answer);
                    proof {
                        assert(answers_view(answers@) =~= before + seq![*answer]);
                    }
                },
                None => {
                    proof {
                        assert(before + Seq::<GenerationResult>::empty() =~= before);
                    }
                },
            }
            i += 1;
        }
        proof {
            assert(self.results@.take(i as int) =~= self.results@);
        }
        answers
    }

    /// The failures of the items that have one, each with the prompt of its
    /// item, in order.
    pub fn failures(&self) -> (r: Vec<(&str, &Error)>)
        ensures
            failures_view(r@) == failures_of(self.results@),
    {
        let mut failures: Vec<(&str, &Error)> = Vec::new();
        let mut i: usize = 0;
        proof {
            assert(failures_view(failures@) =~= failures_of(self.results@.take(0)));
        }
        while i < self.results.len()
            invariant
                i <= self.results.len(),
                failures_view(failures@) == failures_of(self.results@.take(i as int)),
            decreases self.results.len() - i,
        {
            let ghost before = failures_view(failures@);
            proof {
                assert(self.results@.take(i + 1).drop_last() =~= self.results@.take(i as int));
            }
            match &self.results[i].error {
                Some(error) => {
                    let prompt = self.results[i].prompt.as_str();
                    failures.push((prompt, error));
                    proof {
                        assert(failures_view(failures@) =~= before + seq![(prompt@, *error)]);
                    }
                },
                None => {
                    proof {
                        assert(before + Seq::<(Seq<char>, Error)>::empty() =~= before);
                    }
                },
            }
            i += 1;
        }
        proof {
            assert(self.results@.take(i as int) =~= self.results@);
        }
        failures
    }

    /// Whether no item failed.
    pub fn all_succeeded(&self) -> (r: bool)
        ensures
            r == (self.failed == 0),
    {
        self.failed == 0
    }

    /// Whether an item failed.
    pub fn any_failed(&self) -> (r: bool)
        ensures
            r == (self.failed > 0),
    {
        self.failed > 0
    }
}

/// The detail of the failure of an item that never reported back.
pub open spec fn lost_item_detail() -> Seq<char> {
    "Task join error: the request did not complete"@
}

/// The mathematical value of a [`BatchCollector`].
pub struct CollectorState {
    /// The result that each item has now, in the order of the requests.
    pub results: Seq<BatchItemResult>,
    /// The model that answers each item.
    pub models: Seq<String>,
    /// Whether each item has reported back.
    pub completed: Seq<bool>,
}

impl CollectorState {
    /// Whether there is a model and a flag for every result.
    pub open spec fn wf(self) -> bool {
        self.models.len() == self.results.len() && self.completed.len() == self.results.len()
    }

    /// Whether a report for the item at `index` is taken: the item exists
    /// and has not reported back before.
    pub open spec fn accepts(self, index: int) -> bool {
        0 <= index < self.results.len() && !self.completed[index]
    }

    /// The result of the item at `index` once it has reported `outcome`: the
    /// identifier and the prompt stay, the text becomes an answer of the
    /// item's model, a failure is kept as it is.
    pub open spec fn reported(self, index: int, outcome: Result<String, Error>) -> BatchItemResult {
        match outcome {
            Ok(text) => BatchItemResult {
                id: self.results[index].id,
                prompt: self.results[index].prompt,
                result: Some(
                    GenerationResult {
                        text,
                        model_id: self.models[index],
                        tokens_used: None,
                        quality_score: None,
                        request_id: None,
                    },
                ),
                error: None,
            },
            Err(error) => BatchItemResult {
                id: self.results[index].id,
                prompt: self.results[index].prompt,
                result: None,
                error: Some(error),
            },
        }
    }

    /// The state after the item at `index` has reported `outcome`. A report
    /// that is not taken changes nothing.
    pub open spec fn complete(self, index: int, outcome: Result<String, Error>) -> CollectorState {
        if self.accepts(index) {
            CollectorState {
                results: self.results.update(index, self.reported(index, outcome)),
                models: self.models,
                completed: self.completed.update(index, true),
            }
        } else {
            self
        }
    }

    /// Whether the results stand in the order of `requests`: each carries
    /// the identifier and the prompt of the request at its position.
    pub open spec fn aligned_with(self, requests: Seq<BatchRequest>) -> bool {
        &&& self.results.len() == requests.len()
        &&& forall|i: int|
            0 <= i < requests.len() ==> (#[trigger] self.results[i]).id == requests[i].id
                && self.results[i].prompt == requests[i].prompt
    }
}

/// A report never moves a result: the results stay in the order of the
/// requests whichever item reports, and whatever it reports.
pub proof fn lemma_complete_keeps_order(
    state: CollectorState,
    requests: Seq<BatchRequest>,
    index: int,
    outcome: Result<String, Error>,
)
    requires
        state.wf(),
        state.aligned_with(requests),
    ensures
        state.complete(index, outcome).wf(),
        state.complete(index, outcome).aligned_with(requests),
{
    let after = state.complete(index, outcome);
    assert forall|i: int| 0 <= i < requests.len() implies (#[trigger] after.results[i]).id
        == requests[i].id && after.results[i].prompt == requests[i].prompt by {
        assert(state.results[i].id == requests[i].id);
    }
}

/// The order in which two different items report does not matter.
pub proof fn lemma_complete_commutes(
    state: CollectorState,
    first: int,
    first_outcome: Result<String, Error>,
    second: int,
    second_outcome: Result<String, Error>,
)
    requires
        state.wf(),
        first != second,
    ensures
        state.complete(first, first_outcome).complete(second, second_outcome) == state.complete(
            second,
            second_outcome,
        ).complete(first, first_outcome),
{
    let a = state.complete(first, first_outcome).complete(second, second_outcome);
    let b = state.complete(second, second_outcome).complete(first, first_outcome);
    assert(a.results =~= b.results);
    assert(a.completed =~= b.completed);
}

/// Collects the results of a batch whose items complete in any order. Every
/// item has a result from the start, a failure that says it never reported
/// back, so that the report is complete whatever happens to the item.
pub struct BatchCollector {
    results: Vec<BatchItemResult>,
    models: Vec<String>,
    completed: Vec<bool>,
}

impl View for BatchCollector {
    type V = CollectorState;

    closed spec fn view(&self) -> CollectorState {
        CollectorState { results: self.results@, models: self.models@, completed: self.completed@ }
    }
}

/// A copy of an optional identifier.
fn copy_of(id: &Option<String>) -> (r: Option<String>)
    ensures
        r == *id,
{
    match id {
        Some(s) => Some(s.clone()),
        None => None,
    }
}

impl BatchCollector {
    #[verifier::type_invariant]
    spec fn lengths_agree(self) -> bool {
        self.models@.len() == self.results@.len() && self.completed@.len() == self.results@.len()
    }

    /// A collector for `requests`: no item has reported back, and each is
    /// answered by the model of its own settings or, without any, by that of
    /// the settings of the batch.
    pub fn new(requests: &Vec<BatchRequest>, default_config: &GenerationConfig) -> (r: Self)
        ensures
            r@.wf(),
            r@.aligned_with(requests@),
            forall|i: int|
                0 <= i < requests@.len() ==> {
                    &&& !(#[trigger] r@.completed[i])
                    &&& r@.results[i].result is None
                    &&& r@.results[i].error matches Some(Error::Network(detail)) && detail@
                        == lost_item_detail()
                    &&& r@.models[i] == match requests@[i].config {
                        Some(own) => own.model_id,
                        None => default_config.model_id,
                    }
                },
    {
        let mut results: Vec<BatchItemResult> = Vec::new();
        let mut models: Vec<String> = Vec::new();
        let mut completed: Vec<bool> = Vec::new();
        let mut i: usize = 0;
        while i < requests.len()
            invariant
                i <= requests.len(),
                results@.len() == i,
                models@.len() == i,
                completed@.len() == i,
                forall|k: int|
                    0 <= k < i ==> {
                        &&& (#[trigger] results@[k]).id == requests@[k].id
                        &&& results@[k].prompt == requests@[k].prompt
                        &&& results@[k].result is None
                        &&& results@[k].error matches Some(Error::Network(detail)) && detail@
                            == lost_item_detail()
                    },
                forall|k: int| 0 <= k < i ==> !(#[trigger] completed@[k]),
                forall|k: int|
                    0 <= k < i ==> #[trigger] models@[k] == match requests@[k].config {
                        Some(own) => own.model_id,
                        None => default_config.model_id,
                    },
            decreases requests.len() - i,
        {
            let request = &requests[i];
            let lost = Error::Network("Task join error: the request did not complete".to_owned());
            results.push(
                BatchItemResult::failure(copy_of(&request.id), request.prompt.clone(), lost),
            );
            models.push(request.effective_config(default_config).model_id.clone());
            completed.push(false);
            i += 1;
        }
        BatchCollector { results, models, completed }
    }

    /// How many items the batch has.
    pub fn len(&self) -> (r: usize)
        ensures
            r == self@.results.len(),
    {
        self.results.len()
    }

    /// Takes the report of the item at `index`, in whatever order the items
    /// report. A report for an item that does not exist or that has already
    /// reported is refused and changes nothing.
    pub fn complete(&mut self, index: usize, outcome: Result<String, Error>) -> (accepted: bool)
        ensures
            accepted == old(self)@.accepts(index as int),
            final(self)@ == old(self)@.complete(index as int, outcome),
    {
        proof {
            use_type_invariant(&*self);
        }
        if index >= self.results.len() || self.completed[index] {
            return false;
        }
        let id = copy_of(&self.results[index].id);
        let prompt = self.results[index].prompt.clone();
        let item = match outcome {
            Ok(text) => BatchItemResult::success(
                id,
                prompt,
                GenerationResult::new(text, self.models[index].clone()),
            ),
            Err(error) => BatchItemResult::failure(id, prompt, error),
        };
        self.results[index] = item;
        self.completed[index] = true;
        true
    }

    /// The report of the batch, which took `duration`: the result of every
    /// item as it stands, in the order of the requests.
    pub fn finish(self, duration: Duration) -> (r: BatchGenerationResult)
        ensures
            r.wf(),
            r.results@ == self@.results,
            r.duration == duration,
    {
        BatchGenerationResult::new(self.results, duration)
    }
}

} // verus!
