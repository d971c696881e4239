//! The failover: the candidates are tried one after another, in order, until
//! one answers.
//!
//! The call to an adapter is not made here. [`Dispatch`] holds what has
//! happened so far and says what is to happen next; whoever makes the call
//! reports how it ended. The first answer wins and ends the run. A failure
//! is kept and the next candidate is due. Once every candidate has failed,
//! or where there was none, no adapter is available.

use vstd::prelude::*;
use crate::registry::{adapter_views, AdapterInfo, AdapterInfoView};

verus! {

/// What an adapter answers.
#[derive(Debug, PartialEq)]
pub struct TransportReply {
    pub request_id: String,
    /// The answer itself, as JSON text whose schema is the backend's.
    pub json: String,
}

/// The model of an adapter's answer.
pub struct TransportReplyView {
    pub request_id: Seq<char>,
    pub json: Seq<char>,
}

impl View for TransportReply {
    type V = TransportReplyView;

    open spec fn view(&self) -> TransportReplyView {
        TransportReplyView { request_id: self.request_id@, json: self.json@ }
    }
}

/// Why a call to one adapter failed.
#[derive(Debug, PartialEq)]
pub struct TransportFailure {
    pub message: String,
}

impl View for TransportFailure {
    type V = Seq<char>;

    open spec fn view(&self) -> Seq<char> {
        self.message@
    }
}

/// The answer to a forwarded request, with the adapter that served it.
#[derive(Debug, PartialEq)]
pub struct ForwardResponse {
    pub request_id: String,
    pub adapter_id: String,
    pub json: String,
}

/// The model of the answer to a forwarded request.
pub struct ForwardResponseView {
    pub request_id: Seq<char>,
    pub adapter_id: Seq<char>,
    pub json: Seq<char>,
}

impl View for ForwardResponse {
    type V = ForwardResponseView;

    open spec fn view(&self) -> ForwardResponseView {
        ForwardResponseView {
            request_id: self.request_id@,
            adapter_id: self.adapter_id@,
            json: self.json@,
        }
    }
}

impl Clone for TransportFailure {
    fn clone(&self) -> (r: Self)
        ensures
            r@ == self@,
    {
        TransportFailure { message: self.message.clone() }
    }
}

impl Clone for ForwardResponse {
    fn clone(&self) -> (r: Self)
        ensures
            r@ == self@,
    {
        ForwardResponse {
            request_id: self.request_id.clone(),
            adapter_id: self.adapter_id.clone(),
            json: self.json.clone(),
        }
    }
}

/// Why a request was not served.
#[derive(Debug, PartialEq)]
pub enum ForwardError {
    /// Every candidate failed, or there was none. `last_failure` is the
    /// failure of the candidate tried last, where one was tried.
    NoAdapterAvailable { last_failure: Option<TransportFailure> },
}

/// The model of an optional failure.
pub open spec fn opt_failure(o: Option<TransportFailure>) -> Option<Seq<char>> {
    match o {
        Some(f) => Some(f@),
        None => None,
    }
}

impl ForwardError {
    /// What is said of the error: the last failure, or that no adapter is
    /// registered.
    pub fn message(&self) -> (text: String)
        ensures
            text@ == match self {
                ForwardError::NoAdapterAvailable { last_failure: Some(f) } => f@,
                ForwardError::NoAdapterAvailable { last_failure: None } => "no adapters registered"@,
            },
    {
        match self {
            ForwardError::NoAdapterAvailable { last_failure: Some(f) } => f.message.clone(),
            ForwardError::NoAdapterAvailable { last_failure: None } => {
                "no adapters registered".to_string()
            },
        }
    }
}

/// How the call to one adapter ended.
pub enum OutcomeView {
    Answered(TransportReplyView),
    Failed(Seq<char>),
}

/// The model of how a call ended.
pub open spec fn outcome_of(outcome: Result<TransportReply, TransportFailure>) -> OutcomeView {
    match outcome {
        Ok(reply) => OutcomeView::Answered(reply@),
        Err(failure) => OutcomeView::Failed(failure@),
    }
}

/// What is to happen next.
#[derive(Debug, PartialEq)]
pub enum Step {
    /// The adapter is to be called.
    Attempt(AdapterInfo),
    /// The request was served: the run is over.
    Served(ForwardResponse),
    /// No adapter is available: the run is over.
    Unavailable(ForwardError),
}

/// The model of what is to happen next.
pub enum StepView {
    Attempt(AdapterInfoView),
    Served(ForwardResponseView),
    Unavailable(Option<Seq<char>>),
}

impl View for Step {
    type V = StepView;

    open spec fn view(&self) -> StepView {
        match self {
            Step::Attempt(info) => StepView::Attempt(info@),
            Step::Served(response) => StepView::Served(response@),
            Step::Unavailable(ForwardError::NoAdapterAvailable { last_failure }) => {
                StepView::Unavailable(opt_failure(*last_failure))
            },
        }
    }
}

/// The model of a run: the candidates, how many of them have failed, the
/// failure of the last of these, and the answer once there is one.
pub struct DispatchView {
    pub candidates: Seq<AdapterInfoView>,
    pub failed: nat,
    pub last_failure: Option<Seq<char>>,
    pub served: Option<ForwardResponseView>,
}

impl DispatchView {
    /// The run before any call.
    pub open spec fn start(candidates: Seq<AdapterInfoView>) -> DispatchView {
        DispatchView { candidates, failed: 0, last_failure: None, served: None }
    }

    /// What is to happen next.
    pub open spec fn step(self) -> StepView {
        match self.served {
            Some(response) => StepView::Served(response),
            None => if self.failed < self.candidates.len() {
                StepView::Attempt(self.candidates[self.failed as int])
            } else {
                StepView::Unavailable(self.last_failure)
            },
        }
    }

    /// The run after the call that was due has ended. Where no call was
    /// due, nothing changes.
    pub open spec fn report(self, outcome: OutcomeView) -> DispatchView {
        if self.served is None && self.failed < self.candidates.len() {
            match outcome {
                OutcomeView::Answered(reply) => DispatchView {
                    served: Some(
                        ForwardResponseView {
                            request_id: reply.request_id,
                            adapter_id: self.candidates[self.failed as int].adapter_id,
                            json: reply.json,
                        },
                    ),
                    ..self
                },
                OutcomeView::Failed(failure) => DispatchView {
                    failed: self.failed + 1,
                    last_failure: Some(failure),
                    ..self
                },
            }
        } else {
            self
        }
    }

    /// The run after the calls have ended as `outcomes` say, one outcome for
    /// each call that was due.
    pub open spec fn run(self, outcomes: Seq<OutcomeView>) -> DispatchView
        decreases outcomes.len(),
    {
        if outcomes.len() == 0 {
            self
        } else {
            self.report(outcomes[0]).run(outcomes.drop_first())
        }
    }

    /// The adapters that are called, in order, while the calls end as
    /// `outcomes` say.
    pub open spec fn attempted(self, outcomes: Seq<OutcomeView>) -> Seq<AdapterInfoView>
        decreases outcomes.len(),
    {
        if outcomes.len() == 0 {
            Seq::empty()
        } else {
            match self.step() {
                StepView::Attempt(adapter) => seq![adapter] + self.report(outcomes[0]).attempted(
                    outcomes.drop_first(),
                ),
                _ => Seq::empty(),
            }
        }
    }
}

/// A run of the failover.
pub struct Dispatch {
    candidates: Vec<AdapterInfo>,
    failed: usize,
    last_failure: Option<TransportFailure>,
    served: Option<ForwardResponse>,
}

/// The model of an optional answer.
pub open spec fn opt_response(o: Option<ForwardResponse>) -> Option<ForwardResponseView> {
    match o {
        Some(r) => Some(r@),
        None => None,
    }
}

impl View for Dispatch {
    type V = DispatchView;

    closed spec fn view(&self) -> DispatchView {
        DispatchView {
            candidates: adapter_views(self.candidates@),
            failed: self.failed as nat,
            last_failure: opt_failure(self.last_failure),
            served: opt_response(self.served),
        }
    }
}

impl Dispatch {
    /// A run over the given candidates, before any call.
    pub fn new(candidates: Vec<AdapterInfo>) -> (d: Dispatch)
        ensures
            d@ == DispatchView::start(adapter_views(candidates@)),
    {
        Dispatch { candidates, failed: 0, last_failure: None, served: None }
    }

    /// What is to happen next: the call that is due, or how the run ended.
    pub fn step(&self) -> (s: Step)
        ensures
            s@ == self@.step(),
    {
        match &self.served {
            Some(response) => Step::Served(response.clone()),
            None => {
                if self.failed < self.candidates.len() {
                    Step::Attempt(self.candidates[self.failed].clone())
                } else {
                    let last_failure = match &self.last_failure {
                        Some(failure) => Some(failure.clone()),
                        None => None,
                    };
                    Step::Unavailable(ForwardError::NoAdapterAvailable { last_failure })
                }
            },
        }
    }

    /// Takes note of how the call that was due has ended. Where no call was
    /// due, nothing changes.
    pub fn report(&mut self, outcome: Result<TransportReply, TransportFailure>)
        ensures
            final(self)@ == old(self)@.report(outcome_of(outcome)),
    {
        if self.served.is_none() && self.failed < self.candidates.len() {
            match outcome {
                Ok(reply) => {
                    self.served = Some(
                        ForwardResponse {
                            request_id: reply.request_id,
                            adapter_id: self.candidates[self.failed].adapter_id.clone(),
                            json: reply.json,
                        },
                    );
                },
                Err(failure) => {
                    self.failed = self.failed + 1;
                    self.last_failure = Some(failure);
                },
            }
        }
    }
}

/// While every call fails, one candidate after the other is called, and the
/// failure of the last one is kept.
pub proof fn lemma_all_failed(d: DispatchView, outcomes: Seq<OutcomeView>)
    requires
        d.served is None,
        d.failed + outcomes.len() <= d.candidates.len(),
        forall|i: int| 0 <= i < outcomes.len() ==> (#[trigger] outcomes[i]) is Failed,
    ensures
        d.run(outcomes).candidates == d.candidates,
        d.run(outcomes).served is None,
        d.run(outcomes).failed == d.failed + outcomes.len(),
        d.run(outcomes).last_failure == if outcomes.len() == 0 {
            d.last_failure
        } else {
            Some(outcomes.last()->Failed_0)
        },
        d.attempted(outcomes) == d.candidates.subrange(
            d.failed as int,
            (d.failed + outcomes.len()) as int,
        ),
    decreases outcomes.len(),
{
    if outcomes.len() == 0 {
        assert(d.attempted(outcomes) =~= d.candidates.subrange(d.failed as int, d.failed as int));
    } else {
        let next = d.report(outcomes[0]);
        let rest = outcomes.drop_first();
        assert(outcomes[0] is Failed);
        assert forall|i: int| 0 <= i < rest.len() implies (#[trigger] rest[i]) is Failed by {
            assert(rest[i] == outcomes[i + 1]);
        }
        lemma_all_failed(next, rest);
        if rest.len() > 0 {
            assert(rest.last() == outcomes.last());
        }
        assert(d.attempted(outcomes) =~= d.candidates.subrange(
            d.failed as int,
            (d.failed + outcomes.len()) as int,
        ));
    }
}

/// Once the request is served, nothing that is reported changes the run, and
/// no adapter is called any more.
pub proof fn lemma_served_is_final(d: DispatchView, outcomes: Seq<OutcomeView>)
    requires
        d.served is Some,
    ensures
        d.run(outcomes) == d,
        d.attempted(outcomes) == Seq::<AdapterInfoView>::empty(),
    decreases outcomes.len(),
{
    if outcomes.len() > 0 {
        lemma_served_is_final(d, outcomes.drop_first());
    }
}

/// Once no adapter is available, nothing that is reported changes the run,
/// and no adapter is called any more.
pub proof fn lemma_unavailable_is_final(d: DispatchView, outcomes: Seq<OutcomeView>)
    requires
        d.served is None,
        d.failed >= d.candidates.len(),
    ensures
        d.run(outcomes) == d,
        d.attempted(outcomes) == Seq::<AdapterInfoView>::empty(),
    decreases outcomes.len(),
{
    if outcomes.len() > 0 {
        lemma_unavailable_is_final(d, outcomes.drop_first());
    }
}

/// Whatever is reported, the adapters that are called are candidates that
/// had not failed before, one after the other in their order: no candidate
/// is skipped, and none is called a second time.
pub proof fn lemma_attempted_in_order(d: DispatchView, outcomes: Seq<OutcomeView>)
    requires
        d.failed <= d.candidates.len(),
    ensures
        d.failed + d.attempted(outcomes).len() <= d.candidates.len(),
        d.attempted(outcomes) == d.candidates.subrange(
            d.failed as int,
            (d.failed + d.attempted(outcomes).len()) as int,
        ),
    decreases outcomes.len(),
{
    let from = d.failed as int;
    if outcomes.len() == 0 || d.served is Some || d.failed >= d.candidates.len() {
        assert(d.attempted(outcomes) =~= d.candidates.subrange(from, from));
    } else {
        let next = d.report(outcomes[0]);
        let rest = outcomes.drop_first();
        match outcomes[0] {
            OutcomeView::Answered(_) => {
                lemma_served_is_final(next, rest);
                assert(d.attempted(outcomes) =~= d.candidates.subrange(from, from + 1));
            },
            OutcomeView::Failed(_) => {
                lemma_attempted_in_order(next, rest);
                assert(d.attempted(outcomes) =~= d.candidates.subrange(
                    from,
                    from + 1 + next.attempted(rest).len(),
                ));
            },
        }
    }
}

/// Two runs one after the other are one run.
pub proof fn lemma_run_in_two(d: DispatchView, first: Seq<OutcomeView>, second: Seq<OutcomeView>)
    ensures
        d.run(first + second) == d.run(first).run(second),
    decreases first.len(),
{
    if first.len() == 0 {
        assert(first + second =~= second);
    } else {
        assert((first + second)[0] == first[0]);
        assert((first + second).drop_first() =~= first.drop_first() + second);
        lemma_run_in_two(d.report(first[0]), first.drop_first(), second);
    }
}

/// The adapters called in two runs one after the other are those of the
/// first run followed by those of the second, as long as the first run calls
/// an adapter for each of its outcomes.
pub proof fn lemma_attempted_in_two(
    d: DispatchView,
    first: Seq<OutcomeView>,
    second: Seq<OutcomeView>,
)
    requires
        d.attempted(first).len() == first.len(),
    ensures
        d.attempted(first + second) == d.attempted(first) + d.run(first).attempted(second),
    decreases first.len(),
{
    if first.len() == 0 {
        assert(first + second =~= second);
        assert(d.attempted(first) + d.run(first).attempted(second) =~= d.attempted(second));
    } else {
        assert((first + second)[0] == first[0]);
        assert((first + second).drop_first() =~= first.drop_first() + second);
        let next = d.report(first[0]);
        assert(d.step() is Attempt);
        assert(next.attempted(first.drop_first()).len() == first.len() - 1);
        lemma_attempted_in_two(next, first.drop_first(), second);
        assert(d.attempted(first + second) =~= d.attempted(first) + d.run(first).attempted(second));
    }
}

/// The first answer wins. Where the calls to the first `k` candidates fail
/// and the call to the next one is answered, the request is served by that
/// candidate with that answer, whatever is reported afterwards; and the
/// adapters called are those `k + 1` candidates, each once, in order.
pub proof fn lemma_first_answer_wins(
    candidates: Seq<AdapterInfoView>,
    outcomes: Seq<OutcomeView>,
    k: int,
)
    requires
        0 <= k < candidates.len(),
        k < outcomes.len(),
        forall|i: int| 0 <= i < k ==> (#[trigger] outcomes[i]) is Failed,
        outcomes[k] is Answered,
    ensures
        DispatchView::start(candidates).run(outcomes).step() == StepView::Served(
            ForwardResponseView {
                request_id: outcomes[k]->Answered_0.request_id,
                adapter_id: candidates[k].adapter_id,
                json: outcomes[k]->Answered_0.json,
            },
        ),
        DispatchView::start(candidates).attempted(outcomes) == candidates.take(k + 1),
{
    let start = DispatchView::start(candidates);
    let failures = outcomes.take(k);
    let answer = seq![outcomes[k]];
    let later = outcomes.skip(k + 1);
    assert(outcomes =~= failures + answer + later);
    lemma_all_failed(start, failures);
    let before = start.run(failures);
    let served = before.report(outcomes[k]);
    assert(before.run(answer) == served) by {
        assert(answer.drop_first() =~= Seq::empty());
        assert(served.run(answer.drop_first()) == served);
    }
    assert(before.attempted(answer) == seq![candidates[k]]) by {
        assert(answer.drop_first() =~= Seq::empty());
        assert(answer[0] == outcomes[k]);
        assert(before.step() == StepView::Attempt(candidates[k]));
        assert(served.attempted(answer.drop_first()) =~= Seq::empty());
        assert(before.attempted(answer) =~= seq![candidates[k]]);
    }
    lemma_run_in_two(start, failures, answer);
    lemma_attempted_in_two(start, failures, answer);
    lemma_served_is_final(served, later);
    lemma_run_in_two(start, failures + answer, later);
    assert(start.attempted(failures + answer) =~= candidates.take(k + 1));
    lemma_attempted_in_two(start, failures + answer, later);
    assert(start.attempted(outcomes) =~= candidates.take(k + 1));
}

/// Where the call to every candidate fails, no adapter is available, and the
/// failure that is handed on is the one of the last candidate. Every
/// candidate was called once, in order.
pub proof fn lemma_exhausted(candidates: Seq<AdapterInfoView>, outcomes: Seq<OutcomeView>)
    requires
        candidates.len() > 0,
        outcomes.len() >= candidates.len(),
        forall|i: int| 0 <= i < candidates.len() ==> (#[trigger] outcomes[i]) is Failed,
    ensures
        DispatchView::start(candidates).run(outcomes).step() == StepView::Unavailable(
            Some(outcomes[candidates.len() - 1]->Failed_0),
        ),
        DispatchView::start(candidates).attempted(outcomes) == candidates,
{
    let start = DispatchView::start(candidates);
    let n = candidates.len() as int;
    let failures = outcomes.take(n);
    let later = outcomes.skip(n);
    assert(outcomes =~= failures + later);
    lemma_all_failed(start, failures);
    let ended = start.run(failures);
    lemma_unavailable_is_final(ended, later);
    lemma_run_in_two(start, failures, later);
    assert(start.attempted(failures) =~= candidates);
    lemma_attempted_in_two(start, failures, later);
    assert(start.attempted(outcomes) =~= candidates);
}

/// Without candidates no adapter is available from the start, no failure is
/// handed on, and no adapter is ever called.
pub proof fn lemma_no_candidates(outcomes: Seq<OutcomeView>)
    ensures
        DispatchView::start(Seq::empty()).step() == StepView::Unavailable(None),
        DispatchView::start(Seq::empty()).run(outcomes).step() == StepView::Unavailable(None),
        DispatchView::start(Seq::empty()).attempted(outcomes) == Seq::<AdapterInfoView>::empty(),
{
    lemma_unavailable_is_final(DispatchView::start(Seq::empty()), outcomes);
}

} // verus!
