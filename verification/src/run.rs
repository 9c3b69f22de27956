//! What it means for a procedure to run.
//!
//! A procedure is described twice: by the steps it takes from one reply to the next
//! ([`Procedure`]), which is what the executable functions are held to, and as one piece, by
//! the requests it makes and the outcome it comes to ([`Run`]). [`performs`] says that the
//! two agree.

use vstd::prelude::*;

use crate::error::ErrorView;
use crate::protocol::{ProgressView, ReplyView, RequestView};

verus! {

/// The services on the bus: what the n-th call, counted over everything that was asked of
/// them, gives back. The same request may be answered differently at another time.
pub type Services = spec_fn(int, RequestView) -> ReplyView;

/// Every reply is of the kind that was asked for.
pub open spec fn faithful(services: Services) -> bool {
    forall|at: int, request: RequestView| request.answered_by(#[trigger] services(at, request))
}

/// A run of a procedure from its start to its end.
pub struct Run<T> {
    /// The requests made, in order.
    pub requests: Seq<RequestView>,
    /// What the procedure comes to.
    pub outcome: Result<T, ErrorView>,
}

/// The run that makes no request.
pub open spec fn settled<T>(outcome: Result<T, ErrorView>) -> Run<T> {
    Run { requests: Seq::empty(), outcome }
}

/// The run that makes one request.
pub open spec fn asked<T>(request: RequestView, outcome: Result<T, ErrorView>) -> Run<T> {
    Run { requests: seq![request], outcome }
}

impl<T> Run<T> {
    /// This run, followed by `next` of its value; the error, if this run ends in one.
    pub open spec fn followed_by<U>(self, next: spec_fn(T) -> Run<U>) -> Run<U> {
        match self.outcome {
            Ok(value) => Run {
                requests: self.requests + next(value).requests,
                outcome: next(value).outcome,
            },
            Err(error) => Run { requests: self.requests, outcome: Err(error) },
        }
    }
}

/// The steps of a procedure.
pub trait Procedure: Sized {
    type Output;

    /// The request whose reply the procedure waits for.
    spec fn request(self) -> RequestView;

    /// How it goes on once it has the reply.
    spec fn resumed(self, reply: ReplyView) -> ProgressView<Self, Self::Output>;
}

/// Starting from `progress`, with `at` calls made before, and with each request answered by
/// `services`, the procedure makes the requests of `run`, in order and no others, and comes
/// to its outcome.
pub open spec fn performs<P: Procedure>(
    progress: ProgressView<P, P::Output>,
    services: Services,
    at: int,
    run: Run<P::Output>,
) -> bool
    decreases run.requests.len(),
{
    match progress {
        ProgressView::Finished(outcome) => run.requests.len() == 0 && run.outcome == outcome,
        ProgressView::Pending(p) => {
            &&& run.requests.len() > 0
            &&& run.requests[0] == p.request()
            &&& performs(
                p.resumed(services(at, p.request())),
                services,
                at + 1,
                Run { requests: run.requests.drop_first(), outcome: run.outcome },
            )
        },
    }
}

/// A pending procedure makes its request and then does what its next step does.
pub proof fn lemma_step<P: Procedure>(p: P, services: Services, at: int, rest: Run<P::Output>)
    requires
        performs(p.resumed(services(at, p.request())), services, at + 1, rest),
    ensures
        performs(
            ProgressView::Pending(p),
            services,
            at,
            Run { requests: seq![p.request()] + rest.requests, outcome: rest.outcome },
        ),
{
    let requests = seq![p.request()] + rest.requests;
    assert(requests.drop_first() =~= rest.requests);
    assert(Run { requests: requests.drop_first(), outcome: rest.outcome } == rest);
}

/// A procedure runs in one way only: what the services answer decides its requests and its
/// outcome.
pub proof fn law_one_run_only<P: Procedure>(
    progress: ProgressView<P, P::Output>,
    services: Services,
    at: int,
    a: Run<P::Output>,
    b: Run<P::Output>,
)
    requires
        performs(progress, services, at, a),
        performs(progress, services, at, b),
    ensures
        a == b,
    decreases a.requests.len(),
{
    match progress {
        ProgressView::Finished(outcome) => {
            assert(a.requests =~= b.requests);
        },
        ProgressView::Pending(p) => {
            let rest_a = Run { requests: a.requests.drop_first(), outcome: a.outcome };
            let rest_b = Run { requests: b.requests.drop_first(), outcome: b.outcome };
            let next = p.resumed(services(at, p.request()));
            law_one_run_only(next, services, at + 1, rest_a, rest_b);
            assert(a.requests =~= seq![a.requests[0]] + rest_a.requests);
            assert(b.requests =~= seq![b.requests[0]] + rest_b.requests);
        },
    }
}

/// How a procedure goes on that contains another one: as the inner one does, and by `next`
/// once that is over.
pub open spec fn continued<P, T, Q, U>(
    inner: ProgressView<Q, U>,
    embed: spec_fn(Q) -> P,
    next: spec_fn(Result<U, ErrorView>) -> ProgressView<P, T>,
) -> ProgressView<P, T> {
    match inner {
        ProgressView::Pending(q) => ProgressView::Pending(embed(q)),
        ProgressView::Finished(outcome) => next(outcome),
    }
}

/// A procedure that contains another one makes the requests of the inner one first, and
/// then those it makes on the inner one's outcome.
pub proof fn lemma_continued<P: Procedure, Q: Procedure>(
    inner: ProgressView<Q, Q::Output>,
    embed: spec_fn(Q) -> P,
    next: spec_fn(Result<Q::Output, ErrorView>) -> ProgressView<P, P::Output>,
    services: Services,
    at: int,
    first: Run<Q::Output>,
    rest: Run<P::Output>,
)
    requires
        forall|q: Q| (#[trigger] embed(q)).request() == q.request(),
        forall|q: Q, reply: ReplyView|
            #[trigger] embed(q).resumed(reply) == continued(q.resumed(reply), embed, next),
        performs(inner, services, at, first),
        performs(next(first.outcome), services, at + first.requests.len(), rest),
    ensures
        performs(
            continued(inner, embed, next),
            services,
            at,
            Run { requests: first.requests + rest.requests, outcome: rest.outcome },
        ),
    decreases first.requests.len(),
{
    match inner {
        ProgressView::Finished(outcome) => {
            assert(first.requests + rest.requests =~= rest.requests);
        },
        ProgressView::Pending(q) => {
            let first_rest = Run { requests: first.requests.drop_first(), outcome: first.outcome };
            let after = q.resumed(services(at, q.request()));
            lemma_continued(after, embed, next, services, at + 1, first_rest, rest);
            let tail = Run {
                requests: first_rest.requests + rest.requests,
                outcome: rest.outcome,
            };
            lemma_step(embed(q), services, at, tail);
            assert(seq![q.request()] + tail.requests =~= first.requests + rest.requests);
        },
    }
}

} // verus!
