use vstd::prelude::*;

verus! {

/// How the model host loads its session and shares it between requests.
#[derive(Debug, Clone, Copy, PartialEq, Eq, Structural)]
pub enum HostPolicy {
    /// Loaded once at startup, before any request is accepted; a failed load
    /// stops the service from starting. Inferences run one at a time under a
    /// lock, for engines whose forward pass keeps mutable scratch state.
    EagerExclusive,
    /// Loaded once, by the first request that needs it; concurrent first
    /// requests wait for that one load. Inferences then run concurrently on
    /// the shared session.
    LazyShared,
}

/// Where the host's one load stands.
#[derive(Debug, Clone, Copy, PartialEq, Eq, Structural)]
pub enum HostPhase {
    /// Not loaded yet.
    Cold,
    /// Loaded; the session is shared for the rest of the process.
    Ready,
    /// The load failed; the host never serves.
    Failed,
}

/// What a request is to do with the model.
#[derive(Debug, Clone, Copy, PartialEq, Eq, Structural)]
pub enum Admission {
    /// Load the model (this request is the first), record the outcome, and
    /// run on the new session if it loaded.
    LoadThenRun,
    /// Run on the loaded session; under the lock where `exclusive` is set.
    Run { exclusive: bool },
    /// Fail with a load error: there is no model to run.
    Refuse,
}

/// The decisions of the model host: when the model is loaded, and how a
/// request reaches it. The host itself runs under a lock, so that concurrent
/// requests see its steps one after another.
#[derive(Debug, Clone, Copy)]
pub struct ModelHost {
    pub policy: HostPolicy,
    pub phase: HostPhase,
}

pub open spec fn admission_of(h: ModelHost) -> Admission {
    match h.phase {
        HostPhase::Cold => if h.policy == HostPolicy::LazyShared {
            Admission::LoadThenRun
        } else {
            Admission::Refuse
        },
        HostPhase::Ready => Admission::Run { exclusive: h.policy == HostPolicy::EagerExclusive },
        HostPhase::Failed => Admission::Refuse,
    }
}

/// The host after a load that ended as `ok` says.
pub open spec fn loaded(h: ModelHost, ok: bool) -> ModelHost {
    ModelHost { policy: h.policy, phase: if ok { HostPhase::Ready } else { HostPhase::Failed } }
}

/// The host after one request, where `load_ok` is how a load by that
/// request would end.
pub open spec fn after_request(h: ModelHost, load_ok: bool) -> ModelHost {
    if admission_of(h) is LoadThenRun {
        loaded(h, load_ok)
    } else {
        h
    }
}

/// How many of a run of requests load the model; `outcomes[i]` is how a
/// load by request `i` would end.
pub open spec fn loads_in(h: ModelHost, outcomes: Seq<bool>) -> nat
    decreases outcomes.len(),
{
    if outcomes.len() == 0 {
        0
    } else {
        (if admission_of(h) is LoadThenRun { 1nat } else { 0nat }) + loads_in(
            after_request(h, outcomes[0]),
            outcomes.drop_first(),
        )
    }
}

/// How many of a run of requests are refused for want of a model, or fail
/// because the load they made failed.
pub open spec fn unserved_in(h: ModelHost, outcomes: Seq<bool>) -> nat
    decreases outcomes.len(),
{
    if outcomes.len() == 0 {
        0
    } else {
        let a = admission_of(h);
        (if a is Refuse || (a is LoadThenRun && !outcomes[0]) { 1nat } else { 0nat })
            + unserved_in(after_request(h, outcomes[0]), outcomes.drop_first())
    }
}

impl ModelHost {
    /// A host with nothing loaded.
    pub fn new(policy: HostPolicy) -> (r: ModelHost)
        ensures
            r.policy == policy,
            r.phase == HostPhase::Cold,
    {
        ModelHost { policy, phase: HostPhase::Cold }
    }

    /// Whether the model is to be loaded now, at startup, before serving.
    pub fn needs_startup_load(&self) -> (r: bool)
        ensures
            r <==> self.policy == HostPolicy::EagerExclusive && self.phase == HostPhase::Cold,
    {
        match (self.policy, self.phase) {
            (HostPolicy::EagerExclusive, HostPhase::Cold) => true,
            _ => false,
        }
    }

    /// Whether a ready host may be served from: false once a load has failed.
    pub fn is_serving(&self) -> (r: bool)
        ensures
            r <==> self.phase == HostPhase::Ready,
    {
        match self.phase {
            HostPhase::Ready => true,
            _ => false,
        }
    }

    /// What an incoming request is to do with the model.
    pub fn admission(&self) -> (r: Admission)
        ensures
            r == admission_of(*self),
    {
        match self.phase {
            HostPhase::Cold => match self.policy {
                HostPolicy::LazyShared => Admission::LoadThenRun,
                HostPolicy::EagerExclusive => Admission::Refuse,
            },
            HostPhase::Ready => Admission::Run {
                exclusive: match self.policy {
                    HostPolicy::EagerExclusive => true,
                    HostPolicy::LazyShared => false,
                },
            },
            HostPhase::Failed => Admission::Refuse,
        }
    }

    /// Records how the one load ended. A host loads at most once: only a
    /// cold host records a load.
    pub fn record_load(&mut self, ok: bool)
        requires
            old(self).phase == HostPhase::Cold,
        ensures
            *final(self) == loaded(*old(self), ok),
    {
        self.phase = if ok {
            HostPhase::Ready
        } else {
            HostPhase::Failed
        };
    }
}

/// Whatever the requests and the outcomes of loads, a host loads its model
/// at most once, and a host that is no longer cold never loads again.
pub proof fn lemma_single_load(h: ModelHost, outcomes: Seq<bool>)
    ensures
        loads_in(h, outcomes) <= 1,
        h.phase != HostPhase::Cold ==> loads_in(h, outcomes) == 0,
    decreases outcomes.len(),
{
    if outcomes.len() > 0 {
        let next = after_request(h, outcomes[0]);
        lemma_single_load(next, outcomes.drop_first());
        if admission_of(h) is LoadThenRun {
            assert(next.phase != HostPhase::Cold);
        }
    }
}

/// Requests to a ready host are all served from the session already loaded.
pub proof fn lemma_ready_serves_all(h: ModelHost, outcomes: Seq<bool>)
    requires
        h.phase == HostPhase::Ready,
    ensures
        loads_in(h, outcomes) == 0,
        unserved_in(h, outcomes) == 0,
    decreases outcomes.len(),
{
    lemma_single_load(h, outcomes);
    if outcomes.len() > 0 {
        lemma_ready_serves_all(after_request(h, outcomes[0]), outcomes.drop_first());
    }
}

/// A cold lazy host under any run of first requests: exactly one of them
/// loads the model, and where that load succeeds every request is served
/// from the one session it built.
pub proof fn lemma_lazy_first_requests(h: ModelHost, outcomes: Seq<bool>)
    requires
        h.policy == HostPolicy::LazyShared,
        h.phase == HostPhase::Cold,
        outcomes.len() > 0,
    ensures
        loads_in(h, outcomes) == 1,
        outcomes[0] ==> unserved_in(h, outcomes) == 0,
{
    let next = after_request(h, outcomes[0]);
    lemma_single_load(next, outcomes.drop_first());
    if outcomes[0] {
        lemma_ready_serves_all(next, outcomes.drop_first());
    }
}

/// The policy decides only when the model is loaded and whether runs take
/// the lock: two ready hosts under any two policies both run every request
/// on their loaded session, and differ at most in exclusivity. Preparing the
/// input and choosing the class take no policy at all, so the same model
/// gives the same prediction under either policy.
pub proof fn lemma_policies_run_alike(h1: ModelHost, h2: ModelHost)
    requires
        h1.phase == HostPhase::Ready,
        h2.phase == HostPhase::Ready,
    ensures
        admission_of(h1) is Run,
        admission_of(h2) is Run,
        h1.policy == h2.policy ==> admission_of(h1) == admission_of(h2),
        admission_of(h1) == (Admission::Run { exclusive: h1.policy == HostPolicy::EagerExclusive }),
{
}

} // verus!
