//! The root of trust and its rotation.
//!
//! The store holds the roots that were accepted, oldest first. It starts
//! with the root that is trusted locally and takes in `N+1` after `N`,
//! each authorized by the one before it, until the next one is missing or
//! the limit on rotations is reached.

use crate::error::{Error, RoleType};
use crate::loader::{Chain, Trusted};
use crate::policy::{expiration_verdict, ExpirationEnforcement};
use crate::schema::{Root, Signed};
use crate::threshold::{threshold_verdict, verify_threshold, SignatureCheck};
use crate::transport::TransportErrorKind;
use vstd::prelude::*;

verus! {

/// A root document that was fetched as the successor of the trusted one.
#[derive(Clone, Debug)]
pub struct RootCandidate {
    /// The document; its checks were made with the keys that it declares
    /// itself.
    pub signed: Signed<Root>,
    /// One check for each signature attached to the document, made with
    /// the keys of the root that is trusted so far.
    pub checks_by_trusted: Vec<SignatureCheck>,
}

/// What the fetch of the next root came back with.
#[derive(Debug)]
pub enum RotationEvent {
    /// There is no such root.
    NotFound,
    /// The transport failed.
    Failure,
    /// What was fetched cannot be read as a root document.
    Malformed,
    /// The root was fetched.
    Fetched(RootCandidate),
}

/// What to do next in a rotation.
#[derive(Clone, Copy, Debug, PartialEq, Eq, Structural)]
pub enum RotationStep {
    /// Fetch the root document of this version.
    Fetch { version: u64 },
    /// The rotation is complete: the trusted root is final for this load.
    Complete,
    /// The load is refused.
    Failed(Error),
}

/// The outcome of one step of a rotation: the version of the root that was
/// accepted in this step and is to be kept locally, if one was, and what to
/// do next.
#[derive(Clone, Copy, Debug, PartialEq, Eq, Structural)]
pub struct Rotation {
    pub accepted: Option<u64>,
    pub next: RotationStep,
}

/// A root that a rotation has accepted: the document, and the checks of
/// its signatures that were made with the keys of the root before it. The
/// root that a rotation starts from has none.
#[derive(Debug)]
pub struct AcceptedRoot {
    pub signed: Signed<Root>,
    pub checks_by_trusted: Option<Vec<SignatureCheck>>,
}

/// The state of a rotation: the roots accepted so far, oldest first, what
/// is to be done next, and the limit on rotations.
pub struct RotationState {
    pub log: Seq<AcceptedRoot>,
    pub next: RotationStep,
    pub max_rotations: u64,
}

/// Whether the root `trusted` lets `candidate` follow it, and if not, why
/// not. The candidate must be signed by the root role of the trusted root
/// and by the root role that it declares itself, and its version must be
/// the next one: an older or equal version is a rollback, a later one
/// skips a root.
#[verifier::opaque]
pub open spec fn candidate_verdict(trusted: Root, candidate: RootCandidate) -> Result<(), Error> {
    let by_trusted = threshold_verdict(
        RoleType::Root,
        trusted.root,
        candidate.checks_by_trusted@,
    );
    let by_own = threshold_verdict(
        RoleType::Root,
        candidate.signed.signed.root,
        candidate.signed.checks@,
    );
    let version = candidate.signed.signed.version;
    if by_trusted is Err {
        by_trusted
    } else if by_own is Err {
        by_own
    } else if version <= trusted.version {
        Err(
            Error::VersionRollback { role: RoleType::Root, previous: trusted.version, new: version },
        )
    } else if version > trusted.version + 1 {
        Err(Error::MalformedDocument { role: RoleType::Root })
    } else {
        Ok(())
    }
}

/// Whether an accepted root was let in by the one before it.
pub open spec fn follows(before: AcceptedRoot, root: AcceptedRoot) -> bool {
    match root.checks_by_trusted {
        Some(checks_by_trusted) => candidate_verdict(
            before.signed.signed,
            RootCandidate { signed: root.signed, checks_by_trusted },
        ) is Ok,
        None => false,
    }
}

/// A candidate as an accepted root.
pub open spec fn accepted(candidate: RootCandidate) -> AcceptedRoot {
    AcceptedRoot {
        signed: candidate.signed,
        checks_by_trusted: Some(candidate.checks_by_trusted),
    }
}

/// What a rotation that has made `rotations` rotations, of `max_rotations`
/// allowed, and trusts version `version` does next: once the limit is
/// reached the load is refused; otherwise the next version is fetched, if
/// there can be one.
pub open spec fn step_after(rotations: int, max_rotations: u64, version: u64) -> RotationStep {
    if rotations >= max_rotations {
        RotationStep::Failed(Error::RotationLimitExceeded { max: max_rotations })
    } else if version == u64::MAX {
        RotationStep::Complete
    } else {
        RotationStep::Fetch { version: (version + 1) as u64 }
    }
}

impl RotationState {
    /// The root that is trusted at this point.
    pub open spec fn trusted(self) -> Root {
        self.log.last().signed.signed
    }

    /// The number of rotations made.
    pub open spec fn rotations(self) -> int {
        self.log.len() - 1
    }

    /// The state of a rotation that starts from the root `trusted`.
    pub open spec fn start(trusted: Signed<Root>, max_rotations: u64) -> RotationState {
        RotationState {
            log: seq![AcceptedRoot { signed: trusted, checks_by_trusted: None }],
            next: step_after(0, max_rotations, trusted.signed.version),
            max_rotations,
        }
    }

    /// Whether the state is one that a rotation can be in: every root but
    /// the first was let in by the one before it, no more rotations were
    /// made than allowed, and a fetch is only asked for below the limit and
    /// for the version after the trusted one.
    pub open spec fn wf(self) -> bool {
        &&& self.log.len() >= 1
        &&& self.rotations() <= self.max_rotations
        &&& forall|i: int|
            1 <= i < self.log.len() ==> follows(self.log[i - 1], #[trigger] self.log[i])
        &&& self.next matches RotationStep::Fetch { version } ==> self.rotations()
            < self.max_rotations && version == self.trusted().version + 1
    }

    /// The state and the outcome that follow `event`, where a fetch was
    /// asked for. A missing root completes the rotation. A failed transport
    /// refuses the load, and so do a document that cannot be read and a
    /// root that may not follow the trusted one. A root that may is taken
    /// in.
    pub open spec fn after(self, event: RotationEvent) -> (RotationState, Rotation) {
        if !(self.next is Fetch) {
            (self, Rotation { accepted: None, next: self.next })
        } else {
            match event {
                RotationEvent::NotFound => self.settle(RotationStep::Complete),
                RotationEvent::Failure => self.settle(
                    RotationStep::Failed(
                        Error::Transport {
                            role: RoleType::Root,
                            kind: TransportErrorKind::Failure,
                        },
                    ),
                ),
                RotationEvent::Malformed => self.settle(
                    RotationStep::Failed(Error::MalformedDocument { role: RoleType::Root }),
                ),
                RotationEvent::Fetched(candidate) => match candidate_verdict(
                    self.trusted(),
                    candidate,
                ) {
                    Err(e) => self.settle(RotationStep::Failed(e)),
                    Ok(()) => {
                        let next = step_after(
                            self.rotations() + 1,
                            self.max_rotations,
                            candidate.signed.signed.version,
                        );
                        (
                            RotationState { log: self.log.push(accepted(candidate)), next, ..self },
                            Rotation { accepted: Some(candidate.signed.signed.version), next },
                        )
                    },
                },
            }
        }
    }

    /// The state in which nothing more is fetched, and its outcome.
    pub open spec fn settle(self, next: RotationStep) -> (RotationState, Rotation) {
        (RotationState { next, ..self }, Rotation { accepted: None, next })
    }

    /// What finishing the rotation amounts to: the final root is checked
    /// for expiration, once, when the rotation is complete; a rotation that
    /// was refused stays refused; and one that still waits for a root has
    /// not got it.
    pub open spec fn finish_verdict(self, mode: ExpirationEnforcement, now: i64) -> Result<
        (),
        Error,
    > {
        match self.next {
            RotationStep::Complete => expiration_verdict(
                mode,
                RoleType::Root,
                self.trusted().expires,
                now,
            ),
            RotationStep::Failed(e) => Err(e),
            RotationStep::Fetch { .. } => Err(
                Error::Transport { role: RoleType::Root, kind: TransportErrorKind::Failure },
            ),
        }
    }
}

/// The roots that a load has accepted, and where its rotation stands.
#[derive(Debug)]
pub struct RootStore {
    log: Vec<AcceptedRoot>,
    next: RotationStep,
    max_rotations: u64,
}

impl View for RootStore {
    type V = RotationState;

    closed spec fn view(&self) -> RotationState {
        RotationState { log: self.log@, next: self.next, max_rotations: self.max_rotations }
    }
}

/// The step that follows a given number of rotations.
fn next_step(rotations: usize, max_rotations: u64, version: u64) -> (r: RotationStep)
    ensures
        r == step_after(rotations as int, max_rotations, version),
{
    if rotations as u64 >= max_rotations {
        RotationStep::Failed(Error::RotationLimitExceeded { max: max_rotations })
    } else if version == u64::MAX {
        RotationStep::Complete
    } else {
        RotationStep::Fetch { version: version + 1 }
    }
}

/// Checks whether `candidate` may follow the root `trusted`.
pub fn check_candidate(trusted: &Root, candidate: &RootCandidate) -> (r: Result<(), Error>)
    ensures
        r == candidate_verdict(*trusted, *candidate),
{
    reveal(candidate_verdict);
    verify_threshold(RoleType::Root, &trusted.root, &candidate.checks_by_trusted)?;
    verify_threshold(RoleType::Root, &candidate.signed.signed.root, &candidate.signed.checks)?;
    let version = candidate.signed.signed.version;
    if version <= trusted.version {
        return Err(
            Error::VersionRollback { role: RoleType::Root, previous: trusted.version, new: version },
        );
    }
    if version - trusted.version > 1 {
        return Err(Error::MalformedDocument { role: RoleType::Root });
    }
    Ok(())
}

impl RootStore {
    #[verifier::type_invariant]
    spec fn inv(self) -> bool {
        self@.wf()
    }

    /// Starts a rotation from the root that is trusted locally, with a
    /// limit on the number of rotations.
    pub fn new(trusted: Signed<Root>, max_rotations: u64) -> (store: RootStore)
        ensures
            store@ == RotationState::start(trusted, max_rotations),
            store@.wf(),
    {
        let next = next_step(0, max_rotations, trusted.signed.version);
        let mut log = Vec::new();
        log.push(AcceptedRoot { signed: trusted, checks_by_trusted: None });
        assert(log@ =~= seq![AcceptedRoot { signed: trusted, checks_by_trusted: None }]);
        RootStore { log, next, max_rotations }
    }

    /// What to do next.
    pub fn next(&self) -> (r: RotationStep)
        ensures
            r == self@.next,
            self@.wf(),
    {
        proof {
            use_type_invariant(self);
        }
        self.next
    }

    /// The root that is trusted at this point.
    pub fn trusted(&self) -> (r: &Signed<Root>)
        ensures
            r.signed == self@.trusted(),
            *r == self@.log.last().signed,
    {
        proof {
            use_type_invariant(self);
        }
        &self.log[self.log.len() - 1].signed
    }

    /// The number of rotations made.
    pub fn rotations(&self) -> (r: usize)
        ensures
            r == self@.rotations(),
            r <= self@.max_rotations,
    {
        proof {
            use_type_invariant(self);
        }
        self.log.len() - 1
    }

    /// Takes what the fetch of the next root came back with, and says what
    /// to do next.
    pub fn rotate(self, event: RotationEvent) -> (r: (RootStore, Rotation))
        ensures
            (r.0@, r.1) == self@.after(event),
            r.0@.wf(),
    {
        proof {
            use_type_invariant(&self);
        }
        let RootStore { mut log, next, max_rotations } = self;
        let step = match next {
            RotationStep::Fetch { .. } => match event {
                RotationEvent::NotFound => Rotation {
                    accepted: None,
                    next: RotationStep::Complete,
                },
                RotationEvent::Failure => Rotation {
                    accepted: None,
                    next: RotationStep::Failed(
                        Error::Transport {
                            role: RoleType::Root,
                            kind: TransportErrorKind::Failure,
                        },
                    ),
                },
                RotationEvent::Malformed => Rotation {
                    accepted: None,
                    next: RotationStep::Failed(
                        Error::MalformedDocument { role: RoleType::Root },
                    ),
                },
                RotationEvent::Fetched(candidate) => {
                    let trusted = &log[log.len() - 1].signed.signed;
                    match check_candidate(trusted, &candidate) {
                        Err(e) => Rotation { accepted: None, next: RotationStep::Failed(e) },
                        Ok(()) => {
                            let version = candidate.signed.signed.version;
                            let ghost before = log@;
                            let following = next_step(log.len(), max_rotations, version);
                            log.push(
                                AcceptedRoot {
                                    signed: candidate.signed,
                                    checks_by_trusted: Some(candidate.checks_by_trusted),
                                },
                            );
                            proof {
                                assert forall|i: int| 1 <= i < log@.len() implies follows(
                                    log@[i - 1],
                                    #[trigger] log@[i],
                                ) by {
                                    if i < before.len() {
                                        assert(log@[i] == before[i]);
                                        assert(log@[i - 1] == before[i - 1]);
                                    }
                                }
                            }
                            Rotation { accepted: Some(version), next: following }
                        },
                    }
                },
            },
            _ => Rotation { accepted: None, next },
        };
        (RootStore { log, next: step.next, max_rotations }, step)
    }

    /// Ends the rotation: the final root is checked for expiration and
    /// becomes the root of trust of a load that is made at the time `now`.
    pub fn finish(
        self,
        mode: ExpirationEnforcement,
        now: i64,
        max_document_size: u64,
    ) -> (r: Result<Trusted, Error>)
        ensures
            match r {
                Ok(trusted) => {
                    &&& self@.finish_verdict(mode, now) is Ok
                    &&& trusted@ == (Chain {
                        root: self@.log.last().signed,
                        mode,
                        now,
                        max_document_size,
                        timestamp: None,
                        snapshot: None,
                        targets: None,
                    })
                },
                Err(e) => self@.finish_verdict(mode, now) == Err::<(), Error>(e),
            },
    {
        proof {
            use_type_invariant(&self);
        }
        let RootStore { mut log, next, max_rotations } = self;
        match next {
            RotationStep::Complete => {
                let last = log.pop();
                match last {
                    Some(last) => Trusted::new(last.signed, mode, now, max_document_size),
                    None => Err(Error::MalformedDocument { role: RoleType::Root }),
                }
            },
            RotationStep::Failed(e) => Err(e),
            RotationStep::Fetch { .. } => Err(
                Error::Transport { role: RoleType::Root, kind: TransportErrorKind::Failure },
            ),
        }
    }
}

/// A root that may follow the trusted one has the next version and is
/// signed by both root roles: that of the trusted root, and its own.
pub proof fn lemma_accepted_candidate(trusted: Root, candidate: RootCandidate)
    requires
        candidate_verdict(trusted, candidate) is Ok,
    ensures
        candidate.signed.signed.version == trusted.version + 1,
        threshold_verdict(RoleType::Root, trusted.root, candidate.checks_by_trusted@) is Ok,
        threshold_verdict(RoleType::Root, candidate.signed.signed.root, candidate.signed.checks@)
            is Ok,
{
    reveal(candidate_verdict);
}

/// The state that a rotation is in after a run of events.
pub open spec fn run(state: RotationState, events: Seq<RotationEvent>) -> RotationState
    decreases events.len(),
{
    if events.len() == 0 {
        state
    } else {
        run(state.after(events[0]).0, events.drop_first())
    }
}

/// The events of a server that serves the roots `candidates`, one after
/// the other.
pub open spec fn served(candidates: Seq<RootCandidate>) -> Seq<RotationEvent> {
    Seq::new(candidates.len(), |i: int| RotationEvent::Fetched(candidates[i]))
}

/// Whether each of the roots `candidates` may follow the one before it, the
/// first of them the root `trusted`.
pub open spec fn each_follows(trusted: Root, candidates: Seq<RootCandidate>) -> bool {
    forall|i: int|
        0 <= i < candidates.len() ==> candidate_verdict(
            if i == 0 {
                trusted
            } else {
                candidates[i - 1].signed.signed
            },
            #[trigger] candidates[i],
        ) is Ok
}

/// The roots `candidates` as accepted roots.
pub open spec fn all_accepted(candidates: Seq<RootCandidate>) -> Seq<AcceptedRoot> {
    Seq::new(candidates.len(), |i: int| accepted(candidates[i]))
}

/// A step of a rotation leaves a state that a rotation can be in, never
/// shortens the log of accepted roots, and never takes a root that the
/// trusted one does not let in.
pub proof fn lemma_step_keeps_the_chain(state: RotationState, event: RotationEvent)
    requires
        state.wf(),
    ensures
        state.after(event).0.wf(),
        state.after(event).0.max_rotations == state.max_rotations,
        state.after(event).0.log == state.log || (event matches RotationEvent::Fetched(candidate)
            && candidate_verdict(state.trusted(), candidate) is Ok && state.after(event).0.log
            == state.log.push(accepted(candidate))),
{
    let after = state.after(event).0;
    if after.log != state.log {
        let candidate = event->Fetched_0;
        assert forall|i: int| 1 <= i < after.log.len() implies follows(
            after.log[i - 1],
            #[trigger] after.log[i],
        ) by {
            if i < state.log.len() {
                assert(after.log[i] == state.log[i]);
                assert(after.log[i - 1] == state.log[i - 1]);
            }
        }
    }
}

/// Where the roots after the trusted one are served up to some version,
/// each may follow the one before it, the next one is missing, and the
/// limit allows one fetch more than there are roots, the rotation ends
/// with the last of them trusted and without an error.
pub proof fn lemma_rotation_ends_at_the_missing_root(
    state: RotationState,
    candidates: Seq<RootCandidate>,
)
    requires
        state.wf(),
        state.next is Fetch,
        each_follows(state.trusted(), candidates),
        state.rotations() + candidates.len() < state.max_rotations,
    ensures
        ({
            let end = run(state, served(candidates).push(RotationEvent::NotFound));
            &&& end.next == RotationStep::Complete
            &&& end.log == state.log + all_accepted(candidates)
            &&& end.wf()
        }),
    decreases candidates.len(),
{
    let events = served(candidates).push(RotationEvent::NotFound);
    if candidates.len() == 0 {
        assert(events[0] == RotationEvent::NotFound);
        assert(events.drop_first() =~= Seq::<RotationEvent>::empty());
        assert(run(state, events) == run(state.after(events[0]).0, events.drop_first()));
        assert(run(state, events) == state.after(RotationEvent::NotFound).0);
        assert(state.log + all_accepted(candidates) =~= state.log);
    } else {
        let first = candidates[0];
        let rest = candidates.drop_first();
        let after = state.after(events[0]).0;
        assert(events[0] == RotationEvent::Fetched(first));
        assert(events.drop_first() =~= served(rest).push(RotationEvent::NotFound));
        lemma_step_keeps_the_chain(state, events[0]);
        assert(after.log == state.log.push(accepted(first)));
        assert(after.trusted() == first.signed.signed);
        assert forall|i: int| 0 <= i < rest.len() implies candidate_verdict(
            if i == 0 {
                after.trusted()
            } else {
                rest[i - 1].signed.signed
            },
            #[trigger] rest[i],
        ) is Ok by {
            assert(rest[i] == candidates[i + 1]);
            if i > 0 {
                assert(rest[i - 1] == candidates[i]);
            }
        }
        assert(state.log.push(accepted(first)) + all_accepted(rest) =~= state.log + all_accepted(
            candidates,
        ));
        assert(run(state, events) == run(after, events.drop_first()));
        if after.next is Fetch {
            lemma_rotation_ends_at_the_missing_root(after, rest);
        } else {
            // The version cannot grow: no root can follow, and none does.
            assert(first.signed.signed.version == u64::MAX);
            if rest.len() > 0 {
                assert(candidate_verdict(first.signed.signed, rest[0]) is Ok);
                lemma_accepted_candidate(first.signed.signed, rest[0]);
            }
            assert(rest.len() == 0);
            lemma_run_is_settled(after, events.drop_first());
            assert(all_accepted(rest) =~= Seq::<AcceptedRoot>::empty());
        }
    }
}

/// Where as many roots are served as the limit leaves room for, or more,
/// and each may follow the one before it, the rotation takes in what the
/// limit allows and then refuses the load: it never makes more rotations
/// than the limit.
pub proof fn lemma_rotation_stops_at_the_limit(
    state: RotationState,
    candidates: Seq<RootCandidate>,
)
    requires
        state.wf(),
        state.next is Fetch,
        each_follows(state.trusted(), candidates),
        state.rotations() + candidates.len() >= state.max_rotations,
    ensures
        ({
            let end = run(state, served(candidates));
            &&& end.next == RotationStep::Failed(
                Error::RotationLimitExceeded { max: state.max_rotations },
            )
            &&& end.rotations() == state.max_rotations
            &&& end.wf()
        }),
    decreases candidates.len(),
{
    let events = served(candidates);
    let first = candidates[0];
    let rest = candidates.drop_first();
    let after = state.after(events[0]).0;
    assert(events[0] == RotationEvent::Fetched(first));
    assert(events.drop_first() =~= served(rest));
    lemma_step_keeps_the_chain(state, events[0]);
    assert(after.log == state.log.push(accepted(first)));
    assert(after.trusted() == first.signed.signed);
    assert(run(state, events) == run(after, events.drop_first()));
    if after.next is Fetch {
        assert forall|i: int| 0 <= i < rest.len() implies candidate_verdict(
            if i == 0 {
                after.trusted()
            } else {
                rest[i - 1].signed.signed
            },
            #[trigger] rest[i],
        ) is Ok by {
            assert(rest[i] == candidates[i + 1]);
            if i > 0 {
                assert(rest[i - 1] == candidates[i]);
            }
        }
        lemma_rotation_stops_at_the_limit(after, rest);
    } else if after.next is Complete {
        // The version cannot grow, yet the limit leaves room: no root can
        // follow, and none does.
        assert(first.signed.signed.version == u64::MAX);
        if rest.len() > 0 {
            assert(candidate_verdict(first.signed.signed, rest[0]) is Ok);
            lemma_accepted_candidate(first.signed.signed, rest[0]);
        }
        assert(rest.len() == 0);
        assert(false);
    } else {
        lemma_run_is_settled(after, served(rest));
    }
}

/// Once a rotation asks for no further root, no event changes its state.
pub proof fn lemma_run_is_settled(state: RotationState, events: Seq<RotationEvent>)
    requires
        !(state.next is Fetch),
    ensures
        run(state, events) == state,
    decreases events.len(),
{
    if events.len() > 0 {
        lemma_run_is_settled(state, events.drop_first());
    }
}

} // verus!
