//! The handlers of the four event kinds, run against a job store, and the
//! dispatch of a stream entry by its tag.
use vstd::prelude::*;
use crate::error::EngineError;
use crate::event::{kind_of, kind_of_tag, Event, EventKind, EventView};
use crate::job::{
    Completion, CompletionView, JobProgress, JobProgressView, JobStatusView, NewCsr, NewCsrView,
    PendingChallenge,
};
use crate::machine::{
    alt_key, challenge_gate, complete, completion_effects, csr_key, intake, intake_csr,
    intake_effects, intake_job, outcome_view, plan_of, plan_progress, settle_signing,
    signed_events, signed_status, signing_effects, succeeded, with_status, write_effects,
    write_status, Plan,
};
use crate::alias::alias_of;
use crate::sign::{check_request, request_parses, sign_request};
use crate::store::{apply_effect, apply_effects, EffectView, JobStore, StoreView};

verus! {

/// What a handler did.
#[derive(Debug)]
pub enum Handled {
    /// Intake stored the request under `serial` and asked for a challenge.
    Queued { serial: u64 },
    /// The challenge gate let the job through.
    Gated,
    /// The reported status was written.
    Updated,
    /// The job was put back to a pending status.
    Rewound,
    /// The challenge passed and `certificate` was issued.
    Signed { certificate: String },
    /// The challenge passed but signing failed with `reason`.
    SigningFailed { reason: String },
    /// The certificate reached the producer's record.
    Completed,
}

/// The store after intake of `e`, under the next serial.
pub open spec fn after_intake(s: StoreView, e: NewCsrView) -> StoreView {
    let serial = (s.last_serial + 1) as u64;
    s.with_serial(serial).with_csr(serial, intake_csr(e)).with_job(
        alias_of(e.client_id, e.pem),
        intake_job(e, serial),
    ).with_events(seq![EventView::Challenge { id: serial }])
}

/// Intake: the counter hands out a serial; a request that does not parse
/// stops there; else both records are written, then the challenge request
/// is published.
pub open spec fn intake_step(
    s: StoreView,
    e: NewCsrView,
    r: Result<Handled, EngineError>,
    t: StoreView,
) -> bool {
    if s.last_serial == u64::MAX {
        r matches Err(EngineError::Transport(_)) && t == s
    } else if !request_parses(e.pem) {
        r matches Err(EngineError::Crypto(_)) && t == s.with_serial((s.last_serial + 1) as u64)
    } else {
        r matches Ok(Handled::Queued { serial }) && serial == s.last_serial + 1 && t == after_intake(
            s,
            e,
        )
    }
}

/// The challenge gate changes nothing: it lets a `Pending` job through and
/// reports any other as already processed.
pub open spec fn challenge_step(
    s: StoreView,
    id: u64,
    r: Result<Handled, EngineError>,
    t: StoreView,
) -> bool {
    t == s && if !s.csrs.contains_key(id) {
        r matches Err(EngineError::NotFound(_))
    } else if s.csrs[id].status is Pending {
        r matches Ok(Handled::Gated)
    } else {
        r matches Err(EngineError::State(_))
    }
}

/// The store after signing job `id` ended with `outcome`.
pub open spec fn after_signing(
    s: StoreView,
    id: u64,
    outcome: Result<Seq<char>, Seq<char>>,
) -> StoreView {
    let csr = s.csrs[id];
    s.with_events(signed_events(csr, id, outcome)).with_csr(
        id,
        with_status(csr, signed_status(outcome)),
    )
}

/// A progress report follows [`plan_of`]: a rejected one changes nothing, a
/// written one replaces the status, and a passed challenge is signed, with
/// whatever outcome, which the result reports.
pub open spec fn progress_step(
    s: StoreView,
    u: JobProgressView,
    r: Result<Handled, EngineError>,
    t: StoreView,
) -> bool {
    if !s.csrs.contains_key(u.id) {
        r matches Err(EngineError::NotFound(_)) && t == s
    } else {
        let csr = s.csrs[u.id];
        match plan_of(csr.status, u.status) {
            Plan::Reject => r matches Err(EngineError::State(_)) && t == s,
            Plan::Write => r matches Ok(Handled::Updated) && t == s.with_csr(
                u.id,
                with_status(csr, u.status),
            ),
            Plan::Rewind => r matches Ok(Handled::Rewound) && t == s.with_csr(
                u.id,
                with_status(csr, u.status),
            ),
            Plan::Sign => (!request_parses(csr.pem) ==> r matches Ok(Handled::SigningFailed { .. }))
                && match r {
                Ok(Handled::Signed { certificate }) => t == after_signing(
                    s,
                    u.id,
                    Ok(certificate@),
                ),
                Ok(Handled::SigningFailed { reason }) => t == after_signing(s, u.id, Err(reason@)),
                _ => false,
            },
        }
    }
}

/// The store after the completion `c`: first the producer's record, under
/// the alias that the server's record names, carries the certificate, then
/// the server's record is retired.
pub open spec fn after_completion(s: StoreView, c: CompletionView) -> StoreView {
    let csr = s.csrs[c.id];
    s.with_job(csr.client_alias, succeeded(s.jobs[csr.client_alias], c.certificate)).with_csr(
        c.id,
        with_status(csr, JobStatusView::Stale),
    )
}

/// A completion needs the server's record and the producer's record it
/// names.
pub open spec fn completion_step(
    s: StoreView,
    c: CompletionView,
    r: Result<Handled, EngineError>,
    t: StoreView,
) -> bool {
    if !s.csrs.contains_key(c.id) {
        r matches Err(EngineError::NotFound(_)) && t == s
    } else if !s.jobs.contains_key(s.csrs[c.id].client_alias) {
        r matches Err(EngineError::NotFound(_)) && t == s
    } else {
        r matches Ok(Handled::Completed) && t == after_completion(s, c)
    }
}

/// Handling `e` on the store `s` gave `r` and left `t`.
pub open spec fn handled(
    s: StoreView,
    e: EventView,
    r: Result<Handled, EngineError>,
    t: StoreView,
) -> bool {
    match e {
        EventView::NewCsr(n) => intake_step(s, n, r, t),
        EventView::Challenge { id } => challenge_step(s, id, r, t),
        EventView::JobProgress(u) => progress_step(s, u, r, t),
        EventView::Finished(c) => completion_step(s, c, r, t),
    }
}

proof fn lemma_apply_one(s: StoreView, a: EffectView)
    ensures
        apply_effects(s, seq![a]) == apply_effect(s, a),
{
    reveal_with_fuel(apply_effects, 2);
    assert(seq![a].drop_first() =~= Seq::<EffectView>::empty());
}

proof fn lemma_apply_two(s: StoreView, a: EffectView, b: EffectView)
    ensures
        apply_effects(s, seq![a, b]) == apply_effect(apply_effect(s, a), b),
{
    assert(seq![a, b].drop_first() =~= seq![b]);
    lemma_apply_one(apply_effect(s, a), b);
}

proof fn lemma_apply_three(s: StoreView, a: EffectView, b: EffectView, c: EffectView)
    ensures
        apply_effects(s, seq![a, b, c]) == apply_effect(apply_effect(apply_effect(s, a), b), c),
{
    assert(seq![a, b, c].drop_first() =~= seq![b, c]);
    lemma_apply_two(apply_effect(s, a), b, c);
}

/// Carrying out the writes of intake gives the store of [`after_intake`].
pub proof fn lemma_intake_effects(s: StoreView, e: NewCsrView)
    requires
        s.last_serial < u64::MAX,
    ensures
        apply_effects(
            s.with_serial((s.last_serial + 1) as u64),
            intake_effects(e, (s.last_serial + 1) as u64),
        ) == after_intake(s, e),
{
    let serial = (s.last_serial + 1) as u64;
    let es = intake_effects(e, serial);
    assert(es =~= seq![es[0], es[1], es[2]]);
    lemma_apply_three(s.with_serial(serial), es[0], es[1], es[2]);
}

/// Carrying out a written status gives the store with that status.
pub proof fn lemma_write_effects(s: StoreView, id: u64, status: JobStatusView)
    requires
        s.csrs.contains_key(id),
    ensures
        apply_effects(s, write_effects(s.csrs[id], id, status)) == s.with_csr(
            id,
            with_status(s.csrs[id], status),
        ),
{
    let es = write_effects(s.csrs[id], id, status);
    assert(es =~= seq![es[0]]);
    lemma_apply_one(s, es[0]);
}

/// Carrying out the effects of a signing outcome gives [`after_signing`].
pub proof fn lemma_signing_effects(s: StoreView, id: u64, outcome: Result<Seq<char>, Seq<char>>)
    requires
        s.csrs.contains_key(id),
    ensures
        apply_effects(s, signing_effects(s.csrs[id], id, outcome)) == after_signing(s, id, outcome),
{
    let csr = s.csrs[id];
    let es = signing_effects(csr, id, outcome);
    let evs = signed_events(csr, id, outcome);
    match outcome {
        Ok(_) => {
            assert(es =~= seq![es[0], es[1], es[2]]);
            lemma_apply_three(s, es[0], es[1], es[2]);
            assert(s.published + seq![evs[0]] + seq![evs[1]] =~= s.published + evs);
        },
        Err(_) => {
            assert(es =~= seq![es[0]]);
            lemma_apply_one(s, es[0]);
            assert(s.published + evs =~= s.published);
            assert(s.with_events(evs) =~= s);
        },
    }
}

/// Carrying out the writes of a completion gives [`after_completion`].
pub proof fn lemma_completion_effects(s: StoreView, c: CompletionView)
    requires
        s.csrs.contains_key(c.id),
    ensures
        apply_effects(
            s,
            completion_effects(
                s.csrs[c.id],
                s.jobs[s.csrs[c.id].client_alias],
                c.id,
                c.certificate,
            ),
        ) == after_completion(s, c),
{
    let csr = s.csrs[c.id];
    let es = completion_effects(csr, s.jobs[csr.client_alias], c.id, c.certificate);
    assert(es =~= seq![es[0], es[1]]);
    lemma_apply_two(s, es[0], es[1]);
}

/// What became of a stream entry. Every entry is acknowledged afterwards.
#[derive(Debug)]
pub enum Delivery {
    /// The handler ran to its end.
    Done(Handled),
    /// The handler stopped with an error.
    Failed(EngineError),
    /// The tag names no kind: the entry is skipped with a warning.
    UnknownKind,
    /// The payload is not an event of the kind its tag names.
    Malformed,
}

/// A worker: the job store it acts on, and the CA's certificate and private
/// key, PEM encoded, with which it signs.
pub struct Worker {
    pub store: JobStore,
    pub ca_certificate: String,
    pub ca_key: String,
}

impl Worker {
    /// A worker on `store` that signs with the given CA material.
    pub fn new(store: JobStore, ca_certificate: String, ca_key: String) -> (r: Worker)
        ensures
            r.store@ == store@,
            r.ca_certificate@ == ca_certificate@,
            r.ca_key@ == ca_key@,
    {
        Worker { store, ca_certificate, ca_key }
    }

    /// Intake of a new request.
    pub fn new_csr(&mut self, event: NewCsr) -> (r: Result<Handled, EngineError>)
        ensures
            intake_step(old(self).store@, event@, r, final(self).store@),
            final(self).ca_certificate == old(self).ca_certificate,
            final(self).ca_key == old(self).ca_key,
    {
        let serial = match self.store.next_serial() {
            Some(s) => s,
            None => {
                return Err(EngineError::Transport(String::from_str("the csr_id counter is exhausted")));
            },
        };
        match check_request(event.pem.as_str()) {
            Ok(()) => {},
            Err(e) => return Err(e),
        }
        let effects = intake(&event, serial);
        proof {
            lemma_intake_effects(old(self).store@, event@);
        }
        self.store.apply(effects);
        Ok(Handled::Queued { serial })
    }

    /// The challenge gate for job `event.id`.
    pub fn challenge(&mut self, event: PendingChallenge) -> (r: Result<Handled, EngineError>)
        ensures
            challenge_step(old(self).store@, event.id, r, final(self).store@),
            final(self).ca_certificate == old(self).ca_certificate,
            final(self).ca_key == old(self).ca_key,
    {
        match self.store.csr(event.id) {
            None => Err(EngineError::NotFound(csr_key(event.id))),
            Some(csr) => match challenge_gate(csr) {
                Ok(()) => Ok(Handled::Gated),
                Err(e) => Err(e),
            },
        }
    }

    /// A progress report on job `update.id`.
    pub fn job_progress(&mut self, update: JobProgress) -> (r: Result<Handled, EngineError>)
        ensures
            progress_step(old(self).store@, update@, r, final(self).store@),
            final(self).ca_certificate == old(self).ca_certificate,
            final(self).ca_key == old(self).ca_key,
    {
        let id = update.id;
        let csr = match self.store.csr(id) {
            None => return Err(EngineError::NotFound(csr_key(id))),
            Some(c) => c.duplicate(),
        };
        let plan = plan_progress(&csr.status, &update.status);
        match plan {
            Plan::Reject => Err(
                EngineError::State(String::from_str("the reported status would move the job backwards")),
            ),
            Plan::Write | Plan::Rewind => {
                let effects = write_status(&csr, id, update.status);
                proof {
                    lemma_write_effects(old(self).store@, id, update@.status);
                }
                self.store.apply(effects);
                if plan == Plan::Write {
                    Ok(Handled::Updated)
                } else {
                    Ok(Handled::Rewound)
                }
            },
            Plan::Sign => {
                let outcome = match sign_request(
                    csr.pem.as_str(),
                    id,
                    self.ca_certificate.as_str(),
                    self.ca_key.as_str(),
                ) {
                    Ok(certificate) => Ok(certificate),
                    Err(e) => Err(e.message().clone()),
                };
                let result = match &outcome {
                    Ok(certificate) => Handled::Signed { certificate: certificate.clone() },
                    Err(reason) => Handled::SigningFailed { reason: reason.clone() },
                };
                let ghost o = outcome_view(&outcome);
                let effects = settle_signing(&csr, id, outcome);
                proof {
                    lemma_signing_effects(old(self).store@, id, o);
                }
                self.store.apply(effects);
                Ok(result)
            },
        }
    }

    /// The completion of job `event.id`.
    pub fn completion(&mut self, event: Completion) -> (r: Result<Handled, EngineError>)
        ensures
            completion_step(old(self).store@, event@, r, final(self).store@),
            final(self).ca_certificate == old(self).ca_certificate,
            final(self).ca_key == old(self).ca_key,
    {
        let csr = match self.store.csr(event.id) {
            None => return Err(EngineError::NotFound(csr_key(event.id))),
            Some(c) => c.duplicate(),
        };
        let job = match self.store.job(csr.client_alias.as_str()) {
            None => return Err(EngineError::NotFound(alt_key(csr.client_alias.as_str()))),
            Some(j) => j,
        };
        let effects = complete(&csr, job, &event);
        proof {
            lemma_completion_effects(old(self).store@, event@);
        }
        self.store.apply(effects);
        Ok(Handled::Completed)
    }

    /// Runs the handler of the event's kind.
    pub fn handle(&mut self, event: Event) -> (r: Result<Handled, EngineError>)
        ensures
            handled(old(self).store@, event@, r, final(self).store@),
            final(self).ca_certificate == old(self).ca_certificate,
            final(self).ca_key == old(self).ca_key,
    {
        match event {
            Event::NewCsr(e) => self.new_csr(e),
            Event::Challenge(e) => self.challenge(e),
            Event::JobProgress(e) => self.job_progress(e),
            Event::Finished(e) => self.completion(e),
        }
    }

    /// Takes a stream entry: its tag, and its payload decoded as the event
    /// of that kind (`None` where it did not decode). An unknown tag and a
    /// payload that does not fit its tag change nothing.
    pub fn deliver(&mut self, tag: &str, event: Option<Event>) -> (r: Delivery)
        ensures
            kind_of_tag(tag@) is None ==> r is UnknownKind && final(self).store@ == old(
                self,
            ).store@,
            kind_of_tag(tag@) is Some && (event is None || kind_of_tag(tag@) != Some(
                kind_of(event->0@),
            )) ==> r is Malformed && final(self).store@ == old(self).store@,
            event is Some && kind_of_tag(tag@) == Some(kind_of(event->0@)) ==> {
                &&& (r is Done || r is Failed)
                &&& r matches Delivery::Done(h) ==> handled(
                    old(self).store@,
                    event->0@,
                    Ok(h),
                    final(self).store@,
                )
                &&& r matches Delivery::Failed(err) ==> handled(
                    old(self).store@,
                    event->0@,
                    Err(err),
                    final(self).store@,
                )
            },
    {
        let kind = match EventKind::from_tag(tag) {
            None => return Delivery::UnknownKind,
            Some(k) => k,
        };
        let event = match event {
            None => return Delivery::Malformed,
            Some(e) => e,
        };
        if event.kind() != kind {
            return Delivery::Malformed;
        }
        match self.handle(event) {
            Ok(h) => Delivery::Done(h),
            Err(e) => Delivery::Failed(e),
        }
    }
}

} // verus!
