//! The decisions of the job state machine, record by record: what intake
//! writes, the challenge gate, where a progress report leads, what a signing
//! outcome leaves behind, and what a completion writes.
use vstd::prelude::*;
use crate::alias::{alias_of, get_alt_name};
use crate::error::EngineError;
use crate::event::{Event, EventView};
use crate::job::{
    ClientJob, ClientJobView, Completion, CompletionView, Csr, CsrView, JobProgress,
    JobProgressView, JobStatus, JobStatusView, NewCsr, NewCsrView, PendingChallenge, Status,
    StatusView,
};
use crate::store::{Effect, EffectView, effects_view};
use crate::text::{decimal, decimal_text};

verus! {

/// The record that intake keeps for a new request.
pub open spec fn intake_csr(e: NewCsrView) -> CsrView {
    CsrView {
        pem: e.pem,
        client_id: e.client_id,
        client_alias: alias_of(e.client_id, e.pem),
        status: JobStatusView::Pending,
    }
}

/// The record that intake keeps for the producer, pointing at `serial`.
pub open spec fn intake_job(e: NewCsrView, serial: u64) -> ClientJobView {
    ClientJobView {
        alias: alias_of(e.client_id, e.pem),
        client_id: e.client_id,
        serial,
        status: StatusView::Pending,
    }
}

/// What intake of `e` under `serial` does, in order: the server's record,
/// then the producer's record under the alias, and only then the request
/// for a challenge, so that a waiter on the alias never misses the verdict.
pub open spec fn intake_effects(e: NewCsrView, serial: u64) -> Seq<EffectView> {
    seq![
        EffectView::PutCsr { serial, csr: intake_csr(e) },
        EffectView::PutJob { alias: alias_of(e.client_id, e.pem), job: intake_job(e, serial) },
        EffectView::Publish(EventView::Challenge { id: serial }),
    ]
}

/// The writes and the publish of intake for `event` under `serial`.
pub fn intake(event: &NewCsr, serial: u64) -> (r: Vec<Effect>)
    ensures
        effects_view(r@) == intake_effects(event@, serial),
{
    let alias = get_alt_name(event.client_id, event.pem.as_str());
    let job = ClientJob {
        alias: alias.clone(),
        client_id: event.client_id,
        serial,
        status: Status::Pending,
    };
    let key = alias.clone();
    let csr = Csr::new(event.pem.clone(), event.client_id, alias);
    let mut effects: Vec<Effect> = Vec::new();
    effects.push(Effect::PutCsr { serial, csr });
    effects.push(Effect::PutJob { alias: key, job });
    effects.push(Effect::Publish(Event::Challenge(PendingChallenge { id: serial })));
    assert(effects_view(effects@) =~= intake_effects(event@, serial));
    effects
}

/// A challenge may start only for a job that is still `Pending`; any other
/// status means that the request was already processed.
pub fn challenge_gate(csr: &Csr) -> (r: Result<(), EngineError>)
    ensures
        r is Ok <==> csr.status@ is Pending,
        r matches Err(e) ==> e is State,
{
    match csr.status {
        JobStatus::Pending => Ok(()),
        _ => Err(EngineError::State(String::from_str("Request has already been processed."))),
    }
}

/// Where a progress report leads.
#[derive(PartialEq, Eq, Structural, Clone, Copy, Debug)]
pub enum Plan {
    /// The new status is written as it is.
    Write,
    /// The job is put back to a pending status; it may not recover.
    Rewind,
    /// The challenge passed: a certificate is to be issued.
    Sign,
    /// The report would move the job backwards; nothing changes.
    Reject,
}

/// Whether a job in `status` is waiting for the verdict of its challenge.
pub open spec fn awaiting_verdict(status: JobStatusView) -> bool {
    status is Pending || status is ChallengePending
}

/// Whether a job in `status` can move no further: retired, or ended by a
/// failed challenge or a signing error.
pub open spec fn settled(status: JobStatusView) -> bool {
    status is Stale || status is ChallengeFailed || status is SigningError
}

/// The plan for a report of `new` on a job in `current`. A report of
/// `Pending` or `ChallengePending` is always taken, with a warning when it
/// changes the status; a passed challenge signs a job that awaits its
/// verdict and is rejected on any other; any other report is written as it
/// is, unless it would move the job backwards: out of a settled status, or
/// from `Finished` to anything but `Stale`. Repeating the current status is
/// always taken.
pub open spec fn plan_of(current: JobStatusView, new: JobStatusView) -> Plan {
    match new {
        JobStatusView::Pending | JobStatusView::ChallengePending => {
            if current == new {
                Plan::Write
            } else {
                Plan::Rewind
            }
        },
        JobStatusView::ChallengePassed => {
            if awaiting_verdict(current) {
                Plan::Sign
            } else {
                Plan::Reject
            }
        },
        _ => {
            if current == new {
                Plan::Write
            } else if settled(current) {
                Plan::Reject
            } else if current is Finished && !(new is Stale) {
                Plan::Reject
            } else {
                Plan::Write
            }
        },
    }
}

/// The plan for a report of `new` on a job in `current`.
pub fn plan_progress(current: &JobStatus, new: &JobStatus) -> (r: Plan)
    ensures
        r == plan_of(current@, new@),
{
    match new {
        JobStatus::Pending | JobStatus::ChallengePending => {
            if current.same_as(new) {
                Plan::Write
            } else {
                Plan::Rewind
            }
        },
        JobStatus::ChallengePassed => {
            match current {
                JobStatus::Pending | JobStatus::ChallengePending => Plan::Sign,
                _ => Plan::Reject,
            }
        },
        _ => {
            if current.same_as(new) {
                Plan::Write
            } else {
                match current {
                    JobStatus::Stale
                    | JobStatus::ChallengeFailed { .. }
                    | JobStatus::SigningError { .. } => Plan::Reject,
                    JobStatus::Finished => match new {
                        JobStatus::Stale => Plan::Write,
                        _ => Plan::Reject,
                    },
                    _ => Plan::Write,
                }
            }
        },
    }
}

/// What writing `status` as reported on job `id` does: the server's record
/// with that status.
pub open spec fn write_effects(csr: CsrView, id: u64, status: JobStatusView) -> Seq<EffectView> {
    seq![EffectView::PutCsr { serial: id, csr: with_status(csr, status) }]
}

/// The write of `status` on the record `csr` of job `id`.
pub fn write_status(csr: &Csr, id: u64, status: JobStatus) -> (r: Vec<Effect>)
    ensures
        effects_view(r@) == write_effects(csr@, id, status@),
{
    let mut next = csr.duplicate();
    next.status = status;
    let mut effects: Vec<Effect> = Vec::new();
    effects.push(Effect::PutCsr { serial: id, csr: next });
    assert(effects_view(effects@) =~= write_effects(csr@, id, status@));
    effects
}

/// The status that a signing outcome leaves: `Finished` when a certificate
/// was issued, else a signing error with the failure's message.
pub open spec fn signed_status(outcome: Result<Seq<char>, Seq<char>>) -> JobStatusView {
    match outcome {
        Ok(_) => JobStatusView::Finished,
        Err(reason) => JobStatusView::SigningError { reason },
    }
}

/// The events published after signing job `id`: on success the completion,
/// which carries the certificate, then the announcement that the job is
/// finished; nothing on failure.
pub open spec fn signed_events(
    csr: CsrView,
    id: u64,
    outcome: Result<Seq<char>, Seq<char>>,
) -> Seq<EventView> {
    match outcome {
        Ok(certificate) => seq![
            EventView::Finished(CompletionView { client_id: csr.client_id, id, certificate }),
            EventView::JobProgress(JobProgressView { id, status: JobStatusView::Finished }),
        ],
        Err(_) => Seq::empty(),
    }
}

/// What the outcome of signing job `id` leads to, in order: the events of
/// [`signed_events`], then the server's record with the resulting status.
pub open spec fn signing_effects(
    csr: CsrView,
    id: u64,
    outcome: Result<Seq<char>, Seq<char>>,
) -> Seq<EffectView> {
    signed_events(csr, id, outcome).map_values(|e: EventView| EffectView::Publish(e)) + seq![
        EffectView::PutCsr { serial: id, csr: with_status(csr, signed_status(outcome)) },
    ]
}

/// The publishes and the write that the outcome of signing job `id` leads to.
pub fn settle_signing(csr: &Csr, id: u64, outcome: Result<String, String>) -> (r: Vec<Effect>)
    ensures
        effects_view(r@) == signing_effects(csr@, id, outcome_view(&outcome)),
{
    let ghost o = outcome_view(&outcome);
    let mut next = csr.duplicate();
    let mut effects: Vec<Effect> = Vec::new();
    match outcome {
        Ok(certificate) => {
            effects.push(
                Effect::Publish(Event::Finished(Completion { client_id: csr.client_id, id, certificate })),
            );
            effects.push(
                Effect::Publish(Event::JobProgress(JobProgress { id, status: JobStatus::Finished })),
            );
            next.status = JobStatus::Finished;
        },
        Err(reason) => {
            next.status = JobStatus::SigningError { reason };
        },
    }
    effects.push(Effect::PutCsr { serial: id, csr: next });
    assert(effects_view(effects@) =~= signing_effects(csr@, id, o));
    effects
}

/// The value of a signing outcome.
pub open spec fn outcome_view(outcome: &Result<String, String>) -> Result<Seq<char>, Seq<char>> {
    match outcome {
        Ok(c) => Ok(c@),
        Err(m) => Err(m@),
    }
}

/// The producer's record once the certificate is known.
pub open spec fn succeeded(job: ClientJobView, certificate: Seq<char>) -> ClientJobView {
    ClientJobView { status: StatusView::Success { certificate }, ..job }
}

/// The server's record with a new status.
pub open spec fn with_status(csr: CsrView, status: JobStatusView) -> CsrView {
    CsrView { status, ..csr }
}

/// What the completion of job `id` with `certificate` does, in order: the
/// producer's record, read under the alias that `csr` names, is written back
/// there with the certificate, and only then is the server's record retired,
/// so that a reader woken by the first write never finds a retired job
/// without its certificate.
pub open spec fn completion_effects(
    csr: CsrView,
    job: ClientJobView,
    id: u64,
    certificate: Seq<char>,
) -> Seq<EffectView> {
    seq![
        EffectView::PutJob { alias: csr.client_alias, job: succeeded(job, certificate) },
        EffectView::PutCsr { serial: id, csr: with_status(csr, JobStatusView::Stale) },
    ]
}

/// The writes of `completion`, given the server's record and the producer's
/// record read under its alias.
pub fn complete(csr: &Csr, job: &ClientJob, completion: &Completion) -> (r: Vec<Effect>)
    ensures
        effects_view(r@) == completion_effects(csr@, job@, completion.id, completion@.certificate),
{
    let done = ClientJob {
        alias: job.alias.clone(),
        client_id: job.client_id,
        serial: job.serial,
        status: Status::Success { certificate: completion.certificate.clone() },
    };
    let mut retired = csr.duplicate();
    retired.status = JobStatus::Stale;
    let mut effects: Vec<Effect> = Vec::new();
    effects.push(Effect::PutJob { alias: csr.client_alias.clone(), job: done });
    effects.push(Effect::PutCsr { serial: completion.id, csr: retired });
    assert(effects_view(effects@) =~= completion_effects(
        csr@,
        job@,
        completion.id,
        completion@.certificate,
    ));
    effects
}

/// The store key of the server's record for `serial`.
pub open spec fn csr_key_of(serial: u64) -> Seq<char> {
    "csr:"@ + decimal(serial as nat)
}

/// The store key of the producer's record for `alias`.
pub open spec fn alt_key_of(alias: Seq<char>) -> Seq<char> {
    "alt:"@ + alias
}

/// The key `csr:<serial>`.
pub fn csr_key(serial: u64) -> (r: String)
    ensures
        r@ == csr_key_of(serial),
{
    let mut key = String::from_str("csr:");
    let digits = decimal_text(serial);
    key.append(digits.as_str());
    key
}

/// The key `alt:<alias>`.
pub fn alt_key(alias: &str) -> (r: String)
    ensures
        r@ == alt_key_of(alias@),
{
    let mut key = String::from_str("alt:");
    key.append(alias);
    key
}

/// The notification channel on which writes of the producer's record for
/// `alias` are announced (database 0).
pub open spec fn keyspace_channel_of(alias: Seq<char>) -> Seq<char> {
    "__keyspace@0__:"@ + alt_key_of(alias)
}

/// The channel `__keyspace@0__:alt:<alias>`.
pub fn keyspace_channel(alias: &str) -> (r: String)
    ensures
        r@ == keyspace_channel_of(alias@),
{
    let mut channel = String::from_str("__keyspace@0__:");
    let key = alt_key(alias);
    channel.append(key.as_str());
    channel
}

/// The name of the consumer that the `n`-th worker to start uses in the
/// consumer group.
pub open spec fn consumer_name_of(n: u64) -> Seq<char> {
    "worker-"@ + decimal(n as nat)
}

/// The consumer name `worker-<n>`.
pub fn consumer_name(n: u64) -> (r: String)
    ensures
        r@ == consumer_name_of(n),
{
    let mut name = String::from_str("worker-");
    let digits = decimal_text(n);
    name.append(digits.as_str());
    name
}

} // verus!
