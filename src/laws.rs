//! Properties of the engine that span several handlers or every store, each
//! proved over the step predicates that the handlers' contracts state.
use vstd::prelude::*;
use crate::alias::alias_of;
use crate::error::EngineError;
use crate::event::EventView;
use crate::job::{CompletionView, JobProgressView, JobStatusView, NewCsrView, StatusView};
use crate::machine::{intake_csr, intake_job};
use crate::sign::request_parses;
use crate::store::StoreView;
use crate::worker::{
    after_intake, after_signing, challenge_step, completion_step, handled, intake_step, Handled,
};

verus! {

/// A store that the handlers can have built: every serial in use was handed
/// out by the counter, and every producer's record is kept under its own
/// alias.
pub open spec fn store_wf(s: StoreView) -> bool {
    &&& forall|serial: u64| #[trigger] s.csrs.contains_key(serial) ==> 1 <= serial <= s.last_serial
    &&& forall|alias: Seq<char>| #[trigger] s.jobs.contains_key(alias) ==> s.jobs[alias].alias == alias
}

/// Every retired server record has its certificate on the producer's record
/// that it names.
pub open spec fn retired_after_success(s: StoreView) -> bool {
    forall|serial: u64| #[trigger] s.csrs.contains_key(serial) && s.csrs[serial].status is Stale
        ==> s.jobs.contains_key(s.csrs[serial].client_alias) && s.jobs[s.csrs[serial].client_alias].status is Success
}

/// The empty store is well formed, and every invariant above holds of it.
pub proof fn lemma_empty_wf(s: StoreView)
    requires
        s.csrs == Map::<u64, crate::job::CsrView>::empty(),
        s.jobs == Map::<Seq<char>, crate::job::ClientJobView>::empty(),
    ensures
        store_wf(s),
        retired_after_success(s),
        aliases_recorded(s),
{
}

/// Every handler keeps a store well formed.
pub proof fn lemma_handled_keeps_wf(
    s: StoreView,
    e: EventView,
    r: Result<Handled, EngineError>,
    t: StoreView,
)
    requires
        store_wf(s),
        handled(s, e, r, t),
    ensures
        store_wf(t),
{
    match e {
        EventView::NewCsr(n) => {},
        EventView::Challenge { id } => {},
        EventView::JobProgress(u) => {},
        EventView::Finished(c) => {},
    }
}

/// After intake of a request, a server record exists under a serial that
/// was not in use before and is the only one added; it names the request's
/// alias, and the producer's record under that alias points back at the
/// serial.
pub proof fn lemma_intake_links_alias_and_serial(s: StoreView, e: NewCsrView)
    requires
        store_wf(s),
        s.last_serial < u64::MAX,
        request_parses(e.pem),
    ensures
        ({
            let t = after_intake(s, e);
            let serial = (s.last_serial + 1) as u64;
            let alias = alias_of(e.client_id, e.pem);
            &&& !s.csrs.contains_key(serial)
            &&& t.csrs.dom() == s.csrs.dom().insert(serial)
            &&& t.csrs[serial].client_alias == alias
            &&& t.csrs[serial].status == JobStatusView::Pending
            &&& t.jobs.dom() == s.jobs.dom().insert(alias)
            &&& t.jobs[alias].serial == serial
            &&& t.jobs[alias].client_id == e.client_id
            &&& t.jobs[alias].status == StatusView::Pending
        }),
{
    let t = after_intake(s, e);
    assert(t.csrs.dom() =~= s.csrs.dom().insert((s.last_serial + 1) as u64));
    assert(t.jobs.dom() =~= s.jobs.dom().insert(alias_of(e.client_id, e.pem)));
}

/// Intake of a request that parses hands out the next serial and lands in
/// the store as [`lemma_intake_links_alias_and_serial`] says.
pub proof fn lemma_intake_step_links(
    s: StoreView,
    e: NewCsrView,
    r: Result<Handled, EngineError>,
    t: StoreView,
)
    requires
        store_wf(s),
        s.last_serial < u64::MAX,
        request_parses(e.pem),
        intake_step(s, e, r, t),
    ensures
        r matches Ok(Handled::Queued { serial }) && serial == s.last_serial + 1
            && !s.csrs.contains_key(serial) && t.csrs[serial].client_alias == alias_of(
            e.client_id,
            e.pem,
        ) && t.jobs[alias_of(e.client_id, e.pem)].serial == serial,
{
    lemma_intake_links_alias_and_serial(s, e);
}

/// A challenge request on a job whose status is not `Pending` leaves the
/// store as it was and reports a state error.
pub proof fn lemma_gate_rejects(
    s: StoreView,
    id: u64,
    r: Result<Handled, EngineError>,
    t: StoreView,
)
    requires
        challenge_step(s, id, r, t),
        s.csrs.contains_key(id),
        !(s.csrs[id].status is Pending),
    ensures
        t == s,
        r matches Err(EngineError::State(_)),
{
}

/// A completion whose records exist leaves the producer's record with the
/// certificate and the server's record retired.
pub proof fn lemma_completion_delivers(
    s: StoreView,
    c: CompletionView,
    r: Result<Handled, EngineError>,
    t: StoreView,
)
    requires
        store_wf(s),
        completion_step(s, c, r, t),
        s.csrs.contains_key(c.id),
        s.jobs.contains_key(s.csrs[c.id].client_alias),
    ensures
        r matches Ok(Handled::Completed),
        t.jobs[s.csrs[c.id].client_alias].status == (StatusView::Success {
            certificate: c.certificate,
        }),
        t.csrs[c.id].status == JobStatusView::Stale,
{
}

/// A server record is only ever retired after its producer's record holds a
/// certificate, for every event but two: the intake of a request whose alias
/// is already in use, which puts the producer's record back to `Pending`, and
/// a report of `Stale` on a finished job, which retires it as reported before
/// its completion has been handled.
pub proof fn lemma_retired_after_success_kept(
    s: StoreView,
    e: EventView,
    r: Result<Handled, EngineError>,
    t: StoreView,
)
    requires
        store_wf(s),
        retired_after_success(s),
        handled(s, e, r, t),
        e matches EventView::NewCsr(n) ==> !s.jobs.contains_key(alias_of(n.client_id, n.pem)),
        e matches EventView::JobProgress(u) ==> !(u.status is Stale),
    ensures
        retired_after_success(t),
{
    match e {
        EventView::NewCsr(n) => {
            if s.last_serial < u64::MAX && request_parses(n.pem) {
                let serial = (s.last_serial + 1) as u64;
                assert forall|k: u64| #[trigger] t.csrs.contains_key(k) && t.csrs[k].status is Stale
                    implies t.jobs.contains_key(t.csrs[k].client_alias) && t.jobs[t.csrs[k].client_alias].status is Success by {
                    assert(k != serial);
                    assert(s.csrs.contains_key(k));
                    assert(s.csrs[k].client_alias != alias_of(n.client_id, n.pem));
                }
            }
        },
        EventView::Challenge { id } => {},
        EventView::JobProgress(u) => {
            if s.csrs.contains_key(u.id) {
                assert forall|k: u64| #[trigger] t.csrs.contains_key(k) && t.csrs[k].status is Stale
                    implies t.jobs.contains_key(t.csrs[k].client_alias) && t.jobs[t.csrs[k].client_alias].status is Success by {
                    assert(s.csrs.contains_key(k));
                    assert(t.csrs[k].client_alias == s.csrs[k].client_alias);
                    if k == u.id {
                        assert(s.csrs[k].status is Stale);
                    }
                }
            }
        },
        EventView::Finished(c) => {
            if s.csrs.contains_key(c.id) && s.jobs.contains_key(s.csrs[c.id].client_alias) {
                let alias = s.csrs[c.id].client_alias;
                assert forall|k: u64| #[trigger] t.csrs.contains_key(k) && t.csrs[k].status is Stale
                    implies t.jobs.contains_key(t.csrs[k].client_alias) && t.jobs[t.csrs[k].client_alias].status is Success by {
                    assert(s.csrs.contains_key(k));
                    assert(t.csrs[k].client_alias == s.csrs[k].client_alias);
                    assert(s.jobs[alias].alias == alias);
                }
            }
        },
    }
}

/// Handling an event other than an intake a second time, right after the
/// first, changes nothing more: repeated verdicts and announcements are
/// rejected or rewrite what is there, and a repeated completion writes the
/// same records again.
pub proof fn lemma_replay_is_idle(
    s: StoreView,
    e: EventView,
    r1: Result<Handled, EngineError>,
    t1: StoreView,
    r2: Result<Handled, EngineError>,
    t2: StoreView,
)
    requires
        store_wf(s),
        !(e is NewCsr),
        handled(s, e, r1, t1),
        handled(t1, e, r2, t2),
    ensures
        t2 == t1,
{
    match e {
        EventView::NewCsr(n) => {},
        EventView::Challenge { id } => {},
        EventView::JobProgress(u) => {
            if s.csrs.contains_key(u.id) {
                assert(t1.csrs.contains_key(u.id));
                if t1 != s {
                    assert(t2.csrs =~= t1.csrs);
                    assert(t2.published =~= t1.published);
                }
            }
        },
        EventView::Finished(c) => {
            if s.csrs.contains_key(c.id) && s.jobs.contains_key(s.csrs[c.id].client_alias) {
                let alias = s.csrs[c.id].client_alias;
                assert(s.jobs[alias].alias == alias);
                assert(t1.csrs[c.id].client_alias == alias);
                assert(t2.jobs =~= t1.jobs);
                assert(t2.csrs =~= t1.csrs);
            }
        },
    }
}

/// Every server record names an alias whose producer's record exists.
pub open spec fn aliases_recorded(s: StoreView) -> bool {
    forall|serial: u64| #[trigger] s.csrs.contains_key(serial) ==> s.jobs.contains_key(
        s.csrs[serial].client_alias,
    )
}

/// Every handler keeps each server record's alias on record.
pub proof fn lemma_handled_keeps_aliases(
    s: StoreView,
    e: EventView,
    r: Result<Handled, EngineError>,
    t: StoreView,
)
    requires
        store_wf(s),
        aliases_recorded(s),
        handled(s, e, r, t),
    ensures
        aliases_recorded(t),
{
    match e {
        EventView::NewCsr(n) => {},
        EventView::Challenge { id } => {},
        EventView::JobProgress(u) => {
            if s.csrs.contains_key(u.id) {
                assert forall|k: u64| #[trigger] t.csrs.contains_key(k) implies t.jobs.contains_key(
                    t.csrs[k].client_alias,
                ) by {
                    assert(s.csrs.contains_key(k));
                }
            }
        },
        EventView::Finished(c) => {
            if s.csrs.contains_key(c.id) && s.jobs.contains_key(s.csrs[c.id].client_alias) {
                let alias = s.csrs[c.id].client_alias;
                assert(s.jobs[alias].alias == alias);
                assert forall|k: u64| #[trigger] t.csrs.contains_key(k) implies t.jobs.contains_key(
                    t.csrs[k].client_alias,
                ) by {
                    assert(s.csrs.contains_key(k));
                }
            }
        },
    }
}

/// A completion of a job that the store holds always reaches the producer:
/// the producer's record ends up carrying the certificate, and the job is
/// retired.
pub proof fn lemma_completion_lands(
    s: StoreView,
    c: CompletionView,
    r: Result<Handled, EngineError>,
    t: StoreView,
)
    requires
        store_wf(s),
        aliases_recorded(s),
        s.csrs.contains_key(c.id),
        completion_step(s, c, r, t),
    ensures
        r matches Ok(Handled::Completed),
        t.jobs[s.csrs[c.id].client_alias].status == (StatusView::Success {
            certificate: c.certificate,
        }),
        t.csrs[c.id].status == JobStatusView::Stale,
        retired_after_success(s) ==> retired_after_success(t),
{
    let alias = s.csrs[c.id].client_alias;
    assert(s.jobs[alias].alias == alias);
    if retired_after_success(s) {
        assert forall|k: u64| #[trigger] t.csrs.contains_key(k) && t.csrs[k].status is Stale
            implies t.jobs.contains_key(t.csrs[k].client_alias) && t.jobs[t.csrs[k].client_alias].status is Success by {
            assert(s.csrs.contains_key(k));
        }
    }
}

/// The completion that signing publishes names the job that was signed,
/// which the store holds.
pub proof fn lemma_signed_completion_names_job(
    s: StoreView,
    u: JobProgressView,
    certificate: Seq<char>,
    t: StoreView,
)
    requires
        s.csrs.contains_key(u.id),
        t == after_signing(s, u.id, Ok(certificate)),
    ensures
        t.published.len() == s.published.len() + 2,
        t.published[s.published.len() as int] == EventView::Finished(CompletionView {
            client_id: s.csrs[u.id].client_id,
            id: u.id,
            certificate,
        }),
        t.csrs.contains_key(u.id),
        t.csrs[u.id].status == JobStatusView::Finished,
{
}

/// Submitting the same request twice: two server records under two
/// different serials, the first left as it was, and one producer's record
/// under the alias, overwritten to point at the second serial.
pub proof fn lemma_double_submit(s: StoreView, e: NewCsrView)
    requires
        s.last_serial < u64::MAX - 1,
    ensures
        ({
            let t1 = after_intake(s, e);
            let t2 = after_intake(t1, e);
            let first = (s.last_serial + 1) as u64;
            let second = (s.last_serial + 2) as u64;
            let alias = alias_of(e.client_id, e.pem);
            &&& first != second
            &&& t2.csrs[first] == t1.csrs[first]
            &&& t2.csrs[second].client_alias == alias
            &&& t2.csrs.dom() == s.csrs.dom().insert(first).insert(second)
            &&& t2.jobs.dom() == t1.jobs.dom()
            &&& t2.jobs[alias] == intake_job(e, second)
        }),
{
    let t1 = after_intake(s, e);
    let t2 = after_intake(t1, e);
    assert(t2.csrs.dom() =~= s.csrs.dom().insert((s.last_serial + 1) as u64).insert(
        (s.last_serial + 2) as u64,
    ));
    assert(t2.jobs.dom() =~= t1.jobs.dom());
}

/// The store after the successful intakes of `es`, one after the other.
pub open spec fn intake_all(s: StoreView, es: Seq<NewCsrView>) -> StoreView
    decreases es.len(),
{
    if es.len() == 0 {
        s
    } else {
        intake_all(after_intake(s, es[0]), es.drop_first())
    }
}

/// Successive intakes hand out the serials after the counter one by one:
/// the `i`-th request lands under the `i`-th next serial, no record that was
/// there before is touched, and each request's alias has a producer's record.
pub proof fn lemma_intakes_get_fresh_serials(s: StoreView, es: Seq<NewCsrView>)
    requires
        s.last_serial + es.len() <= u64::MAX,
    ensures
        ({
            let t = intake_all(s, es);
            &&& t.last_serial == s.last_serial + es.len()
            &&& t.csrs.dom() == s.csrs.dom().union(
                Set::new(|k: u64| s.last_serial < k && k <= t.last_serial),
            )
            &&& forall|k: u64| #[trigger] s.csrs.contains_key(k) && k <= s.last_serial ==> t.csrs[k]
                == s.csrs[k]
            &&& forall|i: int|
                0 <= i < es.len() ==> #[trigger] t.csrs[(s.last_serial + 1 + i) as u64] == intake_csr(
                    es[i],
                )
            &&& forall|i: int|
                0 <= i < es.len() ==> t.jobs.contains_key(
                    alias_of(#[trigger] es[i].client_id, es[i].pem),
                )
        }),
    decreases es.len(),
{
    let t = intake_all(s, es);
    if es.len() == 0 {
        assert(t.csrs.dom() =~= s.csrs.dom().union(
            Set::new(|k: u64| s.last_serial < k && k <= t.last_serial),
        ));
    } else {
        let s1 = after_intake(s, es[0]);
        let rest = es.drop_first();
        lemma_intakes_get_fresh_serials(s1, rest);
        assert(t == intake_all(s1, rest));
        let first = (s.last_serial + 1) as u64;
        assert(t.csrs.dom() =~= s.csrs.dom().union(
            Set::new(|k: u64| s.last_serial < k && k <= t.last_serial),
        )) by {
            assert(s1.csrs.dom() =~= s.csrs.dom().insert(first));
        }
        assert forall|k: u64| #[trigger] s.csrs.contains_key(k) && k <= s.last_serial implies t.csrs[k]
            == s.csrs[k] by {
            assert(s1.csrs.contains_key(k) && k <= s1.last_serial);
        }
        assert forall|i: int| 0 <= i < es.len() implies #[trigger] t.csrs[(s.last_serial + 1 + i) as u64]
            == intake_csr(es[i]) by {
            if i == 0 {
                assert(s1.csrs.contains_key(first) && first <= s1.last_serial);
            } else {
                assert(rest[i - 1] == es[i]);
                assert((s1.last_serial + 1 + (i - 1)) as u64 == (s.last_serial + 1 + i) as u64);
            }
        }
        assert forall|i: int| 0 <= i < es.len() implies t.jobs.contains_key(
            alias_of(#[trigger] es[i].client_id, es[i].pem),
        ) by {
            if i == 0 {
                lemma_intake_keeps_jobs(s1, rest, alias_of(es[0].client_id, es[0].pem));
            } else {
                assert(rest[i - 1] == es[i]);
            }
        }
    }
}

proof fn lemma_intake_keeps_jobs(s: StoreView, es: Seq<NewCsrView>, alias: Seq<char>)
    requires
        s.jobs.contains_key(alias),
    ensures
        intake_all(s, es).jobs.contains_key(alias),
    decreases es.len(),
{
    if es.len() > 0 {
        lemma_intake_keeps_jobs(after_intake(s, es[0]), es.drop_first(), alias);
    }
}

} // verus!
