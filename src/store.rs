//! An in-process job store: the server's records by serial, the producers'
//! records by alias, the serial counter, and the events published so far.
use vstd::prelude::*;
use vstd::hash_map::{HashMapWithView, StringHashMap};
use crate::event::{Event, EventView};
use crate::job::{ClientJob, ClientJobView, Csr, CsrView};

verus! {

broadcast use vstd::std_specs::hash::group_hash_axioms;

/// The contents of a job store.
pub struct StoreView {
    /// `csr:<serial>`
    pub csrs: Map<u64, CsrView>,
    /// `alt:<alias>`
    pub jobs: Map<Seq<char>, ClientJobView>,
    /// The last serial handed out by the `csr_id` counter; 0 before the first.
    pub last_serial: u64,
    /// The events appended to the stream, oldest first.
    pub published: Seq<EventView>,
}

impl StoreView {
    /// The store with `csr` under `serial`.
    pub open spec fn with_csr(self, serial: u64, csr: CsrView) -> StoreView {
        StoreView { csrs: self.csrs.insert(serial, csr), ..self }
    }

    /// The store with `job` under `alias`.
    pub open spec fn with_job(self, alias: Seq<char>, job: ClientJobView) -> StoreView {
        StoreView { jobs: self.jobs.insert(alias, job), ..self }
    }

    /// The store with `events` appended to the stream.
    pub open spec fn with_events(self, events: Seq<EventView>) -> StoreView {
        StoreView { published: self.published + events, ..self }
    }

    /// The store after the counter handed out `serial`.
    pub open spec fn with_serial(self, serial: u64) -> StoreView {
        StoreView { last_serial: serial, ..self }
    }
}

/// One write to the store or one append to the stream, as a handler orders
/// them.
#[derive(Debug)]
pub enum Effect {
    /// Write `csr` under `csr:<serial>`.
    PutCsr { serial: u64, csr: Csr },
    /// Write `job` under `alt:<alias>`.
    PutJob { alias: String, job: ClientJob },
    /// Append `event` to the stream.
    Publish(Event),
}

/// The mathematical value of an [`Effect`].
pub enum EffectView {
    PutCsr { serial: u64, csr: CsrView },
    PutJob { alias: Seq<char>, job: ClientJobView },
    Publish(EventView),
}

impl View for Effect {
    type V = EffectView;

    open spec fn view(&self) -> EffectView {
        match self {
            Effect::PutCsr { serial, csr } => EffectView::PutCsr { serial: *serial, csr: csr@ },
            Effect::PutJob { alias, job } => EffectView::PutJob { alias: alias@, job: job@ },
            Effect::Publish(e) => EffectView::Publish(e@),
        }
    }
}

/// The values of a list of effects, in order.
pub open spec fn effects_view(effects: Seq<Effect>) -> Seq<EffectView> {
    effects.map_values(|e: Effect| e@)
}

/// The store after one effect.
pub open spec fn apply_effect(s: StoreView, e: EffectView) -> StoreView {
    match e {
        EffectView::PutCsr { serial, csr } => s.with_csr(serial, csr),
        EffectView::PutJob { alias, job } => s.with_job(alias, job),
        EffectView::Publish(event) => s.with_events(seq![event]),
    }
}

/// The store after the effects, carried out in order.
pub open spec fn apply_effects(s: StoreView, effects: Seq<EffectView>) -> StoreView
    decreases effects.len(),
{
    if effects.len() == 0 {
        s
    } else {
        apply_effects(apply_effect(s, effects[0]), effects.drop_first())
    }
}

/// A job store held in memory.
pub struct JobStore {
    csrs: HashMapWithView<u64, Csr>,
    jobs: StringHashMap<ClientJob>,
    last_serial: u64,
    published: Vec<Event>,
}

proof fn lemma_map_values_insert<K, V, W>(m: Map<K, V>, k: K, v: V, f: spec_fn(V) -> W)
    ensures
        m.insert(k, v).map_values(f) == m.map_values(f).insert(k, f(v)),
{
    assert(m.insert(k, v).map_values(f) =~= m.map_values(f).insert(k, f(v)));
}

proof fn lemma_seq_map_values_push<A, B>(s: Seq<A>, a: A, f: spec_fn(A) -> B)
    ensures
        s.push(a).map_values(f) == s.map_values(f) + seq![f(a)],
{
    assert(s.push(a).map_values(f) =~= s.map_values(f) + seq![f(a)]);
}

impl View for JobStore {
    type V = StoreView;

    closed spec fn view(&self) -> StoreView {
        StoreView {
            csrs: self.csrs@.map_values(|c: Csr| c@),
            jobs: self.jobs@.map_values(|j: ClientJob| j@),
            last_serial: self.last_serial,
            published: self.published@.map_values(|e: Event| e@),
        }
    }
}

impl JobStore {
    /// An empty store.
    pub fn new() -> (r: JobStore)
        ensures
            r@.csrs == Map::<u64, CsrView>::empty(),
            r@.jobs == Map::<Seq<char>, ClientJobView>::empty(),
            r@.last_serial == 0,
            r@.published == Seq::<EventView>::empty(),
    {
        let r = JobStore {
            csrs: HashMapWithView::new(),
            jobs: StringHashMap::new(),
            last_serial: 0,
            published: Vec::new(),
        };
        assert(r@.csrs =~= Map::<u64, CsrView>::empty());
        assert(r@.jobs =~= Map::<Seq<char>, ClientJobView>::empty());
        assert(r@.published =~= Seq::<EventView>::empty());
        r
    }

    /// The last serial handed out; 0 before the first.
    pub fn last_serial(&self) -> (r: u64)
        ensures
            r == self@.last_serial,
    {
        self.last_serial
    }

    /// The server's record under `serial`.
    pub fn csr(&self, serial: u64) -> (r: Option<&Csr>)
        ensures
            match r {
                Some(c) => self@.csrs.contains_key(serial) && c@ == self@.csrs[serial],
                None => !self@.csrs.contains_key(serial),
            },
    {
        self.csrs.get(&serial)
    }

    /// The producer's record under `alias`.
    pub fn job(&self, alias: &str) -> (r: Option<&ClientJob>)
        ensures
            match r {
                Some(j) => self@.jobs.contains_key(alias@) && j@ == self@.jobs[alias@],
                None => !self@.jobs.contains_key(alias@),
            },
    {
        self.jobs.get(alias)
    }

    /// The number of server records.
    pub fn csr_count(&self) -> (r: usize)
        ensures
            r == self@.csrs.len(),
    {
        assert(self.csrs@.dom() =~= self@.csrs.dom());
        self.csrs.len()
    }

    /// The number of producer records.
    pub fn job_count(&self) -> (r: usize)
        ensures
            r == self@.jobs.len(),
    {
        assert(self.jobs@.dom() =~= self@.jobs.dom());
        self.jobs.len()
    }

    /// The events published so far, oldest first.
    pub fn published(&self) -> (r: &Vec<Event>)
        ensures
            r@.map_values(|e: Event| e@) == self@.published,
    {
        &self.published
    }

    /// Hands out the next serial, or `None` once the counter is exhausted.
    pub fn next_serial(&mut self) -> (r: Option<u64>)
        ensures
            old(self)@.last_serial == u64::MAX ==> r is None && final(self)@ == old(self)@,
            old(self)@.last_serial < u64::MAX ==> r == Some((old(self)@.last_serial + 1) as u64)
                && final(self)@ == old(self)@.with_serial((old(self)@.last_serial + 1) as u64),
    {
        if self.last_serial == u64::MAX {
            None
        } else {
            self.last_serial = self.last_serial + 1;
            Some(self.last_serial)
        }
    }

    /// Writes `csr` under `serial`.
    pub fn put_csr(&mut self, serial: u64, csr: Csr)
        ensures
            final(self)@ == old(self)@.with_csr(serial, csr@),
    {
        proof {
            lemma_map_values_insert(self.csrs@, serial, csr, |c: Csr| c@);
        }
        self.csrs.insert(serial, csr);
    }

    /// Writes `job` under `alias`.
    pub fn put_job(&mut self, alias: String, job: ClientJob)
        ensures
            final(self)@ == old(self)@.with_job(alias@, job@),
    {
        proof {
            lemma_map_values_insert(self.jobs@, alias@, job, |j: ClientJob| j@);
        }
        self.jobs.insert(alias, job);
    }

    /// Appends `event` to the stream.
    pub fn publish(&mut self, event: Event)
        ensures
            final(self)@ == old(self)@.with_events(seq![event@]),
    {
        proof {
            lemma_seq_map_values_push(self.published@, event, |e: Event| e@);
        }
        self.published.push(event);
    }

    /// Carries out one effect.
    pub fn apply_one(&mut self, effect: Effect)
        ensures
            final(self)@ == apply_effect(old(self)@, effect@),
    {
        match effect {
            Effect::PutCsr { serial, csr } => self.put_csr(serial, csr),
            Effect::PutJob { alias, job } => self.put_job(alias, job),
            Effect::Publish(event) => self.publish(event),
        }
    }

    /// Carries out the effects in order.
    pub fn apply(&mut self, effects: Vec<Effect>)
        ensures
            final(self)@ == apply_effects(old(self)@, effects_view(effects@)),
    {
        let ghost target = apply_effects(self@, effects_view(effects@));
        let mut rest = effects;
        while rest.len() > 0
            invariant
                apply_effects(self@, effects_view(rest@)) == target,
            decreases rest@.len(),
        {
            let ghost before = rest@;
            let e = rest.remove(0);
            proof {
                assert(effects_view(before)[0] == e@);
                assert(effects_view(rest@) =~= effects_view(before).drop_first());
            }
            self.apply_one(e);
        }
        proof {
            assert(effects_view(rest@) =~= Seq::<EffectView>::empty());
        }
    }
}

} // verus!
