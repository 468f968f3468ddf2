//! The events of the task stream and their kind tags. The tags are stated
//! once, in [`tag_of`]; both the encoding of an entry and the dispatch of a
//! received one go through it.
use vstd::prelude::*;
use crate::job::{NewCsr, NewCsrView, PendingChallenge, JobProgress, JobProgressView, Completion, CompletionView};

verus! {

/// The kind of an event, which selects its handler.
#[derive(PartialEq, Eq, Structural, Clone, Copy, Debug)]
pub enum EventKind {
    NewCsr,
    Challenge,
    JobProgress,
    Finished,
}

/// The tag under which events of a kind stand on the stream.
pub open spec fn tag_of(kind: EventKind) -> Seq<char> {
    match kind {
        EventKind::NewCsr => "new-csr"@,
        EventKind::Challenge => "challenge"@,
        EventKind::JobProgress => "job-progress"@,
        EventKind::Finished => "finished"@,
    }
}

/// The kind that a tag names, if any.
pub open spec fn kind_of_tag(tag: Seq<char>) -> Option<EventKind> {
    if tag == tag_of(EventKind::NewCsr) {
        Some(EventKind::NewCsr)
    } else if tag == tag_of(EventKind::Challenge) {
        Some(EventKind::Challenge)
    } else if tag == tag_of(EventKind::JobProgress) {
        Some(EventKind::JobProgress)
    } else if tag == tag_of(EventKind::Finished) {
        Some(EventKind::Finished)
    } else {
        None
    }
}

impl EventKind {
    /// The tag of the kind.
    pub fn tag(&self) -> (r: &'static str)
        ensures
            r@ == tag_of(*self),
    {
        match self {
            EventKind::NewCsr => {
                proof { reveal_strlit("new-csr"); }
                "new-csr"
            },
            EventKind::Challenge => {
                proof { reveal_strlit("challenge"); }
                "challenge"
            },
            EventKind::JobProgress => {
                proof { reveal_strlit("job-progress"); }
                "job-progress"
            },
            EventKind::Finished => {
                proof { reveal_strlit("finished"); }
                "finished"
            },
        }
    }

    /// The kind named by a tag; `None` for a tag that names no kind.
    pub fn from_tag(tag: &str) -> (r: Option<EventKind>)
        ensures
            r == kind_of_tag(tag@),
    {
        if crate::text::text_eq(tag, EventKind::NewCsr.tag()) {
            Some(EventKind::NewCsr)
        } else if crate::text::text_eq(tag, EventKind::Challenge.tag()) {
            Some(EventKind::Challenge)
        } else if crate::text::text_eq(tag, EventKind::JobProgress.tag()) {
            Some(EventKind::JobProgress)
        } else if crate::text::text_eq(tag, EventKind::Finished.tag()) {
            Some(EventKind::Finished)
        } else {
            None
        }
    }
}

/// Each kind is named by its own tag, and that tag leads back to the kind.
pub proof fn lemma_tag_round_trip(kind: EventKind)
    ensures
        kind_of_tag(tag_of(kind)) == Some(kind),
{
    reveal_strlit("new-csr");
    reveal_strlit("challenge");
    reveal_strlit("job-progress");
    reveal_strlit("finished");
    assert(tag_of(EventKind::NewCsr).len() == 7);
    assert(tag_of(EventKind::Challenge).len() == 9);
    assert(tag_of(EventKind::JobProgress).len() == 12);
    assert(tag_of(EventKind::Finished).len() == 8);
}

/// A tag that names a kind is that kind's tag.
pub proof fn lemma_tag_unique(tag: Seq<char>, kind: EventKind)
    requires
        kind_of_tag(tag) == Some(kind),
    ensures
        tag == tag_of(kind),
{
}

/// An event carried by the task stream.
#[derive(Debug)]
pub enum Event {
    NewCsr(NewCsr),
    Challenge(PendingChallenge),
    JobProgress(JobProgress),
    Finished(Completion),
}

/// The mathematical value of an [`Event`].
pub enum EventView {
    NewCsr(NewCsrView),
    Challenge { id: u64 },
    JobProgress(JobProgressView),
    Finished(CompletionView),
}

impl View for Event {
    type V = EventView;

    open spec fn view(&self) -> EventView {
        match self {
            Event::NewCsr(e) => EventView::NewCsr(e@),
            Event::Challenge(e) => EventView::Challenge { id: e.id },
            Event::JobProgress(e) => EventView::JobProgress(e@),
            Event::Finished(e) => EventView::Finished(e@),
        }
    }
}

/// The kind of an event value.
pub open spec fn kind_of(e: EventView) -> EventKind {
    match e {
        EventView::NewCsr(_) => EventKind::NewCsr,
        EventView::Challenge { .. } => EventKind::Challenge,
        EventView::JobProgress(_) => EventKind::JobProgress,
        EventView::Finished(_) => EventKind::Finished,
    }
}

impl Event {
    /// The kind of the event.
    pub fn kind(&self) -> (r: EventKind)
        ensures
            r == kind_of(self@),
    {
        match self {
            Event::NewCsr(_) => EventKind::NewCsr,
            Event::Challenge(_) => EventKind::Challenge,
            Event::JobProgress(_) => EventKind::JobProgress,
            Event::Finished(_) => EventKind::Finished,
        }
    }

    /// The tag under which the event is published.
    pub fn tag(&self) -> (r: &'static str)
        ensures
            r@ == tag_of(kind_of(self@)),
    {
        self.kind().tag()
    }
}

/// An event type of its own, with the tag it is published under.
pub trait CertmasterEvent {
    spec fn kind_spec() -> EventKind;

    fn event_name() -> (r: &'static str)
        ensures
            r@ == tag_of(Self::kind_spec()),
    ;
}

impl CertmasterEvent for NewCsr {
    open spec fn kind_spec() -> EventKind {
        EventKind::NewCsr
    }

    fn event_name() -> (r: &'static str) {
        EventKind::NewCsr.tag()
    }
}

impl CertmasterEvent for PendingChallenge {
    open spec fn kind_spec() -> EventKind {
        EventKind::Challenge
    }

    fn event_name() -> (r: &'static str) {
        EventKind::Challenge.tag()
    }
}

impl CertmasterEvent for JobProgress {
    open spec fn kind_spec() -> EventKind {
        EventKind::JobProgress
    }

    fn event_name() -> (r: &'static str) {
        EventKind::JobProgress.tag()
    }
}

impl CertmasterEvent for Completion {
    open spec fn kind_spec() -> EventKind {
        EventKind::Finished
    }

    fn event_name() -> (r: &'static str) {
        EventKind::Finished.tag()
    }
}

} // verus!
