//! The records of the job store and the events of the task stream.
use vstd::prelude::*;

verus! {

/// The status of a signing request on the server side.
#[derive(Debug)]
pub enum JobStatus {
    Pending,
    ChallengePending,
    ChallengePassed,
    ChallengeFailed { reason: String },
    Finished,
    SigningError { reason: String },
    Stale,
}

/// The mathematical value of a [`JobStatus`].
pub enum JobStatusView {
    Pending,
    ChallengePending,
    ChallengePassed,
    ChallengeFailed { reason: Seq<char> },
    Finished,
    SigningError { reason: Seq<char> },
    Stale,
}

impl View for JobStatus {
    type V = JobStatusView;

    open spec fn view(&self) -> JobStatusView {
        match self {
            JobStatus::Pending => JobStatusView::Pending,
            JobStatus::ChallengePending => JobStatusView::ChallengePending,
            JobStatus::ChallengePassed => JobStatusView::ChallengePassed,
            JobStatus::ChallengeFailed { reason } => JobStatusView::ChallengeFailed {
                reason: reason@,
            },
            JobStatus::Finished => JobStatusView::Finished,
            JobStatus::SigningError { reason } => JobStatusView::SigningError { reason: reason@ },
            JobStatus::Stale => JobStatusView::Stale,
        }
    }
}

impl JobStatus {
    /// A copy of the status.
    pub fn duplicate(&self) -> (r: JobStatus)
        ensures
            r@ == self@,
    {
        match self {
            JobStatus::Pending => JobStatus::Pending,
            JobStatus::ChallengePending => JobStatus::ChallengePending,
            JobStatus::ChallengePassed => JobStatus::ChallengePassed,
            JobStatus::ChallengeFailed { reason } => JobStatus::ChallengeFailed {
                reason: reason.clone(),
            },
            JobStatus::Finished => JobStatus::Finished,
            JobStatus::SigningError { reason } => JobStatus::SigningError { reason: reason.clone() },
            JobStatus::Stale => JobStatus::Stale,
        }
    }

    /// Whether two statuses are the same, reasons included.
    pub fn same_as(&self, other: &JobStatus) -> (r: bool)
        ensures
            r == (self@ == other@),
    {
        match (self, other) {
            (JobStatus::Pending, JobStatus::Pending) => true,
            (JobStatus::ChallengePending, JobStatus::ChallengePending) => true,
            (JobStatus::ChallengePassed, JobStatus::ChallengePassed) => true,
            (
                JobStatus::ChallengeFailed { reason: a },
                JobStatus::ChallengeFailed { reason: b },
            ) => crate::text::text_eq(a.as_str(), b.as_str()),
            (JobStatus::Finished, JobStatus::Finished) => true,
            (JobStatus::SigningError { reason: a }, JobStatus::SigningError { reason: b }) => {
                crate::text::text_eq(a.as_str(), b.as_str())
            },
            (JobStatus::Stale, JobStatus::Stale) => true,
            _ => false,
        }
    }
}

/// The status of a submission as its producer sees it.
#[derive(Debug)]
pub enum Status {
    Pending,
    Success { certificate: String },
}

/// The mathematical value of a [`Status`].
pub enum StatusView {
    Pending,
    Success { certificate: Seq<char> },
}

impl View for Status {
    type V = StatusView;

    open spec fn view(&self) -> StatusView {
        match self {
            Status::Pending => StatusView::Pending,
            Status::Success { certificate } => StatusView::Success { certificate: certificate@ },
        }
    }
}

/// The server's record of a signing request, kept under `csr:<serial>`.
#[derive(Debug)]
pub struct Csr {
    pub pem: String,
    pub client_id: u64,
    pub client_alias: String,
    pub status: JobStatus,
}

/// The mathematical value of a [`Csr`].
pub struct CsrView {
    pub pem: Seq<char>,
    pub client_id: u64,
    pub client_alias: Seq<char>,
    pub status: JobStatusView,
}

impl View for Csr {
    type V = CsrView;

    open spec fn view(&self) -> CsrView {
        CsrView {
            pem: self.pem@,
            client_id: self.client_id,
            client_alias: self.client_alias@,
            status: self.status@,
        }
    }
}

impl Csr {
    /// A fresh record for a request, in status `Pending`.
    pub fn new(pem: String, client_id: u64, client_alias: String) -> (r: Csr)
        ensures
            r@ == (CsrView {
                pem: pem@,
                client_id,
                client_alias: client_alias@,
                status: JobStatusView::Pending,
            }),
    {
        Csr { pem, client_id, client_alias, status: JobStatus::Pending }
    }

    /// The request, PEM encoded.
    pub fn pem(&self) -> (r: &String)
        ensures
            r@ == self@.pem,
    {
        &self.pem
    }

    /// A copy of the record.
    pub fn duplicate(&self) -> (r: Csr)
        ensures
            r@ == self@,
    {
        Csr {
            pem: self.pem.clone(),
            client_id: self.client_id,
            client_alias: self.client_alias.clone(),
            status: self.status.duplicate(),
        }
    }
}

/// The record a producer follows, kept under `alt:<alias>`.
#[derive(Debug)]
pub struct ClientJob {
    pub alias: String,
    pub client_id: u64,
    pub serial: u64,
    pub status: Status,
}

/// The mathematical value of a [`ClientJob`].
pub struct ClientJobView {
    pub alias: Seq<char>,
    pub client_id: u64,
    pub serial: u64,
    pub status: StatusView,
}

impl View for ClientJob {
    type V = ClientJobView;

    open spec fn view(&self) -> ClientJobView {
        ClientJobView {
            alias: self.alias@,
            client_id: self.client_id,
            serial: self.serial,
            status: self.status@,
        }
    }
}

/// A new signing request from a producer.
#[derive(Debug)]
pub struct NewCsr {
    pub client_id: u64,
    pub pem: String,
}

/// A request that a challenge be started for the job `id`.
#[derive(Debug)]
pub struct PendingChallenge {
    pub id: u64,
}

/// A verdict on the job `id`, or the announcement of a transition.
#[derive(Debug)]
pub struct JobProgress {
    pub id: u64,
    pub status: JobStatus,
}

/// A certificate was issued for the job `id`.
#[derive(Debug)]
pub struct Completion {
    pub client_id: u64,
    pub id: u64,
    pub certificate: String,
}

/// The mathematical value of a [`NewCsr`].
pub struct NewCsrView {
    pub client_id: u64,
    pub pem: Seq<char>,
}

/// The mathematical value of a [`JobProgress`].
pub struct JobProgressView {
    pub id: u64,
    pub status: JobStatusView,
}

/// The mathematical value of a [`Completion`].
pub struct CompletionView {
    pub client_id: u64,
    pub id: u64,
    pub certificate: Seq<char>,
}

impl View for NewCsr {
    type V = NewCsrView;

    open spec fn view(&self) -> NewCsrView {
        NewCsrView { client_id: self.client_id, pem: self.pem@ }
    }
}

impl View for JobProgress {
    type V = JobProgressView;

    open spec fn view(&self) -> JobProgressView {
        JobProgressView { id: self.id, status: self.status@ }
    }
}

impl View for Completion {
    type V = CompletionView;

    open spec fn view(&self) -> CompletionView {
        CompletionView { client_id: self.client_id, id: self.id, certificate: self.certificate@ }
    }
}

} // verus!
