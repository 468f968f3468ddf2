//! What the HTTP surface computes before and after it talks to the store.
use vstd::prelude::*;
use crate::alias::{alias_of, get_alt_name};
use crate::event::{Event, EventView};
use crate::job::{ClientJob, JobProgress, JobProgressView, JobStatus, JobStatusView, NewCsr};
use crate::machine::{alt_key, alt_key_of, csr_key, csr_key_of};

verus! {

/// The number of jobs on a page when none is asked for.
pub const DEFAULT_PAGE_SIZE: usize = 100;

/// A page of the job list, as asked for.
#[derive(Debug)]
pub struct Pagination {
    pub page: Option<usize>,
    pub page_size: Option<usize>,
}

/// The first and the last index, both included, of page `page` of `size`
/// jobs, when both fit an `isize`.
pub open spec fn page_bounds(page: nat, size: nat) -> Option<(int, int)> {
    if size == 0 || page * size + size - 1 > isize::MAX {
        None
    } else {
        Some(((page * size) as int, (page * size + size - 1) as int))
    }
}

impl Pagination {
    /// The page asked for, 0 by default.
    pub open spec fn page_spec(&self) -> nat {
        match self.page {
            Some(p) => p as nat,
            None => 0,
        }
    }

    /// The page size asked for, 100 by default.
    pub open spec fn size_spec(&self) -> nat {
        match self.page_size {
            Some(s) => s as nat,
            None => DEFAULT_PAGE_SIZE as nat,
        }
    }

    /// The range of the reversed job list that makes up the page; `None`
    /// for a page size of 0 or a page beyond what an index can reach.
    pub fn range(&self) -> (r: Option<(isize, isize)>)
        ensures
            match r {
                Some((lo, hi)) => page_bounds(self.page_spec(), self.size_spec()) == Some(
                    (lo as int, hi as int),
                ),
                None => page_bounds(self.page_spec(), self.size_spec()) is None,
            },
    {
        let page: usize = match self.page {
            Some(p) => p,
            None => 0,
        };
        let size: usize = match self.page_size {
            Some(s) => s,
            None => DEFAULT_PAGE_SIZE,
        };
        if size == 0 {
            return None;
        }
        let lo = match page.checked_mul(size) {
            Some(v) => v,
            None => return None,
        };
        let hi = match lo.checked_add(size - 1) {
            Some(v) => v,
            None => return None,
        };
        if hi > isize::MAX as usize {
            return None;
        }
        Some((lo as isize, hi as isize))
    }
}

/// A choice of jobs by alias.
#[derive(Debug)]
pub struct Selection {
    pub jobs: Vec<String>,
}

impl Selection {
    /// The store keys of the producers' records of the chosen jobs, in order.
    pub fn keys(&self) -> (r: Vec<String>)
        ensures
            r@.len() == self.jobs@.len(),
            forall|i: int| 0 <= i < r@.len() ==> r@[i]@ == alt_key_of(#[trigger] self.jobs@[i]@),
    {
        let mut keys: Vec<String> = Vec::new();
        let mut i: usize = 0;
        while i < self.jobs.len()
            invariant
                i <= self.jobs@.len(),
                keys@.len() == i,
                forall|j: int| 0 <= j < i ==> keys@[j]@ == alt_key_of(#[trigger] self.jobs@[j]@),
            decreases self.jobs@.len() - i,
        {
            keys.push(alt_key(self.jobs[i].as_str()));
            i = i + 1;
        }
        keys
    }
}

/// The store keys of the server's records of `jobs`, in order.
pub fn serial_keys(jobs: &Vec<ClientJob>) -> (r: Vec<String>)
    ensures
        r@.len() == jobs@.len(),
        forall|i: int| 0 <= i < r@.len() ==> r@[i]@ == csr_key_of(#[trigger] jobs@[i].serial),
{
    let mut keys: Vec<String> = Vec::new();
    let mut i: usize = 0;
    while i < jobs.len()
        invariant
            i <= jobs@.len(),
            keys@.len() == i,
            forall|j: int| 0 <= j < i ==> keys@[j]@ == csr_key_of(#[trigger] jobs@[j].serial),
        decreases jobs@.len() - i,
    {
        keys.push(csr_key(jobs[i].serial));
        i = i + 1;
    }
    keys
}

/// The verdict that a challenge passed, for the job `serial`.
pub open spec fn pass_of(serial: u64) -> EventView {
    EventView::JobProgress(JobProgressView { id: serial, status: JobStatusView::ChallengePassed })
}

/// The verdicts that the challenges of `serials` passed, in order.
pub fn challenge_passes(serials: &Vec<u64>) -> (r: Vec<Event>)
    ensures
        r@.len() == serials@.len(),
        forall|i: int| 0 <= i < r@.len() ==> r@[i]@ == pass_of(#[trigger] serials@[i]),
{
    let mut events: Vec<Event> = Vec::new();
    let mut i: usize = 0;
    while i < serials.len()
        invariant
            i <= serials@.len(),
            events@.len() == i,
            forall|j: int| 0 <= j < i ==> events@[j]@ == pass_of(#[trigger] serials@[j]),
        decreases serials@.len() - i,
    {
        events.push(Event::JobProgress(JobProgress { id: serials[i], status: JobStatus::ChallengePassed }));
        i = i + 1;
    }
    events
}

/// The serials that the producers' records `jobs` point at, in order.
pub fn serials_of(jobs: &Vec<ClientJob>) -> (r: Vec<u64>)
    ensures
        r@.len() == jobs@.len(),
        forall|i: int| 0 <= i < r@.len() ==> r@[i] == #[trigger] jobs@[i].serial,
{
    let mut serials: Vec<u64> = Vec::new();
    let mut i: usize = 0;
    while i < jobs.len()
        invariant
            i <= jobs@.len(),
            serials@.len() == i,
            forall|j: int| 0 <= j < i ==> serials@[j] == #[trigger] jobs@[j].serial,
        decreases jobs@.len() - i,
    {
        serials.push(jobs[i].serial);
        i = i + 1;
    }
    serials
}

/// The answer to a submitted request: the alias to follow it by.
#[derive(Debug)]
pub struct Ack {
    pub alt: String,
}

impl NewCsr {
    /// The alias of the request.
    pub fn alt(&self) -> (r: String)
        ensures
            r@ == alias_of(self.client_id, self.pem@),
    {
        get_alt_name(self.client_id, self.pem.as_str())
    }
}

impl Ack {
    /// The acknowledgement of `request`.
    pub fn for_request(request: &NewCsr) -> (r: Ack)
        ensures
            r.alt@ == alias_of(request.client_id, request.pem@),
    {
        Ack { alt: request.alt() }
    }
}

} // verus!
