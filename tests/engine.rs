use base64::Engine;
use certmaster::alias::{decode_base64, encode_base64, get_alt_name};
use certmaster::error::EngineError;
use certmaster::event::{CertmasterEvent, Event, EventKind};
use certmaster::job::{Completion, JobProgress, JobStatus, NewCsr, PendingChallenge, Status};
use certmaster::machine::{plan_progress, Plan};
use certmaster::sign::{check_request, sign_request};
use certmaster::store::JobStore;
use certmaster::worker::{Delivery, Handled, Worker};

struct Ca {
    certificate: String,
    key: String,
}

fn make_ca() -> Ca {
    let key = rcgen::KeyPair::generate().unwrap();
    let mut params = rcgen::CertificateParams::new(vec!["ca.example".to_string()]).unwrap();
    params.is_ca = rcgen::IsCa::Ca(rcgen::BasicConstraints::Unconstrained);
    let certificate = params.self_signed(&key).unwrap();
    Ca { certificate: certificate.pem(), key: key.serialize_pem() }
}

fn make_request(name: &str) -> String {
    let key = rcgen::KeyPair::generate().unwrap();
    let params = rcgen::CertificateParams::new(vec![name.to_string()]).unwrap();
    params.serialize_request(&key).unwrap().pem().unwrap()
}

fn worker_with_ca() -> Worker {
    let ca = make_ca();
    Worker::new(JobStore::new(), ca.certificate, ca.key)
}

fn expected_alias(client_id: u64, pem: &str) -> String {
    let digest = blake3::hash(format!("{client_id};{pem}").as_bytes());
    base64::engine::general_purpose::STANDARD.encode(digest.as_bytes())
}

/// Runs every event published since `from` through the worker, in order.
fn drain(worker: &mut Worker, from: usize) -> Vec<Delivery> {
    let mut results = Vec::new();
    let mut next = from;
    while next < worker.store.published().len() {
        let event = copy_event(&worker.store.published()[next]);
        let tag = event.tag();
        results.push(worker.deliver(tag, Some(event)));
        next += 1;
    }
    results
}

fn copy_event(e: &Event) -> Event {
    match e {
        Event::NewCsr(n) => Event::NewCsr(NewCsr { client_id: n.client_id, pem: n.pem.clone() }),
        Event::Challenge(c) => Event::Challenge(PendingChallenge { id: c.id }),
        Event::JobProgress(p) => Event::JobProgress(JobProgress { id: p.id, status: p.status.duplicate() }),
        Event::Finished(c) => Event::Finished(Completion {
            client_id: c.client_id,
            id: c.id,
            certificate: c.certificate.clone(),
        }),
    }
}

#[test]
fn alias_is_base64_of_blake3_of_id_and_pem() {
    let pem = "-----BEGIN CERTIFICATE REQUEST-----\nabc\n-----END CERTIFICATE REQUEST-----\n";
    let alias = get_alt_name(1, pem);
    assert_eq!(alias, expected_alias(1, pem));
    assert_eq!(alias.len(), 44);
    assert_eq!(get_alt_name(1, pem), alias);
    assert_ne!(get_alt_name(2, pem), alias);
    assert_ne!(get_alt_name(1, "other"), alias);
    assert_eq!(get_alt_name(18446744073709551615, ""), expected_alias(18446744073709551615, ""));
}

#[test]
fn base64_encodes_and_decodes() {
    assert_eq!(encode_base64(b"hello"), "aGVsbG8=");
    assert_eq!(encode_base64(b""), "");
    assert_eq!(decode_base64("aGVsbG8=").unwrap(), b"hello".to_vec());
    assert!(matches!(decode_base64("aGVsbG8"), Err(EngineError::Codec(_))));
    assert!(matches!(decode_base64("!!!!"), Err(EngineError::Codec(_))));
}

#[test]
fn decimal_and_text_equality() {
    assert_eq!(certmaster::text::decimal_text(0), "0");
    assert_eq!(certmaster::text::decimal_text(907), "907");
    assert_eq!(certmaster::text::decimal_text(u64::MAX), "18446744073709551615");
    assert!(certmaster::text::text_eq("new-csr", "new-csr"));
    assert!(!certmaster::text::text_eq("new-csr", "new-csr "));
    assert!(!certmaster::text::text_eq("é", "e"));
}

#[test]
fn keys_of_the_store() {
    assert_eq!(certmaster::machine::csr_key(12), "csr:12");
    assert_eq!(certmaster::machine::alt_key("QUJD"), "alt:QUJD");
}

#[test]
fn tags_name_kinds() {
    for kind in [EventKind::NewCsr, EventKind::Challenge, EventKind::JobProgress, EventKind::Finished] {
        assert_eq!(EventKind::from_tag(kind.tag()), Some(kind));
    }
    assert_eq!(EventKind::NewCsr.tag(), "new-csr");
    assert_eq!(EventKind::Challenge.tag(), "challenge");
    assert_eq!(EventKind::JobProgress.tag(), "job-progress");
    assert_eq!(EventKind::Finished.tag(), "finished");
    assert_eq!(EventKind::from_tag("foo"), None);
    assert_eq!(EventKind::from_tag("challenge-result"), None);
    assert_eq!(<NewCsr as CertmasterEvent>::event_name(), "new-csr");
    assert_eq!(<Completion as CertmasterEvent>::event_name(), "finished");
}

#[test]
fn progress_plans() {
    assert_eq!(plan_progress(&JobStatus::Pending, &JobStatus::ChallengePassed), Plan::Sign);
    assert_eq!(plan_progress(&JobStatus::ChallengePending, &JobStatus::ChallengePassed), Plan::Sign);
    assert_eq!(plan_progress(&JobStatus::Finished, &JobStatus::ChallengePassed), Plan::Reject);
    assert_eq!(plan_progress(&JobStatus::Stale, &JobStatus::Finished), Plan::Reject);
    assert_eq!(plan_progress(&JobStatus::Finished, &JobStatus::Finished), Plan::Write);
    assert_eq!(plan_progress(&JobStatus::Finished, &JobStatus::Pending), Plan::Rewind);
    assert_eq!(plan_progress(&JobStatus::Pending, &JobStatus::Pending), Plan::Write);
    let failed = JobStatus::ChallengeFailed { reason: "nope".to_string() };
    assert_eq!(plan_progress(&JobStatus::ChallengePending, &failed), Plan::Write);
    assert_eq!(plan_progress(&JobStatus::Stale, &failed), Plan::Reject);
    assert_eq!(plan_progress(&failed, &JobStatus::ChallengeFailed { reason: "nope".to_string() }), Plan::Write);
    assert_eq!(plan_progress(&failed, &JobStatus::ChallengeFailed { reason: "other".to_string() }), Plan::Reject);
    assert_eq!(plan_progress(&JobStatus::Pending, &JobStatus::Finished), Plan::Write);
    assert_eq!(plan_progress(&JobStatus::ChallengePending, &JobStatus::Stale), Plan::Write);
    assert_eq!(plan_progress(&JobStatus::Finished, &JobStatus::Stale), Plan::Write);
    assert_eq!(plan_progress(&JobStatus::Pending, &JobStatus::Stale), Plan::Write);
    assert_eq!(plan_progress(&JobStatus::Finished, &failed), Plan::Reject);
    assert_eq!(plan_progress(&JobStatus::SigningError { reason: "x".to_string() }, &JobStatus::Finished), Plan::Reject);
    assert_eq!(plan_progress(&JobStatus::Stale, &JobStatus::Pending), Plan::Rewind);
}

#[test]
fn forward_reports_are_written_as_reported() {
    let mut worker = worker_with_ca();
    let pem = make_request("client.example");
    worker.handle(Event::NewCsr(NewCsr { client_id: 1, pem })).unwrap();
    let published = worker.store.published().len();
    let r = worker.handle(Event::JobProgress(JobProgress { id: 1, status: JobStatus::Finished }));
    assert!(matches!(r, Ok(Handled::Updated)));
    assert!(matches!(worker.store.csr(1).unwrap().status, JobStatus::Finished));
    let r = worker.handle(Event::JobProgress(JobProgress { id: 1, status: JobStatus::Stale }));
    assert!(matches!(r, Ok(Handled::Updated)));
    assert!(matches!(worker.store.csr(1).unwrap().status, JobStatus::Stale));
    assert_eq!(worker.store.published().len(), published);
    let r = worker.handle(Event::JobProgress(JobProgress { id: 1, status: JobStatus::Finished }));
    assert!(matches!(r, Err(EngineError::State(_))));
}

#[test]
fn base64_round_trip() {
    for bytes in [vec![], vec![0u8], vec![1, 2], vec![255, 254, 253], (0..=255).collect::<Vec<u8>>()] {
        assert_eq!(decode_base64(&encode_base64(&bytes)).unwrap(), bytes);
    }
}

#[test]
fn happy_path() {
    let mut worker = worker_with_ca();
    let pem = make_request("client.example");
    let alias = expected_alias(1, &pem);
    let r = worker.deliver("new-csr", Some(Event::NewCsr(NewCsr { client_id: 1, pem: pem.clone() })));
    assert!(matches!(r, Delivery::Done(Handled::Queued { serial: 1 })));
    let job = worker.store.job(&alias).unwrap();
    assert_eq!(job.serial, 1);
    assert_eq!(job.client_id, 1);
    assert!(matches!(job.status, Status::Pending));
    let csr = worker.store.csr(1).unwrap();
    assert_eq!(csr.client_alias, alias);
    assert_eq!(csr.pem(), &pem);
    assert!(matches!(csr.status, JobStatus::Pending));
    assert!(matches!(worker.store.published()[0], Event::Challenge(PendingChallenge { id: 1 })));

    let gated = drain(&mut worker, 0);
    assert!(matches!(gated[0], Delivery::Done(Handled::Gated)));

    let before = worker.store.published().len();
    let r = worker.deliver(
        "job-progress",
        Some(Event::JobProgress(JobProgress { id: 1, status: JobStatus::ChallengePassed })),
    );
    let certificate = match r {
        Delivery::Done(Handled::Signed { certificate }) => certificate,
        _ => panic!("signing did not succeed"),
    };
    assert!(certificate.starts_with("-----BEGIN CERTIFICATE-----"));
    assert!(matches!(worker.store.csr(1).unwrap().status, JobStatus::Finished));
    match &worker.store.published()[before] {
        Event::Finished(c) => {
            assert_eq!(c.id, 1);
            assert_eq!(c.client_id, 1);
            assert_eq!(c.certificate, certificate);
        }
        _ => panic!("no completion"),
    }
    assert!(matches!(
        worker.store.published()[before + 1],
        Event::JobProgress(JobProgress { id: 1, status: JobStatus::Finished })
    ));

    let results = drain(&mut worker, before);
    assert!(matches!(results[0], Delivery::Done(Handled::Completed)));
    assert!(matches!(results[1], Delivery::Failed(EngineError::State(_))));
    match &worker.store.job(&alias).unwrap().status {
        Status::Success { certificate: c } => assert_eq!(c, &certificate),
        Status::Pending => panic!("still pending"),
    }
    assert!(matches!(worker.store.csr(1).unwrap().status, JobStatus::Stale));
}

#[test]
fn challenge_failed() {
    let mut worker = worker_with_ca();
    let pem = make_request("client.example");
    let alias = expected_alias(1, &pem);
    worker.handle(Event::NewCsr(NewCsr { client_id: 1, pem })).unwrap();
    let r = worker.handle(Event::JobProgress(JobProgress {
        id: 1,
        status: JobStatus::ChallengeFailed { reason: "nope".to_string() },
    }));
    assert!(matches!(r, Ok(Handled::Updated)));
    match &worker.store.csr(1).unwrap().status {
        JobStatus::ChallengeFailed { reason } => assert_eq!(reason, "nope"),
        _ => panic!("wrong status"),
    }
    assert!(matches!(worker.store.job(&alias).unwrap().status, Status::Pending));
    assert!(!worker.store.published().iter().any(|e| matches!(e, Event::Finished(_))));
    let r = worker.handle(Event::JobProgress(JobProgress { id: 1, status: JobStatus::ChallengePassed }));
    assert!(matches!(r, Err(EngineError::State(_))));
    assert!(!worker.store.published().iter().any(|e| matches!(e, Event::Finished(_))));
}

#[test]
fn signing_error() {
    let ca = make_ca();
    let mut worker = Worker::new(JobStore::new(), "not a certificate".to_string(), ca.key);
    let pem = make_request("client.example");
    worker.handle(Event::NewCsr(NewCsr { client_id: 1, pem })).unwrap();
    let before = worker.store.published().len();
    let r = worker.handle(Event::JobProgress(JobProgress { id: 1, status: JobStatus::ChallengePassed }));
    let reason = match r {
        Ok(Handled::SigningFailed { reason }) => reason,
        _ => panic!("signing should fail"),
    };
    assert!(!reason.is_empty());
    match &worker.store.csr(1).unwrap().status {
        JobStatus::SigningError { reason: r } => assert_eq!(r, &reason),
        _ => panic!("wrong status"),
    }
    assert_eq!(worker.store.published().len(), before);
}

#[test]
fn intake_of_unparsable_request_creates_nothing() {
    let mut worker = worker_with_ca();
    let r = worker.handle(Event::NewCsr(NewCsr { client_id: 1, pem: "garbage".to_string() }));
    assert!(matches!(r, Err(EngineError::Crypto(_))));
    assert_eq!(worker.store.csr_count(), 0);
    assert_eq!(worker.store.job_count(), 0);
    assert_eq!(worker.store.last_serial(), 1);
    assert!(worker.store.published().is_empty());
    assert!(check_request("garbage").is_err());
    assert!(matches!(sign_request("garbage", 1, "x", "y"), Err(EngineError::Crypto(_))));
}

#[test]
fn double_submit_same_content() {
    let mut worker = worker_with_ca();
    let pem = make_request("client.example");
    let alias = expected_alias(7, &pem);
    let a = worker.handle(Event::NewCsr(NewCsr { client_id: 7, pem: pem.clone() }));
    let b = worker.handle(Event::NewCsr(NewCsr { client_id: 7, pem: pem.clone() }));
    assert!(matches!(a, Ok(Handled::Queued { serial: 1 })));
    assert!(matches!(b, Ok(Handled::Queued { serial: 2 })));
    assert_eq!(worker.store.csr_count(), 2);
    assert_eq!(worker.store.job_count(), 1);
    assert_eq!(worker.store.job(&alias).unwrap().serial, 2);
    let before = worker.store.published().len();
    let r = worker.handle(Event::JobProgress(JobProgress { id: 1, status: JobStatus::ChallengePassed }));
    let certificate = match r {
        Ok(Handled::Signed { certificate }) => certificate,
        _ => panic!("signing did not succeed"),
    };
    drain(&mut worker, before);
    match &worker.store.job(&alias).unwrap().status {
        Status::Success { certificate: c } => assert_eq!(c, &certificate),
        Status::Pending => panic!("still pending"),
    }
}

#[test]
fn unknown_event_changes_nothing() {
    let mut worker = worker_with_ca();
    let r = worker.deliver("foo", None);
    assert!(matches!(r, Delivery::UnknownKind));
    assert_eq!(worker.store.csr_count(), 0);
    assert_eq!(worker.store.last_serial(), 0);
    assert!(worker.store.published().is_empty());
    let r = worker.deliver("challenge", Some(Event::JobProgress(JobProgress { id: 1, status: JobStatus::Pending })));
    assert!(matches!(r, Delivery::Malformed));
    let r = worker.deliver("new-csr", None);
    assert!(matches!(r, Delivery::Malformed));
    assert_eq!(worker.store.last_serial(), 0);
}

#[test]
fn hundred_distinct_submissions() {
    let mut worker = worker_with_ca();
    let pem = make_request("client.example");
    for client_id in 0..100u64 {
        let r = worker.handle(Event::NewCsr(NewCsr { client_id, pem: pem.clone() }));
        match r {
            Ok(Handled::Queued { serial }) => assert_eq!(serial, client_id + 1),
            _ => panic!("intake failed"),
        }
    }
    assert_eq!(worker.store.csr_count(), 100);
    assert_eq!(worker.store.job_count(), 100);
    for client_id in 0..100u64 {
        let job = worker.store.job(&expected_alias(client_id, &pem)).unwrap();
        assert_eq!(job.serial, client_id + 1);
        assert_eq!(worker.store.csr(job.serial).unwrap().client_alias, job.alias);
    }
}

#[test]
fn gate_rejects_processed_job() {
    let mut worker = worker_with_ca();
    let pem = make_request("client.example");
    worker.handle(Event::NewCsr(NewCsr { client_id: 1, pem })).unwrap();
    worker.handle(Event::JobProgress(JobProgress { id: 1, status: JobStatus::ChallengePending })).unwrap();
    let published = worker.store.published().len();
    let r = worker.handle(Event::Challenge(PendingChallenge { id: 1 }));
    assert!(matches!(r, Err(EngineError::State(_))));
    assert!(matches!(worker.store.csr(1).unwrap().status, JobStatus::ChallengePending));
    assert_eq!(worker.store.published().len(), published);
    let r = worker.handle(Event::Challenge(PendingChallenge { id: 9 }));
    assert!(matches!(r, Err(EngineError::NotFound(_))));
}

#[test]
fn rewind_and_replay() {
    let mut worker = worker_with_ca();
    let pem = make_request("client.example");
    worker.handle(Event::NewCsr(NewCsr { client_id: 1, pem })).unwrap();
    let r = worker.handle(Event::JobProgress(JobProgress { id: 1, status: JobStatus::ChallengePending }));
    assert!(matches!(r, Ok(Handled::Rewound)));
    let r = worker.handle(Event::JobProgress(JobProgress { id: 1, status: JobStatus::ChallengePending }));
    assert!(matches!(r, Ok(Handled::Updated)));
    let before = worker.store.published().len();
    worker.handle(Event::JobProgress(JobProgress { id: 1, status: JobStatus::ChallengePassed })).unwrap();
    drain(&mut worker, before);
    let after = worker.store.published().len();
    let r = worker.handle(Event::JobProgress(JobProgress { id: 1, status: JobStatus::ChallengePassed }));
    assert!(matches!(r, Err(EngineError::State(_))));
    assert_eq!(worker.store.published().len(), after);
    let completion = match &worker.store.published()[before] {
        Event::Finished(c) => Completion { client_id: c.client_id, id: c.id, certificate: c.certificate.clone() },
        _ => panic!("no completion"),
    };
    let r = worker.handle(Event::Finished(completion));
    assert!(matches!(r, Ok(Handled::Completed)));
    assert!(matches!(worker.store.csr(1).unwrap().status, JobStatus::Stale));
    let r = worker.handle(Event::Finished(Completion { client_id: 1, id: 5, certificate: String::new() }));
    assert!(matches!(r, Err(EngineError::NotFound(_))));
}
