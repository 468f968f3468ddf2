use certmaster::alias::get_alt_name;
use certmaster::config::{job_list_key_default, task_queue_key_default, Args, ModuleList, RedisConfig};
use certmaster::job::{ClientJob, NewCsr, Status};
use certmaster::web::{serial_keys, Ack, Pagination, Selection};

#[test]
fn pagination_ranges() {
    assert_eq!(Pagination { page: None, page_size: None }.range(), Some((0, 99)));
    assert_eq!(Pagination { page: Some(2), page_size: Some(10) }.range(), Some((20, 29)));
    assert_eq!(Pagination { page: Some(0), page_size: Some(1) }.range(), Some((0, 0)));
    assert_eq!(Pagination { page: Some(3), page_size: Some(0) }.range(), None);
    assert_eq!(Pagination { page: Some(usize::MAX), page_size: Some(2) }.range(), None);
    let m = isize::MAX as usize;
    assert_eq!(Pagination { page: Some(m), page_size: Some(1) }.range(), Some((isize::MAX, isize::MAX)));
}

#[test]
fn selection_and_job_keys() {
    let selection = Selection { jobs: vec!["QQ==".to_string(), "Qg==".to_string()] };
    assert_eq!(selection.keys(), vec!["alt:QQ==".to_string(), "alt:Qg==".to_string()]);
    assert!(Selection { jobs: vec![] }.keys().is_empty());
    let jobs = vec![
        ClientJob { alias: "a".to_string(), client_id: 1, serial: 4, status: Status::Pending },
        ClientJob { alias: "b".to_string(), client_id: 2, serial: 10, status: Status::Pending },
    ];
    assert_eq!(serial_keys(&jobs), vec!["csr:4".to_string(), "csr:10".to_string()]);
}

#[test]
fn ack_carries_alias() {
    let request = NewCsr { client_id: 3, pem: "pem".to_string() };
    assert_eq!(Ack::for_request(&request).alt, get_alt_name(3, "pem"));
    assert_eq!(request.alt(), get_alt_name(3, "pem"));
}

#[test]
fn configuration_defaults() {
    assert_eq!(task_queue_key_default(), "event-queue");
    assert_eq!(job_list_key_default(), "job-list");
    let c = RedisConfig::new("redis://localhost".to_string());
    assert_eq!(c.task_stream_key, "event-queue");
    assert_eq!(c.job_list_key, "job-list");
    assert_eq!(c.db, None);
    let m = ModuleList::default();
    assert!(m.ca && m.web && !m.cli && !m.inbox && !m.gc && !m.hooks);
    assert_eq!(Args::default_config(), "./config.toml");
}

#[test]
fn channel_and_consumer_names() {
    assert_eq!(certmaster::machine::keyspace_channel("QQ=="), "__keyspace@0__:alt:QQ==");
    assert_eq!(certmaster::machine::consumer_name(3), "worker-3");
}
