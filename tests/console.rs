use certmaster::job::{ClientJob, Status};
use certmaster::repl::{await_step, AwaitStep, echo, parse_command, parse_new_request, parse_u64, serials_from, AltName, Command, NameKind};

fn words(line: &str) -> Vec<String> {
    line.split_whitespace().map(|w| w.to_string()).collect()
}

#[test]
fn echo_adds_a_space_after_each_word() {
    assert_eq!(echo(&words("hello world")), "hello world ");
    assert_eq!(echo(&words("")), "");
}

#[test]
fn serials_parse_like_std() {
    assert_eq!(parse_u64("0"), Some(0));
    assert_eq!(parse_u64("+42"), Some(42));
    assert_eq!(parse_u64("007"), Some(7));
    assert_eq!(parse_u64("18446744073709551615"), Some(u64::MAX));
    assert_eq!(parse_u64("18446744073709551616"), None);
    assert_eq!(parse_u64("99999999999999999999999"), None);
    assert_eq!(parse_u64(""), None);
    assert_eq!(parse_u64("+"), None);
    assert_eq!(parse_u64("-1"), None);
    assert_eq!(parse_u64("1a"), None);
    for s in ["12", "+3", "x", "", "4294967296", "18446744073709551615", "18446744073709551616", "٣"] {
        assert_eq!(parse_u64(s), s.parse::<u64>().ok(), "{s}");
    }
    assert_eq!(serials_from(&words("1 2 x 3")), vec![1, 2]);
    assert_eq!(serials_from(&words("x 3")), Vec::<u64>::new());
}

#[test]
fn commands() {
    assert!(matches!(parse_command(&words("")), Ok(Command::Empty)));
    match parse_command(&words("echo a b")) {
        Ok(Command::Echo { text }) => assert_eq!(text, "a b "),
        _ => panic!("not echo"),
    }
    match parse_command(&words("challenge pass 4 5 six 7")) {
        Ok(Command::ChallengePass { serials }) => assert_eq!(serials, vec![4, 5]),
        _ => panic!("not a pass"),
    }
    assert_eq!(parse_command(&words("challenge fail 4")).unwrap_err(), "Invalid Syntax");
    assert_eq!(parse_command(&words("challenge")).unwrap_err(), "Invalid Syntax");
    match parse_command(&words("request submit a.csr b.csr")) {
        Ok(Command::Submit { paths }) => assert_eq!(paths, vec!["a.csr".to_string(), "b.csr".to_string()]),
        _ => panic!("not a submit"),
    }
    match parse_command(&words("request await QQ==")) {
        Ok(Command::Await { aliases }) => assert_eq!(aliases, vec!["QQ==".to_string()]),
        _ => panic!("not an await"),
    }
    assert_eq!(parse_command(&words("request")).unwrap_err(), "Invalid Syntax");
    assert_eq!(parse_command(&words("request drop")).unwrap_err(), "Invalid Syntax");
    assert!(matches!(parse_command(&words("exit")), Ok(Command::Exit)));
    assert!(matches!(parse_command(&words("quit now")), Ok(Command::Exit)));
    assert_eq!(parse_command(&words("frobnicate x")).unwrap_err(), "'frobnicate' is not a recognised command");
}

#[test]
fn new_request_options() {
    let n = parse_new_request(&words("-key k.pem -cn host -c DE -o Org -ou Unit -l City -st State -alt a.example -ip 10.0.0.1 -async -weird")).unwrap();
    assert_eq!(n.key_path.as_deref(), Some("k.pem"));
    assert_eq!(
        n.names,
        vec![
            (NameKind::CommonName, "host".to_string()),
            (NameKind::CountryName, "DE".to_string()),
            (NameKind::OrganizationName, "Org".to_string()),
            (NameKind::OrganizationalUnitName, "Unit".to_string()),
            (NameKind::LocalityName, "City".to_string()),
            (NameKind::StateOrProvinceName, "State".to_string()),
        ]
    );
    assert_eq!(n.alt_names.len(), 2);
    assert!(matches!(&n.alt_names[0], AltName::Dns(d) if d == "a.example"));
    assert!(matches!(&n.alt_names[1], AltName::Ip(a) if a == "10.0.0.1"));
    assert!(n.detach);
    assert_eq!(n.ignored, vec!["-weird".to_string()]);
    assert_eq!(parse_new_request(&words("-cn")).unwrap_err(), "Expected argument after -cn");
    let empty = parse_new_request(&words("")).unwrap();
    assert!(empty.key_path.is_none() && empty.names.is_empty() && !empty.detach);
    match parse_command(&words("request new -key")) {
        Err(m) => assert_eq!(m, "Expected argument after -key"),
        _ => panic!("missing value accepted"),
    }
}

#[test]
fn await_collects_certificates() {
    let job = |alias: &str, id: u64, status: Status| ClientJob { alias: alias.to_string(), client_id: id, serial: id, status };
    let mut waiting = vec!["a".to_string(), "b".to_string()];
    let mut got: Vec<(u64, String)> = Vec::new();
    assert_eq!(await_step(&mut waiting, &mut got, &job("a", 1, Status::Pending)), AwaitStep::Ignored);
    assert_eq!(waiting.len(), 2);
    let c = |t: &str| Status::Success { certificate: t.to_string() };
    assert_eq!(await_step(&mut waiting, &mut got, &job("z", 9, c("x"))), AwaitStep::Unexpected);
    assert!(got.is_empty());
    assert_eq!(await_step(&mut waiting, &mut got, &job("a", 1, c("A"))), AwaitStep::Waiting);
    assert_eq!(waiting, vec!["b".to_string()]);
    assert_eq!(got, vec![(1, "A".to_string())]);
    assert_eq!(await_step(&mut waiting, &mut got, &job("b", 2, c("B"))), AwaitStep::Done);
    assert!(waiting.is_empty());
    assert_eq!(got, vec![(1, "A".to_string()), (2, "B".to_string())]);
}
