use nix_inspect::codec::DecodeError;
use nix_inspect::path::BrowserPath;
use nix_inspect::value::NixValue;
use nix_inspect::worker::{Action, Event, Loss, WorkerHost, WORKER_BINARY_PATH};

fn path(segments: &[&str]) -> BrowserPath {
    let mut p = BrowserPath::new(segments[0]).unwrap();
    for s in &segments[1..] {
        p = p.child(s);
    }
    p
}

/// Serves the requests one after the other against an evaluator that
/// answers with the lines given, and collects what the host writes and
/// what it hands on.
fn serve(
    host: &mut WorkerHost,
    exchanges: Vec<(BrowserPath, Option<&str>)>,
) -> (Vec<String>, Vec<(BrowserPath, NixValue)>) {
    let mut lines = Vec::new();
    let mut results = Vec::new();
    for (p, answer) in exchanges {
        match host.step(Event::Request(p)) {
            Action::Write(line) => lines.push(line),
            other => panic!("expected a write, got {:?}", other),
        }
        assert_eq!(host.step(Event::Written), Action::Read);
        let settled = match answer {
            Some(line) => host.step(Event::Line(line.to_string())),
            None => host.step(Event::ReadFailed),
        };
        match settled {
            Action::Emit(p, v) => results.push((p, v)),
            Action::Drop(_, _) => {}
            other => panic!("expected a result or a loss, got {:?}", other),
        }
    }
    (lines, results)
}

#[test]
fn evaluator_program_is_fixed() {
    assert_eq!(WORKER_BINARY_PATH, "./worker/build/nix-inspect");
}

#[test]
fn a_new_host_is_idle() {
    let host = WorkerHost::new();
    assert!(!host.is_closed());
    assert_eq!(host.in_flight(), None);
}

#[test]
fn a_request_is_written_as_one_line() {
    let mut host = WorkerHost::new();
    let action = host.step(Event::Request(path(&["nixosConfigurations", "foo"])));
    assert_eq!(action, Action::Write("nixosConfigurations.\"foo\"\n".to_string()));
    assert_eq!(host.in_flight(), Some(&path(&["nixosConfigurations", "foo"])));
    assert_eq!(host.step(Event::Written), Action::Read);
    assert_eq!(host.in_flight(), Some(&path(&["nixosConfigurations", "foo"])));
}

#[test]
fn a_line_break_in_a_name_does_not_break_the_request() {
    let mut host = WorkerHost::new();
    let action = host.step(Event::Request(path(&["r", "a\nb"])));
    assert_eq!(action, Action::Write("r.\"a\\nb\"\n".to_string()));
}

#[test]
fn results_come_in_the_order_of_the_requests() {
    let first = path(&["r", "a"]);
    let second = path(&["r", "b"]);
    let third = path(&["r", "c"]);
    let mut host = WorkerHost::new();
    let (lines, results) = serve(
        &mut host,
        vec![
            (first.clone(), Some("{\"type\":\"1\",\"data\":1}\n")),
            (second.clone(), Some("{\"type\":\"4\",\"data\":\"two\"}\n")),
            (third.clone(), Some("{\"type\":\"8\",\"data\":3}\n")),
        ],
    );
    assert_eq!(
        results,
        vec![
            (first, NixValue::Int(1)),
            (second, NixValue::String("two".to_string())),
            (third, NixValue::List(3)),
        ]
    );
    assert_eq!(lines, vec!["r.\"a\"\n", "r.\"b\"\n", "r.\"c\"\n"]);
    assert_eq!(host.in_flight(), None);
    assert!(!host.is_closed());
}

#[test]
fn a_malformed_answer_costs_only_its_own_request() {
    let first = path(&["r", "a"]);
    let second = path(&["r", "b"]);
    let third = path(&["r", "c"]);
    let mut host = WorkerHost::new();
    let (lines, results) = serve(
        &mut host,
        vec![
            (first.clone(), Some("{\"type\":\"3\",\"data\":true}\n")),
            (second.clone(), Some("error: oops\n")),
            (third.clone(), Some("{\"type\":\"6\"}\n")),
        ],
    );
    assert_eq!(results, vec![(first, NixValue::Bool(true)), (third, NixValue::Null)]);
    assert_eq!(lines.len(), 3);
}

#[test]
fn a_malformed_answer_is_reported_with_its_line_and_cause() {
    let p = path(&["r", "b"]);
    let mut host = WorkerHost::new();
    host.step(Event::Request(p.clone()));
    host.step(Event::Written);
    let action = host.step(Event::Line("{\"type\":\"12\"}\n".to_string()));
    assert_eq!(
        action,
        Action::Drop(p, Loss::Malformed("{\"type\":\"12\"}\n".to_string(), DecodeError::UnknownTag))
    );
    assert_eq!(host.in_flight(), None);
    assert!(!host.is_closed());
}

#[test]
fn an_empty_line_is_a_malformed_answer() {
    let p = path(&["r"]);
    let mut host = WorkerHost::new();
    host.step(Event::Request(p.clone()));
    host.step(Event::Written);
    let action = host.step(Event::Line(String::new()));
    assert_eq!(action, Action::Drop(p, Loss::Malformed(String::new(), DecodeError::NotJson)));
}

#[test]
fn an_unread_answer_costs_only_its_own_request() {
    let first = path(&["r", "a"]);
    let second = path(&["r", "b"]);
    let mut host = WorkerHost::new();
    host.step(Event::Request(first.clone()));
    host.step(Event::Written);
    assert_eq!(host.step(Event::ReadFailed), Action::Drop(first.clone(), Loss::Unread));
    assert_eq!(host.in_flight(), None);
    let mut host = WorkerHost::new();
    let (lines, results) =
        serve(&mut host, vec![(first, None), (second.clone(), Some("{\"type\":\"9\"}"))]);
    assert_eq!(lines, vec!["r.\"a\"\n", "r.\"b\"\n"]);
    assert_eq!(results, vec![(second, NixValue::Function)]);
}

#[test]
fn duplicate_requests_are_each_served() {
    let p = path(&["r", "a"]);
    let mut host = WorkerHost::new();
    let (lines, results) = serve(
        &mut host,
        vec![
            (p.clone(), Some("{\"type\":\"1\"}")),
            (p.clone(), Some("{\"type\":\"1\",\"data\":7}")),
        ],
    );
    assert_eq!(lines, vec!["r.\"a\"\n", "r.\"a\"\n"]);
    assert_eq!(results, vec![(p.clone(), NixValue::Thunk), (p, NixValue::Int(7))]);
}

#[test]
fn a_failed_write_terminates_the_evaluator_once() {
    let mut host = WorkerHost::new();
    let action = host.step(Event::Request(path(&["nixosConfigurations"])));
    assert_eq!(action, Action::Write("nixosConfigurations\n".to_string()));
    assert_eq!(host.step(Event::WriteFailed), Action::Kill);
    assert!(host.is_closed());
    assert_eq!(host.in_flight(), None);
    let later = vec![
        Event::Request(path(&["nixosConfigurations", "foo"])),
        Event::Written,
        Event::WriteFailed,
        Event::Line("{\"type\":\"6\"}".to_string()),
        Event::ReadFailed,
        Event::QueueClosed,
    ];
    for event in later {
        assert_eq!(host.step(event), Action::Nothing);
        assert!(host.is_closed());
    }
}

#[test]
fn a_failed_write_after_served_requests_terminates_the_evaluator() {
    let mut host = WorkerHost::new();
    let (_, results) = serve(&mut host, vec![(path(&["r", "a"]), Some("{\"type\":\"6\"}"))]);
    assert_eq!(results.len(), 1);
    assert!(matches!(host.step(Event::Request(path(&["r", "b"]))), Action::Write(_)));
    assert_eq!(host.step(Event::WriteFailed), Action::Kill);
    assert!(host.is_closed());
}

#[test]
fn a_closed_queue_terminates_the_evaluator() {
    let mut host = WorkerHost::new();
    assert_eq!(host.step(Event::QueueClosed), Action::Kill);
    assert!(host.is_closed());
    assert_eq!(host.step(Event::QueueClosed), Action::Nothing);
    assert!(host.is_closed());
}

#[test]
fn one_request_is_in_flight_at_most() {
    let first = path(&["r", "a"]);
    let second = path(&["r", "b"]);
    let mut host = WorkerHost::new();
    host.step(Event::Request(first.clone()));
    assert_eq!(host.step(Event::Request(second.clone())), Action::Nothing);
    assert_eq!(host.in_flight(), Some(&first));
    host.step(Event::Written);
    assert_eq!(host.step(Event::Request(second)), Action::Nothing);
    assert_eq!(host.in_flight(), Some(&first));
    assert_eq!(host.step(Event::QueueClosed), Action::Nothing);
    assert!(!host.is_closed());
}

#[test]
fn events_that_are_not_awaited_change_nothing() {
    let mut host = WorkerHost::new();
    assert_eq!(host.step(Event::Written), Action::Nothing);
    assert_eq!(host.step(Event::Line("{\"type\":\"6\"}".to_string())), Action::Nothing);
    assert_eq!(host.step(Event::WriteFailed), Action::Nothing);
    assert_eq!(host.step(Event::ReadFailed), Action::Nothing);
    assert!(!host.is_closed());
    assert_eq!(host.in_flight(), None);
    host.step(Event::Request(path(&["r"])));
    assert_eq!(host.step(Event::Line("{\"type\":\"6\"}".to_string())), Action::Nothing);
    assert_eq!(host.step(Event::ReadFailed), Action::Nothing);
    assert_eq!(host.in_flight(), Some(&path(&["r"])));
    host.step(Event::Written);
    assert_eq!(host.step(Event::Written), Action::Nothing);
    assert_eq!(host.step(Event::WriteFailed), Action::Nothing);
    assert_eq!(host.in_flight(), Some(&path(&["r"])));
    assert!(!host.is_closed());
}
