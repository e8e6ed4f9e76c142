use procwatch::command::{command_result, name_query, pid_query, shell_command, CommandLine, WatchResult};
use procwatch::name_watch::{Lookup, NameStep, NameWatch};
use procwatch::notify::{ConfigError, NotifyConfig, Notifier};
use procwatch::pid_watch::{is_alive, PidStep, PidWatch};
use procwatch::session::{Action, Event, Session, Stage, WatchTarget};
use procwatch::text::{decimal_string, parse_pid_list, parse_u32_at, pids_in_output};

fn chars(s: &str) -> Vec<char> {
    s.chars().collect()
}

fn words(c: &CommandLine) -> Vec<String> {
    let mut w = vec![c.program.clone()];
    w.extend(c.args.iter().cloned());
    w
}

fn notices(actions: &[Action]) -> Vec<String> {
    actions
        .iter()
        .filter_map(|a| match a {
            Action::Notify(m) => Some(m.clone()),
            _ => None,
        })
        .collect()
}

#[test]
fn decimal_renders_edges() {
    assert_eq!(decimal_string(0), "0");
    assert_eq!(decimal_string(7), "7");
    assert_eq!(decimal_string(10), "10");
    assert_eq!(decimal_string(999999), "999999");
    assert_eq!(decimal_string(u32::MAX), "4294967295");
}

#[test]
fn parse_u32_follows_str_parse() {
    for s in ["0", "42", "+42", "4294967295", "4294967296", "", "+", "-1", "1a", "007", "99999999999"] {
        let v = chars(s);
        assert_eq!(parse_u32_at(&v, 0, v.len()), s.parse::<u32>().ok(), "input {:?}", s);
    }
}

#[test]
fn pid_list_reads_one_id_per_line() {
    assert_eq!(parse_pid_list(&chars("123\n456\n")), vec![123, 456]);
    assert_eq!(parse_pid_list(&chars("  12 \r\n\n x \n 7")), vec![12, 7]);
    assert_eq!(parse_pid_list(&chars("\u{a0}5\u{3000}\n")), vec![5]);
    assert_eq!(parse_pid_list(&chars("")), Vec::<u32>::new());
    assert_eq!(parse_pid_list(&chars("4294967296\n1\n")), vec![1]);
}

#[test]
fn pids_in_output_decodes_bytes() {
    assert_eq!(pids_in_output(b"31\n32\n"), vec![31, 32]);
    assert_eq!(pids_in_output(b"\xff31\n9\n"), vec![9]);
    assert_eq!(pids_in_output(b""), Vec::<u32>::new());
}

#[test]
fn queries_name_the_tools() {
    assert_eq!(words(&pid_query(42)), vec!["ps", "-o", "pid=", "-p", "42"]);
    assert_eq!(words(&name_query("nginx")), vec!["pgrep", "nginx"]);
    assert_eq!(words(&shell_command("sleep 1 && exit 3")), vec!["sh", "-c", "sleep 1 && exit 3"]);
}

#[test]
fn alive_needs_nonempty_output() {
    assert!(is_alive(Some(b"    1\n")));
    assert!(!is_alive(Some(b"")));
    assert!(!is_alive(None));
}

#[test]
fn gone_pid_finishes_at_first_poll() {
    let mut w = PidWatch::new(999999, false);
    assert_eq!(words(&w.query()), vec!["ps", "-o", "pid=", "-p", "999999"]);
    assert_eq!(w.on_poll(false), PidStep::Finish { stop_indicator: true });
    assert!(w.finished);
    assert_eq!(w.polls, 1);
}

#[test]
fn silent_watch_has_no_indicator_to_stop() {
    let mut w = PidWatch::new(5, true);
    assert_eq!(w.on_poll(false), PidStep::Finish { stop_indicator: false });
}

#[test]
fn live_pid_is_polled_until_gone() {
    let mut w = PidWatch::new(77, false);
    for _ in 0..3 {
        assert_eq!(w.on_poll(true), PidStep::Wait);
        assert!(!w.finished);
    }
    assert_eq!(w.on_poll(false), PidStep::Finish { stop_indicator: true });
    assert_eq!(w.polls, 4);
}

#[test]
fn pid_label() {
    assert_eq!(PidWatch::new(12, false).label(), "Monitoring PID: 12");
}

#[test]
fn name_without_matches_ends_on_first_tick() {
    let mut w = NameWatch::new("no-such-process-xyz".to_string());
    assert_eq!(words(&w.query()), vec!["pgrep", "no-such-process-xyz"]);
    match w.on_lookup(Lookup::Printed(Vec::new())) {
        NameStep::Finish(WatchResult::Terminated) => {}
        _ => panic!("expected the watch to end"),
    }
    assert!(w.finished);
    assert_eq!(w.ticks, 1);
}

#[test]
fn name_matches_start_id_watches() {
    let mut w = NameWatch::new("sleep".to_string());
    match w.on_lookup(Lookup::Printed(b"100\n200\n".to_vec())) {
        NameStep::Spawn(p) => assert_eq!(p, vec![100, 200]),
        _ => panic!("expected id watches"),
    }
    assert!(!w.finished);
    match w.on_pids(vec![200]) {
        NameStep::Spawn(p) => assert_eq!(p, vec![200]),
        _ => panic!("expected id watches"),
    }
    match w.on_pids(vec![]) {
        NameStep::Finish(WatchResult::Terminated) => {}
        _ => panic!("expected the watch to end"),
    }
    assert_eq!(w.ticks, 3);
}

#[test]
fn failed_lookup_is_an_error() {
    let mut w = NameWatch::new("x".to_string());
    match w.on_lookup(Lookup::Failed("no pgrep".to_string())) {
        NameStep::Finish(WatchResult::Error(e)) => assert_eq!(e, "no pgrep"),
        _ => panic!("expected an error"),
    }
    assert!(w.finished);
}

#[test]
fn name_label() {
    assert_eq!(NameWatch::new("nginx".to_string()).label(), "Monitoring processes named: nginx");
}

#[test]
fn exit_status_classification() {
    assert!(command_result(Ok(Some(0))).is_success());
    match command_result(Ok(Some(3))) {
        WatchResult::Failed(Some(3)) => {}
        _ => panic!("expected failure with status 3"),
    }
    assert!(!command_result(Ok(Some(3))).is_success());
    assert!(!command_result(Ok(None)).is_success());
    match command_result(Err("interrupted".to_string())) {
        WatchResult::Error(e) => assert_eq!(e, "interrupted"),
        _ => panic!("expected an error"),
    }
}

#[test]
fn config_needs_both_values() {
    assert_eq!(
        NotifyConfig::from_values(None, Some("1".to_string())).err(),
        Some(ConfigError::MissingToken)
    );
    assert_eq!(NotifyConfig::from_values(None, None).err(), Some(ConfigError::MissingToken));
    assert_eq!(
        NotifyConfig::from_values(Some("t".to_string()), None).err(),
        Some(ConfigError::MissingChatId)
    );
    let c = NotifyConfig::from_values(Some("t".to_string()), Some("1".to_string())).ok().unwrap();
    assert_eq!(c.bot_token, "t");
    assert_eq!(c.chat_id, "1");
}

fn notifier() -> Notifier {
    Notifier::new(NotifyConfig { bot_token: "SECRET-REDACTED".to_string(), chat_id: "42".to_string() })
}

#[test]
fn request_carries_message() {
    let r = notifier().request("hello");
    assert_eq!(r.url, "https://api.telegram.org/botSECRET-REDACTED/sendMessage");
    assert_eq!(r.chat_id, "42");
    assert_eq!(r.text, "hello");
}

#[test]
fn same_message_twice_is_sent_twice() {
    let mut n = notifier();
    n.notify("done");
    n.notify("done");
    let sent = n.take_pending();
    assert_eq!(sent.len(), 2);
    assert_eq!(sent[0].text, "done");
    assert_eq!(sent[1].text, "done");
    assert!(n.take_pending().is_empty());
}

#[test]
fn messages_per_target() {
    let p = WatchTarget::ByPid(999999);
    assert_eq!(p.start_message(), "Starting to monitor PID: 999999");
    assert_eq!(p.finish_message(), "Process 999999 has finished.");
    let n = WatchTarget::ByName("nginx".to_string());
    assert_eq!(n.start_message(), "Monitoring processes named: nginx");
    assert_eq!(n.finish_message(), "Processes 'nginx' have finished.");
    let c = WatchTarget::ByCommand("make".to_string());
    assert_eq!(c.start_message(), "Starting command: 'make'");
    assert_eq!(c.finish_message(), "Command 'make' has finished.");
}

#[test]
fn pid_session_announces_then_reports() {
    let mut s = Session::new(WatchTarget::ByPid(999999));
    let mut all = s.on_event(Event::Begin);
    assert!(matches!(all[1], Action::WatchPid(999999)));
    let mut w = PidWatch::new(999999, false);
    assert_eq!(w.on_poll(false), PidStep::Finish { stop_indicator: true });
    all.extend(s.on_event(Event::WatchEnded(WatchResult::Terminated)));
    assert_eq!(
        notices(&all),
        vec!["Starting to monitor PID: 999999".to_string(), "Process 999999 has finished.".to_string()]
    );
    assert!(matches!(all.last(), Some(Action::Stop)));
    assert_eq!(s.stage, Stage::Done);
}

#[test]
fn command_session_brackets_failed_run() {
    let cmd = "sleep 1 && exit 3";
    let mut s = Session::new(WatchTarget::ByCommand(cmd.to_string()));
    let first = s.on_event(Event::Begin);
    assert!(matches!(&first[..], [Action::StartCommand(c)] if c == cmd));
    let mut all = s.on_event(Event::Started(4321));
    assert!(matches!(all[1], Action::AwaitCommand));
    let result = command_result(Ok(Some(3)));
    assert!(!result.is_success());
    all.extend(s.on_event(Event::WatchEnded(result)));
    assert_eq!(
        notices(&all),
        vec![
            "Starting command: 'sleep 1 && exit 3'".to_string(),
            "Command 'sleep 1 && exit 3' has finished.".to_string()
        ]
    );
    assert_eq!(s.stage, Stage::Done);
}

#[test]
fn command_that_cannot_start_is_not_announced() {
    let mut s = Session::new(WatchTarget::ByCommand("x".to_string()));
    let mut all = s.on_event(Event::Begin);
    all.extend(s.on_event(Event::StartFailed("not found".to_string())));
    assert!(notices(&all).is_empty());
    assert_eq!(s.stage, Stage::Done);
}

#[test]
fn name_session_with_no_match() {
    let name = "no-such-process-xyz";
    let mut s = Session::new(WatchTarget::ByName(name.to_string()));
    let mut all = s.on_event(Event::Begin);
    assert!(matches!(&all[1], Action::WatchName(n) if n == name));
    let mut w = NameWatch::new(name.to_string());
    let end = match w.on_lookup(Lookup::Printed(Vec::new())) {
        NameStep::Finish(r) => r,
        NameStep::Spawn(_) => panic!("no id watch may start"),
    };
    all.extend(s.on_event(Event::WatchEnded(end)));
    assert_eq!(
        notices(&all),
        vec![
            "Monitoring processes named: no-such-process-xyz".to_string(),
            "Processes 'no-such-process-xyz' have finished.".to_string()
        ]
    );
}

#[test]
fn events_out_of_place_change_nothing() {
    let mut s = Session::new(WatchTarget::ByPid(1));
    assert!(s.on_event(Event::WatchEnded(WatchResult::Terminated)).is_empty());
    assert_eq!(s.stage, Stage::Ready);
    assert!(s.on_event(Event::Started(3)).is_empty());
    assert_eq!(s.stage, Stage::Ready);
}
