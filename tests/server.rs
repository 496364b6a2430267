use websocket::communicator::{CommunicatorType, Error};
use websocket::server::{CommunicatorStatus, Message, MessageType, Server, PAGE_SIZE};

#[derive(Debug)]
struct Adapter;

fn log_of<C>(s: &Server<C>) -> Vec<(String, MessageType)> {
    let mut out = Vec::new();
    let mut p = 0;
    loop {
        let page = s.get_page(p);
        if page.is_empty() {
            break;
        }
        for m in page {
            out.push((m.body, m.msg_type));
        }
        p += 1;
    }
    out
}

#[test]
fn message_new_keeps_body_and_direction() {
    let m = Message::new("status".to_string(), MessageType::IN);
    assert_eq!(m.body, "status");
    assert_eq!(m.msg_type, MessageType::IN);
    assert!(m.timestamp > 0);
    let c = m.copied();
    assert_eq!(c.body, m.body);
    assert_eq!(c.timestamp, m.timestamp);
}

#[test]
fn new_server_status_follows_communicator() {
    let with: Server<Adapter> = Server::new("a".to_string(), Some(Adapter));
    assert_eq!(with.status_now(), CommunicatorStatus::DISCONNECTED);
    assert!(with.communicator().is_some());
    let without: Server<Adapter> = Server::new("b".to_string(), None);
    assert_eq!(without.status_now(), CommunicatorStatus::MISSING);
    assert!(without.communicator().is_none());
    assert_eq!(without.message_count(), 0);
    assert_ne!(with.id(), without.id());
    assert_eq!(with.info().id, with.id());
    assert_eq!(without.info().id, without.id());
    assert!(with.info().settings.is_null());
    assert!(with.info().clients.is_null());
    assert_eq!(with.info().name, "a");
}

#[test]
fn set_name_changes_name_only() {
    let mut s: Server<Adapter> = Server::new_with_id(7, "old".to_string(), None);
    s.set_name("new".to_string());
    assert_eq!(s.name(), "new");
    assert_eq!(s.id(), 7);
    assert_eq!(s.info().name, "new");
    assert_eq!(s.status_now(), CommunicatorStatus::MISSING);
}

#[test]
fn connect_without_communicator_succeeds_and_stays_missing() {
    let mut s: Server<Adapter> = Server::new("x".to_string(), None);
    assert_eq!(s.begin_connect(), Some(Ok(())));
    assert_eq!(s.status_now(), CommunicatorStatus::MISSING);
}

#[test]
fn send_without_communicator_logs_sentinel() {
    let mut s: Server<Adapter> = Server::new("x".to_string(), None);
    let r = s.begin_send_cmd("foo".to_string());
    assert_eq!(r, Some("No communicator has been set up!".to_string()));
    assert_eq!(
        log_of(&s),
        vec![
            ("foo".to_string(), MessageType::IN),
            ("No communicator has been set up!".to_string(), MessageType::OUT),
        ]
    );
    assert_eq!(s.status_now(), CommunicatorStatus::MISSING);
}

#[test]
fn failed_connect_goes_back_to_disconnected() {
    let mut s: Server<Adapter> = Server::new("x".to_string(), Some(Adapter));
    assert_eq!(s.status_now(), CommunicatorStatus::DISCONNECTED);
    assert_eq!(s.begin_connect(), None);
    assert_eq!(s.status_now(), CommunicatorStatus::CONNECTING);
    assert_eq!(s.finish_connect(false), Err(Error::ConnectionError));
    assert_eq!(s.status_now(), CommunicatorStatus::DISCONNECTED);
}

#[test]
fn successful_connect_reaches_connected() {
    let mut s: Server<Adapter> = Server::new("x".to_string(), Some(Adapter));
    assert_eq!(s.begin_connect(), None);
    assert_eq!(s.finish_connect(true), Ok(()));
    assert_eq!(s.status_now(), CommunicatorStatus::CONNECTED);
    assert_eq!(s.message_count(), 0);
}

#[test]
fn send_with_communicator_logs_response() {
    let mut s: Server<Adapter> = Server::new("x".to_string(), Some(Adapter));
    assert_eq!(s.begin_send_cmd("status".to_string()), None);
    assert_eq!(s.message_count(), 1);
    assert_eq!(s.finish_send_cmd("ok".to_string()), "ok");
    assert_eq!(
        log_of(&s),
        vec![("status".to_string(), MessageType::IN), ("ok".to_string(), MessageType::OUT)]
    );
}

#[test]
fn pages_are_clipped_and_empty_past_end() {
    let mut s: Server<Adapter> = Server::new("x".to_string(), None);
    for i in 0..60 {
        s.begin_send_cmd(format!("c{}", i));
    }
    assert_eq!(s.message_count(), 120);
    assert_eq!(PAGE_SIZE, 50);
    let first_page = s.get_page(0);
    assert_eq!(first_page.len(), 50);
    assert_eq!(first_page[0].body, "c0");
    assert_eq!(first_page[1].body, "No communicator has been set up!");
    assert_eq!(s.get_page(1).len(), 50);
    let last_page = s.get_page(2);
    assert_eq!(last_page.len(), 20);
    assert_eq!(last_page[0].body, "c50");
    assert!(s.get_page(3).is_empty());
    assert!(s.get_page(1000).is_empty());
    assert!(s.get_page(usize::MAX).is_empty());
}

#[test]
fn page_of_empty_log_is_empty() {
    let s: Server<Adapter> = Server::new("x".to_string(), Some(Adapter));
    assert!(s.get_page(0).is_empty());
}

#[test]
fn page_read_twice_is_the_same() {
    let mut s: Server<Adapter> = Server::new("x".to_string(), Some(Adapter));
    s.begin_send_cmd("a".to_string());
    s.finish_send_cmd("b".to_string());
    let first: Vec<String> = s.get_page(0).into_iter().map(|m| m.body).collect();
    s.begin_connect();
    s.finish_connect(false);
    let second: Vec<String> = s.get_page(0).into_iter().map(|m| m.body).collect();
    assert_eq!(first, second);
    assert_eq!(first, vec!["a".to_string(), "b".to_string()]);
}

#[test]
fn create_builds_adapter_only_for_a_kind() {
    let with: Server<u8> = Server::create("a".to_string(), Some(CommunicatorType::CSGO), |_| 7);
    assert_eq!(with.communicator(), Some(&7));
    assert_eq!(with.status_now(), CommunicatorStatus::DISCONNECTED);
    let without: Server<u8> = Server::create("b".to_string(), None, |_| 7);
    assert_eq!(without.communicator(), None);
    assert_eq!(without.status_now(), CommunicatorStatus::MISSING);
    assert_eq!(without.name(), "b");
}

#[test]
fn settings_come_from_the_communicator() {
    let with: Server<u8> = Server::new("a".to_string(), Some(5));
    assert_eq!(with.get_settings(|c| serde_json::Value::from(*c)), serde_json::Value::from(5));
    let without: Server<u8> = Server::new("b".to_string(), None);
    assert!(without.get_settings(|c| serde_json::Value::from(*c)).is_null());
}
