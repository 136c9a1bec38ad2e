use tinydnsproxy::block_list::{BlockListFormat, BlockLists};
use tinydnsproxy::config::DnsServer;
use tinydnsproxy::error::{DoTError, DoTErrorKind};
use tinydnsproxy::listener::{
    relay_reply, reload_due, reload_step, request_action, ReloadStep, RequestAction,
};
use tinydnsproxy::tls_connection::{choose_server, response_length};
use tinydnsproxy::tls_message;

fn query(id: [u8; 2], name: &[u8]) -> Vec<u8> {
    let mut msg = vec![id[0], id[1], 0x01, 0x00, 0x00, 0x01, 0, 0, 0, 0, 0, 0];
    msg.extend_from_slice(name);
    msg.extend_from_slice(&[0x00, 0x01, 0x00, 0x01]);
    msg
}

fn store() -> BlockLists {
    let mut lists = BlockLists::new();
    lists
        .add_file(&"/lists/ads".to_string(), &BlockListFormat::OnePerLine, b"ads.example.com\n")
        .unwrap();
    lists
}

#[test]
fn blocked_query_is_answered_with_nxdomain() {
    let lists = store();
    let msg = query([0xab, 0xcd], b"\x03ads\x07example\x03com\x00");
    match request_action(&msg, Some(&lists)) {
        RequestAction::Reply(r) => {
            assert_eq!(&r[0..2], &[0xab, 0xcd]);
            assert_eq!(r[3] & 0x0f, 3);
            assert_eq!(r[2] & 0x80, 0x80);
            assert_eq!(&r[12..], &msg[12..]);
        }
        other => panic!("expected a reply, got {:?}", other),
    }
}

#[test]
fn other_query_is_forwarded_and_answer_relayed() {
    let lists = store();
    let msg = query([0x12, 0x34], b"\x02ok\x07example\x03com\x00");
    match request_action(&msg, Some(&lists)) {
        RequestAction::Forward(f) => {
            assert_eq!(f, tls_message::serialize(&msg).unwrap());
            assert_eq!(tls_message::deserialize(&f).unwrap(), msg);
        }
        other => panic!("expected a forward, got {:?}", other),
    }
    let payload = vec![0x12, 0x34, 0x81, 0x80, 9, 9, 9];
    assert_eq!(relay_reply(Ok(payload.clone())), Some(payload));
}

#[test]
fn unreadable_lists_fail_open() {
    let msg = query([0, 1], b"\x03ads\x07example\x03com\x00");
    assert!(matches!(request_action(&msg, None), RequestAction::Forward(_)));
}

#[test]
fn unparsable_query_fails_open() {
    let mut msg = query([0, 1], b"\x03ads\x07example\x03com\x00");
    msg[5] = 2;
    let lists = store();
    assert!(matches!(request_action(&msg, Some(&lists)), RequestAction::Forward(_)));
}

#[test]
fn empty_datagram_is_dropped() {
    let lists = store();
    assert!(matches!(request_action(&[], Some(&lists)), RequestAction::Drop));
}

#[test]
fn failed_relay_sends_nothing() {
    let e = DoTError::new(DoTErrorKind::Io("reset".to_string()));
    assert_eq!(relay_reply(Err(e)), None);
}

#[test]
fn reload_is_due_after_the_interval() {
    assert!(!reload_due(1, 60));
    assert!(reload_due(1, 61));
    assert!(!reload_due(30, 1800));
    assert!(reload_due(30, 1801));
    assert!(!reload_due(u64::MAX, u64::MAX));
}

#[test]
fn response_length_is_bounded() {
    assert_eq!(response_length(&[0x20, 0x00]).unwrap(), 8192);
    assert_eq!(response_length(&[0x01, 0x02]).unwrap(), 258);
    let e = response_length(&[0x20, 0x01]).unwrap_err();
    assert!(matches!(e.kind, DoTErrorKind::MessageTooLarge));
}

#[test]
fn choose_server_picks_a_configured_one() {
    let servers = vec![
        DnsServer {
            ip_address: "1.1.1.1".to_string(),
            port: 853,
            hostname: "cloudflare-dns.com".to_string(),
        },
        DnsServer {
            ip_address: "8.8.8.8".to_string(),
            port: 853,
            hostname: "dns.google".to_string(),
        },
    ];
    for _ in 0..20 {
        let s = choose_server(&servers).unwrap();
        assert!(s.ip_address == "1.1.1.1" || s.ip_address == "8.8.8.8");
    }
    let e = choose_server(&Vec::new()).unwrap_err();
    assert!(matches!(e.kind, DoTErrorKind::NoAvailableServers));
}

#[test]
fn reload_step_stops_first() {
    assert_eq!(reload_step(true, 1, 1000), ReloadStep::Stop);
    assert_eq!(reload_step(false, 1, 1000), ReloadStep::Reload);
    assert_eq!(reload_step(false, 1, 60), ReloadStep::Sleep);
}
