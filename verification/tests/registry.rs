use msger::address::{Address, IpAddress};
use msger::error::HandshakeRejected;
use msger::registry::{Admission, Session, SessionRegistry};

fn peer(last: u32, port: u16) -> Address {
    Address::V4 { ip: 0x0a00_0000 + last, port }
}

fn names(sessions: &Vec<&Session<u32>>) -> Vec<String> {
    let mut names = Vec::new();
    for session in sessions {
        names.push(session.display_name.clone());
    }
    names
}

fn filled() -> SessionRegistry<u32> {
    let mut registry = SessionRegistry::new();
    let banned = Vec::new();
    for (i, name) in ["alice", "bob", "carol"].iter().enumerate() {
        let joined =
            registry.admit_session(peer(i as u32, 4000), String::from(*name), i as u32, &banned);
        assert!(matches!(joined, Admission::Admitted));
    }
    registry
}

#[test]
fn new_registry_is_empty() {
    let registry: SessionRegistry<u32> = SessionRegistry::new();
    assert_eq!(registry.len(), 0);
    assert!(!registry.contains(&peer(0, 4000)));
    assert_eq!(registry.display_name(&peer(0, 4000)), None);
    assert!(registry.broadcast_except(&peer(0, 4000)).is_empty());
}

#[test]
fn admitted_sessions_are_found_by_address() {
    let registry = filled();
    assert_eq!(registry.len(), 3);
    assert!(registry.contains(&peer(1, 4000)));
    assert_eq!(registry.display_name(&peer(1, 4000)), Some(&String::from("bob")));
    assert!(!registry.contains(&peer(1, 4001)));
    assert_eq!(registry.display_name(&peer(3, 4000)), None);
}

#[test]
fn second_admission_from_an_address_is_a_duplicate() {
    let mut registry = filled();
    let again = registry.admit_session(peer(1, 4000), String::from("mallory"), 99, &Vec::new());
    match again {
        Admission::Rejected(reason, handle) => {
            assert_eq!(reason, HandshakeRejected::DuplicateAddress);
            assert_eq!(handle, 99);
        }
        Admission::Admitted => panic!("a duplicate was admitted"),
    }
    assert_eq!(registry.len(), 3);
    assert_eq!(registry.display_name(&peer(1, 4000)), Some(&String::from("bob")));
    let all = registry.broadcast_except(&peer(9, 9));
    assert_eq!(names(&all), vec!["alice", "bob", "carol"]);
    assert_eq!(all[1].outbound, 1);
}

#[test]
fn banned_ip_is_rejected_on_any_port() {
    let mut registry = filled();
    let banned = vec![IpAddress::V4(0x0a00_0007)];
    for port in [1u16, 4000, 65535] {
        let joined = registry.admit_session(peer(7, port), String::from("eve"), 7, &banned);
        match joined {
            Admission::Rejected(reason, handle) => {
                assert_eq!(reason, HandshakeRejected::Banned);
                assert_eq!(handle, 7);
            }
            Admission::Admitted => panic!("a banned peer was admitted"),
        }
    }
    assert_eq!(registry.len(), 3);
    assert!(!registry.contains(&peer(7, 4000)));
}

#[test]
fn duplicate_is_reported_before_ban() {
    let mut registry = filled();
    let banned = vec![IpAddress::V4(0x0a00_0001)];
    let joined = registry.admit_session(peer(1, 4000), String::from("bob"), 5, &banned);
    assert!(matches!(joined, Admission::Rejected(HandshakeRejected::DuplicateAddress, 5)));
}

#[test]
fn same_ip_on_another_port_is_another_session() {
    let mut registry = filled();
    let joined = registry.admit_session(peer(1, 4001), String::from("bob2"), 4, &Vec::new());
    assert!(matches!(joined, Admission::Admitted));
    assert_eq!(registry.len(), 4);
    assert_eq!(registry.display_name(&peer(1, 4001)), Some(&String::from("bob2")));
    assert_eq!(registry.display_name(&peer(1, 4000)), Some(&String::from("bob")));
}

#[test]
fn ipv6_ban_does_not_touch_ipv4_peer_with_the_same_bits() {
    let mut registry: SessionRegistry<u32> = SessionRegistry::new();
    let banned = vec![IpAddress::V6(1)];
    let joined =
        registry.admit_session(Address::V4 { ip: 1, port: 1 }, String::from("a"), 0, &banned);
    assert!(matches!(joined, Admission::Admitted));
    let scoped = Address::V6 { ip: 1, port: 1, flowinfo: 0, scope_id: 0 };
    let joined = registry.admit_session(scoped, String::from("b"), 1, &banned);
    assert!(matches!(joined, Admission::Rejected(HandshakeRejected::Banned, 1)));
}

#[test]
fn removal_hands_out_the_session_and_keeps_the_others_in_place() {
    let mut registry = filled();
    let removed = registry.remove(&peer(1, 4000)).unwrap();
    assert_eq!(removed.display_name, "bob");
    assert_eq!(removed.address, peer(1, 4000));
    assert_eq!(removed.outbound, 1);
    assert_eq!(registry.len(), 2);
    assert!(!registry.contains(&peer(1, 4000)));
    let rest = registry.broadcast_except(&peer(1, 4000));
    assert_eq!(names(&rest), vec!["alice", "carol"]);
}

#[test]
fn removal_of_an_absent_address_changes_nothing() {
    let mut registry = filled();
    assert!(registry.remove(&peer(8, 4000)).is_none());
    assert_eq!(registry.len(), 3);
    let all = registry.broadcast_except(&peer(8, 4000));
    assert_eq!(names(&all), vec!["alice", "bob", "carol"]);
    assert_eq!(all[0].outbound, 0);
    assert_eq!(all[2].outbound, 2);
}

#[test]
fn removal_is_idempotent() {
    let mut registry = filled();
    assert!(registry.remove(&peer(0, 4000)).is_some());
    assert!(registry.remove(&peer(0, 4000)).is_none());
    assert_eq!(registry.len(), 2);
    let mut empty: SessionRegistry<u32> = SessionRegistry::new();
    assert!(empty.remove(&peer(0, 4000)).is_none());
    assert_eq!(empty.len(), 0);
}

#[test]
fn removed_address_may_join_again() {
    let mut registry = filled();
    assert!(registry.remove(&peer(0, 4000)).is_some());
    let joined = registry.admit_session(peer(0, 4000), String::from("alice2"), 10, &Vec::new());
    assert!(matches!(joined, Admission::Admitted));
    let all = registry.broadcast_except(&peer(9, 9));
    assert_eq!(names(&all), vec!["bob", "carol", "alice2"]);
}

#[test]
fn broadcast_goes_to_everyone_but_the_origin() {
    let registry = filled();
    for i in 0..3u32 {
        let recipients = registry.broadcast_except(&peer(i, 4000));
        assert_eq!(recipients.len(), 2);
        for session in &recipients {
            assert_ne!(session.address, peer(i, 4000));
            assert_ne!(session.outbound, i);
        }
        for j in 0..3u32 {
            if j != i {
                assert_eq!(recipients.iter().filter(|s| s.outbound == j).count(), 1);
            }
        }
    }
}

#[test]
fn lone_session_broadcasts_to_nobody() {
    let mut registry: SessionRegistry<u32> = SessionRegistry::new();
    let joined = registry.admit_session(peer(0, 1), String::from("solo"), 0, &Vec::new());
    assert!(matches!(joined, Admission::Admitted));
    assert!(registry.broadcast_except(&peer(0, 1)).is_empty());
}

#[test]
fn several_addresses_are_removed_at_once() {
    let mut registry = filled();
    registry.remove_all(&vec![peer(2, 4000), peer(5, 4000), peer(0, 4000)]);
    assert_eq!(registry.len(), 1);
    let rest = registry.broadcast_except(&peer(9, 9));
    assert_eq!(names(&rest), vec!["bob"]);
    registry.remove_all(&Vec::new());
    assert_eq!(registry.len(), 1);
}
