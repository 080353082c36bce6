use sbmp::relay::new_client;
use sbmp::relay::new_message;
use sbmp::relay::server;
use sbmp::Client;
use sbmp::ClientRegistry;
use sbmp::ContentType;
use sbmp::Effect;
use sbmp::FrameReader;
use sbmp::Message;

fn named(name: &str, ip: &str) -> Client {
    let mut client = Client::new(String::from(ip));
    assert_eq!(client.set_username(String::from(name)), Some(name));
    client
}

fn names(list: &[&str]) -> Vec<String> {
    list.iter().map(|name| String::from(*name)).collect()
}

fn table(list: &[&str]) -> ClientRegistry {
    let mut clients = ClientRegistry::new();
    for name in list {
        assert_eq!(clients.new_client(named(name, "10.0.0.1:1")), Ok(()));
    }
    clients
}

#[test]
fn a_new_table_is_empty() {
    let clients = ClientRegistry::new();
    assert_eq!(clients.len(), 0);
    assert_eq!(clients.targets(), Vec::<String>::new());
    assert!(!clients.contains(&String::from("alice")));
}

#[test]
fn clients_stand_in_the_order_they_came() {
    let clients = table(&["carol", "alice", "bob"]);
    assert_eq!(clients.len(), 3);
    assert_eq!(clients.targets(), names(&["carol", "alice", "bob"]));
    assert!(clients.contains(&String::from("alice")));
    assert!(!clients.contains(&String::from("dave")));
}

#[test]
fn a_taken_name_is_refused_and_the_table_stays() {
    let mut clients = table(&["alice", "bob"]);
    let second = named("alice", "10.0.0.9:9");
    assert_eq!(clients.new_client(second.clone()), Err(second));
    assert_eq!(clients.len(), 2);
    assert_eq!(clients.targets(), names(&["alice", "bob"]));
    let gone = clients.drop_client(&String::from("alice")).unwrap();
    assert_eq!(gone.ip(), "10.0.0.1:1");
}

#[test]
fn dropping_is_idempotent() {
    let mut clients = table(&["alice", "bob"]);
    assert_eq!(clients.drop_client(&String::from("alice")), Some(named("alice", "10.0.0.1:1")));
    assert_eq!(clients.targets(), names(&["bob"]));
    assert_eq!(clients.drop_client(&String::from("alice")), None);
    assert_eq!(clients.targets(), names(&["bob"]));
    assert_eq!(clients.drop_client(&String::from("nobody")), None);
    assert_eq!(clients.targets(), names(&["bob"]));
}

#[test]
fn a_failed_write_removes_exactly_that_client() {
    let all = ["a", "b", "c", "d", "e"];
    for k in 0..all.len() {
        let mut clients = table(&all);
        let removed = clients.prune(&names(&[all[k]]));
        assert_eq!(removed, vec![named(all[k], "10.0.0.1:1")]);
        let mut others = names(&all);
        others.remove(k);
        assert_eq!(clients.targets(), others);
        match new_message("next", &mut clients) {
            Effect::Deliver { to, .. } => assert_eq!(to, others),
            other => panic!("{other:?}"),
        }
    }
}

#[test]
fn pruning_takes_all_that_are_listed_and_no_others() {
    let mut clients = table(&["a", "b", "c", "d"]);
    let removed = clients.prune(&names(&["d", "x", "b", "b"]));
    assert_eq!(removed, vec![named("b", "10.0.0.1:1"), named("d", "10.0.0.1:1")]);
    assert_eq!(clients.targets(), names(&["a", "c"]));
    assert_eq!(clients.prune(&Vec::new()), Vec::<Client>::new());
    assert_eq!(clients.targets(), names(&["a", "c"]));
}

#[test]
fn clearing_hands_everyone_out() {
    let mut clients = table(&["a", "b"]);
    assert_eq!(clients.clear(), vec![named("a", "10.0.0.1:1"), named("b", "10.0.0.1:1")]);
    assert_eq!(clients.len(), 0);
}

#[test]
fn the_relay_lets_a_newcomer_in() {
    let mut clients = ClientRegistry::new();
    assert_eq!(server(&mut clients, Message::NewClient(named("alice", "1"))), Effect::Registered);
    assert_eq!(new_client(&mut clients, named("bob", "2")), Effect::Registered);
    assert_eq!(clients.targets(), names(&["alice", "bob"]));
}

#[test]
fn the_relay_turns_a_taken_name_away_with_a_notice() {
    let mut clients = table(&["alice"]);
    let third = named("alice", "10.0.0.3:3");
    let effect = server(&mut clients, Message::NewClient(third.clone()));
    let mut notice = vec![1, 0, 0, 0, 0, 44];
    notice.extend_from_slice(b"INFO: This username is already on the server");
    assert_eq!(effect, Effect::Rejected { client: third, notice });
    assert_eq!(clients.targets(), names(&["alice"]));
}

#[test]
fn the_relay_delivers_to_everyone_registered_when_the_text_is_handled() {
    let mut clients = table(&["alice"]);
    let frame = vec![1, 0, 0, 0, 0, 2, b'h', b'i'];
    assert_eq!(
        server(&mut clients, Message::Broadcast(String::from("hi"))),
        Effect::Deliver { frame: frame.clone(), to: names(&["alice"]) }
    );
    assert_eq!(server(&mut clients, Message::NewClient(named("bob", "2"))), Effect::Registered);
    assert_eq!(
        server(&mut clients, Message::Broadcast(String::from("hi"))),
        Effect::Deliver { frame, to: names(&["alice", "bob"]) }
    );
}

#[test]
fn a_broadcast_to_nobody_goes_to_nobody() {
    let mut clients = ClientRegistry::new();
    assert_eq!(
        new_message("", &mut clients),
        Effect::Deliver { frame: vec![1, 0, 0, 0, 0, 0], to: Vec::new() }
    );
}

#[test]
fn a_text_that_fits_no_frame_costs_everyone_their_place() {
    let mut clients = table(&["alice", "bob"]);
    let effect = server(&mut clients, Message::Broadcast("x".repeat(4097)));
    assert_eq!(effect, Effect::Undeliverable(vec![named("alice", "10.0.0.1:1"), named("bob", "10.0.0.1:1")]));
    assert_eq!(clients.len(), 0);
    let mut clients = table(&["alice"]);
    assert!(matches!(new_message(&"x".repeat(4096), &mut clients), Effect::Deliver { .. }));
    assert_eq!(clients.len(), 1);
}

#[test]
fn the_relay_drops_who_is_there_and_ignores_who_is_not() {
    let mut clients = table(&["alice", "bob"]);
    assert_eq!(
        server(&mut clients, Message::Drop(String::from("alice"))),
        Effect::Dropped(Some(named("alice", "10.0.0.1:1")))
    );
    assert_eq!(server(&mut clients, Message::Drop(String::from("alice"))), Effect::Dropped(None));
    assert_eq!(clients.targets(), names(&["bob"]));
}

#[test]
fn alice_says_hi_and_both_receive_it() {
    let mut clients = ClientRegistry::new();
    assert_eq!(server(&mut clients, Message::NewClient(named("alice", "10.0.0.1:1"))), Effect::Registered);
    assert_eq!(server(&mut clients, Message::NewClient(named("bob", "10.0.0.2:2"))), Effect::Registered);
    let effect = server(&mut clients, Message::Broadcast(String::from("hi")));
    let Effect::Deliver { frame, to } = effect else { panic!("{effect:?}") };
    // The sender is not left out: everyone registered is written to.
    assert_eq!(to, names(&["alice", "bob"]));
    let received = FrameReader::new(frame).read_frame().unwrap();
    let (header, payload) = received.get();
    assert_eq!(*header.content_type(), ContentType::UTF8);
    assert_eq!(header.content_len(), 2);
    assert_eq!(payload, &b"hi".to_vec());
}

#[test]
fn a_third_alice_is_turned_away_and_the_first_stays() {
    let mut clients = ClientRegistry::new();
    let first = named("alice", "10.0.0.1:1");
    assert_eq!(server(&mut clients, Message::NewClient(first.clone())), Effect::Registered);
    assert_eq!(server(&mut clients, Message::NewClient(named("bob", "10.0.0.2:2"))), Effect::Registered);
    let third = named("alice", "10.0.0.3:3");
    let effect = server(&mut clients, Message::NewClient(third.clone()));
    assert!(matches!(effect, Effect::Rejected { client, .. } if client == third));
    assert_eq!(clients.targets(), names(&["alice", "bob"]));
    assert_eq!(clients.clear()[0], first);
}

#[test]
fn alice_leaves_once_and_bob_alone_hears_the_next() {
    let mut clients = ClientRegistry::new();
    assert_eq!(server(&mut clients, Message::NewClient(named("alice", "10.0.0.1:1"))), Effect::Registered);
    assert_eq!(server(&mut clients, Message::NewClient(named("bob", "10.0.0.2:2"))), Effect::Registered);
    assert_eq!(
        server(&mut clients, Message::Drop(String::from("alice"))),
        Effect::Dropped(Some(named("alice", "10.0.0.1:1")))
    );
    assert_eq!(server(&mut clients, Message::Drop(String::from("alice"))), Effect::Dropped(None));
    assert_eq!(
        server(&mut clients, Message::Broadcast(String::from("yo"))),
        Effect::Deliver { frame: vec![1, 0, 0, 0, 0, 2, b'y', b'o'], to: names(&["bob"]) }
    );
}
