use lanshare::access::{
    address_in_network, gen_token, hex_str, new_ip, token_from_digits, NETWORK_OCTET, TOKEN_LEN,
};
use lanshare::action::{handle_connection, Action, Dispatch, Inbound, ServerHandler};
use lanshare::db::{Db, NETMASK};
use lanshare::error::{Error, SessionError, TransportError};
use lanshare::octets::to_octets;
use lanshare::routing::RoutingInfo;
use lanshare::wire::FrameError;

fn is_hex(c: char) -> bool {
    c.is_ascii_digit() || ('a'..='f').contains(&c)
}

#[test]
fn login_hands_out_token_and_address() {
    let mut db = Db::try_new().unwrap();
    let resp = db.login("alice").unwrap();
    assert_eq!(resp.token.len(), TOKEN_LEN);
    assert!(resp.token.chars().all(is_hex));
    assert_eq!(to_octets(resp.address)[0], 25);
    assert_eq!(resp.netmask, 0xFF00_0000);
    assert_eq!(to_octets(resp.netmask), [255, 0, 0, 0]);
    assert_eq!(db.len(), 1);
    assert!(db.contains("alice"));
    assert!(!db.contains("bob"));
}

#[test]
fn second_login_with_the_same_name_fails() {
    let mut db = Db::try_new().unwrap();
    let first = db.login("alice").unwrap();
    assert_eq!(db.login("alice"), Err(Error::Session(SessionError::UserAlreadyExists)));
    assert_eq!(db.len(), 1);
    assert_eq!(db.upgrade_conn(&first.token), Ok(first.address));
    assert!(db.login("bob").is_ok());
    assert_eq!(db.len(), 2);
}

#[test]
fn upgrade_finds_the_address_of_a_token() {
    let mut db = Db::try_new().unwrap();
    let alice = db.login("alice").unwrap();
    let bob = db.login("bob").unwrap();
    assert_eq!(db.upgrade_conn(&alice.token), Ok(alice.address));
    assert_eq!(db.upgrade_conn(&bob.token), Ok(bob.address));
    assert_eq!(db.upgrade_conn("no such token"), Err(SessionError::SessionNotFound));
    assert_eq!(db.upgrade_conn(""), Err(SessionError::SessionNotFound));
}

#[test]
fn register_keeps_what_it_is_given() {
    let mut db = Db::try_new().unwrap();
    let resp = db.register("carol", 0x1901_0203, "00ff00ff00ff00ff".to_string()).unwrap();
    assert_eq!(resp.token, "00ff00ff00ff00ff");
    assert_eq!(resp.address, 0x1901_0203);
    assert_eq!(resp.netmask, NETMASK);
    assert_eq!(
        db.register("carol", 0x1909_0909, "1111111111111111".to_string()),
        Err(SessionError::UserAlreadyExists)
    );
    assert_eq!(db.upgrade_conn("1111111111111111"), Err(SessionError::SessionNotFound));
    assert_eq!(db.upgrade_conn("00ff00ff00ff00ff"), Ok(0x1901_0203));
}

#[test]
fn a_shared_token_leads_to_its_first_holder() {
    let mut db = Db::try_new().unwrap();
    db.register("carol", 1, "t".to_string()).unwrap();
    db.register("dave", 2, "t".to_string()).unwrap();
    assert_eq!(db.upgrade_conn("t"), Ok(1));
}

#[test]
fn an_empty_registry_knows_nobody() {
    let db = Db::try_new().unwrap();
    assert_eq!(db.len(), 0);
    assert!(!db.contains(""));
    assert_eq!(db.upgrade_conn("t1"), Err(SessionError::SessionNotFound));
}

#[test]
fn tokens_are_spelled_in_lower_case_hex() {
    let digits: Vec<u8> = (0..16).collect();
    assert_eq!(token_from_digits(&digits), "0123456789abcdef");
    assert_eq!(token_from_digits(&[]), "");
    assert_eq!(token_from_digits(&[16, 31, 255]), "0ff");
    assert_eq!(hex_str(10), "a");
    assert_eq!(hex_str(9), "9");
    assert_eq!(hex_str(26), "a");
}

#[test]
fn generated_tokens_are_random_hex() {
    let tokens: Vec<String> = (0..8).map(|_| gen_token::<16>()).collect();
    for token in &tokens {
        assert_eq!(token.len(), 16);
        assert!(token.chars().all(is_hex));
    }
    assert!(tokens.iter().any(|token| token != "ffffffffffffffff"));
    assert!(tokens.iter().any(|token| *token != tokens[0]));
    assert_eq!(gen_token::<0>(), "");
    assert_eq!(gen_token::<5>().len(), 5);
}

#[test]
fn generated_addresses_lie_in_the_network() {
    let addresses: Vec<u32> = (0..16).map(|_| new_ip()).collect();
    for address in &addresses {
        assert_eq!(to_octets(*address)[0], NETWORK_OCTET);
        assert_eq!(*address >> 24, 25);
    }
    assert!(addresses.iter().any(|address| *address != 0x19ff_ffff));
    assert!(addresses.iter().any(|address| *address != addresses[0]));
    assert_eq!(address_in_network(7, 8, 9), 0x1907_0809);
    assert_eq!(address_in_network(0, 0, 0), 25 << 24);
}

#[test]
fn login_message_is_answered() {
    let mut db = Db::try_new().unwrap();
    let out = Action::Login { name: "alice".to_string() }.handle_action(&mut db);
    let resp = match out {
        Dispatch::Respond(resp) => resp,
        other => panic!("{other:?}"),
    };
    assert_eq!(resp.address >> 24, 25);
    assert_eq!(resp.netmask, NETMASK);
    assert_eq!(
        Action::Login { name: "alice".to_string() }.handle_action(&mut db),
        Dispatch::Fail(Error::Session(SessionError::UserAlreadyExists))
    );
    assert_eq!(
        Action::UpgradeConn { token: resp.token.clone() }.handle_action(&mut db),
        Dispatch::Upgrade { address: resp.address }
    );
    assert_eq!(
        Action::UpgradeConn { token: "nobody".to_string() }.handle_action(&mut db),
        Dispatch::Fail(Error::Session(SessionError::SessionNotFound))
    );
    assert_eq!(db.len(), 1);
}

#[test]
fn a_bad_connection_ends_alone() {
    let mut db = Db::try_new().unwrap();
    db.register("alice", 0x1900_0001, "t1".to_string()).unwrap();
    assert_eq!(handle_connection(Inbound::Closed, &mut db), Dispatch::Closed);
    assert_eq!(
        handle_connection(Inbound::Failed(TransportError::Io), &mut db),
        Dispatch::Fail(Error::Transport(TransportError::Io))
    );
    assert_eq!(
        handle_connection(Inbound::Rejected(FrameError::Malformed), &mut db),
        Dispatch::Fail(Error::Frame(FrameError::Malformed))
    );
    assert_eq!(
        handle_connection(Inbound::Rejected(FrameError::TooLarge), &mut db),
        Dispatch::Fail(Error::Frame(FrameError::TooLarge))
    );
    assert_eq!(db.len(), 1);
    assert_eq!(
        handle_connection(Inbound::Message(Action::UpgradeConn { token: "t1".to_string() }), &mut db),
        Dispatch::Upgrade { address: 0x1900_0001 }
    );
    assert!(matches!(
        handle_connection(Inbound::Message(Action::Login { name: "bob".to_string() }), &mut db),
        Dispatch::Respond(_)
    ));
    assert_eq!(db.len(), 2);
}

#[test]
fn server_handler_binds_address_and_stream() {
    let mut db = Db::try_new().unwrap();
    db.register("alice", 0x1900_0001, "t1".to_string()).unwrap();
    let handler = ServerHandler { db: &db };
    assert_eq!(handler.upgrade("t1"), Ok(0x1900_0001));
    assert_eq!(handler.upgrade("t2"), Err(Error::Session(SessionError::SessionNotFound)));
    assert_eq!(
        ServerHandler::established(0x1900_0001, Ok(("recv", "send"))),
        Ok(RoutingInfo { ip: 0x1900_0001, recv: "recv", send: "send" })
    );
    assert_eq!(
        ServerHandler::established::<u8, u8>(0x1900_0001, Err(TransportError::StreamOpen)),
        Err(Error::Transport(TransportError::StreamOpen))
    );
}

#[test]
fn errors_have_a_line_for_the_log() {
    assert_eq!(Error::Session(SessionError::UserAlreadyExists).describe(), "user already exists");
    assert_eq!(Error::Frame(FrameError::Insufficient).describe(), "data had insufficient len bytes");
    assert_eq!(
        Error::Transport(TransportError::PrematureClosure).describe(),
        "server closed the connection prematurely"
    );
}
