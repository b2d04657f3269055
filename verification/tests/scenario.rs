use lanshare::action::{handle_connection, Action, Dispatch, Inbound, ServerHandler};
use lanshare::db::Db;
use lanshare::error::{Error, SessionError};
use lanshare::octets::to_octets;
use lanshare::packet::{parsepkt, Forward};
use lanshare::routing::{handle_routing, RouteTable};

fn login(db: &mut Db, name: &str) -> Dispatch {
    handle_connection(Inbound::Message(Action::Login { name: name.to_string() }), db)
}

fn upgrade(db: &mut Db, table: &mut RouteTable<&'static str>, token: &str, stream: &'static str) {
    let address = match handle_connection(
        Inbound::Message(Action::UpgradeConn { token: token.to_string() }),
        db,
    ) {
        Dispatch::Upgrade { address } => address,
        other => panic!("{other:?}"),
    };
    let info = ServerHandler::established(address, Ok(((), stream))).unwrap();
    assert_eq!(info.ip, address);
    handle_routing(table, info);
}

#[test]
fn alice_gets_what_bob_sends_her() {
    let mut db = Db::try_new().unwrap();
    let mut table: RouteTable<&'static str> = RouteTable::new();

    let alice = match login(&mut db, "alice") {
        Dispatch::Respond(resp) => resp,
        other => panic!("{other:?}"),
    };
    assert_eq!(to_octets(alice.address)[0], 25);
    assert_eq!(to_octets(alice.netmask), [255, 0, 0, 0]);

    assert_eq!(
        login(&mut db, "alice"),
        Dispatch::Fail(Error::Session(SessionError::UserAlreadyExists))
    );

    let bob = match login(&mut db, "bob") {
        Dispatch::Respond(resp) => resp,
        other => panic!("{other:?}"),
    };

    upgrade(&mut db, &mut table, &alice.token, "alice's stream");
    if bob.token != alice.token && bob.address != alice.address {
        upgrade(&mut db, &mut table, &bob.token, "bob's stream");
    }
    assert_eq!(table.get(alice.address), Some(&"alice's stream"));

    let mut datagram = vec![0x45, 0, 0, 20, 0, 0, 0, 0, 64, 17, 0, 0];
    datagram.extend_from_slice(&to_octets(bob.address));
    datagram.extend_from_slice(&to_octets(alice.address));
    assert_eq!(datagram.len(), 20);

    assert_eq!(
        parsepkt(&datagram, &table),
        Forward::Deliver { stream: &"alice's stream", bytes: &datagram[..] }
    );
}
