use lanshare::relay::Relay;

struct TestRelay {}

impl Relay for TestRelay {}

#[test]
fn relay_hello() {
    let _ = TestRelay {};
    assert_eq!(1 + 1, 2);
}
