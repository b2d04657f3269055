//! Login: drawing a token and a virtual address, and registering the user.

use crate::db::{distinct_names, has_user, Db, LoginResp, UserView, NETMASK};
use crate::error::{Error, SessionError};
use crate::octets::{from_octets, join_octets, lemma_split_join, octet_at};
use vstd::prelude::*;
use vstd::string::StringExecFns;

verus! {

/// First octet of every address of the virtual network.
pub const NETWORK_OCTET: u8 = 25;

/// Number of hexadecimal digits in a token (64 bits of entropy).
pub const TOKEN_LEN: usize = 16;

/// Whether `address` lies in the virtual network.
pub open spec fn in_network(address: u32) -> bool {
    octet_at(address, 0) == NETWORK_OCTET
}

/// The lower-case hexadecimal digit for `n`, `n` taken modulo 16.
pub open spec fn hex_digit(n: u8) -> char {
    let d = n % 16;
    if d == 0 {
        '0'
    } else if d == 1 {
        '1'
    } else if d == 2 {
        '2'
    } else if d == 3 {
        '3'
    } else if d == 4 {
        '4'
    } else if d == 5 {
        '5'
    } else if d == 6 {
        '6'
    } else if d == 7 {
        '7'
    } else if d == 8 {
        '8'
    } else if d == 9 {
        '9'
    } else if d == 10 {
        'a'
    } else if d == 11 {
        'b'
    } else if d == 12 {
        'c'
    } else if d == 13 {
        'd'
    } else if d == 14 {
        'e'
    } else {
        'f'
    }
}

/// Whether `c` is a lower-case hexadecimal digit.
pub open spec fn is_hex_digit(c: char) -> bool {
    exists|n: u8| n < 16 && c == #[trigger] hex_digit(n)
}

/// Whether `token` is made of `len` lower-case hexadecimal digits.
pub open spec fn is_token(token: Seq<char>, len: nat) -> bool {
    &&& token.len() == len
    &&& forall|i: int| 0 <= i < token.len() ==> is_hex_digit(#[trigger] token[i])
}

/// The token spelled by `digits`, one hexadecimal digit for each.
pub open spec fn token_of(digits: Seq<u8>) -> Seq<char> {
    Seq::new(digits.len(), |i: int| hex_digit(digits[i]))
}

/// Draws a number between 0 and `max` with `rand::Rng::gen_range` on the
/// generator of `rand::thread_rng`. The range is inclusive and so never
/// empty; all that is known of the result is that it lies in it.
#[verifier::external_body]
fn random_up_to(max: u8) -> (r: u8)
    ensures
        r <= max,
{
    rand::Rng::gen_range(&mut rand::thread_rng(), 0..=max)
}

/// The hexadecimal digit for `n`, as a string of one character.
pub fn hex_str(n: u8) -> (s: &'static str)
    ensures
        s@ == seq![hex_digit(n)],
{
    let d: u8 = n % 16;
    proof {
        reveal_strlit("0");
        reveal_strlit("1");
        reveal_strlit("2");
        reveal_strlit("3");
        reveal_strlit("4");
        reveal_strlit("5");
        reveal_strlit("6");
        reveal_strlit("7");
        reveal_strlit("8");
        reveal_strlit("9");
        reveal_strlit("a");
        reveal_strlit("b");
        reveal_strlit("c");
        reveal_strlit("d");
        reveal_strlit("e");
        reveal_strlit("f");
    }
    let s: &'static str = if d == 0 {
        "0"
    } else if d == 1 {
        "1"
    } else if d == 2 {
        "2"
    } else if d == 3 {
        "3"
    } else if d == 4 {
        "4"
    } else if d == 5 {
        "5"
    } else if d == 6 {
        "6"
    } else if d == 7 {
        "7"
    } else if d == 8 {
        "8"
    } else if d == 9 {
        "9"
    } else if d == 10 {
        "a"
    } else if d == 11 {
        "b"
    } else if d == 12 {
        "c"
    } else if d == 13 {
        "d"
    } else if d == 14 {
        "e"
    } else {
        "f"
    };
    assert(s@ =~= seq![hex_digit(n)]);
    s
}

/// Spells `digits` as a token, one hexadecimal digit for each number
/// (taken modulo 16).
pub fn token_from_digits(digits: &[u8]) -> (token: String)
    ensures
        token@ == token_of(digits@),
        is_token(token@, digits@.len()),
{
    let mut token: String = String::new();
    let mut i: usize = 0;
    while i < digits.len()
        invariant
            i <= digits@.len(),
            token@ == token_of(digits@.subrange(0, i as int)),
        decreases digits@.len() - i,
    {
        token.append(hex_str(digits[i]));
        i = i + 1;
        assert(token@ =~= token_of(digits@.subrange(0, i as int)));
    }
    assert(digits@.subrange(0, i as int) =~= digits@);
    proof {
        lemma_token_of_is_token(digits@);
    }
    token
}

/// What `token_of` spells is a token.
pub proof fn lemma_token_of_is_token(digits: Seq<u8>)
    ensures
        is_token(token_of(digits), digits.len()),
{
    assert forall|i: int| 0 <= i < digits.len() implies is_hex_digit(
        #[trigger] token_of(digits)[i],
    ) by {
        let n: u8 = digits[i] % 16;
        assert(hex_digit(n) == hex_digit(digits[i]));
    }
}

/// Draws a token of `N` random hexadecimal digits.
pub fn gen_token<const N: usize>() -> (token: String)
    ensures
        is_token(token@, N as nat),
{
    let mut digits: Vec<u8> = Vec::new();
    let mut i: usize = 0;
    while i < N
        invariant
            i <= N,
            digits@.len() == i,
        decreases N - i,
    {
        digits.push(random_up_to(15));
        i = i + 1;
    }
    token_from_digits(digits.as_slice())
}

/// The address of the virtual network with the given last three octets.
pub fn address_in_network(second: u8, third: u8, fourth: u8) -> (address: u32)
    ensures
        address == join_octets(NETWORK_OCTET, second, third, fourth),
        in_network(address),
{
    proof {
        lemma_split_join(NETWORK_OCTET, second, third, fourth);
    }
    from_octets([NETWORK_OCTET, second, third, fourth])
}

/// Draws an address of the virtual network: the first octet is fixed, the
/// other three are random.
pub fn new_ip() -> (address: u32)
    ensures
        in_network(address),
{
    let second: u8 = random_up_to(255);
    let third: u8 = random_up_to(255);
    let fourth: u8 = random_up_to(255);
    address_in_network(second, third, fourth)
}

impl Db {
    /// Logs `username` in: draws an address and a token and registers the
    /// user under them.
    ///
    /// Succeeds for every username that is not registered yet, with a
    /// token of [`TOKEN_LEN`] hexadecimal digits, an address of the virtual
    /// network and the network's netmask; the user is added behind the
    /// others. Fails with `UserAlreadyExists`, changing nothing, when the
    /// username is taken.
    pub fn login(&mut self, username: &str) -> (res: Result<LoginResp, Error>)
        ensures
            distinct_names(final(self)@),
            has_user(old(self)@, username@) ==> {
                &&& res == Err::<LoginResp, Error>(Error::Session(SessionError::UserAlreadyExists))
                &&& final(self)@ == old(self)@
            },
            !has_user(old(self)@, username@) ==> {
                &&& res is Ok
                &&& is_token(res->Ok_0.token@, TOKEN_LEN as nat)
                &&& in_network(res->Ok_0.address)
                &&& res->Ok_0.netmask == NETMASK
                &&& final(self)@ == old(self)@.push(
                    UserView {
                        username: username@,
                        token: res->Ok_0.token@,
                        address: res->Ok_0.address,
                    },
                )
            },
    {
        let address: u32 = new_ip();
        let token: String = gen_token::<16>();
        match self.register(username, address, token) {
            Ok(resp) => Ok(resp),
            Err(e) => Err(Error::Session(e)),
        }
    }
}

} // verus!
