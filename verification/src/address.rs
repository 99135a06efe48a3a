//! Addresses of nodes.

use libp2p::multiaddr::Protocol;
use libp2p::Multiaddr;
use vstd::prelude::*;

verus! {

#[verifier::external_type_specification]
#[verifier::external_body]
pub struct ExMultiaddr(Multiaddr);

/// The bytes of an address.
pub uninterp spec fn maddr_bytes(address: Multiaddr) -> Seq<u8>;

/// `Multiaddr::empty`: an address of no bytes.
pub assume_specification[ Multiaddr::empty ]() -> (address: Multiaddr)
    ensures
        maddr_bytes(address) == Seq::<u8>::empty(),
;

/// `Multiaddr::clone`: the same address again.
pub assume_specification[ <Multiaddr as Clone>::clone ](address: &Multiaddr) -> (copy: Multiaddr)
    ensures
        copy == *address,
;

/// `Multiaddr::eq`: two addresses are equal if and only if their bytes are.
pub assume_specification[ <Multiaddr as PartialEq>::eq ](
    address: &Multiaddr,
    other: &Multiaddr,
) -> (equal: bool)
    ensures
        equal == (maddr_bytes(*address) == maddr_bytes(*other)),
;

/// The eight bytes of `port`, the most significant first.
pub open spec fn port_bytes(port: u64) -> Seq<u8> {
    seq![
        (port >> 56) as u8,
        (port >> 48) as u8,
        (port >> 40) as u8,
        (port >> 32) as u8,
        (port >> 24) as u8,
        (port >> 16) as u8,
        (port >> 8) as u8,
        port as u8,
    ]
}

/// The bytes of an in-memory address: the protocol's code as a varint, then the
/// port.
pub open spec fn memory_maddr_bytes(port: u64) -> Seq<u8> {
    seq![0x89u8, 0x06u8] + port_bytes(port)
}

/// `Protocol::Memory(port)` as an address of one component.
#[verifier::external_body]
fn memory_maddr(port: u64) -> (address: Multiaddr)
    ensures
        maddr_bytes(address) == memory_maddr_bytes(port),
{
    Protocol::Memory(port).into()
}

/// `rand::random`: any number at all.
#[verifier::external_body]
fn random_u64() -> (number: u64)
{
    rand::random::<u64>()
}

/// `number` came out of the random number generator.
pub closed spec fn drawn(number: u64) -> bool {
    call_ensures(random_u64, (), number)
}

/// The number for address `turn` of a row of addresses. Each is drawn anew.
pub fn draw(turn: usize) -> (number: u64)
    ensures
        drawn(number),
{
    let number: u64 = random_u64();
    assert(drawn(number));
    number
}

/// `number` was drawn for address `turn` of a row of addresses.
pub open spec fn drawn_for(turn: int, number: u64) -> bool {
    call_ensures(draw, (turn as usize,), number)
}

/// Each of `numbers` was drawn for the address at its place.
pub open spec fn drawn_one_by_one(numbers: Seq<u64>) -> bool {
    forall|i: int| 0 <= i < numbers.len() ==> drawn_for(i, #[trigger] numbers[i])
}

/// `addresses` are the in-memory addresses for `numbers`, one for each, in order.
pub open spec fn are_maddrs_for(addresses: Seq<Multiaddr>, numbers: Seq<u64>) -> bool {
    &&& addresses.len() == numbers.len()
    &&& forall|i: int|
        0 <= i < numbers.len() ==> (#[trigger] numbers[i]) < u64::MAX && maddr_bytes(
            addresses[i],
        ) == memory_maddr_bytes((numbers[i] + 1) as u64)
}

/// The in-memory address for a drawn number: its port is the number's successor,
/// so that it is never 0, which would ask for a port to be assigned. The largest
/// number has no successor.
pub fn memory_maddr_for(number: u64) -> (r: Option<Multiaddr>)
    ensures
        r is None <==> number == u64::MAX,
        r matches Some(address) ==> maddr_bytes(address) == memory_maddr_bytes(
            (number + 1) as u64,
        ),
{
    if number == u64::MAX {
        None
    } else {
        Some(memory_maddr(1 + number))
    }
}

/// `address` is the in-memory address for a number that was drawn.
pub open spec fn is_random_memory_maddr(address: Multiaddr) -> bool {
    exists|number: u64| #[trigger]
        drawn(number) && number < u64::MAX && maddr_bytes(address) == memory_maddr_bytes(
            (number + 1) as u64,
        )
}

/// An in-memory address with a random port, unless the number that was drawn for
/// it has no successor.
pub fn create_memory_maddr() -> (r: Option<Multiaddr>)
    ensures
        match r {
            None => drawn(u64::MAX),
            Some(address) => is_random_memory_maddr(address),
        },
{
    let number: u64 = random_u64();
    assert(drawn(number));
    memory_maddr_for(number)
}

/// The in-memory addresses for drawn numbers, one for each, unless one of the numbers has
/// no successor.
pub fn memory_maddrs_for(numbers: &Vec<u64>) -> (r: Option<Vec<Multiaddr>>)
    ensures
        r is None <==> numbers@.contains(u64::MAX),
        r matches Some(addresses) ==> {
            &&& addresses@.len() == numbers@.len()
            &&& forall|i: int|
                0 <= i < numbers@.len() ==> maddr_bytes(#[trigger] addresses@[i])
                    == memory_maddr_bytes((numbers@[i] + 1) as u64)
        },
{
    let mut addresses: Vec<Multiaddr> = Vec::new();
    let mut i: usize = 0;
    while i < numbers.len()
        invariant
            i <= numbers@.len(),
            addresses@.len() == i,
            forall|j: int| 0 <= j < i ==> #[trigger] numbers@[j] != u64::MAX,
            forall|j: int|
                0 <= j < i ==> maddr_bytes(#[trigger] addresses@[j]) == memory_maddr_bytes(
                    (numbers@[j] + 1) as u64,
                ),
        decreases numbers@.len() - i,
    {
        match memory_maddr_for(numbers[i]) {
            None => {
                assert(numbers@[i as int] == u64::MAX);
                return None;
            },
            Some(address) => addresses.push(address),
        }
        i = i + 1;
    }
    Some(addresses)
}

/// `n` in-memory addresses with random ports, unless a number that was drawn for one
/// of them has no successor.
pub(crate) fn create_memory_maddrs(n: usize) -> (r: Option<Vec<Multiaddr>>)
    ensures
        match r {
            None => {
                &&& n > 0 && drawn(u64::MAX)
                &&& exists|turn: int| 0 <= turn < n && #[trigger] drawn_for(turn, u64::MAX)
            },
            Some(addresses) => {
                &&& addresses@.len() == n
                &&& forall|i: int| 0 <= i < n ==> is_random_memory_maddr(#[trigger] addresses@[i])
                &&& exists|numbers: Seq<u64>| #[trigger]
                    drawn_one_by_one(numbers) && are_maddrs_for(addresses@, numbers)
            },
        },
{
    let mut numbers: Vec<u64> = Vec::new();
    let mut i: usize = 0;
    while i < n
        invariant
            i <= n,
            numbers@.len() == i,
            forall|j: int| 0 <= j < i ==> drawn(#[trigger] numbers@[j]),
            drawn_one_by_one(numbers@),
        decreases n - i,
    {
        let number: u64 = draw(i);
        assert(drawn_for(i as int, number));
        numbers.push(number);
        i = i + 1;
    }
    let r = memory_maddrs_for(&numbers);
    if r.is_none() {
        let ghost turn = choose|turn: int| 0 <= turn < n && numbers@[turn] == u64::MAX;
        assert(drawn_for(turn, u64::MAX) && drawn(u64::MAX));
    }
    if let Some(addresses) = &r {
        assert(are_maddrs_for(addresses@, numbers@)) by {
            assert forall|j: int| 0 <= j < n implies (#[trigger] numbers@[j]) < u64::MAX
                && maddr_bytes(addresses@[j]) == memory_maddr_bytes(
                (numbers@[j] + 1) as u64,
            ) by {
                if numbers@[j] == u64::MAX {
                    assert(numbers@.contains(u64::MAX));
                }
            }
        }
        assert forall|j: int| 0 <= j < n implies is_random_memory_maddr(
            #[trigger] addresses@[j],
        ) by {
            assert(drawn(numbers@[j]));
        }
    }
    r
}

/// Two in-memory addresses with the same bytes have the same port.
#[verifier::spinoff_prover]
pub proof fn law_memory_maddr_tells_port(a: u64, b: u64)
    requires
        memory_maddr_bytes(a) == memory_maddr_bytes(b),
    ensures
        a == b,
{
    assert(port_bytes(a) == memory_maddr_bytes(a).skip(2));
    assert(port_bytes(b) == memory_maddr_bytes(b).skip(2));
    assert(port_bytes(a)[0] == port_bytes(b)[0]);
    assert(port_bytes(a)[1] == port_bytes(b)[1]);
    assert(port_bytes(a)[2] == port_bytes(b)[2]);
    assert(port_bytes(a)[3] == port_bytes(b)[3]);
    assert(port_bytes(a)[4] == port_bytes(b)[4]);
    assert(port_bytes(a)[5] == port_bytes(b)[5]);
    assert(port_bytes(a)[6] == port_bytes(b)[6]);
    assert(port_bytes(a)[7] == port_bytes(b)[7]);
    assert(a == b) by (bit_vector)
        requires
            (a >> 56) as u8 == (b >> 56) as u8,
            (a >> 48) as u8 == (b >> 48) as u8,
            (a >> 40) as u8 == (b >> 40) as u8,
            (a >> 32) as u8 == (b >> 32) as u8,
            (a >> 24) as u8 == (b >> 24) as u8,
            (a >> 16) as u8 == (b >> 16) as u8,
            (a >> 8) as u8 == (b >> 8) as u8,
            a as u8 == b as u8,
    ;
}

/// The address for a drawn number never has the port 0.
pub proof fn law_drawn_port_is_never_zero(number: u64)
    requires
        number < u64::MAX,
    ensures
        memory_maddr_bytes((number + 1) as u64) != memory_maddr_bytes(0),
{
    if memory_maddr_bytes((number + 1) as u64) == memory_maddr_bytes(0) {
        law_memory_maddr_tells_port((number + 1) as u64, 0);
    }
}

/// Numbers have the same address if and only if they are the same, and only the largest number
/// has none.
pub proof fn law_address_tells_number(
    number: u64,
    address: Option<Multiaddr>,
    other: u64,
    other_address: Option<Multiaddr>,
)
    requires
        call_ensures(memory_maddr_for, (number,), address),
        call_ensures(memory_maddr_for, (other,), other_address),
    ensures
        address is Some <==> number < u64::MAX,
        address is Some && other_address is Some ==> (maddr_bytes(address->0) == maddr_bytes(
            other_address->0,
        ) <==> number == other),
        address is Some ==> maddr_bytes(address->0) != memory_maddr_bytes(0),
{
    if address is Some && other_address is Some {
        if maddr_bytes(address->0) == maddr_bytes(other_address->0) {
            law_memory_maddr_tells_port((number + 1) as u64, (other + 1) as u64);
        }
    }
    if address is Some {
        law_drawn_port_is_never_zero(number);
    }
}

/// A row of numbers has the addresses that its numbers have one by one, and none if one of them
/// has none.
pub proof fn law_row_is_one_by_one(
    numbers: Vec<u64>,
    r: Option<Vec<Multiaddr>>,
    i: int,
    address: Option<Multiaddr>,
)
    requires
        call_ensures(memory_maddrs_for, (&numbers,), r),
        0 <= i < numbers@.len(),
        call_ensures(memory_maddr_for, (numbers@[i],), address),
    ensures
        address is None ==> r is None,
        r matches Some(addresses) ==> {
            &&& addresses@.len() == numbers@.len()
            &&& address is Some
            &&& maddr_bytes(addresses@[i]) == maddr_bytes(address->0)
        },
{
    assert(numbers@.contains(numbers@[i]));
}

/// The bytes of a port are its digits to the base 256, the most significant first.
pub proof fn law_port_bytes_spell_port(port: u64)
    ensures
        port_bytes(port).len() == 8,
        port == port_bytes(port)[0] * 0x100_0000_0000_0000 + port_bytes(port)[1]
            * 0x1_0000_0000_0000 + port_bytes(port)[2] * 0x100_0000_0000 + port_bytes(port)[3]
            * 0x1_0000_0000 + port_bytes(port)[4] * 0x100_0000 + port_bytes(port)[5] * 0x1_0000
            + port_bytes(port)[6] * 0x100 + port_bytes(port)[7],
{
    let a = (port >> 56) as u8;
    let b = (port >> 48) as u8;
    let c = (port >> 40) as u8;
    let d = (port >> 32) as u8;
    let e = (port >> 24) as u8;
    let f = (port >> 16) as u8;
    let g = (port >> 8) as u8;
    let h = port as u8;
    assert(port == a * 0x100_0000_0000_0000 + b * 0x1_0000_0000_0000 + c * 0x100_0000_0000 + d
        * 0x1_0000_0000 + e * 0x100_0000 + f * 0x1_0000 + g * 0x100 + h) by (bit_vector)
        requires
            a == (port >> 56) as u8,
            b == (port >> 48) as u8,
            c == (port >> 40) as u8,
            d == (port >> 32) as u8,
            e == (port >> 24) as u8,
            f == (port >> 16) as u8,
            g == (port >> 8) as u8,
            h == port as u8,
    ;
}

} // verus!
