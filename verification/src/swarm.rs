//! A swarm of nodes: how it is made and started, and when all nodes are connected.

use crate::address::{are_maddrs_for, create_memory_maddrs, drawn, drawn_for, drawn_one_by_one};
use crate::address::{is_random_memory_maddr, law_memory_maddr_tells_port, maddr_bytes};
use crate::address::memory_maddr_bytes;
use crate::calls::{nth_call, nth_call_with, nth_call_with_two, Calls};
use crate::node::{create_swarm, SwarmConfig, SwarmDraft, Transport, WorkDir};
use futures::channel::oneshot::Sender;
use libp2p::{Multiaddr, PeerId};
use std::path::PathBuf;
use vstd::prelude::*;

verus! {

/// The addresses of `addresses` that differ from `own`, in their order.
pub open spec fn other_addresses(addresses: Seq<Multiaddr>, own: Multiaddr) -> Seq<Multiaddr> {
    addresses.filter(|address: Multiaddr| maddr_bytes(address) != maddr_bytes(own))
}

/// No two of `addresses` are equal.
pub open spec fn pairwise_distinct(addresses: Seq<Multiaddr>) -> bool {
    forall|i: int, j: int|
        0 <= i < j < addresses.len() ==> maddr_bytes(#[trigger] addresses[i]) != maddr_bytes(
            #[trigger] addresses[j],
        )
}

/// A node of a swarm, at the address that was made for it.
pub struct Placed<N> {
    pub address: Multiaddr,
    pub node: N,
}

/// The addresses of the nodes of a swarm.
pub open spec fn addresses_of<N>(nodes: Seq<Placed<N>>) -> Seq<Multiaddr> {
    nodes.map_values(|placed: Placed<N>| placed.address)
}

/// `placed` came out of `create_node`, given its own address and every address of
/// `addresses` that differs from it.
pub open spec fn placed_by<N, F: FnMut(Vec<Multiaddr>, Multiaddr) -> N>(
    create_node: F,
    addresses: Seq<Multiaddr>,
    placed: Placed<N>,
) -> bool {
    exists|bootstraps: Vec<Multiaddr>|
        {
            &&& bootstraps@ == other_addresses(addresses, placed.address)
            &&& #[trigger] call_ensures(create_node, (bootstraps, placed.address), placed.node)
        }
}

/// As `placed_by`, and `placed` came out of call `i` of `create_node`.
pub open spec fn placed_in_turn<N, F: FnMut(Vec<Multiaddr>, Multiaddr) -> N>(
    create_node: F,
    addresses: Seq<Multiaddr>,
    i: nat,
    placed: Placed<N>,
) -> bool {
    exists|bootstraps: Vec<Multiaddr>|
        {
            &&& bootstraps@ == other_addresses(addresses, placed.address)
            &&& #[trigger] nth_call_with_two(
                create_node,
                i,
                bootstraps,
                placed.address,
                placed.node,
            )
        }
}

fn others(addresses: &Vec<Multiaddr>, own: &Multiaddr) -> (r: Vec<Multiaddr>)
    ensures
        r@ == other_addresses(addresses@, *own),
{
    let ghost differs = |address: Multiaddr| maddr_bytes(address) != maddr_bytes(*own);
    let mut result: Vec<Multiaddr> = Vec::new();
    let mut i: usize = 0;
    while i < addresses.len()
        invariant
            i <= addresses@.len(),
            differs == |address: Multiaddr| maddr_bytes(address) != maddr_bytes(*own),
            result@ == addresses@.take(i as int).filter(differs),
        decreases addresses@.len() - i,
    {
        reveal(Seq::filter);
        assert(addresses@.take(i + 1).drop_last() == addresses@.take(i as int));
        if !(addresses[i] == *own) {
            result.push(addresses[i].clone());
        }
        i = i + 1;
    }
    assert(addresses@.take(i as int) == addresses@);
    result
}

/// A node on each of `addresses`, in order: `create_node` makes each node of the addresses
/// of all others and of its own.
pub fn nodes_on<N, F>(addresses: &Vec<Multiaddr>, create_node: F) -> (nodes: Vec<Placed<N>>)
    where
        F: FnMut(Vec<Multiaddr>, Multiaddr) -> N,
    requires
        addresses@.len() > 0 ==> forall|bootstraps: Vec<Multiaddr>, address: Multiaddr|
            call_requires(create_node, (bootstraps, address)),
    ensures
        addresses_of(nodes@) == addresses@,
        forall|i: int|
            0 <= i < nodes@.len() ==> placed_by(create_node, addresses@, #[trigger] nodes@[i]),
        forall|i: int|
            0 <= i < nodes@.len() ==> placed_in_turn(
                create_node,
                addresses@,
                i as nat,
                #[trigger] nodes@[i],
            ),
{
    let ghost given = create_node;
    let mut calls = Calls::new(create_node);
    let mut nodes: Vec<Placed<N>> = Vec::new();
    let mut i: usize = 0;
    while i < addresses.len()
        invariant
            i <= addresses@.len(),
            calls.function() == given,
            calls.count() == i,
            addresses@.len() > 0 ==> forall|bootstraps: Vec<Multiaddr>, address: Multiaddr|
                call_requires(given, (bootstraps, address)),
            nodes@.len() == i,
            addresses_of(nodes@) == addresses@.take(i as int),
            forall|j: int|
                0 <= j < nodes@.len() ==> placed_by(given, addresses@, #[trigger] nodes@[j]),
            forall|j: int|
                0 <= j < nodes@.len() ==> placed_in_turn(
                    given,
                    addresses@,
                    j as nat,
                    #[trigger] nodes@[j],
                ),
        decreases addresses@.len() - i,
    {
        let bootstraps = others(addresses, &addresses[i]);
        let ghost dialled = bootstraps;
        let node: N = calls.next_with_two(bootstraps, addresses[i].clone());
        assert(nth_call_with_two(given, i as nat, dialled, addresses@[i as int], node));
        let ghost before = nodes@;
        nodes.push(Placed { address: addresses[i].clone(), node });
        assert(call_ensures(given, (dialled, nodes@[i as int].address), nodes@[i as int].node));
        assert(placed_by(given, addresses@, nodes@[i as int]));
        let ghost placed = nodes@[i as int];
        assert(dialled@ == other_addresses(addresses@, placed.address));
        assert(nth_call_with_two(
            given,
            i as nat,
            dialled,
            placed.address,
            placed.node,
        ));
        assert(placed_in_turn(given, addresses@, i as nat, placed));
        assert(addresses_of(nodes@) == addresses_of(before).push(addresses@[i as int]));
        assert(addresses@.take(i + 1) == addresses@.take(i as int).push(addresses@[i as int]));
        i = i + 1;
    }
    assert(addresses@.take(i as int) == addresses@);
    nodes
}

/// The nodes of a swarm of `n`, not started yet: `create_maddr` makes the address of
/// each, then `create_node` makes each node of the addresses of all others and of its
/// own.
pub fn make_swarms_with<N, F, M>(n: usize, create_node: F, create_maddr: M) -> (nodes: Vec<
    Placed<N>,
>)
    where
        F: FnMut(Vec<Multiaddr>, Multiaddr) -> N,
        M: FnMut() -> Multiaddr,
    requires
        n > 0 ==> call_requires(create_maddr, ()),
        n > 0 ==> forall|bootstraps: Vec<Multiaddr>, address: Multiaddr|
            call_requires(create_node, (bootstraps, address)),
    ensures
        nodes@.len() == n,
        forall|i: int| 0 <= i < n ==> call_ensures(create_maddr, (), (#[trigger] nodes@[i]).address),
        forall|i: int|
            0 <= i < n ==> placed_by(create_node, addresses_of(nodes@), #[trigger] nodes@[i]),
        forall|i: int|
            0 <= i < n ==> nth_call(create_maddr, i as nat, (#[trigger] nodes@[i]).address),
        forall|i: int|
            0 <= i < n ==> placed_in_turn(
                create_node,
                addresses_of(nodes@),
                i as nat,
                #[trigger] nodes@[i],
            ),
{
    let ghost given = create_maddr;
    let mut calls = Calls::new(create_maddr);
    let mut addresses: Vec<Multiaddr> = Vec::new();
    let mut i: usize = 0;
    while i < n
        invariant
            i <= n,
            calls.function() == given,
            calls.count() == i,
            n > 0 ==> call_requires(given, ()),
            addresses@.len() == i,
            forall|j: int| 0 <= j < i ==> call_ensures(given, (), #[trigger] addresses@[j]),
            forall|j: int| 0 <= j < i ==> nth_call(given, j as nat, #[trigger] addresses@[j]),
        decreases n - i,
    {
        let address: Multiaddr = calls.next();
        assert(nth_call(given, i as nat, address));
        addresses.push(address);
        i = i + 1;
    }
    let nodes = nodes_on(&addresses, create_node);
    assert forall|j: int| 0 <= j < n implies call_ensures(
        given,
        (),
        (#[trigger] nodes@[j]).address,
    ) && nth_call(given, j as nat, nodes@[j].address) by {
        assert(addresses_of(nodes@)[j] == nodes@[j].address);
    }
    nodes
}

/// The nodes of a swarm of `n` on random in-memory addresses. Each node is configured by
/// what `configured` relates to the plain configuration with the node's own address and
/// those of all others, and is what `assembled` relates to its draft. There is no swarm if
/// a number that was drawn for an address has no successor.
pub open spec fn swarm_made<N>(
    r: Option<Vec<Placed<N>>>,
    n: nat,
    configured: spec_fn(SwarmConfig, SwarmConfig) -> bool,
    assembled: spec_fn(SwarmDraft, N) -> bool,
) -> bool {
    match r {
        None => {
            &&& n > 0 && drawn(u64::MAX)
            &&& exists|turn: int| 0 <= turn < n && #[trigger] drawn_for(turn, u64::MAX)
        },
        Some(nodes) => {
            &&& nodes@.len() == n
            &&& exists|numbers: Seq<u64>| #[trigger]
                drawn_one_by_one(numbers) && are_maddrs_for(addresses_of(nodes@), numbers)
            &&& forall|i: int|
                0 <= i < n ==> is_random_memory_maddr((#[trigger] nodes@[i]).address)
            &&& forall|i: int|
                0 <= i < n ==> node_made(
                    configured,
                    assembled,
                    other_addresses(addresses_of(nodes@), nodes@[i].address),
                    nodes@[i].address,
                    (#[trigger] nodes@[i]).node,
                )
        },
    }
}

/// `node` is what `assembled` relates to a draft, which begins a node with a configuration
/// that `configured` relates to the plain one with `bootstraps` and `address`.
pub open spec fn node_made<N>(
    configured: spec_fn(SwarmConfig, SwarmConfig) -> bool,
    assembled: spec_fn(SwarmDraft, N) -> bool,
    bootstraps: Seq<Multiaddr>,
    address: Multiaddr,
    node: N,
) -> bool {
    exists|plain: SwarmConfig, config: SwarmConfig, draft: SwarmDraft|
        {
            &&& plain.is_plain(bootstraps, address)
            &&& #[trigger] configured(plain, config)
            &&& #[trigger] draft.begins(config)
            &&& assembled(draft, node)
        }
}

/// A configuration stays as it is.
pub open spec fn unchanged() -> spec_fn(SwarmConfig, SwarmConfig) -> bool {
    |plain: SwarmConfig, config: SwarmConfig| config == plain
}

/// A configuration is put through `update_cfg`.
pub open spec fn updated<F: Fn(SwarmConfig) -> SwarmConfig>(update_cfg: &F) -> spec_fn(
    SwarmConfig,
    SwarmConfig,
) -> bool {
    |plain: SwarmConfig, config: SwarmConfig| call_ensures(*update_cfg, (plain,), config)
}

/// A draft is put through `assemble`.
pub open spec fn assembled_by<N, A: Fn(SwarmDraft) -> N>(assemble: &A) -> spec_fn(
    SwarmDraft,
    N,
) -> bool {
    |draft: SwarmDraft, node: N| call_ensures(*assemble, (draft,), node)
}

/// The nodes of a swarm of `n`, not started yet. One node after the other, `update_cfg` is
/// given its plain configuration, and `assemble` puts the node together from the draft
/// that follows.
pub fn make_swarms_with_cfg<N, F, A>(n: usize, update_cfg: F, assemble: A) -> (r: Option<
    Vec<Placed<N>>,
>)
    where
        F: Fn(SwarmConfig) -> SwarmConfig,
        A: Fn(SwarmDraft) -> N,
    requires
        n > 0 ==> forall|config: SwarmConfig| call_requires(update_cfg, (config,)),
        n > 0 ==> forall|draft: SwarmDraft| call_requires(assemble, (draft,)),
    ensures
        swarm_made(r, n as nat, updated(&update_cfg), assembled_by(&assemble)),
{
    let addresses = match create_memory_maddrs(n) {
        None => {
            return None;
        },
        Some(addresses) => addresses,
    };
    let make = |bootstraps: Vec<Multiaddr>, address: Multiaddr| -> (node: N)
        requires
            n > 0,
        ensures
            node_made(
                updated(&update_cfg),
                assembled_by(&assemble),
                bootstraps@,
                address,
                node,
            ),
    {
        let plain = SwarmConfig::new(bootstraps, address);
        let ghost given = plain;
        let config = update_cfg(plain);
        let ghost made = config;
        let draft = create_swarm(config);
        let ghost begun = draft;
        let node = assemble(draft);
        assert(updated(&update_cfg)(given, made));
        assert(begun.begins(made));
        assert(assembled_by(&assemble)(begun, node));
        node
    };
    let nodes = nodes_on(&addresses, make);
    assert forall|i: int| 0 <= i < nodes@.len() implies is_random_memory_maddr(
        (#[trigger] nodes@[i]).address,
    ) by {
        assert(addresses_of(nodes@)[i] == nodes@[i].address);
    }
    assert(addresses_of(nodes@).len() == nodes@.len());
    Some(nodes)
}

/// The nodes of a swarm of `n`, not started yet, each put together by `assemble` with its
/// plain configuration.
pub fn make_swarms<N, A>(n: usize, assemble: A) -> (r: Option<Vec<Placed<N>>>)
    where
        A: Fn(SwarmDraft) -> N,
    requires
        n > 0 ==> forall|draft: SwarmDraft| call_requires(assemble, (draft,)),
    ensures
        swarm_made(r, n as nat, unchanged(), assembled_by(&assemble)),
{
    let keep = |config: SwarmConfig| -> (same: SwarmConfig)
        ensures
            same == config,
    {
        config
    };
    let ghost assembled = assembled_by(&assemble);
    let r = make_swarms_with_cfg(n, keep, assemble);
    proof {
        law_plain_swarm_is_unchanged_swarm(&keep, assembled, r, n as nat);
    }
    r
}

proof fn lemma_swarm_made<N>(
    r: Option<Vec<Placed<N>>>,
    n: nat,
    configured: spec_fn(SwarmConfig, SwarmConfig) -> bool,
    also: spec_fn(SwarmConfig, SwarmConfig) -> bool,
    assembled: spec_fn(SwarmDraft, N) -> bool,
)
    requires
        swarm_made(r, n, configured, assembled),
        forall|plain: SwarmConfig, config: SwarmConfig| #[trigger]
            configured(plain, config) ==> also(plain, config),
    ensures
        swarm_made(r, n, also, assembled),
{
    if let Some(nodes) = r {
        assert forall|i: int| 0 <= i < n implies node_made(
            also,
            assembled,
            other_addresses(addresses_of(nodes@), nodes@[i].address),
            nodes@[i].address,
            (#[trigger] nodes@[i]).node,
        ) by {
            let bootstraps = other_addresses(addresses_of(nodes@), nodes@[i].address);
            let node = nodes@[i].node;
            assert(node_made(configured, assembled, bootstraps, nodes@[i].address, node));
            let (plain, config, draft) = choose|
                plain: SwarmConfig,
                config: SwarmConfig,
                draft: SwarmDraft,
            |
                {
                    &&& plain.is_plain(bootstraps, nodes@[i].address)
                    &&& #[trigger] configured(plain, config)
                    &&& #[trigger] draft.begins(config)
                    &&& assembled(draft, node)
                };
            assert(also(plain, config));
            assert(draft.begins(config));
        }
    }
}

/// `make_swarms` is `make_swarms_with_cfg` with a function that returns its argument: what
/// the one can come to, the other can come to as well, and the reverse.
pub proof fn law_plain_swarm_is_unchanged_swarm<N, F: Fn(SwarmConfig) -> SwarmConfig>(
    update_cfg: &F,
    assembled: spec_fn(SwarmDraft, N) -> bool,
    r: Option<Vec<Placed<N>>>,
    n: nat,
)
    requires
        forall|plain: SwarmConfig, config: SwarmConfig| #[trigger]
            call_ensures(*update_cfg, (plain,), config) ==> config == plain,
    ensures
        swarm_made(r, n, updated(update_cfg), assembled) ==> swarm_made(
            r,
            n,
            unchanged(),
            assembled,
        ),
        (forall|plain: SwarmConfig| #[trigger] call_ensures(*update_cfg, (plain,), plain)) ==> (
        swarm_made(r, n, unchanged(), assembled) ==> swarm_made(
            r,
            n,
            updated(update_cfg),
            assembled,
        )),
{
    if swarm_made(r, n, updated(update_cfg), assembled) {
        lemma_swarm_made(r, n, updated(update_cfg), unchanged(), assembled);
    }
    if swarm_made(r, n, unchanged(), assembled) && (forall|plain: SwarmConfig| #[trigger]
        call_ensures(*update_cfg, (plain,), plain)) {
        lemma_swarm_made(r, n, unchanged(), updated(update_cfg), assembled);
    }
}

/// A running node: its id, the address that was made for it, the directory that it
/// works in, which must be cleaned up, and the outlet for the signal to stop.
#[derive(Debug)]
pub struct CreatedSwarm(pub PeerId, pub Multiaddr, pub PathBuf, pub Sender<()>);

/// `created` is the node of `placed`, which `start` has started.
pub open spec fn started_by<N, S: FnMut(N) -> Sender<()>>(
    start: S,
    placed: Placed<(PeerId, N, PathBuf)>,
    created: CreatedSwarm,
) -> bool {
    &&& created.0 == placed.node.0
    &&& created.1 == placed.address
    &&& created.2 == placed.node.2
    &&& call_ensures(start, (placed.node.1,), created.3)
}

/// `created` is what came of call `i` of `start`, with the node of `placed`.
pub open spec fn started_in_turn<N, S: FnMut(N) -> Sender<()>>(
    start: S,
    i: int,
    placed: Placed<(PeerId, N, PathBuf)>,
    created: CreatedSwarm,
) -> bool {
    nth_call_with(start, i as nat, placed.node.1, created.3)
}

/// Starts the nodes of a swarm, in order.
pub fn start_swarms<N, S>(nodes: Vec<Placed<(PeerId, N, PathBuf)>>, start: S) -> (swarms: Vec<
    CreatedSwarm,
>)
    where
        S: FnMut(N) -> Sender<()>,
    requires
        nodes@.len() > 0 ==> forall|node: N| call_requires(start, (node,)),
    ensures
        swarms@.len() == nodes@.len(),
        forall|i: int|
            0 <= i < nodes@.len() ==> started_by(start, nodes@[i], #[trigger] swarms@[i]),
        forall|i: int|
            0 <= i < nodes@.len() ==> started_in_turn(
                start,
                i,
                nodes@[i],
                #[trigger] swarms@[i],
            ),
{
    let ghost given = start;
    let mut calls = Calls::new(start);
    let total: usize = nodes.len();
    let mut swarms: Vec<CreatedSwarm> = Vec::new();
    for placed in it: nodes
        invariant
            calls.function() == given,
            calls.count() == it.index(),
            nodes@.len() == total,
            nodes@.len() > 0 ==> forall|node: N| call_requires(given, (node,)),
            it.seq() == nodes@,
            swarms@.len() == it.index(),
            forall|i: int|
                0 <= i < it.index() ==> started_by(given, nodes@[i], #[trigger] swarms@[i]),
            forall|i: int|
                0 <= i < it.index() ==> started_in_turn(
                    given,
                    i,
                    nodes@[i],
                    #[trigger] swarms@[i],
                ),
    {
        let (id, node, dir) = placed.node;
        let ghost turn = it.index();
        let stop: Sender<()> = calls.next_with(node);
        assert(nth_call_with(given, turn as nat, nodes@[turn as int].node.1, stop));
        swarms.push(CreatedSwarm(id, placed.address, dir, stop));
    }
    swarms
}

/// What to do about a node of a swarm that is coming up.
#[derive(Clone, Copy, Debug, PartialEq, Eq, Structural)]
pub enum WaitStep {
    /// The node has all its connections.
    Connected,
    /// Look again when its connections have changed.
    AwaitChange,
}

/// A node of a swarm of `n` has at least one connection for every other node.
pub open spec fn node_connected(n: nat, connections: nat) -> bool {
    connections >= n - 1
}

/// Whether a node of a swarm of `n` that has `connections` connections is still
/// to be waited for.
pub fn wait_step(n: usize, connections: usize) -> (step: WaitStep)
    requires
        n >= 1,
    ensures
        step == (if node_connected(n as nat, connections as nat) {
            WaitStep::Connected
        } else {
            WaitStep::AwaitChange
        }),
{
    if connections >= n - 1 {
        WaitStep::Connected
    } else {
        WaitStep::AwaitChange
    }
}

proof fn lemma_nothing_filtered<A>(s: Seq<A>, keep: spec_fn(A) -> bool)
    requires
        forall|i: int| 0 <= i < s.len() ==> keep(#[trigger] s[i]),
    ensures
        s.filter(keep) == s,
    decreases s.len(),
{
    reveal(Seq::filter);
    if s.len() > 0 {
        lemma_nothing_filtered(s.drop_last(), keep);
        assert(s.drop_last().push(s.last()) == s);
    }
}

proof fn lemma_one_filtered<A>(s: Seq<A>, keep: spec_fn(A) -> bool, at: int)
    requires
        0 <= at < s.len(),
        !keep(s[at]),
        forall|i: int| 0 <= i < s.len() && i != at ==> keep(#[trigger] s[i]),
    ensures
        s.filter(keep) == s.remove(at),
    decreases s.len(),
{
    reveal(Seq::filter);
    let front = s.drop_last();
    if at == s.len() - 1 {
        lemma_nothing_filtered(front, keep);
        assert(s.remove(at) == front);
    } else {
        lemma_one_filtered(front, keep, at);
        assert(front.remove(at).push(s.last()) == s.remove(at));
    }
}

/// On distinct addresses a node dials all addresses but its own, and is connected
/// exactly when it has one connection for each address that it dials.
pub proof fn law_connected_when_all_dialled(addresses: Seq<Multiaddr>, node: int)
    requires
        pairwise_distinct(addresses),
        0 <= node < addresses.len(),
    ensures
        other_addresses(addresses, addresses[node]) == addresses.remove(node),
        forall|connections: nat| #[trigger]
            node_connected(addresses.len(), connections) <==> connections >= other_addresses(
                addresses,
                addresses[node],
            ).len(),
{
    let differs = |address: Multiaddr|
        maddr_bytes(address) != maddr_bytes(addresses[node]);
    assert forall|i: int| 0 <= i < addresses.len() && i != node implies differs(
        #[trigger] addresses[i],
    ) by {
        if i < node {
            assert(maddr_bytes(addresses[i]) != maddr_bytes(addresses[node]));
        } else {
            assert(maddr_bytes(addresses[node]) != maddr_bytes(addresses[i]));
        }
    }
    lemma_one_filtered(addresses, differs, node);
}

/// A node dials exactly the addresses of the swarm that differ from its own,
/// whatever the addresses are.
pub proof fn law_dials_the_others(addresses: Seq<Multiaddr>, own: Multiaddr, address: Multiaddr)
    ensures
        other_addresses(addresses, own).contains(address) <==> addresses.contains(address)
            && maddr_bytes(address) != maddr_bytes(own),
{
    let differs = |address: Multiaddr| maddr_bytes(address) != maddr_bytes(own);
    if addresses.contains(address) && differs(address) {
        let i = choose|i: int| 0 <= i < addresses.len() && addresses[i] == address;
        addresses.lemma_filter_contains(differs, i);
    }
    if addresses.filter(differs).contains(address) {
        let i = choose|i: int|
            0 <= i < addresses.filter(differs).len() && addresses.filter(differs)[i] == address;
        addresses.lemma_filter_pred(differs, i);
        addresses.lemma_filter_contains_rev(differs, address);
    }
}

/// Of two nodes either both dial each other or neither does.
pub proof fn law_dialling_is_mutual(addresses: Seq<Multiaddr>, a: int, b: int)
    requires
        0 <= a < addresses.len(),
        0 <= b < addresses.len(),
    ensures
        other_addresses(addresses, addresses[a]).contains(addresses[b]) <==> other_addresses(
            addresses,
            addresses[b],
        ).contains(addresses[a]),
{
    law_dials_the_others(addresses, addresses[a], addresses[b]);
    law_dials_the_others(addresses, addresses[b], addresses[a]);
}

/// Node `i` of a swarm stands on the result of call `i` of `create_maddr`: one call for
/// each node, in order. So if any two calls have different results, no two nodes share an
/// address, and node `i` is what call `i` of `create_node` makes of its own address and of
/// the addresses of all the other `n - 1` nodes.
pub proof fn law_every_node_has_an_address_of_its_own<N, F, M>(
    n: usize,
    create_node: F,
    create_maddr: M,
    nodes: Vec<Placed<N>>,
)
    where
        F: FnMut(Vec<Multiaddr>, Multiaddr) -> N,
        M: FnMut() -> Multiaddr,
    requires
        call_ensures(make_swarms_with::<N, F, M>, (n, create_node, create_maddr), nodes),
    ensures
        nodes@.len() == n,
        forall|i: int|
            0 <= i < n ==> nth_call(create_maddr, i as nat, (#[trigger] nodes@[i]).address),
        calls_differ(create_maddr, n as nat) ==> {
            &&& forall|i: int, j: int|
                0 <= i < j < n ==> maddr_bytes((#[trigger] nodes@[i]).address) != maddr_bytes(
                    (#[trigger] nodes@[j]).address,
                )
            &&& forall|i: int|
                0 <= i < n ==> dials_all_but_itself(
                    create_node,
                    nodes@,
                    i as nat,
                    #[trigger] nodes@[i],
                )
        },
{
    if calls_differ(create_maddr, n as nat) {
        assert forall|i: int, j: int| 0 <= i < j < n implies maddr_bytes(
            (#[trigger] nodes@[i]).address,
        ) != maddr_bytes((#[trigger] nodes@[j]).address) by {
            assert(nth_call(create_maddr, i as nat, nodes@[i].address));
            assert(nth_call(create_maddr, j as nat, nodes@[j].address));
        }
        assert forall|i: int| 0 <= i < n implies dials_all_but_itself(
            create_node,
            nodes@,
            i as nat,
            #[trigger] nodes@[i],
        ) by {
            lemma_distinct_nodes_dial_all_others(nodes@, i);
            assert(placed_in_turn(create_node, addresses_of(nodes@), i as nat, nodes@[i]));
            let bootstraps = choose|bootstraps: Vec<Multiaddr>|
                {
                    &&& bootstraps@ == other_addresses(addresses_of(nodes@), nodes@[i].address)
                    &&& #[trigger] nth_call_with_two(
                        create_node,
                        i as nat,
                        bootstraps,
                        nodes@[i].address,
                        nodes@[i].node,
                    )
                };
            assert(bootstraps@ == addresses_of(nodes@).remove(i));
            assert(nth_call_with_two(
                create_node,
                i as nat,
                bootstraps,
                nodes@[i].address,
                nodes@[i].node,
            ));
        }
    }
}

/// No two of the first `n` calls of `create_maddr` can have the same result.
pub open spec fn calls_differ<M: FnMut() -> Multiaddr>(create_maddr: M, n: nat) -> bool {
    forall|i: nat, j: nat, a: Multiaddr, b: Multiaddr|
        i < j < n && #[trigger] nth_call(create_maddr, i, a) && #[trigger] nth_call(
            create_maddr,
            j,
            b,
        ) ==> maddr_bytes(a) != maddr_bytes(b)
}

/// Node `i` of `nodes` came out of call `i` of `create_node`, given the addresses of all
/// nodes but its own, which are one less than there are nodes.
pub open spec fn dials_all_but_itself<N, F: FnMut(Vec<Multiaddr>, Multiaddr) -> N>(
    create_node: F,
    nodes: Seq<Placed<N>>,
    i: nat,
    placed: Placed<N>,
) -> bool {
    exists|bootstraps: Vec<Multiaddr>|
        {
            &&& bootstraps@.len() == nodes.len() - 1
            &&& bootstraps@ == addresses_of(nodes).remove(i as int)
            &&& #[trigger] nth_call_with_two(
                create_node,
                i,
                bootstraps,
                placed.address,
                placed.node,
            )
        }
}

proof fn lemma_distinct_nodes_dial_all_others<N>(nodes: Seq<Placed<N>>, node: int)
    requires
        0 <= node < nodes.len(),
        forall|i: int, j: int|
            0 <= i < j < nodes.len() ==> maddr_bytes((#[trigger] nodes[i]).address)
                != maddr_bytes((#[trigger] nodes[j]).address),
    ensures
        other_addresses(addresses_of(nodes), nodes[node].address) == addresses_of(nodes).remove(
            node,
        ),
{
    let addresses = addresses_of(nodes);
    assert forall|i: int, j: int| 0 <= i < j < addresses.len() implies maddr_bytes(
        #[trigger] addresses[i],
    ) != maddr_bytes(#[trigger] addresses[j]) by {
        assert(addresses[i] == nodes[i].address && addresses[j] == nodes[j].address);
    }
    assert(addresses[node] == nodes[node].address);
    law_connected_when_all_dialled(addresses, node);
}

/// The addresses of a swarm come from `numbers`, each of which was drawn for the address at
/// its place: two nodes have the same address if and only if the same number was drawn for
/// both, and if no number was drawn twice, every node is made to dial all the others.
pub open spec fn spread_by<N>(
    nodes: Seq<Placed<N>>,
    numbers: Seq<u64>,
    configured: spec_fn(SwarmConfig, SwarmConfig) -> bool,
    assembled: spec_fn(SwarmDraft, N) -> bool,
) -> bool {
    &&& numbers.len() == nodes.len()
    &&& forall|i: int| 0 <= i < numbers.len() ==> drawn_for(i, #[trigger] numbers[i])
    &&& forall|i: int, j: int|
        0 <= i < nodes.len() && 0 <= j < nodes.len() ==> (maddr_bytes(
            (#[trigger] nodes[i]).address,
        ) == maddr_bytes((#[trigger] nodes[j]).address) <==> numbers[i] == numbers[j])
    &&& numbers.no_duplicates() ==> forall|i: int|
        0 <= i < nodes.len() ==> node_made(
            configured,
            assembled,
            addresses_of(nodes).remove(i),
            nodes[i].address,
            (#[trigger] nodes[i]).node,
        )
}

proof fn lemma_swarm_is_spread<N>(
    nodes: Vec<Placed<N>>,
    n: nat,
    configured: spec_fn(SwarmConfig, SwarmConfig) -> bool,
    assembled: spec_fn(SwarmDraft, N) -> bool,
)
    requires
        swarm_made(Some(nodes), n, configured, assembled),
    ensures
        exists|numbers: Seq<u64>| #[trigger]
            spread_by(nodes@, numbers, configured, assembled),
{
    let addresses = addresses_of(nodes@);
    let numbers = choose|numbers: Seq<u64>| #[trigger]
        drawn_one_by_one(numbers) && are_maddrs_for(addresses, numbers);
    assert forall|i: int, j: int|
        0 <= i < nodes@.len() && 0 <= j < nodes@.len() implies (maddr_bytes(
        (#[trigger] nodes@[i]).address,
    ) == maddr_bytes((#[trigger] nodes@[j]).address) <==> numbers[i] == numbers[j]) by {
        assert(addresses[i] == nodes@[i].address && addresses[j] == nodes@[j].address);
        assert(numbers[i] < u64::MAX && numbers[j] < u64::MAX);
        if maddr_bytes(nodes@[i].address) == maddr_bytes(nodes@[j].address) {
            assert(memory_maddr_bytes((numbers[i] + 1) as u64) == memory_maddr_bytes(
                (numbers[j] + 1) as u64,
            ));
            law_memory_maddr_tells_port((numbers[i] + 1) as u64, (numbers[j] + 1) as u64);
        }
    }
    if numbers.no_duplicates() {
        assert forall|i: int| 0 <= i < nodes@.len() implies node_made(
            configured,
            assembled,
            addresses.remove(i),
            nodes@[i].address,
            (#[trigger] nodes@[i]).node,
        ) by {
            lemma_distinct_nodes_dial_all_others(nodes@, i);
        }
    }
    assert(spread_by(nodes@, numbers, configured, assembled));
}

/// The addresses of a swarm of `make_swarms_with_cfg` come from `n` separate draws, one for
/// each node, so that different draws make every node dial the `n - 1` others.
pub proof fn law_configured_swarm_is_spread<N, F, A>(
    n: usize,
    update_cfg: F,
    assemble: A,
    nodes: Vec<Placed<N>>,
)
    where
        F: Fn(SwarmConfig) -> SwarmConfig,
        A: Fn(SwarmDraft) -> N,
    requires
        call_ensures(make_swarms_with_cfg::<N, F, A>, (n, update_cfg, assemble), Some(nodes)),
    ensures
        nodes@.len() == n,
        exists|numbers: Seq<u64>| #[trigger]
            spread_by(nodes@, numbers, updated(&update_cfg), assembled_by(&assemble)),
{
    lemma_swarm_is_spread(nodes, n as nat, updated(&update_cfg), assembled_by(&assemble));
}

/// The addresses of a swarm of `make_swarms` come from `n` separate draws, one for each
/// node, so that different draws make every node dial the `n - 1` others.
pub proof fn law_swarm_is_spread<N, A>(n: usize, assemble: A, nodes: Vec<Placed<N>>)
    where
        A: Fn(SwarmDraft) -> N,
    requires
        call_ensures(make_swarms::<N, A>, (n, assemble), Some(nodes)),
    ensures
        nodes@.len() == n,
        exists|numbers: Seq<u64>| #[trigger]
            spread_by(nodes@, numbers, unchanged(), assembled_by(&assemble)),
{
    lemma_swarm_is_spread(nodes, n as nat, unchanged(), assembled_by(&assemble));
}

/// There is a swarm unless the number that was drawn for one of its nodes is the largest.
pub proof fn law_swarm_is_owed<N, A>(n: usize, assemble: A)
    where
        A: Fn(SwarmDraft) -> N,
    requires
        call_ensures(make_swarms::<N, A>, (n, assemble), None),
    ensures
        exists|turn: int| 0 <= turn < n && #[trigger] drawn_for(turn, u64::MAX),
{
}

/// Starting a swarm keeps its nodes apart: what is at place `i` afterwards has the id, the
/// address and the directory of node `i`, and the outlet that call `i` of `start` gave for
/// that node.
pub proof fn law_started_nodes_stay_in_place<N, S>(
    nodes: Vec<Placed<(PeerId, N, PathBuf)>>,
    start: S,
    swarms: Vec<CreatedSwarm>,
)
    where
        S: FnMut(N) -> Sender<()>,
    requires
        call_ensures(start_swarms::<N, S>, (nodes, start), swarms),
    ensures
        swarms@.len() == nodes@.len(),
        forall|i: int|
            0 <= i < nodes@.len() ==> {
                &&& (#[trigger] swarms@[i]).0 == nodes@[i].node.0
                &&& swarms@[i].1 == nodes@[i].address
                &&& swarms@[i].2 == nodes@[i].node.2
                &&& nth_call_with(start, i as nat, nodes@[i].node.1, swarms@[i].3)
            },
{
    assert forall|i: int| 0 <= i < nodes@.len() implies {
        &&& (#[trigger] swarms@[i]).0 == nodes@[i].node.0
        &&& swarms@[i].1 == nodes@[i].address
        &&& swarms@[i].2 == nodes@[i].node.2
        &&& nth_call_with(start, i as nat, nodes@[i].node.1, swarms@[i].3)
    } by {
        assert(started_by(start, nodes@[i], swarms@[i]));
        assert(started_in_turn(start, i, nodes@[i], swarms@[i]));
    }
}

/// A node is waited for exactly as long as it lacks a connection to another node, and a
/// connection more never makes a connected node one to wait for.
pub proof fn law_wait_is_for_the_others(
    n: usize,
    connections: usize,
    more: usize,
    step: WaitStep,
    later: WaitStep,
)
    requires
        connections <= more,
        call_ensures(wait_step, (n, connections), step),
        call_ensures(wait_step, (n, more), later),
    ensures
        step == WaitStep::Connected <==> n <= connections + 1,
        step == WaitStep::Connected ==> later == WaitStep::Connected,
{
}

/// Every node of `make_swarms` is put together from a draft that dials the addresses that
/// differ from the node's own, listens on its own, trusts nobody, stays in memory and works
/// in a fresh directory.
pub proof fn law_plain_nodes<N, A>(n: usize, assemble: A, nodes: Vec<Placed<N>>, i: int)
    where
        A: Fn(SwarmDraft) -> N,
    requires
        call_ensures(make_swarms::<N, A>, (n, assemble), Some(nodes)),
        0 <= i < n,
    ensures
        exists|draft: SwarmDraft|
            {
                &&& #[trigger] call_ensures(assemble, (draft,), nodes@[i].node)
                &&& draft.bootstraps@ == other_addresses(
                    addresses_of(nodes@),
                    nodes@[i].address,
                )
                &&& draft.listen_on == nodes@[i].address
                &&& draft.trust is None
                &&& draft.transport == Transport::Memory
                &&& draft.work_dir is Fresh
            },
{
    let bootstraps = other_addresses(addresses_of(nodes@), nodes@[i].address);
    let node = nodes@[i].node;
    let configured = unchanged();
    let assembled = assembled_by(&assemble);
    assert(node_made(configured, assembled, bootstraps, nodes@[i].address, node));
    let (plain, config, draft) = choose|
        plain: SwarmConfig,
        config: SwarmConfig,
        draft: SwarmDraft,
    |
        {
            &&& plain.is_plain(bootstraps, nodes@[i].address)
            &&& #[trigger] configured(plain, config)
            &&& #[trigger] draft.begins(config)
            &&& assembled(draft, node)
        };
    assert(call_ensures(assemble, (draft,), node));
}

/// Every node of `make_swarms_with_cfg` is put together from a draft with the addresses, the
/// trust and the transport of the configuration that `update_cfg` returned for it, when it was
/// given a configuration with the node's own address and those that differ from it.
pub proof fn law_configured_nodes<N, F, A>(
    n: usize,
    update_cfg: F,
    assemble: A,
    nodes: Vec<Placed<N>>,
    i: int,
)
    where
        F: Fn(SwarmConfig) -> SwarmConfig,
        A: Fn(SwarmDraft) -> N,
    requires
        call_ensures(make_swarms_with_cfg::<N, F, A>, (n, update_cfg, assemble), Some(nodes)),
        0 <= i < n,
    ensures
        exists|plain: SwarmConfig, config: SwarmConfig, draft: SwarmDraft|
            {
                &&& #[trigger] call_ensures(update_cfg, (plain,), config)
                &&& #[trigger] call_ensures(assemble, (draft,), nodes@[i].node)
                &&& plain.bootstraps@ == other_addresses(
                    addresses_of(nodes@),
                    nodes@[i].address,
                )
                &&& plain.listen_on == nodes@[i].address
                &&& plain.trust is None
                &&& plain.transport == Transport::Memory
                &&& plain.tmp_dir is None
                &&& draft.bootstraps == config.bootstraps
                &&& draft.listen_on == config.listen_on
                &&& draft.trust == config.trust
                &&& draft.transport == config.transport
                &&& config.tmp_dir matches Some(dir) ==> draft.work_dir == WorkDir::Given(dir)
            },
{
    let bootstraps = other_addresses(addresses_of(nodes@), nodes@[i].address);
    let node = nodes@[i].node;
    let configured = updated(&update_cfg);
    let assembled = assembled_by(&assemble);
    assert(node_made(configured, assembled, bootstraps, nodes@[i].address, node));
    let (plain, config, draft) = choose|
        plain: SwarmConfig,
        config: SwarmConfig,
        draft: SwarmDraft,
    |
        {
            &&& plain.is_plain(bootstraps, nodes@[i].address)
            &&& #[trigger] configured(plain, config)
            &&& #[trigger] draft.begins(config)
            &&& assembled(draft, node)
        };
    assert(call_ensures(update_cfg, (plain,), config));
    assert(call_ensures(assemble, (draft,), node));
}

} // verus!
