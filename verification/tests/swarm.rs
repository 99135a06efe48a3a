use futures::channel::oneshot;
use libp2p::{Multiaddr, PeerId};
use std::cell::RefCell;
use std::path::PathBuf;
use swarm_kit::address::memory_maddr_for;
use swarm_kit::node::{SwarmConfig, Transport, WorkDir};
use swarm_kit::swarm::{make_swarms, make_swarms_with, make_swarms_with_cfg, nodes_on};
use swarm_kit::swarm::{start_swarms, wait_step, Placed, WaitStep};

fn address(number: u64) -> Multiaddr {
    memory_maddr_for(number).unwrap()
}

fn counting() -> impl FnMut() -> Multiaddr {
    let mut number: u64 = 0;
    move || {
        number += 1;
        address(number)
    }
}

#[test]
fn every_node_dials_all_others() {
    let mut made: Vec<Multiaddr> = vec![];
    let nodes = make_swarms_with(
        3,
        |bootstraps, own| {
            made.push(own.clone());
            (bootstraps, own)
        },
        counting(),
    );
    assert_eq!(made, vec![address(1), address(2), address(3)]);
    assert_eq!(nodes.len(), 3);
    let dialled: Vec<Vec<Multiaddr>> = nodes.iter().map(|placed| placed.node.0.clone()).collect();
    assert_eq!(
        dialled,
        vec![
            vec![address(2), address(3)],
            vec![address(1), address(3)],
            vec![address(1), address(2)],
        ]
    );
    for placed in &nodes {
        assert_eq!(placed.address, placed.node.1);
    }
}

#[test]
fn an_address_that_occurs_twice_is_not_dialled_from_itself() {
    let nodes = make_swarms_with(2, |bootstraps, _| bootstraps, || address(5));
    assert!(nodes[0].node.is_empty());
    assert!(nodes[1].node.is_empty());
}

#[test]
fn an_empty_swarm_makes_nothing() {
    let nodes: Vec<Placed<()>> = make_swarms_with(
        0,
        |_, _| panic!("no node was asked for"),
        || panic!("no address was asked for"),
    );
    assert!(nodes.is_empty());
    let plain: Option<Vec<Placed<()>>> = make_swarms(0, |_| panic!("no node was asked for"));
    assert!(plain.unwrap().is_empty());
    let configured: Option<Vec<Placed<()>>> = make_swarms_with_cfg(
        0,
        |_| panic!("no configuration was asked for"),
        |_| panic!("no node was asked for"),
    );
    assert!(configured.unwrap().is_empty());
    let none: Vec<Placed<(PeerId, (), PathBuf)>> = vec![];
    assert!(start_swarms(none, |_| panic!("no node was to be started")).is_empty());
}

#[test]
fn a_swarm_listens_on_its_addresses() {
    let nodes = make_swarms(3, |draft| draft).unwrap();
    let addresses: Vec<Multiaddr> = nodes.iter().map(|placed| placed.address.clone()).collect();
    for (i, placed) in nodes.iter().enumerate() {
        assert_eq!(placed.node.listen_on, addresses[i]);
        let mut others = addresses.clone();
        others.remove(i);
        assert_eq!(placed.node.bootstraps, others);
        assert_eq!(placed.node.transport, Transport::Memory);
        assert!(placed.node.trust.is_none());
        assert!(matches!(placed.node.work_dir, WorkDir::Fresh(_)));
    }
    assert_ne!(addresses[0], addresses[1]);
}

#[test]
fn a_swarm_can_be_configured() {
    let update_cfg = |mut config: SwarmConfig| {
        config.transport = Transport::Network;
        config.bootstraps = vec![];
        config.tmp_dir = Some(PathBuf::from("/shared"));
        config
    };
    let nodes = make_swarms_with_cfg(2, update_cfg, |draft| draft).unwrap();
    assert_eq!(nodes.len(), 2);
    for placed in nodes {
        assert_eq!(placed.node.listen_on, placed.address);
        assert!(placed.node.bootstraps.is_empty());
        assert_eq!(placed.node.transport, Transport::Network);
        match placed.node.work_dir {
            WorkDir::Given(dir) => assert_eq!(dir, PathBuf::from("/shared")),
            WorkDir::Fresh(_) => panic!("the given directory was dropped"),
        }
    }
}

#[test]
fn nodes_are_started_in_order() {
    let ids = [PeerId::random(), PeerId::random()];
    let nodes: Vec<Placed<(PeerId, usize, PathBuf)>> = (0..2)
        .map(|i| Placed {
            address: address(i as u64),
            node: (ids[i], i, PathBuf::from(format!("/dir{}", i))),
        })
        .collect();
    let mut started: Vec<usize> = vec![];
    let mut signals: Vec<oneshot::Receiver<()>> = vec![];
    let swarms = start_swarms(nodes, |node: usize| {
        started.push(node);
        let (stop, signal) = oneshot::channel();
        signals.push(signal);
        stop
    });
    assert_eq!(started, vec![0, 1]);
    assert_eq!(swarms.len(), 2);
    for (i, swarm) in swarms.into_iter().enumerate() {
        assert_eq!(swarm.0, ids[i]);
        assert_eq!(swarm.1, address(i as u64));
        assert_eq!(swarm.2, PathBuf::from(format!("/dir{}", i)));
        swarm.3.send(()).unwrap();
        assert_eq!(signals[i].try_recv(), Ok(Some(())));
    }
}

#[test]
fn a_node_is_connected_to_all_others() {
    assert_eq!(wait_step(3, 0), WaitStep::AwaitChange);
    assert_eq!(wait_step(3, 1), WaitStep::AwaitChange);
    assert_eq!(wait_step(3, 2), WaitStep::Connected);
    assert_eq!(wait_step(3, 5), WaitStep::Connected);
    assert_eq!(wait_step(1, 0), WaitStep::Connected);
}

#[test]
fn dialling_is_mutual() {
    let mut numbers = vec![4u64, 4, 9].into_iter();
    let nodes = make_swarms_with(
        3,
        |bootstraps, _| bootstraps,
        || address(numbers.next().unwrap()),
    );
    for a in &nodes {
        for b in &nodes {
            assert_eq!(a.node.contains(&b.address), b.node.contains(&a.address));
        }
    }
    assert_eq!(nodes[0].node, vec![address(9)]);
    assert_eq!(nodes[2].node, vec![address(4), address(4)]);
}

#[test]
fn nodes_stand_on_given_addresses() {
    let addresses = vec![address(8), address(6), address(7)];
    let nodes = nodes_on(&addresses, |bootstraps, own| (bootstraps, own));
    assert_eq!(nodes.len(), 3);
    assert_eq!(nodes[1].address, address(6));
    assert_eq!(nodes[1].node, (vec![address(8), address(7)], address(6)));
}

#[test]
fn an_unchanged_configuration_is_the_plain_one() {
    let plain = make_swarms(2, |draft| draft).unwrap();
    let unchanged = make_swarms_with_cfg(2, |config| config, |draft| draft).unwrap();
    for nodes in vec![plain, unchanged] {
        for (i, placed) in nodes.iter().enumerate() {
            assert_eq!(placed.node.listen_on, placed.address);
            assert_eq!(placed.node.bootstraps, vec![nodes[1 - i].address.clone()]);
            assert_eq!(placed.node.transport, Transport::Memory);
            assert!(placed.node.trust.is_none());
        }
    }
}

#[test]
fn a_node_is_put_together_before_the_next_is_configured() {
    let steps: RefCell<Vec<(&str, Multiaddr)>> = RefCell::new(vec![]);
    let nodes = make_swarms_with_cfg(
        2,
        |config| {
            steps.borrow_mut().push(("update", config.listen_on.clone()));
            config
        },
        |draft| {
            steps.borrow_mut().push(("assemble", draft.listen_on.clone()));
            draft.peer_id
        },
    )
    .unwrap();
    let (one, other) = (nodes[0].address.clone(), nodes[1].address.clone());
    assert_eq!(
        steps.into_inner(),
        vec![
            ("update", one.clone()),
            ("assemble", one),
            ("update", other.clone()),
            ("assemble", other),
        ]
    );
    assert_ne!(nodes[0].node, nodes[1].node);
}
