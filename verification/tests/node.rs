use libp2p::identity::PublicKey as NodeKey;
use libp2p::{Multiaddr, PeerId};
use std::path::PathBuf;
use swarm_kit::address::memory_maddr_for;
use swarm_kit::node::{create_swarm, Preset, SwarmConfig, Transport, TransportSetup, WorkDir};
use swarm_kit::span::Span;
use swarm_kit::trust::Trust;
use trust_graph::Certificate;

fn address(number: u64) -> Multiaddr {
    memory_maddr_for(number).unwrap()
}

#[test]
fn the_default_node_is_alone() {
    let config = SwarmConfig::default();
    assert!(config.bootstraps.is_empty());
    assert_eq!(config.listen_on.to_vec(), Vec::<u8>::new());
    assert!(config.trust.is_none());
    assert_eq!(config.transport, Transport::Memory);
    assert_eq!(config.tmp_dir, None);
}

#[test]
fn a_config_keeps_what_it_is_given() {
    let config = SwarmConfig::new(vec![address(1), address(2)], address(3));
    assert_eq!(config.bootstraps, vec![address(1), address(2)]);
    assert_eq!(config.listen_on, address(3));
    assert!(config.trust.is_none());
    assert_eq!(config.transport, Transport::Memory);
    assert_eq!(config.tmp_dir, None);

    let trust = Trust { cur_time: Span::from_secs(9), ..Trust::default() };
    let config = SwarmConfig::with_trust(vec![address(1)], address(3), trust);
    assert_eq!(config.bootstraps, vec![address(1)]);
    assert_eq!(config.listen_on, address(3));
    assert_eq!(config.trust.unwrap().cur_time.parts(), (9, 0));
    assert_eq!(config.transport, Transport::Memory);
    assert_eq!(config.tmp_dir, None);
}

#[test]
fn the_id_follows_from_the_keys() {
    let draft = create_swarm(SwarmConfig::default());
    let key = draft.key_pair.public();
    let mut bytes: Vec<u8> = vec![0x00, 0x24, 0x08, 0x01, 0x12, 0x20];
    bytes.extend_from_slice(&key.encode());
    assert_eq!(draft.peer_id.to_bytes(), bytes);
    assert_eq!(draft.peer_id, PeerId::from(NodeKey::Ed25519(key)));
    assert_eq!(draft.key_pair.encode()[32..], draft.key_pair.public().encode());
}

#[test]
fn every_node_has_its_own_id() {
    let one = create_swarm(SwarmConfig::default());
    let other = create_swarm(SwarmConfig::default());
    assert_ne!(one.peer_id, other.peer_id);
}

#[test]
fn a_given_directory_is_used() {
    let mut config = SwarmConfig::default();
    config.tmp_dir = Some(PathBuf::from("/somewhere"));
    match create_swarm(config).work_dir {
        WorkDir::Given(dir) => assert_eq!(dir, PathBuf::from("/somewhere")),
        WorkDir::Fresh(_) => panic!("the given directory was dropped"),
    }
}

#[test]
fn without_a_directory_a_fresh_one_is_named() {
    match create_swarm(SwarmConfig::default()).work_dir {
        WorkDir::Given(_) => panic!("nobody gave a directory"),
        WorkDir::Fresh(names) => {
            assert_eq!(names.len(), 2);
            assert_eq!(names[0], "fluence_test");
            assert_eq!(names[1].len(), 16);
        }
    }
}

#[test]
fn the_plan_follows_from_the_draft() {
    let draft = create_swarm(SwarmConfig::new(vec![address(1), address(2)], address(3)));
    let peer_id = draft.peer_id;
    let keys = draft.key_pair.encode();
    let plan = draft.plan().unwrap();
    assert_eq!(plan.peer_id, peer_id);
    assert_eq!(plan.key_pair.encode(), keys);
    assert_eq!(plan.bootstraps, vec![address(1), address(2)]);
    assert_eq!(plan.listen_on, vec![address(3)]);
    assert!(matches!(plan.transport, TransportSetup::Memory));
    assert_eq!(plan.stepper_dir, "stepper");
    assert_eq!(plan.services_dir, "services");
    assert_ne!(plan.stepper_dir, plan.services_dir);
    assert_eq!(plan.pool_size, 1);
    assert_eq!(plan.services_envs, Preset::Default);
    assert_eq!(plan.bootstrap_config, Preset::Zero);
    assert_eq!(plan.registry, Preset::Absent);
    assert_eq!(plan.protocol_config, Preset::Default);
    assert_eq!(plan.kademlia_config, Preset::Default);
    assert_eq!(plan.particle_queue_buffer, 100);
    assert_eq!(plan.particle_parallelism, 16);
    assert_eq!(plan.any_socket, "0.0.0.0:0");
    assert_eq!(plan.script_storage.timer_resolution.parts(), (0, 500_000_000));
    assert_eq!(plan.script_storage.max_failures, 1);
    assert_eq!(plan.script_storage.particle_ttl.parts(), (5, 0));
    assert_eq!(plan.script_storage.peer_id, peer_id);
}

#[test]
fn a_network_transport_gives_up_after_ten_seconds() {
    let mut config = SwarmConfig::default();
    config.transport = Transport::Network;
    match create_swarm(config).plan().unwrap().transport {
        TransportSetup::Memory => panic!("the network was asked for"),
        TransportSetup::Network { timeout } => assert_eq!(timeout.parts(), (10, 0)),
    }
}

#[test]
fn a_refused_certificate_leaves_no_plan() {
    let trust = Trust {
        root_weights: vec![],
        certificates: vec![Certificate::new_unverified(vec![])],
        cur_time: Span::from_secs(0),
    };
    let draft = create_swarm(SwarmConfig::with_trust(vec![], address(3), trust));
    match draft.plan() {
        Ok(_) => panic!("an empty certificate was accepted"),
        Err(rejected) => assert_eq!(rejected.index, 0),
    }
}
