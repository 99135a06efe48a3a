use libp2p::identity::ed25519::PublicKey;
use std::time::Duration;
use swarm_kit::span::Span;
use swarm_kit::trust::{build_trust_graph, get_cert, Trust};
use trust_graph::{Certificate, KeyPair};

const ISSUED_AT: u64 = 1_000;
const EXPIRES_AT: u64 = 2_000;

fn root_key(key_pair: &KeyPair) -> PublicKey {
    PublicKey::decode(&key_pair.public_key().encode()).unwrap()
}

fn certificate(root: &KeyPair, issued_for: &KeyPair) -> Certificate {
    Certificate::issue_root(
        root,
        issued_for.public_key(),
        Duration::from_secs(EXPIRES_AT),
        Duration::from_secs(ISSUED_AT),
    )
}

#[test]
fn the_sample_certificate_is_read() {
    let cert = get_cert().unwrap();
    assert_eq!(cert.chain.len(), 3);
    assert_eq!(cert.chain[0].expires_at, Duration::from_secs(u64::MAX));
    assert_eq!(cert.chain[0].issued_at, Duration::from_secs(1_589_892_496_362));
    assert_eq!(cert.chain[1].expires_at, Duration::from_secs(1_621_450_096_362));
    assert_eq!(cert.chain[2].expires_at, Duration::from_secs(101_589_892_496_363));
    assert_eq!(cert.chain[2].issued_at, Duration::from_secs(1_589_892_496_363));
    let text = cert.to_string();
    assert!(text.starts_with("11\n1111\nEqpwyPYjbRbGPcp7Q1UtSnkeCDG9x3JrY96strN4uaXv\n"));
    assert!(text.ends_with("\n101589892496363\n1589892496363\n"));
    assert_eq!(text.parse::<Certificate>().unwrap(), cert);
}

#[test]
fn without_trust_the_graph_is_empty() {
    let key = KeyPair::generate().public_key();
    let graph = build_trust_graph(&None).unwrap();
    assert_eq!(graph.weight(&key), None);
    let graph = build_trust_graph(&Some(Trust::default())).unwrap();
    assert_eq!(graph.weight(&key), None);
}

#[test]
fn accepted_certificates_give_weight() {
    let root = KeyPair::generate();
    let trusted = KeyPair::generate();
    let stranger = KeyPair::generate();
    let trust = Trust {
        root_weights: vec![(root_key(&root), 7)],
        certificates: vec![certificate(&root, &trusted)],
        cur_time: Span::from_secs(EXPIRES_AT),
    };
    let graph = build_trust_graph(&Some(trust)).unwrap();
    assert_eq!(graph.weight(root.public_key()), Some(7));
    assert_eq!(graph.weight(trusted.public_key()), Some(8));
    assert_eq!(graph.weight(stranger.public_key()), None);
}

#[test]
fn the_later_weight_of_a_root_holds() {
    let root = KeyPair::generate();
    let trust = Trust {
        root_weights: vec![(root_key(&root), 7), (root_key(&root), 3)],
        certificates: vec![],
        cur_time: Span::from_secs(0),
    };
    let graph = build_trust_graph(&Some(trust)).unwrap();
    assert_eq!(graph.weight(root.public_key()), Some(3));
}

#[test]
fn the_first_certificate_without_a_root_is_refused() {
    let root = KeyPair::generate();
    let other = KeyPair::generate();
    let trusted = KeyPair::generate();
    let trust = Trust {
        root_weights: vec![(root_key(&root), 1)],
        certificates: vec![
            certificate(&root, &trusted),
            certificate(&other, &trusted),
            Certificate::new_unverified(vec![]),
        ],
        cur_time: Span::from_secs(ISSUED_AT),
    };
    let rejected = build_trust_graph(&Some(trust)).unwrap_err();
    assert_eq!(rejected.index, 1);
    assert_eq!(rejected.reason, "Certificate does not contain a trusted root.");
}

#[test]
fn an_expired_certificate_is_refused() {
    let root = KeyPair::generate();
    let trusted = KeyPair::generate();
    let trust = Trust {
        root_weights: vec![(root_key(&root), 1)],
        certificates: vec![certificate(&root, &trusted)],
        cur_time: Span::new(EXPIRES_AT, 1),
    };
    let rejected = build_trust_graph(&Some(trust)).unwrap_err();
    assert_eq!(rejected.index, 0);
    assert_eq!(
        rejected.reason,
        "Trust 1 in chain did not pass verification: Trust in chain is expired."
    );
}

#[test]
fn nothing_is_accepted_without_a_root() {
    let root = KeyPair::generate();
    let trust = Trust {
        root_weights: vec![],
        certificates: vec![certificate(&root, &KeyPair::generate())],
        cur_time: Span::from_secs(ISSUED_AT),
    };
    let rejected = build_trust_graph(&Some(trust)).unwrap_err();
    assert_eq!(rejected.index, 0);
    assert_eq!(rejected.reason, "Certificate does not contain a trusted root.");
}

#[test]
fn an_empty_certificate_is_refused() {
    let trust = Trust {
        root_weights: vec![],
        certificates: vec![Certificate::new_unverified(vec![])],
        cur_time: Span::from_secs(0),
    };
    let rejected = build_trust_graph(&Some(trust)).unwrap_err();
    assert_eq!(rejected.reason, "The certificate must have at least 1 trust");
}

#[test]
fn the_first_word_on_a_root_decides() {
    let root = KeyPair::generate();
    let other = KeyPair::generate();
    let late = KeyPair::generate();
    let from_root = certificate(&root, &other);
    let from_other = certificate(&other, &late);
    let root_weights = vec![(root_key(&root), 1), (root_key(&other), 5)];
    let other_key = other.public_key();

    // `other` is spoken of before its own certificate comes: it gets no word of its own
    let trust = Trust {
        root_weights: root_weights.clone(),
        certificates: vec![from_root.clone(), from_other.clone()],
        cur_time: Span::from_secs(ISSUED_AT),
    };
    let graph = build_trust_graph(&Some(trust)).unwrap();
    let node = graph.get(other_key.clone()).unwrap();
    assert!(node.get_auth(other_key.clone()).is_none());
    assert!(node.get_auth(root.public_key()).is_some());

    // the other way round it does
    let trust = Trust {
        root_weights,
        certificates: vec![from_other, from_root],
        cur_time: Span::from_secs(ISSUED_AT),
    };
    let graph = build_trust_graph(&Some(trust)).unwrap();
    let node = graph.get(other_key.clone()).unwrap();
    assert!(node.get_auth(other_key.clone()).is_some());
    assert!(node.get_auth(root.public_key()).is_some());
}

#[test]
fn the_newest_word_is_kept() {
    let root = KeyPair::generate();
    let trusted = KeyPair::generate();
    let at = |secs: u64| {
        Certificate::issue_root(
            &root,
            trusted.public_key(),
            Duration::from_secs(EXPIRES_AT + secs),
            Duration::from_secs(secs),
        )
    };
    let trust = Trust {
        root_weights: vec![(root_key(&root), 1)],
        certificates: vec![at(20), at(30), at(10)],
        cur_time: Span::from_secs(ISSUED_AT),
    };
    let graph = build_trust_graph(&Some(trust)).unwrap();
    let word = graph.get(trusted.public_key()).unwrap().get_auth(root.public_key()).unwrap();
    assert_eq!(word.trust.issued_at, Duration::from_secs(30));
    assert_eq!(word.trust.expires_at, Duration::from_secs(EXPIRES_AT + 30));
    let own = graph.get(root.public_key()).unwrap().get_auth(root.public_key()).unwrap();
    assert_eq!(own.trust.issued_at, Duration::from_secs(20));
}
