use futures::channel::oneshot::{Canceled, Sender};
use futures::executor::block_on;
use libp2p::identity::ed25519::{Keypair, PublicKey};
use libp2p::{Multiaddr, PeerId};
use std::sync::atomic::{AtomicUsize, Ordering};
use std::sync::Arc;
use std::task::{Context, Wake, Waker};
use swarm_kit::address::memory_maddr_for;
use swarm_kit::kademlia::{settle, settle_lookup, submitted, Command, KademliaApi};
use swarm_kit::kademlia::{KademliaApiInlet, KademliaError, Multihash, PollRound, PollStep, Polled};
use swarm_kit::kademlia::{AddressesOutlet, DoneOutlet, PeersOutlet, Reply, Service};

#[derive(Default)]
struct Wakes {
    count: AtomicUsize,
}

impl Wake for Wakes {
    fn wake(self: Arc<Self>) {
        self.count.fetch_add(1, Ordering::SeqCst);
    }
}

/// Works off the queue once: the commands, and whether the task is to be woken.
fn round<K>(inlet: &mut KademliaApiInlet<K>) -> (Vec<Command>, bool) {
    let wakes = Arc::new(Wakes::default());
    let waker = Waker::from(wakes.clone());
    let mut cx = Context::from_waker(&waker);
    let mut round = PollRound::new();
    let mut commands: Vec<Command> = vec![];
    loop {
        match inlet.poll_step(&mut round, &mut cx) {
            PollStep::Execute(command) => commands.push(command),
            PollStep::Rest { wake } => {
                assert_eq!(wakes.count.load(Ordering::SeqCst), 0);
                return (commands, wake);
            }
        }
    }
}

fn cancelled<R>(reply: Reply<R>) -> bool {
    matches!(reply, Err(KademliaError::Cancelled))
}

fn address(number: u64) -> Multiaddr {
    memory_maddr_for(number).unwrap()
}

#[test]
fn commands_come_out_in_order() {
    let (api, mut inlet) = KademliaApiInlet::new(());
    let (looked_up, discovered) = (PeerId::random(), PeerId::random());
    let _bootstrap = api.bootstrap().unwrap();
    let _lookup = api.local_lookup(looked_up).unwrap();
    let _discovery = api.discover_peer(discovered).unwrap();
    let _neighbours = api.neighborhood(Multihash { bytes: vec![1, 2, 3] }).unwrap();
    let (commands, wake) = round(&mut inlet);
    assert_eq!(commands.len(), 4);
    assert!(matches!(&commands[0], Command::Bootstrap { .. }));
    assert!(matches!(&commands[1], Command::LocalLookup { peer, .. } if *peer == looked_up));
    assert!(matches!(&commands[2], Command::DiscoverPeer { peer, .. } if *peer == discovered));
    assert!(matches!(&commands[3], Command::Neighborhood { key, .. } if key.bytes == [1, 2, 3]));
    assert!(wake);
    let (commands, wake) = round(&mut inlet);
    assert!(commands.is_empty());
    assert!(!wake);
}

#[test]
fn an_empty_queue_wakes_nobody() {
    let (api, mut inlet) = KademliaApiInlet::new(());
    let (commands, wake) = round(&mut inlet);
    assert!(commands.is_empty());
    assert!(!wake);
    drop(api);
    let (commands, wake) = round(&mut inlet);
    assert!(commands.is_empty());
    assert!(!wake);
}

#[test]
fn a_later_command_wakes_the_task() {
    let (api, mut inlet) = KademliaApiInlet::new(());
    let wakes = Arc::new(Wakes::default());
    let waker = Waker::from(wakes.clone());
    let mut cx = Context::from_waker(&waker);
    let mut round = PollRound::new();
    assert!(matches!(inlet.poll_step(&mut round, &mut cx), PollStep::Rest { wake: false }));
    assert_eq!(wakes.count.load(Ordering::SeqCst), 0);
    let _bootstrap = api.bootstrap().unwrap();
    assert_eq!(wakes.count.load(Ordering::SeqCst), 1);
}

#[test]
fn replies_reach_the_caller() {
    let (api, mut inlet) = KademliaApiInlet::new(());
    let peer = PeerId::random();
    let bootstrap = api.bootstrap().unwrap();
    let lookup = api.local_lookup(peer).unwrap();
    let discovery = api.discover_peer(peer).unwrap();
    let neighbours = api.neighborhood(Multihash { bytes: vec![] }).unwrap();
    for command in round(&mut inlet).0 {
        match command {
            Command::Bootstrap { out } => out.send(Ok(())).unwrap(),
            Command::LocalLookup { out, .. } => out.send(vec![address(1)]).unwrap(),
            Command::DiscoverPeer { out, .. } => out.send(Ok(vec![address(2)])).unwrap(),
            Command::Neighborhood { out, .. } => out.send(Ok(vec![peer])).unwrap(),
        }
    }
    assert!(settle(block_on(bootstrap)).is_ok());
    assert_eq!(settle_lookup(block_on(lookup)).unwrap(), vec![address(1)]);
    assert_eq!(settle(block_on(discovery)).unwrap(), vec![address(2)]);
    assert_eq!(settle(block_on(neighbours)).unwrap(), vec![peer]);
}

#[test]
fn a_failure_of_the_service_is_passed_on() {
    let (api, mut inlet) = KademliaApiInlet::new(());
    let discovery = api.discover_peer(PeerId::random()).unwrap();
    for command in round(&mut inlet).0 {
        match command {
            Command::DiscoverPeer { out, .. } => {
                let failure = KademliaError::Failed("no route".to_string());
                assert!(out.send(Err(failure)).is_ok());
            }
            other => panic!("another command: {:?}", other),
        }
    }
    match settle(block_on(discovery)) {
        Err(KademliaError::Failed(why)) => assert_eq!(why, "no route"),
        other => panic!("another reply: {:?}", other),
    }
}

#[test]
fn a_dropped_request_is_cancelled() {
    let (api, mut inlet) = KademliaApiInlet::new(());
    let bootstrap = api.bootstrap().unwrap();
    let lookup = api.local_lookup(PeerId::random()).unwrap();
    drop(round(&mut inlet));
    assert!(cancelled(settle(block_on(bootstrap))));
    assert!(cancelled(settle_lookup(block_on(lookup))));
}

#[test]
fn requests_to_a_service_that_is_gone_are_cancelled() {
    let (api, inlet) = KademliaApiInlet::new(());
    let waiting = api.bootstrap().unwrap();
    drop(inlet);
    assert!(matches!(api.bootstrap(), Err(KademliaError::Cancelled)));
    assert!(matches!(api.discover_peer(PeerId::random()), Err(KademliaError::Cancelled)));
    let key = Multihash { bytes: vec![0] };
    assert!(matches!(api.neighborhood(key), Err(KademliaError::Cancelled)));
    assert!(api.local_lookup(PeerId::random()).is_none());
    assert!(cancelled(settle(block_on(waiting))));
}

#[test]
fn copies_of_the_api_share_the_queue() {
    let (api, mut inlet) = KademliaApiInlet::new(());
    let copy: KademliaApi = api.clone();
    let _one = api.bootstrap().unwrap();
    let _other = copy.local_lookup(PeerId::random()).unwrap();
    let (commands, _) = round(&mut inlet);
    assert!(matches!(commands[0], Command::Bootstrap { .. }));
    assert!(matches!(commands[1], Command::LocalLookup { .. }));
}

#[test]
fn the_service_can_be_reached() {
    let (_api, mut inlet) = KademliaApiInlet::new(vec![1u8]);
    inlet.kademlia().push(2);
    assert_eq!(*inlet.kademlia(), vec![1, 2]);
    assert!(round(&mut inlet).0.is_empty());
    assert_eq!(*inlet.kademlia(), vec![1, 2]);
}

#[test]
fn what_was_sent_decides_what_the_caller_gets() {
    let (_out, inlet) = futures::channel::oneshot::channel::<u8>();
    assert!(submitted(Ok(()), inlet).is_ok());
    let (outlet, queue) = futures::channel::mpsc::unbounded::<Command>();
    drop(queue);
    let (out, inlet) = futures::channel::oneshot::channel::<Reply<()>>();
    let sent = outlet.unbounded_send(Command::Bootstrap { out });
    assert!(sent.is_err());
    assert!(matches!(submitted(sent, inlet), Err(KademliaError::Cancelled)));
}

#[test]
fn a_round_remembers_that_there_was_a_command() {
    let mut round = PollRound::new();
    assert!(!round.wake);
    assert!(matches!(round.observe(Polled::Pending), PollStep::Rest { wake: false }));
    assert!(!round.wake);
    let (out, _inlet) = futures::channel::oneshot::channel::<Reply<()>>();
    let step = round.observe(Polled::Ready(Command::Bootstrap { out }));
    assert!(matches!(step, PollStep::Execute(Command::Bootstrap { .. })));
    assert!(round.wake);
    assert!(matches!(round.observe(Polled::Closed), PollStep::Rest { wake: true }));
    assert!(round.wake);
}

#[test]
fn an_inlet_without_outlet_settles_as_cancelled() {
    assert!(cancelled(settle::<u8>(Err(Canceled))));
    assert_eq!(settle::<u8>(Ok(Ok(3))).unwrap(), 3);
    assert!(cancelled(settle_lookup(Err(Canceled))));
}

/// A service that notes what is asked of it, and answers.
#[derive(Default)]
struct Notes {
    calls: Vec<String>,
}

impl Service for Notes {
    fn bootstrap(&mut self, out: DoneOutlet) {
        self.calls.push("bootstrap".to_string());
        assert!(out.send(Ok(())).is_ok());
    }

    fn local_lookup(&mut self, peer: &PeerId, out: Sender<Vec<Multiaddr>>) {
        self.calls.push(format!("local_lookup {}", peer));
        assert!(out.send(vec![address(1)]).is_ok());
    }

    fn discover_peer(&mut self, peer: PeerId, out: AddressesOutlet) {
        self.calls.push(format!("discover_peer {}", peer));
        assert!(out.send(Ok(vec![address(2)])).is_ok());
    }

    fn neighborhood(&mut self, key: Multihash, out: PeersOutlet) {
        self.calls.push(format!("neighborhood {:?}", key.bytes));
        assert!(out.send(Ok(vec![])).is_ok());
    }

    fn add_kad_node(&mut self, peer: PeerId, addresses: Vec<Multiaddr>, public_key: PublicKey) {
        self.calls
            .push(format!("add_kad_node {} {:?} {:?}", peer, addresses, public_key.encode()));
    }
}

#[test]
fn commands_are_executed_by_the_service() {
    let (api, mut inlet) = KademliaApiInlet::new(Notes::default());
    let (one, other) = (PeerId::random(), PeerId::random());
    let neighbours = api.neighborhood(Multihash { bytes: vec![7] }).unwrap();
    let discovery = api.discover_peer(one).unwrap();
    let lookup = api.local_lookup(other).unwrap();
    let bootstrap = api.bootstrap().unwrap();
    for command in round(&mut inlet).0 {
        inlet.execute(command);
    }
    assert_eq!(
        inlet.kademlia().calls,
        vec![
            "neighborhood [7]".to_string(),
            format!("discover_peer {}", one),
            format!("local_lookup {}", other),
            "bootstrap".to_string(),
        ]
    );
    assert!(settle(block_on(neighbours)).unwrap().is_empty());
    assert_eq!(settle(block_on(discovery)).unwrap(), vec![address(2)]);
    assert_eq!(settle_lookup(block_on(lookup)).unwrap(), vec![address(1)]);
    assert!(settle(block_on(bootstrap)).is_ok());
}

#[test]
fn the_service_is_told_of_peers() {
    let (_api, mut inlet) = KademliaApiInlet::new(Notes::default());
    let peer = PeerId::random();
    let key = Keypair::generate().public();
    inlet.add_addresses(peer, vec![address(1), address(2)], key.clone());
    assert_eq!(
        inlet.kademlia().calls,
        vec![format!(
            "add_kad_node {} {:?} {:?}",
            peer,
            vec![address(1), address(2)],
            key.encode()
        )]
    );
    assert!(round(&mut inlet).0.is_empty());
}
