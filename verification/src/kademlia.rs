//! Talking to a Kademlia service over a queue of commands. Each command carries
//! the outlet for its reply; whoever gave it keeps the inlet.

use futures::channel::mpsc::{TrySendError, UnboundedReceiver, UnboundedSender};
use futures::channel::oneshot::{Canceled, Receiver, Sender};
use futures::channel::{mpsc, oneshot};
use futures::StreamExt;
use libp2p::identity::ed25519::PublicKey;
use libp2p::{Multiaddr, PeerId};
use std::task::{Context, Poll};
use vstd::prelude::*;

verus! {

#[verifier::external_type_specification]
#[verifier::external_body]
#[verifier::reject_recursive_types(T)]
pub struct ExUnboundedSender<T>(UnboundedSender<T>);

#[verifier::external_type_specification]
#[verifier::external_body]
#[verifier::reject_recursive_types(T)]
pub struct ExUnboundedReceiver<T>(UnboundedReceiver<T>);

#[verifier::external_type_specification]
#[verifier::external_body]
#[verifier::reject_recursive_types(T)]
pub struct ExTrySendError<T>(TrySendError<T>);

#[verifier::external_type_specification]
#[verifier::external_body]
#[verifier::reject_recursive_types(T)]
pub struct ExSender<T>(Sender<T>);

#[verifier::external_type_specification]
#[verifier::external_body]
#[verifier::reject_recursive_types(T)]
pub struct ExReceiver<T>(Receiver<T>);

#[verifier::external_type_specification]
#[verifier::external_body]
pub struct ExCanceled(Canceled);

#[verifier::external_type_specification]
#[verifier::external_body]
pub struct ExContext<'a>(Context<'a>);

/// `oneshot::channel`: the two halves of a new channel for one value. What is sent
/// into the first half comes out of the second; that happens between tasks and
/// over time, so no clause speaks of it.
pub assume_specification<T>[ oneshot::channel::<T> ]() -> (Sender<T>, Receiver<T>);

/// `mpsc::unbounded`: the two halves of a new queue. What is sent into the first
/// half comes out of the second, in order; that happens between tasks and over
/// time, so no clause speaks of it.
pub assume_specification<T>[ mpsc::unbounded::<T> ]() -> (UnboundedSender<T>, UnboundedReceiver<T>);

/// `UnboundedSender::unbounded_send`: the message is put into the queue, unless the
/// receiving half is gone, which no clause can foresee.
pub assume_specification<T>[ UnboundedSender::<T>::unbounded_send ](
    outlet: &UnboundedSender<T>,
    msg: T,
) -> Result<(), TrySendError<T>>;

/// `UnboundedSender::clone`: one more handle to the same queue.
pub assume_specification<T>[ <UnboundedSender<T> as Clone>::clone ](
    outlet: &UnboundedSender<T>,
) -> (copy: UnboundedSender<T>)
    ensures
        copy == *outlet,
;

/// A key of the Kademlia key space, as the bytes of its multihash.
#[derive(Clone, Debug)]
pub struct Multihash {
    pub bytes: Vec<u8>,
}

/// Why a request to the service came to nothing.
#[derive(Debug)]
pub enum KademliaError {
    /// The service is gone, or dropped the request without an answer.
    Cancelled,
    /// The service answered that the request failed.
    Failed(String),
}

pub type Reply<R> = Result<R, KademliaError>;

/// Where the service says that it has joined the network.
pub type DoneOutlet = Sender<Reply<()>>;

/// Where the service says which addresses it found.
pub type AddressesOutlet = Sender<Reply<Vec<Multiaddr>>>;

/// Where the service says which peers it found.
pub type PeersOutlet = Sender<Reply<Vec<PeerId>>>;

/// A request to the service, with the outlet for its reply.
#[derive(Debug)]
#[allow(inconsistent_fields)]
pub enum Command {
    LocalLookup { peer: PeerId, out: Sender<Vec<Multiaddr>> },
    Bootstrap { out: DoneOutlet },
    DiscoverPeer { peer: PeerId, out: AddressesOutlet },
    Neighborhood { key: Multihash, out: PeersOutlet },
}

/// `out` and `inlet` are the halves of one channel.
pub open spec fn joined<R>(out: Sender<R>, inlet: Receiver<R>) -> bool {
    call_ensures(oneshot::channel::<R>, (), (out, inlet))
}

/// `command` was handed to the queue behind `outlet`, with the result `sent`.
pub open spec fn handed_over(
    outlet: UnboundedSender<Command>,
    command: Command,
    sent: Result<(), TrySendError<Command>>,
) -> bool {
    call_ensures(UnboundedSender::<Command>::unbounded_send, (&outlet, command), sent)
}

/// What a caller gets for a command that was handed over: the inlet for the reply,
/// or, if the queue has no receiver any more, the news that nobody will reply.
pub open spec fn submission<R>(
    sent: Result<(), TrySendError<Command>>,
    inlet: Receiver<R>,
) -> Result<Receiver<R>, KademliaError> {
    match sent {
        Ok(_) => Ok(inlet),
        Err(_) => Err(KademliaError::Cancelled),
    }
}

/// The outcome of handing over a command whose reply comes out of `inlet`.
pub fn submitted<R>(sent: Result<(), TrySendError<Command>>, inlet: Receiver<R>) -> (r: Result<
    Receiver<R>,
    KademliaError,
>)
    ensures
        r == submission(sent, inlet),
{
    match sent {
        Ok(_) => Ok(inlet),
        Err(_) => Err(KademliaError::Cancelled),
    }
}

/// What comes out of an inlet is the service's own reply, unless the outlet was
/// dropped.
pub fn settle<R>(reply: Result<Reply<R>, Canceled>) -> (r: Reply<R>)
    ensures
        r == match reply {
            Ok(answer) => answer,
            Err(_) => Err(KademliaError::Cancelled),
        },
{
    match reply {
        Ok(answer) => answer,
        Err(_) => Err(KademliaError::Cancelled),
    }
}

/// As `settle`, for a service that cannot fail to answer.
pub fn settle_lookup(reply: Result<Vec<Multiaddr>, Canceled>) -> (r: Reply<Vec<Multiaddr>>)
    ensures
        r == match reply {
            Ok(addresses) => Ok(addresses),
            Err(_) => Err(KademliaError::Cancelled),
        },
{
    match reply {
        Ok(addresses) => Ok(addresses),
        Err(_) => Err(KademliaError::Cancelled),
    }
}

/// The side of the callers.
pub struct KademliaApi {
    outlet: UnboundedSender<Command>,
}

impl Clone for KademliaApi {
    /// One more caller of the same service.
    fn clone(&self) -> (copy: KademliaApi)
        ensures
            copy == *self,
    {
        KademliaApi { outlet: self.outlet.clone() }
    }
}

impl KademliaApi {
    /// The queue that commands go into.
    pub closed spec fn queue(self) -> UnboundedSender<Command> {
        self.outlet
    }

    /// Hands over the command that `cmd` makes of the outlet of a new channel, and
    /// gives back the channel's inlet.
    fn execute<R, F>(&self, cmd: F) -> (r: Result<Receiver<Reply<R>>, KademliaError>)
        where
            F: FnOnce(Sender<Reply<R>>) -> Command,
        requires
            forall|out: Sender<Reply<R>>| call_requires(cmd, (out,)),
        ensures
            exists|
                out: Sender<Reply<R>>,
                inlet: Receiver<Reply<R>>,
                command: Command,
                sent: Result<(), TrySendError<Command>>,
            |
                {
                    &&& #[trigger] joined(out, inlet)
                    &&& call_ensures(cmd, (out,), command)
                    &&& #[trigger] handed_over(self.queue(), command, sent)
                    &&& r == submission(sent, inlet)
                },
    {
        let (out, inlet) = oneshot::channel::<Reply<R>>();
        let command = cmd(out);
        let sent = self.outlet.unbounded_send(command);
        assert(joined(out, inlet));
        assert(handed_over(self.queue(), command, sent));
        submitted(sent, inlet)
    }

    /// Asks the service to join the network.
    pub fn bootstrap(&self) -> (r: Result<Receiver<Reply<()>>, KademliaError>)
        ensures
            exists|
                out: DoneOutlet,
                inlet: Receiver<Reply<()>>,
                sent: Result<(), TrySendError<Command>>,
            |
                {
                    &&& #[trigger] joined(out, inlet)
                    &&& #[trigger] handed_over(self.queue(), Command::Bootstrap { out }, sent)
                    &&& r == submission(sent, inlet)
                },
    {
        let make = |out: DoneOutlet| -> (command: Command)
            ensures
                command == (Command::Bootstrap { out }),
        {
            Command::Bootstrap { out }
        };
        self.execute(make)
    }

    /// Asks the service for the addresses of `peer` that it knows. There is no inlet
    /// if the service is gone.
    pub fn local_lookup(&self, peer: PeerId) -> (r: Option<Receiver<Vec<Multiaddr>>>)
        ensures
            exists|
                out: Sender<Vec<Multiaddr>>,
                inlet: Receiver<Vec<Multiaddr>>,
                sent: Result<(), TrySendError<Command>>,
            |
                {
                    &&& #[trigger] joined(out, inlet)
                    &&& #[trigger] handed_over(
                        self.queue(),
                        Command::LocalLookup { peer, out },
                        sent,
                    )
                    &&& r == match sent {
                        Ok(_) => Some(inlet),
                        Err(_) => None,
                    }
                },
    {
        let (out, inlet) = oneshot::channel::<Vec<Multiaddr>>();
        let sent = self.outlet.unbounded_send(Command::LocalLookup { peer, out });
        assert(joined(out, inlet));
        assert(handed_over(self.queue(), Command::LocalLookup { peer, out }, sent));
        match sent {
            Ok(_) => Some(inlet),
            Err(_) => None,
        }
    }

    /// Asks the service to find the addresses of `peer` in the network.
    pub fn discover_peer(&self, peer: PeerId) -> (r: Result<
        Receiver<Reply<Vec<Multiaddr>>>,
        KademliaError,
    >)
        ensures
            exists|
                out: AddressesOutlet,
                inlet: Receiver<Reply<Vec<Multiaddr>>>,
                sent: Result<(), TrySendError<Command>>,
            |
                {
                    &&& #[trigger] joined(out, inlet)
                    &&& #[trigger] handed_over(
                        self.queue(),
                        Command::DiscoverPeer { peer, out },
                        sent,
                    )
                    &&& r == submission(sent, inlet)
                },
    {
        let make = |out: AddressesOutlet| -> (command: Command)
            ensures
                command == (Command::DiscoverPeer { peer, out }),
        {
            Command::DiscoverPeer { peer, out }
        };
        self.execute(make)
    }

    /// Asks the service for the peers that are closest to `key`.
    pub fn neighborhood(&self, key: Multihash) -> (r: Result<
        Receiver<Reply<Vec<PeerId>>>,
        KademliaError,
    >)
        ensures
            exists|
                out: PeersOutlet,
                inlet: Receiver<Reply<Vec<PeerId>>>,
                sent: Result<(), TrySendError<Command>>,
            |
                {
                    &&& #[trigger] joined(out, inlet)
                    &&& #[trigger] handed_over(
                        self.queue(),
                        Command::Neighborhood { key, out },
                        sent,
                    )
                    &&& r == submission(sent, inlet)
                },
    {
        let make = |out: PeersOutlet| -> (command: Command)
            ensures
                command == (Command::Neighborhood { key, out }),
        {
            Command::Neighborhood { key, out }
        };
        self.execute(make)
    }
}

/// What a look at the queue of commands shows.
#[derive(Debug)]
pub enum Polled {
    /// The command that came first.
    Ready(Command),
    /// No command is left, and none will come.
    Closed,
    /// No command is there now.
    Pending,
}

/// What is to be done next.
#[derive(Debug)]
pub enum PollStep {
    /// Execute this command, then look at the queue again.
    Execute(Command),
    /// Nothing more for now. If `wake`, ask for the task to be polled again, once.
    Rest { wake: bool },
}

/// One round of working off the queue: whether a command was found in it.
#[derive(Debug)]
pub struct PollRound {
    pub wake: bool,
}

impl PollRound {
    pub fn new() -> (round: PollRound)
        ensures
            !round.wake,
    {
        PollRound { wake: false }
    }

    /// The round and the step that follow from what the queue showed.
    pub open spec fn after(self, polled: Polled) -> (PollRound, PollStep) {
        match polled {
            Polled::Ready(command) => (PollRound { wake: true }, PollStep::Execute(command)),
            _ => (self, PollStep::Rest { wake: self.wake }),
        }
    }

    /// A command that is there is executed, and the round remembers that there was
    /// one. Otherwise the round is over, and the task is to be woken if there was one.
    pub fn observe(&mut self, polled: Polled) -> (step: PollStep)
        ensures
            (*final(self), step) == old(self).after(polled),
    {
        match polled {
            Polled::Ready(command) => {
                self.wake = true;
                PollStep::Execute(command)
            },
            Polled::Closed => PollStep::Rest { wake: self.wake },
            Polled::Pending => PollStep::Rest { wake: self.wake },
        }
    }
}

/// `UnboundedReceiver::poll_next_unpin`: the next command of the queue, if there is
/// one. If not, and one may still come, the task at hand is woken when it does;
/// which of these it is, no clause can foresee. It is public because the contract of
/// `KademliaApiInlet::poll_step` speaks of it.
#[verifier::external_body]
pub fn poll_command(inlet: &mut UnboundedReceiver<Command>, cx: &mut Context<'_>) -> (polled:
    Polled)
{
    match inlet.poll_next_unpin(cx) {
        Poll::Ready(Some(command)) => Polled::Ready(command),
        Poll::Ready(None) => Polled::Closed,
        Poll::Pending => Polled::Pending,
    }
}

/// The Kademlia service itself: what commands ask of it, each with the outlet for the
/// answer, and how it is told of a peer.
pub trait Service {
    fn bootstrap(&mut self, out: DoneOutlet);

    fn local_lookup(&mut self, peer: &PeerId, out: Sender<Vec<Multiaddr>>);

    fn discover_peer(&mut self, peer: PeerId, out: AddressesOutlet);

    fn neighborhood(&mut self, key: Multihash, out: PeersOutlet);

    fn add_kad_node(&mut self, peer: PeerId, addresses: Vec<Multiaddr>, public_key: PublicKey);
}

/// The side of the service, together with the service itself.
pub struct KademliaApiInlet<K> {
    inlet: UnboundedReceiver<Command>,
    kademlia: K,
}

impl<K> KademliaApiInlet<K> {
    /// The queue that commands come out of.
    pub closed spec fn queue(self) -> UnboundedReceiver<Command> {
        self.inlet
    }

    /// The service that the commands are for.
    pub closed spec fn service(self) -> K {
        self.kademlia
    }

    /// A queue in front of `kademlia`: the side of the callers, and that of the
    /// service.
    pub fn new(kademlia: K) -> (r: (KademliaApi, KademliaApiInlet<K>))
        ensures
            call_ensures(mpsc::unbounded::<Command>, (), (r.0.queue(), r.1.queue())),
            r.1.service() == kademlia,
    {
        let (outlet, inlet) = mpsc::unbounded::<Command>();
        (KademliaApi { outlet }, KademliaApiInlet { inlet, kademlia })
    }

    /// The service, to have it do something.
    pub fn kademlia(&mut self) -> (kademlia: &mut K)
        ensures
            *kademlia == old(self).service(),
            final(self).service() == *final(kademlia),
            final(self).queue() == old(self).queue(),
    {
        &mut self.kademlia
    }

    /// One look at the queue, in the given round: no more than the command that it
    /// shows is taken out. A command that is there is handed out to be executed; if
    /// there is none, the step says whether the task is to be woken.
    pub fn poll_step(&mut self, round: &mut PollRound, cx: &mut Context<'_>) -> (step: PollStep)
        ensures
            final(self).service() == old(self).service(),
            exists|polled: Polled, inlet: &mut UnboundedReceiver<Command>, c: &mut Context<'_>|
                {
                    &&& #[trigger] call_ensures(poll_command, (inlet, c), polled)
                    &&& *inlet == old(self).queue()
                    &&& *final(inlet) == final(self).queue()
                    &&& *c == *old(cx)
                    &&& *final(c) == *final(cx)
                    &&& (*final(round), step) == old(round).after(polled)
                },
    {
        let polled = poll_command(&mut self.inlet, cx);
        round.observe(polled)
    }
}

impl<K: Service> KademliaApiInlet<K> {
    /// Tells the service of the addresses and the key of `peer`.
    pub fn add_addresses(
        &mut self,
        peer: PeerId,
        addresses: Vec<Multiaddr>,
        public_key: PublicKey,
    )
        ensures
            final(self).queue() == old(self).queue(),
            exists|k: &mut K|
                {
                    &&& #[trigger] call_ensures(
                        K::add_kad_node,
                        (k, peer, addresses, public_key),
                        (),
                    )
                    &&& *k == old(self).service()
                    &&& *final(k) == final(self).service()
                },
    {
        self.kademlia.add_kad_node(peer, addresses, public_key)
    }

    /// Has the service do what `cmd` asks: one call, with what the command carries.
    pub fn execute(&mut self, cmd: Command)
        ensures
            final(self).queue() == old(self).queue(),
            match cmd {
                Command::Bootstrap { out } => exists|k: &mut K|
                    {
                        &&& #[trigger] call_ensures(K::bootstrap, (k, out), ())
                        &&& *k == old(self).service()
                        &&& *final(k) == final(self).service()
                    },
                Command::LocalLookup { peer, out } => exists|k: &mut K|
                    {
                        &&& #[trigger] call_ensures(K::local_lookup, (k, &peer, out), ())
                        &&& *k == old(self).service()
                        &&& *final(k) == final(self).service()
                    },
                Command::DiscoverPeer { peer, out } => exists|k: &mut K|
                    {
                        &&& #[trigger] call_ensures(K::discover_peer, (k, peer, out), ())
                        &&& *k == old(self).service()
                        &&& *final(k) == final(self).service()
                    },
                Command::Neighborhood { key, out } => exists|k: &mut K|
                    {
                        &&& #[trigger] call_ensures(K::neighborhood, (k, key, out), ())
                        &&& *k == old(self).service()
                        &&& *final(k) == final(self).service()
                    },
            },
    {
        match cmd {
            Command::Bootstrap { out } => self.kademlia.bootstrap(out),
            Command::LocalLookup { peer, out } => self.kademlia.local_lookup(&peer, out),
            Command::DiscoverPeer { peer, out } => self.kademlia.discover_peer(peer, out),
            Command::Neighborhood { key, out } => self.kademlia.neighborhood(key, out),
        }
    }
}

/// The commands that are executed in a round in which the queue shows `polls`, one after
/// the other, and, if the round comes to its end, whether the task is then woken.
pub open spec fn work_off(round: PollRound, polls: Seq<Polled>) -> (Seq<Command>, Option<bool>)
    decreases polls.len(),
{
    if polls.len() == 0 {
        (Seq::empty(), None)
    } else {
        let (next, step) = round.after(polls[0]);
        match step {
            PollStep::Execute(command) => {
                let (commands, end) = work_off(next, polls.drop_first());
                (seq![command] + commands, end)
            },
            PollStep::Rest { wake } => (Seq::empty(), Some(wake)),
        }
    }
}

/// A queue that shows `commands`.
pub open spec fn ready(commands: Seq<Command>) -> Seq<Polled> {
    commands.map_values(|command: Command| Polled::Ready(command))
}

proof fn lemma_work_off(round: PollRound, commands: Seq<Command>, stop: Polled, later: Seq<Polled>)
    requires
        !(stop is Ready),
    ensures
        work_off(round, ready(commands) + seq![stop] + later) == (
            commands,
            Some(round.wake || commands.len() > 0),
        ),
    decreases commands.len(),
{
    let polls = ready(commands) + seq![stop] + later;
    if commands.len() == 0 {
        assert(polls[0] == stop);
        assert(commands == Seq::<Command>::empty());
    } else {
        let rest = commands.drop_first();
        lemma_work_off(PollRound { wake: true }, rest, stop, later);
        assert(polls[0] == Polled::Ready(commands[0]));
        assert(polls.drop_first() == ready(rest) + seq![stop] + later);
        assert(seq![commands[0]] + rest == commands);
    }
}

/// A round executes every command that the queue shows before it runs dry, once and
/// in order, and none after that; then the task is woken if and only if there was a
/// command. In particular an empty queue, closed or not, wakes nobody.
pub proof fn law_round_executes_all_in_order(
    commands: Seq<Command>,
    stop: Polled,
    later: Seq<Polled>,
)
    requires
        !(stop is Ready),
    ensures
        work_off(PollRound { wake: false }, ready(commands) + seq![stop] + later) == (
            commands,
            Some(commands.len() > 0),
        ),
{
    lemma_work_off(PollRound { wake: false }, commands, stop, later);
}

/// A request for the network to be joined hands a command over that says so and carries the outlet
/// of a new channel. The caller gets the inlet of that channel if and only if the queue took the
/// command, and hears that the request is cancelled if it did not.
pub proof fn law_bootstrap_is_asked(
    api: KademliaApi,
    r: Result<Receiver<Reply<()>>, KademliaError>,
)
    requires
        call_ensures(KademliaApi::bootstrap, (&api,), r),
    ensures
        exists|out: DoneOutlet, inlet: Receiver<Reply<()>>, sent: Result<(), TrySendError<Command>>|
            {
                &&& #[trigger] call_ensures(oneshot::channel::<Reply<()>>, (), (out, inlet))
                &&& #[trigger] call_ensures(
                    UnboundedSender::<Command>::unbounded_send,
                    (&api.queue(), Command::Bootstrap { out }),
                    sent,
                )
                &&& sent is Ok <==> r is Ok
                &&& r matches Ok(given) ==> given == inlet
                &&& r matches Err(error) ==> error is Cancelled
            },
{
    let (out, inlet, sent) = choose|
        out: DoneOutlet,
        inlet: Receiver<Reply<()>>,
        sent: Result<(), TrySendError<Command>>,
    |
        {
            &&& #[trigger] joined(out, inlet)
            &&& #[trigger] handed_over(api.queue(), Command::Bootstrap { out }, sent)
            &&& r == submission(sent, inlet)
        };
    assert(call_ensures(oneshot::channel::<Reply<()>>, (), (out, inlet)));
    assert(call_ensures(
        UnboundedSender::<Command>::unbounded_send,
        (&api.queue(), Command::Bootstrap { out }),
        sent,
    ));
}

/// A request for the addresses of `peer` to be discovered hands a command over that says so and carries the outlet
/// of a new channel. The caller gets the inlet of that channel if and only if the queue took the
/// command, and hears that the request is cancelled if it did not.
pub proof fn law_discovery_is_asked(
    api: KademliaApi,
    peer: PeerId,
    r: Result<Receiver<Reply<Vec<Multiaddr>>>, KademliaError>,
)
    requires
        call_ensures(KademliaApi::discover_peer, (&api, peer), r),
    ensures
        exists|out: AddressesOutlet, inlet: Receiver<Reply<Vec<Multiaddr>>>, sent: Result<(), TrySendError<Command>>|
            {
                &&& #[trigger] call_ensures(oneshot::channel::<Reply<Vec<Multiaddr>>>, (), (out, inlet))
                &&& #[trigger] call_ensures(
                    UnboundedSender::<Command>::unbounded_send,
                    (&api.queue(), Command::DiscoverPeer { peer, out }),
                    sent,
                )
                &&& sent is Ok <==> r is Ok
                &&& r matches Ok(given) ==> given == inlet
                &&& r matches Err(error) ==> error is Cancelled
            },
{
    let (out, inlet, sent) = choose|
        out: AddressesOutlet,
        inlet: Receiver<Reply<Vec<Multiaddr>>>,
        sent: Result<(), TrySendError<Command>>,
    |
        {
            &&& #[trigger] joined(out, inlet)
            &&& #[trigger] handed_over(api.queue(), Command::DiscoverPeer { peer, out }, sent)
            &&& r == submission(sent, inlet)
        };
    assert(call_ensures(oneshot::channel::<Reply<Vec<Multiaddr>>>, (), (out, inlet)));
    assert(call_ensures(
        UnboundedSender::<Command>::unbounded_send,
        (&api.queue(), Command::DiscoverPeer { peer, out }),
        sent,
    ));
}

/// A request for the neighborhood of `key` hands a command over that says so and carries the outlet
/// of a new channel. The caller gets the inlet of that channel if and only if the queue took the
/// command, and hears that the request is cancelled if it did not.
pub proof fn law_neighborhood_is_asked(
    api: KademliaApi,
    key: Multihash,
    r: Result<Receiver<Reply<Vec<PeerId>>>, KademliaError>,
)
    requires
        call_ensures(KademliaApi::neighborhood, (&api, key), r),
    ensures
        exists|out: PeersOutlet, inlet: Receiver<Reply<Vec<PeerId>>>, sent: Result<(), TrySendError<Command>>|
            {
                &&& #[trigger] call_ensures(oneshot::channel::<Reply<Vec<PeerId>>>, (), (out, inlet))
                &&& #[trigger] call_ensures(
                    UnboundedSender::<Command>::unbounded_send,
                    (&api.queue(), Command::Neighborhood { key, out }),
                    sent,
                )
                &&& sent is Ok <==> r is Ok
                &&& r matches Ok(given) ==> given == inlet
                &&& r matches Err(error) ==> error is Cancelled
            },
{
    let (out, inlet, sent) = choose|
        out: PeersOutlet,
        inlet: Receiver<Reply<Vec<PeerId>>>,
        sent: Result<(), TrySendError<Command>>,
    |
        {
            &&& #[trigger] joined(out, inlet)
            &&& #[trigger] handed_over(api.queue(), Command::Neighborhood { key, out }, sent)
            &&& r == submission(sent, inlet)
        };
    assert(call_ensures(oneshot::channel::<Reply<Vec<PeerId>>>, (), (out, inlet)));
    assert(call_ensures(
        UnboundedSender::<Command>::unbounded_send,
        (&api.queue(), Command::Neighborhood { key, out }),
        sent,
    ));
}

/// A request for the known addresses of `peer` hands a command over that says so and carries the
/// outlet of a new channel. The caller gets the inlet of that channel if and only if the queue took
/// the command.
pub proof fn law_lookup_is_asked(
    api: KademliaApi,
    peer: PeerId,
    r: Option<Receiver<Vec<Multiaddr>>>,
)
    requires
        call_ensures(KademliaApi::local_lookup, (&api, peer), r),
    ensures
        exists|
            out: Sender<Vec<Multiaddr>>,
            inlet: Receiver<Vec<Multiaddr>>,
            sent: Result<(), TrySendError<Command>>,
        |
            {
                &&& #[trigger] call_ensures(oneshot::channel::<Vec<Multiaddr>>, (), (out, inlet))
                &&& #[trigger] call_ensures(
                    UnboundedSender::<Command>::unbounded_send,
                    (&api.queue(), Command::LocalLookup { peer, out }),
                    sent,
                )
                &&& sent is Ok <==> r is Some
                &&& r matches Some(given) ==> given == inlet
            },
{
    let (out, inlet, sent) = choose|
        out: Sender<Vec<Multiaddr>>,
        inlet: Receiver<Vec<Multiaddr>>,
        sent: Result<(), TrySendError<Command>>,
    |
        {
            &&& #[trigger] joined(out, inlet)
            &&& #[trigger] handed_over(api.queue(), Command::LocalLookup { peer, out }, sent)
            &&& r == match sent {
                Ok(_) => Some(inlet),
                Err(_) => None,
            }
        };
    assert(call_ensures(oneshot::channel::<Vec<Multiaddr>>, (), (out, inlet)));
    assert(call_ensures(
        UnboundedSender::<Command>::unbounded_send,
        (&api.queue(), Command::LocalLookup { peer, out }),
        sent,
    ));
}

/// The service's own reply reaches the caller as it is, good or bad; only a reply that never came
/// is made into one, and it is that the request is cancelled.
pub proof fn law_reply_is_passed_on<R>(
    answer: Reply<R>,
    passed: Reply<R>,
    dropped: Canceled,
    cancelled: Reply<R>,
)
    requires
        call_ensures(settle::<R>, (Ok(answer),), passed),
        call_ensures(settle::<R>, (Err(dropped),), cancelled),
    ensures
        passed == answer,
        cancelled == Err::<R, KademliaError>(KademliaError::Cancelled),
{
}

} // verus!
