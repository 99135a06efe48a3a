//! The configuration of a test node, and what follows from it for the parts that
//! the node is put together from.

use crate::address::maddr_bytes;
use crate::identity::{key_pair_bytes, peer_id_bytes, peer_id_from_key, peer_id_of_key};
use crate::span::Span;
use crate::tmp::{is_random_name, make_tmp_dir, sampled_in_one_run, TMP_PARENT};
use crate::trust::{build_trust_graph, graph_relations, graph_roots, weight_of_roots};
use crate::trust::{RejectedCertificate, Relations, Trust};
use libp2p::identity::ed25519::Keypair;
use libp2p::{Multiaddr, PeerId};
use std::path::PathBuf;
use trust_graph::TrustGraph;
use vstd::prelude::*;

verus! {

#[verifier::external_type_specification]
#[verifier::external_body]
pub struct ExPathBuf(PathBuf);

/// How nodes reach each other.
#[derive(Clone, Copy, Debug, PartialEq, Eq, Structural)]
pub enum Transport {
    /// Within one process.
    Memory,
    /// Over the network.
    Network,
}

/// The configuration of a test node.
#[derive(Clone, Debug)]
pub struct SwarmConfig {
    /// The addresses to dial at the start.
    pub bootstraps: Vec<Multiaddr>,
    /// The address to listen on.
    pub listen_on: Multiaddr,
    /// Whom to trust, if anybody.
    pub trust: Option<Trust>,
    pub transport: Transport,
    /// The directory to work in; without one, a fresh directory is made.
    pub tmp_dir: Option<PathBuf>,
}

impl Default for SwarmConfig {
    /// A node that dials nobody, trusts nobody and listens on the empty address
    /// in memory.
    fn default() -> (config: SwarmConfig)
        ensures
            config.bootstraps@.len() == 0,
            maddr_bytes(config.listen_on).len() == 0,
            config.trust is None,
            config.transport == Transport::Memory,
            config.tmp_dir is None,
    {
        SwarmConfig {
            bootstraps: Vec::new(),
            listen_on: Multiaddr::empty(),
            trust: None,
            transport: Transport::Memory,
            tmp_dir: None,
        }
    }
}

impl SwarmConfig {
    /// The configuration dials `bootstraps`, listens on `listen_on`, and has everything
    /// else as by default.
    pub open spec fn is_plain(self, bootstraps: Seq<Multiaddr>, listen_on: Multiaddr) -> bool {
        &&& self.bootstraps@ == bootstraps
        &&& self.listen_on == listen_on
        &&& self.trust is None
        &&& self.transport == Transport::Memory
        &&& self.tmp_dir is None
    }

    /// A node that dials `bootstraps`, listens on `listen_on`, and is otherwise as
    /// by default.
    pub fn new(bootstraps: Vec<Multiaddr>, listen_on: Multiaddr) -> (config: SwarmConfig)
        ensures
            config.bootstraps == bootstraps,
            config.listen_on == listen_on,
            config.trust is None,
            config.transport == Transport::Memory,
            config.tmp_dir is None,
    {
        SwarmConfig {
            bootstraps,
            listen_on,
            trust: None,
            transport: Transport::Memory,
            tmp_dir: None,
        }
    }

    /// As `new`, with `trust` on top.
    pub fn with_trust(bootstraps: Vec<Multiaddr>, listen_on: Multiaddr, trust: Trust) -> (config:
        SwarmConfig)
        ensures
            config.bootstraps == bootstraps,
            config.listen_on == listen_on,
            config.trust == Some(trust),
            config.transport == Transport::Memory,
            config.tmp_dir is None,
    {
        let mut config = SwarmConfig::new(bootstraps, listen_on);
        config.trust = Some(trust);
        config
    }
}

/// The directory that a node works in.
#[derive(Debug)]
pub enum WorkDir {
    /// One that was asked for; it is made if it is not there.
    Given(PathBuf),
    /// One to be made, down these names from the system's directory for temporary
    /// files.
    Fresh(Vec<String>),
}

/// The directory for a node that was configured with `tmp_dir`.
pub open spec fn work_dir_for(tmp_dir: Option<PathBuf>, work_dir: WorkDir) -> bool {
    match (tmp_dir, work_dir) {
        (Some(dir), WorkDir::Given(given)) => given == dir,
        (None, WorkDir::Fresh(names)) => {
            &&& names@.len() == 2
            &&& names@[0]@ == TMP_PARENT@
            &&& is_random_name(names@[1]@)
        },
        _ => false,
    }
}

/// A node that has its keys and its directory, but is not put together yet.
pub struct SwarmDraft {
    pub key_pair: Keypair,
    pub peer_id: PeerId,
    pub work_dir: WorkDir,
    pub bootstraps: Vec<Multiaddr>,
    pub listen_on: Multiaddr,
    pub trust: Option<Trust>,
    pub transport: Transport,
}

impl SwarmDraft {
    /// The id is the one that follows from the keys.
    pub open spec fn id_matches_keys(self) -> bool {
        peer_id_bytes(self.peer_id) == peer_id_of_key(key_pair_bytes(self.key_pair).skip(32))
    }

    /// What `config` says of the node, the draft says too.
    pub open spec fn keeps(self, config: SwarmConfig) -> bool {
        &&& work_dir_for(config.tmp_dir, self.work_dir)
        &&& self.bootstraps == config.bootstraps
        &&& self.listen_on == config.listen_on
        &&& self.trust == config.trust
        &&& self.transport == config.transport
    }

    /// The draft is one that `create_swarm` makes of `config`.
    pub open spec fn begins(self, config: SwarmConfig) -> bool {
        &&& call_ensures(Keypair::generate, (), self.key_pair)
        &&& self.id_matches_keys()
        &&& self.keeps(config)
    }
}

/// The first half of making a node: it gets fresh keys, the id that follows from
/// them, and the directory that its configuration asks for. Once the directory is
/// there, `SwarmDraft::plan` is the other half.
pub fn create_swarm(config: SwarmConfig) -> (draft: SwarmDraft)
    ensures
        draft.begins(config),
{
    let key_pair = Keypair::generate();
    let peer_id = peer_id_from_key(&key_pair.public());
    let work_dir = match config.tmp_dir {
        Some(dir) => WorkDir::Given(dir),
        None => WorkDir::Fresh(make_tmp_dir()),
    };
    SwarmDraft {
        key_pair,
        peer_id,
        work_dir,
        bootstraps: config.bootstraps,
        listen_on: config.listen_on,
        trust: config.trust,
        transport: config.transport,
    }
}

/// The directory of the interpreter, below the node's own.
pub const STEPPER_DIR: &'static str = "stepper";

/// The directory of the services, below the node's own.
pub const SERVICES_DIR: &'static str = "services";

/// How a node's transport is set up.
#[derive(Clone, Copy, Debug)]
pub enum TransportSetup {
    Memory,
    /// Give up on a connection that is not there within `timeout`.
    Network { timeout: Span },
}

/// A part of a node's configuration that no test sets.
#[derive(Clone, Copy, Debug, PartialEq, Eq, Structural)]
pub enum Preset {
    /// As it is by default.
    Default,
    /// With all its numbers at zero.
    Zero,
    /// Not there at all.
    Absent,
}

/// How a node keeps the scripts that it runs on a timer.
#[derive(Clone, Copy, Debug)]
pub struct ScriptStorageSetup {
    pub timer_resolution: Span,
    pub max_failures: usize,
    pub particle_ttl: Span,
    pub peer_id: PeerId,
}

/// Everything that a node is put together from.
pub struct NodePlan {
    pub key_pair: Keypair,
    pub peer_id: PeerId,
    /// The directory of the interpreter, below the node's own.
    pub stepper_dir: String,
    /// The directory of the services, below the node's own.
    pub services_dir: String,
    /// How many interpreters run side by side.
    pub pool_size: usize,
    /// The environment of the services.
    pub services_envs: Preset,
    pub trust_graph: TrustGraph,
    /// The addresses to dial at the start.
    pub bootstraps: Vec<Multiaddr>,
    /// How long to wait before dialling again.
    pub bootstrap_config: Preset,
    /// Where metrics are gathered.
    pub registry: Preset,
    pub protocol_config: Preset,
    pub kademlia_config: Preset,
    pub particle_queue_buffer: usize,
    pub particle_parallelism: usize,
    pub transport: TransportSetup,
    /// The addresses to listen on, under which the node is also known to others.
    pub listen_on: Vec<Multiaddr>,
    /// The socket to bind for anything else: any port of any interface.
    pub any_socket: String,
    pub script_storage: ScriptStorageSetup,
}

impl NodePlan {
    /// The parts of a plan that are the same for every node.
    pub open spec fn has_fixed_parts(self) -> bool {
        &&& self.stepper_dir@ == STEPPER_DIR@
        &&& self.services_dir@ == SERVICES_DIR@
        &&& self.pool_size == 1
        &&& self.services_envs == Preset::Default
        &&& self.bootstrap_config == Preset::Zero
        &&& self.registry == Preset::Absent
        &&& self.protocol_config == Preset::Default
        &&& self.kademlia_config == Preset::Default
        &&& self.particle_queue_buffer == 100
        &&& self.particle_parallelism == 16
        &&& self.any_socket@ == "0.0.0.0:0"@
        &&& self.script_storage.timer_resolution@ == 500 * 1_000_000
        &&& self.script_storage.max_failures == 1
        &&& self.script_storage.particle_ttl@ == 5 * 1_000_000_000
    }

    /// The parts of a plan that follow from the draft.
    pub open spec fn follows_from(self, draft: SwarmDraft) -> bool {
        &&& self.key_pair == draft.key_pair
        &&& self.peer_id == draft.peer_id
        &&& self.script_storage.peer_id == draft.peer_id
        &&& self.bootstraps == draft.bootstraps
        &&& self.listen_on@ == seq![draft.listen_on]
        &&& match (draft.transport, self.transport) {
            (Transport::Memory, TransportSetup::Memory) => true,
            (Transport::Network, TransportSetup::Network { timeout }) => timeout@ == 10
                * 1_000_000_000,
            _ => false,
        }
        &&& match draft.trust {
            None => {
                &&& graph_roots(self.trust_graph) == Map::<Seq<u8>, u32>::empty()
                &&& graph_relations(self.trust_graph) == Relations::empty()
            },
            Some(trust) => trust.accepted_into(self.trust_graph),
        }
    }
}

impl SwarmDraft {
    /// The plan for the node. There is none if a certificate that the node is to
    /// trust is refused, and the first such is given back.
    pub fn plan(self) -> (r: Result<NodePlan, RejectedCertificate>)
        ensures
            match r {
                Ok(plan) => plan.has_fixed_parts() && plan.follows_from(self),
                Err(rejected) => self.trust matches Some(trust) && trust.first_refusal(rejected),
            },
    {
        let trust_graph = match build_trust_graph(&self.trust) {
            Ok(graph) => graph,
            Err(rejected) => {
                return Err(rejected);
            },
        };
        let transport = match self.transport {
            Transport::Memory => TransportSetup::Memory,
            Transport::Network => TransportSetup::Network { timeout: Span::from_secs(10) },
        };
        let script_storage = ScriptStorageSetup {
            timer_resolution: Span::from_millis(500),
            max_failures: 1,
            particle_ttl: Span::from_secs(5),
            peer_id: self.peer_id,
        };
        let mut listen_on: Vec<Multiaddr> = Vec::new();
        listen_on.push(self.listen_on);
        Ok(
            NodePlan {
                key_pair: self.key_pair,
                peer_id: self.peer_id,
                stepper_dir: STEPPER_DIR.to_owned(),
                services_dir: SERVICES_DIR.to_owned(),
                pool_size: 1,
                services_envs: Preset::Default,
                trust_graph,
                bootstraps: self.bootstraps,
                bootstrap_config: Preset::Zero,
                registry: Preset::Absent,
                protocol_config: Preset::Default,
                kademlia_config: Preset::Default,
                particle_queue_buffer: 100,
                particle_parallelism: 16,
                transport,
                listen_on,
                any_socket: "0.0.0.0:0".to_owned(),
                script_storage,
            },
        )
    }
}

/// The directories of the interpreter and of the services do not meet.
pub proof fn law_node_dirs_are_apart(plan: NodePlan)
    requires
        plan.has_fixed_parts(),
    ensures
        plan.stepper_dir@ != plan.services_dir@,
{
    reveal_strlit("stepper");
    reveal_strlit("services");
    assert(plan.stepper_dir@.len() != plan.services_dir@.len());
}

/// A draft has the addresses, the trust and the transport of its configuration, and works in
/// the directory that the configuration names, if it names one. Its id is that of its keys.
pub proof fn law_draft_keeps_its_configuration(config: SwarmConfig, draft: SwarmDraft)
    requires
        call_ensures(create_swarm, (config,), draft),
    ensures
        draft.bootstraps == config.bootstraps,
        draft.listen_on == config.listen_on,
        draft.trust == config.trust,
        draft.transport == config.transport,
        config.tmp_dir matches Some(dir) ==> draft.work_dir == WorkDir::Given(dir),
        call_ensures(Keypair::generate, (), draft.key_pair),
        peer_id_bytes(draft.peer_id) == peer_id_of_key(key_pair_bytes(draft.key_pair).skip(32)),
{
}

/// The directory below the common one that a node without a directory of its own gets is
/// spelled by sixteen letters and digits of one run of the random generator, one draw for each
/// of them.
pub proof fn law_fresh_directory_is_one_run(config: SwarmConfig, draft: SwarmDraft)
    requires
        call_ensures(create_swarm, (config,), draft),
        config.tmp_dir is None,
    ensures
        draft.work_dir matches WorkDir::Fresh(names) && {
            &&& names@.len() == 2
            &&& names@[0]@ == "fluence_test"@
            &&& names@[1]@.len() == 16
            &&& sampled_in_one_run(names@[1]@)
            &&& forall|i: int|
                0 <= i < 16 ==> {
                    let c = #[trigger] names@[1]@[i];
                    ('0' <= c && c <= '9') || ('A' <= c && c <= 'Z') || ('a' <= c && c <= 'z')
                }
        },
{
}

/// Two nodes without directories of their own get the same directory only if one and the same
/// text of sixteen characters came out of a run of the random generator for each of them.
pub proof fn law_fresh_directories_tell_runs(
    config: SwarmConfig,
    draft: SwarmDraft,
    other_config: SwarmConfig,
    other: SwarmDraft,
)
    requires
        call_ensures(create_swarm, (config,), draft),
        call_ensures(create_swarm, (other_config,), other),
        config.tmp_dir is None,
        other_config.tmp_dir is None,
    ensures
        exists|run: Seq<char>, other_run: Seq<char>|
            {
                &&& #[trigger] sampled_in_one_run(run)
                &&& #[trigger] sampled_in_one_run(other_run)
                &&& run.len() == 16
                &&& other_run.len() == 16
                &&& (run != other_run ==> draft.work_dir->Fresh_0@[1]@
                    != other.work_dir->Fresh_0@[1]@)
                &&& draft.work_dir->Fresh_0@[1]@ == run
                &&& other.work_dir->Fresh_0@[1]@ == other_run
            },
{
    assert(sampled_in_one_run(draft.work_dir->Fresh_0@[1]@));
    assert(sampled_in_one_run(other.work_dir->Fresh_0@[1]@));
}

/// A plan takes over the keys, the id and the addresses of its draft, and everything else that
/// it holds is the same for every node but the transport and the graph of trust.
pub proof fn law_plan_takes_over_its_draft(draft: SwarmDraft, plan: NodePlan)
    requires
        call_ensures(SwarmDraft::plan, (draft,), Ok(plan)),
    ensures
        plan.key_pair == draft.key_pair,
        plan.peer_id == draft.peer_id,
        plan.script_storage.peer_id == draft.peer_id,
        plan.bootstraps == draft.bootstraps,
        plan.listen_on@ == seq![draft.listen_on],
        draft.transport == Transport::Memory <==> plan.transport is Memory,
        plan.transport matches TransportSetup::Network { timeout } ==> timeout@
            == 10_000_000_000,
        plan.stepper_dir@ == "stepper"@,
        plan.services_dir@ == "services"@,
        plan.any_socket@ == "0.0.0.0:0"@,
        plan.pool_size == 1,
        plan.particle_queue_buffer == 100,
        plan.particle_parallelism == 16,
        plan.script_storage.timer_resolution@ == 500_000_000,
        plan.script_storage.max_failures == 1,
        plan.script_storage.particle_ttl@ == 5_000_000_000,
        plan.services_envs == Preset::Default,
        plan.bootstrap_config == Preset::Zero,
        plan.registry == Preset::Absent,
        plan.protocol_config == Preset::Default,
        plan.kademlia_config == Preset::Default,
{
}

/// There is a plan if and only if no certificate that the node is to trust is refused, and
/// without trust there is always one.
pub proof fn law_plan_is_owed(draft: SwarmDraft, r: Result<NodePlan, RejectedCertificate>)
    requires
        call_ensures(SwarmDraft::plan, (draft,), r),
    ensures
        draft.trust is None ==> r is Ok,
        draft.trust matches Some(trust) ==> (r is Ok <==> forall|i: int|
            0 <= i < trust.certificates@.len() ==> #[trigger] trust.verdict(i) is Ok),
{
}

/// The graph of trust of a plan is the one that is built from the trust of its draft.
pub proof fn law_plan_holds_the_graph_of_trust(draft: SwarmDraft, plan: NodePlan)
    requires
        call_ensures(SwarmDraft::plan, (draft,), Ok(plan)),
    ensures
        match draft.trust {
            None => {
                &&& graph_roots(plan.trust_graph) == Map::<Seq<u8>, u32>::empty()
                &&& graph_relations(plan.trust_graph) == Relations::empty()
            },
            Some(trust) => {
                &&& graph_roots(plan.trust_graph) == weight_of_roots(trust.root_weights@)
                &&& graph_relations(plan.trust_graph) == trust.relations(
                    trust.certificates@.len(),
                )
            },
        },
{
}

/// A configuration with trust is the one without, but for the trust.
pub proof fn law_trust_is_put_on_top(
    bootstraps: Vec<Multiaddr>,
    listen_on: Multiaddr,
    trust: Trust,
    plain: SwarmConfig,
    config: SwarmConfig,
)
    requires
        call_ensures(SwarmConfig::new, (bootstraps, listen_on), plain),
        call_ensures(SwarmConfig::with_trust, (bootstraps, listen_on, trust), config),
    ensures
        plain.bootstraps == bootstraps,
        plain.listen_on == listen_on,
        plain.trust is None,
        plain.transport == Transport::Memory,
        plain.tmp_dir is None,
        config == (SwarmConfig { trust: Some(trust), ..plain }),
{
}

} // verus!
