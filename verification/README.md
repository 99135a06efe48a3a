# swarm_kit

Building blocks for tests that run a swarm of nodes, and the queue through which
callers talk to a Kademlia service. The library is verified with Verus.

- `src/swarm.rs`, `src/node.rs`: making the nodes of a swarm, the plan of each node,
  starting them, and when a node is connected to all others.
- `src/kademlia.rs`: commands to the Kademlia service, their replies, and the rounds
  in which the service works off its queue.
- `src/trust.rs`: certificates and the graph of trust that a node starts with.
- `src/identity.rs`, `src/address.rs`, `src/ident.rs`, `src/tmp.rs`: keys and peer ids,
  in-memory addresses, random identifiers, names of directories and files.
- `src/clock.rs`, `src/span.rs`: the time, and how long to wait.
- `src/module_cfg.rs`, `src/logs.rs`: the configuration of the test module, and what is
  logged.
- `app/`: what touches the disk, the environment, the executor and the network stack.
- `tests/`: the library, run.
