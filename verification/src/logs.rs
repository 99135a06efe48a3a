//! What tests log, and what they leave out.

use vstd::prelude::*;

verus! {

/// How much of a target is logged.
#[derive(Clone, Copy, Debug, PartialEq, Eq, Structural)]
pub enum LogLevel {
    Info,
    Debug,
}

/// The level of one target.
#[derive(Clone, Copy, Debug)]
pub struct LogFilter {
    pub target: &'static str,
    pub level: LogLevel,
}

/// How much is logged of a target that no filter names.
pub fn default_level() -> (level: LogLevel)
    ensures
        level == LogLevel::Debug,
{
    LogLevel::Debug
}

/// The environment variable for the logs of modules, and the level that it is set to.
pub const WASM_LOG: &'static str = "WASM_LOG";

pub const WASM_LOG_LEVEL: &'static str = "info";

/// The target whose details are kept.
pub const DETAILED_TARGET: &'static str = "aquamarine::actor";

/// The targets whose details are left out.
pub open spec fn quiet_targets() -> Seq<Seq<char>> {
    seq![
        "particle_node::bootstrapper"@,
        "yamux::connection::stream"@,
        "tokio_threadpool"@,
        "tokio_reactor"@,
        "mio"@,
        "tokio_io"@,
        "soketto"@,
        "yamux"@,
        "multistream_select"@,
        "libp2p_swarm"@,
        "libp2p_secio"@,
        "libp2p_websocket::framed"@,
        "libp2p_ping"@,
        "libp2p_core::upgrade::apply"@,
        "libp2p_kad::kbucket"@,
        "libp2p_kad"@,
        "libp2p_plaintext"@,
        "libp2p_identify::protocol"@,
        "cranelift_codegen"@,
        "wasmer_wasi"@,
        "wasmer_interface_types_fl"@,
        "async_std"@,
        "async_io"@,
        "polling"@,
        "cranelift_codegen"@,
    ]
}

/// `filters` keeps the details of `DETAILED_TARGET`, then leaves out those of each
/// target of `quiet_targets`, in order.
pub open spec fn are_log_filters(filters: Seq<LogFilter>) -> bool {
    &&& filters.len() == 1 + quiet_targets().len()
    &&& filters[0].target@ == DETAILED_TARGET@
    &&& filters[0].level == LogLevel::Debug
    &&& forall|i: int|
        1 <= i < filters.len() ==> {
            &&& (#[trigger] filters[i]).target@ == quiet_targets()[i - 1]
            &&& filters[i].level == LogLevel::Info
        }
}

fn list_quiet_targets() -> (targets: Vec<&'static str>)
    ensures
        targets@.len() == quiet_targets().len(),
        forall|i: int| 0 <= i < targets@.len() ==> (#[trigger] targets@[i])@ == quiet_targets()[i],
{
    let mut targets: Vec<&'static str> = Vec::new();
    targets.push("particle_node::bootstrapper");
    targets.push("yamux::connection::stream");
    targets.push("tokio_threadpool");
    targets.push("tokio_reactor");
    targets.push("mio");
    targets.push("tokio_io");
    targets.push("soketto");
    targets.push("yamux");
    targets.push("multistream_select");
    targets.push("libp2p_swarm");
    targets.push("libp2p_secio");
    targets.push("libp2p_websocket::framed");
    targets.push("libp2p_ping");
    targets.push("libp2p_core::upgrade::apply");
    targets.push("libp2p_kad::kbucket");
    targets.push("libp2p_kad");
    targets.push("libp2p_plaintext");
    targets.push("libp2p_identify::protocol");
    targets.push("cranelift_codegen");
    targets.push("wasmer_wasi");
    targets.push("wasmer_interface_types_fl");
    targets.push("async_std");
    targets.push("async_io");
    targets.push("polling");
    targets.push("cranelift_codegen");
    targets
}

/// The filters for the logs of a test.
pub fn log_filters() -> (filters: Vec<LogFilter>)
    ensures
        are_log_filters(filters@),
{
    let targets = list_quiet_targets();
    let mut filters: Vec<LogFilter> = Vec::new();
    filters.push(LogFilter { target: DETAILED_TARGET, level: LogLevel::Debug });
    let mut i: usize = 0;
    while i < targets.len()
        invariant
            i <= targets@.len(),
            targets@.len() == quiet_targets().len(),
            forall|j: int|
                0 <= j < targets@.len() ==> (#[trigger] targets@[j])@ == quiet_targets()[j],
            filters@.len() == i + 1,
            filters@[0].target@ == DETAILED_TARGET@,
            filters@[0].level == LogLevel::Debug,
            forall|j: int|
                1 <= j <= i ==> {
                    &&& (#[trigger] filters@[j]).target@ == quiet_targets()[j - 1]
                    &&& filters@[j].level == LogLevel::Info
                },
        decreases targets@.len() - i,
    {
        filters.push(LogFilter { target: targets[i], level: LogLevel::Info });
        i = i + 1;
    }
    filters
}

proof fn lemma_detailed_is_not_quiet(i: int)
    requires
        0 <= i < quiet_targets().len(),
    ensures
        quiet_targets()[i] != DETAILED_TARGET@,
{
    reveal_strlit("aquamarine::actor");
    reveal_strlit("particle_node::bootstrapper");
    reveal_strlit("yamux::connection::stream");
    reveal_strlit("tokio_threadpool");
    reveal_strlit("tokio_reactor");
    reveal_strlit("mio");
    reveal_strlit("tokio_io");
    reveal_strlit("soketto");
    reveal_strlit("yamux");
    reveal_strlit("multistream_select");
    reveal_strlit("libp2p_swarm");
    reveal_strlit("libp2p_secio");
    reveal_strlit("libp2p_websocket::framed");
    reveal_strlit("libp2p_ping");
    reveal_strlit("libp2p_core::upgrade::apply");
    reveal_strlit("libp2p_kad::kbucket");
    reveal_strlit("libp2p_kad");
    reveal_strlit("libp2p_plaintext");
    reveal_strlit("libp2p_identify::protocol");
    reveal_strlit("cranelift_codegen");
    reveal_strlit("wasmer_wasi");
    reveal_strlit("wasmer_interface_types_fl");
    reveal_strlit("async_std");
    reveal_strlit("async_io");
    reveal_strlit("polling");
    assert(quiet_targets()[i].len() != 17 || quiet_targets()[i][0] == 'c');
}

/// No target has two levels, although one is listed twice: the order of the filters
/// does not matter.
pub proof fn law_each_target_has_one_level(filters: Seq<LogFilter>, i: int, j: int)
    requires
        are_log_filters(filters),
        0 <= i < filters.len(),
        0 <= j < filters.len(),
        filters[i].target@ == filters[j].target@,
    ensures
        filters[i].level == filters[j].level,
{
    if i > 0 {
        lemma_detailed_is_not_quiet(i - 1);
    }
    if j > 0 {
        lemma_detailed_is_not_quiet(j - 1);
    }
}

/// One of `filters` holds `target` to `level`.
pub open spec fn level_of(filters: Seq<LogFilter>, target: Seq<char>, level: LogLevel) -> bool {
    exists|i: int|
        0 <= i < filters.len() && (#[trigger] filters[i]).target@ == target && filters[i].level
            == level
}

/// Of the network stack, the virtual machine and the executor only what matters is logged, and
/// of the interpreter's actor everything; every filter but the actor's leaves details out.
pub proof fn law_details_are_left_out(filters: Vec<LogFilter>)
    requires
        call_ensures(log_filters, (), filters),
    ensures
        level_of(filters@, "aquamarine::actor"@, LogLevel::Debug),
        forall|i: int|
            0 <= i < filters@.len() ==> ((#[trigger] filters@[i]).level == LogLevel::Debug
                <==> filters@[i].target@ == "aquamarine::actor"@),
        level_of(filters@, "particle_node::bootstrapper"@, LogLevel::Info),
        level_of(filters@, "yamux::connection::stream"@, LogLevel::Info),
        level_of(filters@, "tokio_threadpool"@, LogLevel::Info),
        level_of(filters@, "tokio_reactor"@, LogLevel::Info),
        level_of(filters@, "mio"@, LogLevel::Info),
        level_of(filters@, "tokio_io"@, LogLevel::Info),
        level_of(filters@, "soketto"@, LogLevel::Info),
        level_of(filters@, "yamux"@, LogLevel::Info),
        level_of(filters@, "multistream_select"@, LogLevel::Info),
        level_of(filters@, "libp2p_swarm"@, LogLevel::Info),
        level_of(filters@, "libp2p_secio"@, LogLevel::Info),
        level_of(filters@, "libp2p_websocket::framed"@, LogLevel::Info),
        level_of(filters@, "libp2p_ping"@, LogLevel::Info),
        level_of(filters@, "libp2p_core::upgrade::apply"@, LogLevel::Info),
        level_of(filters@, "libp2p_kad::kbucket"@, LogLevel::Info),
        level_of(filters@, "libp2p_kad"@, LogLevel::Info),
        level_of(filters@, "libp2p_plaintext"@, LogLevel::Info),
        level_of(filters@, "libp2p_identify::protocol"@, LogLevel::Info),
        level_of(filters@, "cranelift_codegen"@, LogLevel::Info),
        level_of(filters@, "wasmer_wasi"@, LogLevel::Info),
        level_of(filters@, "wasmer_interface_types_fl"@, LogLevel::Info),
        level_of(filters@, "async_std"@, LogLevel::Info),
        level_of(filters@, "async_io"@, LogLevel::Info),
        level_of(filters@, "polling"@, LogLevel::Info),
{
    assert(filters@[0].target@ == "aquamarine::actor"@);
    assert forall|i: int| 1 <= i < filters@.len() implies (#[trigger] filters@[i]).target@
        != "aquamarine::actor"@ by {
        lemma_detailed_is_not_quiet(i - 1);
    }
    assert(filters@[1].target@ == "particle_node::bootstrapper"@);
    assert(filters@[2].target@ == "yamux::connection::stream"@);
    assert(filters@[3].target@ == "tokio_threadpool"@);
    assert(filters@[4].target@ == "tokio_reactor"@);
    assert(filters@[5].target@ == "mio"@);
    assert(filters@[6].target@ == "tokio_io"@);
    assert(filters@[7].target@ == "soketto"@);
    assert(filters@[8].target@ == "yamux"@);
    assert(filters@[9].target@ == "multistream_select"@);
    assert(filters@[10].target@ == "libp2p_swarm"@);
    assert(filters@[11].target@ == "libp2p_secio"@);
    assert(filters@[12].target@ == "libp2p_websocket::framed"@);
    assert(filters@[13].target@ == "libp2p_ping"@);
    assert(filters@[14].target@ == "libp2p_core::upgrade::apply"@);
    assert(filters@[15].target@ == "libp2p_kad::kbucket"@);
    assert(filters@[16].target@ == "libp2p_kad"@);
    assert(filters@[17].target@ == "libp2p_plaintext"@);
    assert(filters@[18].target@ == "libp2p_identify::protocol"@);
    assert(filters@[19].target@ == "cranelift_codegen"@);
    assert(filters@[20].target@ == "wasmer_wasi"@);
    assert(filters@[21].target@ == "wasmer_interface_types_fl"@);
    assert(filters@[22].target@ == "async_std"@);
    assert(filters@[23].target@ == "async_io"@);
    assert(filters@[24].target@ == "polling"@);
}

} // verus!
