use swarm_kit::logs::{default_level, log_filters, LogLevel, WASM_LOG, WASM_LOG_LEVEL};

#[test]
fn only_the_actor_is_logged_in_detail() {
    let filters = log_filters();
    assert_eq!(filters.len(), 26);
    assert_eq!(filters[0].target, "aquamarine::actor");
    assert_eq!(filters[0].level, LogLevel::Debug);
    assert!(filters[1..].iter().all(|filter| filter.level == LogLevel::Info));
    assert_eq!(filters[1].target, "particle_node::bootstrapper");
    assert_eq!(filters[12].target, "libp2p_websocket::framed");
    assert_eq!(filters[19].target, "cranelift_codegen");
    assert_eq!(filters[24].target, "polling");
    assert_eq!(filters[25].target, "cranelift_codegen");
}

#[test]
fn a_target_that_is_listed_twice_has_one_level() {
    let filters = log_filters();
    for a in &filters {
        for b in &filters {
            assert!(a.target != b.target || a.level == b.level);
        }
    }
}

#[test]
fn everything_else_is_logged_in_detail() {
    assert_eq!(default_level(), LogLevel::Debug);
    assert_eq!((WASM_LOG, WASM_LOG_LEVEL), ("WASM_LOG", "info"));
}
