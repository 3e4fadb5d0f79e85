//! Tests of the server lifecycle: channel-id assignment, shutdown causes,
//! and the shared-region file's cleanup obligations.

use plugin_tunnel::server::{
    host_shm_config, region_size_bytes, Server, StopCause, CHUNK_SIZE, PLUGIN_STARTUP_GRACE_MS,
    SHM_RING_CAPACITY, SHM_SLOT_COUNT, SHM_SLOT_SIZE,
};

#[test]
fn shared_region_configuration_is_fixed() {
    let c = host_shm_config();
    assert_eq!(c.ring_capacity, 256);
    assert_eq!(c.slot_size, 65536);
    assert_eq!(c.slot_count, 128);
    assert_eq!(region_size_bytes(&c), 8 * 1024 * 1024);
    assert_eq!(SHM_RING_CAPACITY, 256);
    assert_eq!(SHM_SLOT_SIZE, 65536);
    assert_eq!(SHM_SLOT_COUNT, 128);
    assert_eq!(CHUNK_SIZE, 4096);
    assert_eq!(PLUGIN_STARTUP_GRACE_MS, 100);
}

#[test]
fn distinct_connections_get_distinct_odd_channel_ids() {
    let mut s = Server::start();
    let a = s.on_accepted();
    let b = s.on_accepted();
    let c = s.on_accepted();
    assert_eq!(a, 1);
    assert_eq!(b, 3);
    assert_eq!(c, 5);
    assert_ne!(a, b);
    assert_ne!(b, c);
    assert_ne!(a, c);
    assert_eq!(a % 2, 1);
    assert_eq!(b % 2, 1);
    assert_eq!(c % 2, 1);
}

#[test]
fn plugin_exit_stops_promptly_with_connections_active() {
    let mut s = Server::start();
    s.on_accepted();
    s.on_accepted();
    s.on_accepted();
    assert_eq!(s.active_conns, 3);
    // The plugin exits: one transition ends serving, without waiting for
    // the three forwarder pairs still active.
    s.stop(StopCause::PluginExited);
    assert!(!s.serving);
    assert_eq!(s.active_conns, 3);
    assert_eq!(s.stopped_by, Some(StopCause::PluginExited));
}

#[test]
fn region_file_removed_under_every_stop_cause() {
    for cause in [StopCause::PluginExited, StopCause::SessionFailed, StopCause::Shutdown] {
        let mut s = Server::start();
        assert!(s.region_file_present);
        s.on_accepted();
        s.stop(cause);
        assert!(!s.region_file_present);
        assert_eq!(s.cleanups_done, 1);
        assert_eq!(s.stopped_by, Some(cause));
    }
}

#[test]
fn accept_error_is_transient() {
    let mut s = Server::start();
    let a = s.on_accepted();
    s.on_accept_error();
    assert!(s.serving);
    let b = s.on_accepted();
    assert_ne!(a, b);
}

#[test]
fn tunnel_open_failure_fails_only_that_connection() {
    let mut s = Server::start();
    // The plugin has not mapped the region yet: the first connection's
    // tunnel open fails.
    let a = s.on_accepted();
    s.on_tunnel_open_failed();
    assert!(s.serving);
    assert_eq!(s.active_conns, 0);
    // Once the plugin is ready, the next connection is served as usual.
    let b = s.on_accepted();
    assert!(s.serving);
    assert_eq!(s.active_conns, 1);
    assert_ne!(a, b);
}

#[test]
fn finished_connections_release_their_slot() {
    let mut s = Server::start();
    s.on_accepted();
    s.on_accepted();
    s.on_connection_finished();
    assert_eq!(s.active_conns, 1);
    assert!(s.serving);
    s.on_connection_finished();
    assert_eq!(s.active_conns, 0);
    assert!(s.serving);
}
