//! The server's lifecycle and accept-loop decisions.
//!
//! A running server owns exactly one shared region and one plugin process.
//! The accept loop races two events: a new external connection arriving and
//! the plugin process exiting. A connection gets a fresh odd channel
//! identifier and a forwarder pair of its own; an accept error is transient
//! and the loop continues; the plugin exiting — like a fatal session error
//! or an explicit shutdown — stops serving at once, without waiting for the
//! connections still active, and removes the shared-region file exactly
//! once.

use vstd::prelude::*;

use crate::channel::{lemma_issued_ids_distinct, lemma_odd_start_issues_odd_ids, ChannelAllocator};

verus! {

/// Descriptor ring capacity of the shared region.
pub const SHM_RING_CAPACITY: u32 = 256;

/// Size of each data slot of the shared region, in bytes.
pub const SHM_SLOT_SIZE: u32 = 65536;

/// Number of data slots of the shared region.
pub const SHM_SLOT_COUNT: u32 = 128;

/// Most bytes one read from the external connection may yield, and so the
/// largest payload the inbound direction forwards as one chunk.
pub const CHUNK_SIZE: usize = 4096;

/// How long the host waits after spawning the plugin before first use of
/// the transport, in milliseconds, so the plugin can map the region. A
/// bridge over the startup race, not a correctness guarantee: the transport
/// must still tolerate late readiness.
pub const PLUGIN_STARTUP_GRACE_MS: u64 = 100;

/// The fixed dimensions of the shared region: a ring of in-flight
/// descriptors plus `slot_count` slots of `slot_size` bytes each.
pub struct ShmConfig {
    pub ring_capacity: u32,
    pub slot_size: u32,
    pub slot_count: u32,
}

/// The one configuration this deployment uses; not tunable per request.
pub fn host_shm_config() -> (c: ShmConfig)
    ensures
        c.ring_capacity == SHM_RING_CAPACITY,
        c.slot_size == SHM_SLOT_SIZE,
        c.slot_count == SHM_SLOT_COUNT,
{
    ShmConfig {
        ring_capacity: SHM_RING_CAPACITY,
        slot_size: SHM_SLOT_SIZE,
        slot_count: SHM_SLOT_COUNT,
    }
}

/// The shared region's data size in bytes: `slot_size × slot_count`.
pub fn region_size_bytes(c: &ShmConfig) -> (n: u64)
    ensures
        n == c.slot_size as u64 * c.slot_count as u64,
{
    proof {
        assert((c.slot_size as int) * (c.slot_count as int) <= 0xffff_ffff_ffff_ffff) by (nonlinear_arith)
            requires
                c.slot_size as int <= 0xffff_ffff,
                c.slot_count as int <= 0xffff_ffff,
        ;
    }
    (c.slot_size as u64) * (c.slot_count as u64)
}

/// Why serving stopped. Every cause leads to the same teardown.
#[derive(Clone, Copy, PartialEq, Eq, Debug)]
pub enum StopCause {
    /// The plugin process exited, with any status: the single point of
    /// control is gone, so serving ends.
    PluginExited,
    /// The session's demultiplexing loop failed fatally.
    SessionFailed,
    /// The host was asked to stop serving.
    Shutdown,
}

/// The serving state of one host instance.
///
/// `region_file_present` models whether the shared-region file still exists
/// in the filesystem namespace; `cleanups_done` counts how many times it
/// has been removed on the way out of serving.
pub struct Server {
    pub serving: bool,
    pub region_file_present: bool,
    pub cleanups_done: u64,
    pub channels: ChannelAllocator,
    pub active_conns: u64,
    pub stopped_by: Option<StopCause>,
}

impl Server {
    /// While serving, the region file exists and has not been cleaned up;
    /// once stopped, it has been removed, exactly once. The host draws its
    /// channel identifiers from the odd progression starting at one.
    pub open spec fn wf(self) -> bool {
        &&& self.channels.wf()
        &&& self.channels.start@ == 1u32
        &&& self.cleanups_done <= 1
        &&& (self.serving <==> self.cleanups_done == 0)
        &&& (self.serving <==> self.region_file_present)
        &&& (self.serving <==> self.stopped_by is None)
    }

    /// Startup: any stale region file at the chosen path has been removed,
    /// a fresh region created, the plugin spawned; the host allocates odd
    /// channel identifiers from one.
    pub fn start() -> (s: Server)
        ensures
            s.wf(),
            s.serving,
            s.region_file_present,
            s.cleanups_done == 0,
            s.active_conns == 0,
            s.channels.next_id == 1,
            s.channels.issued@ == Seq::<u32>::empty(),
            s.stopped_by is None,
    {
        Server {
            serving: true,
            region_file_present: true,
            cleanups_done: 0,
            channels: ChannelAllocator::new(1),
            active_conns: 0,
            stopped_by: None,
        }
    }

    /// A new external connection was accepted: assign it a fresh odd
    /// channel identifier and count its forwarder pair as active. Accepting
    /// never blocks on, or waits for, the connections already running.
    pub fn on_accepted(&mut self) -> (channel_id: u32)
        requires
            old(self).wf(),
            old(self).serving,
            old(self).channels.next_id + 2 <= u32::MAX,
            old(self).active_conns < u64::MAX,
        ensures
            final(self).wf(),
            final(self).serving,
            channel_id == old(self).channels.next_id,
            channel_id % 2 == 1,
            final(self).channels.next_id == old(self).channels.next_id + 2,
            final(self).channels.issued@ == old(self).channels.issued@.push(channel_id),
            final(self).active_conns == old(self).active_conns + 1,
            final(self).region_file_present,
            final(self).cleanups_done == old(self).cleanups_done,
            final(self).stopped_by == old(self).stopped_by,
    {
        let id = self.channels.allocate();
        self.active_conns = self.active_conns + 1;
        proof {
            let k = old(self).channels.issued@.len() as int;
            assert((1 + 2 * k) % 2 == 1) by (nonlinear_arith);
        }
        id
    }

    /// A single accept call failed: transient, logged, and the loop
    /// continues with nothing else changed.
    pub fn on_accept_error(&mut self)
        requires
            old(self).wf(),
            old(self).serving,
        ensures
            *final(self) == *old(self),
    {
    }

    /// Opening the tunnel channel for one accepted connection failed — for
    /// instance, the plugin has not mapped the region yet. Only that one
    /// connection fails; the server keeps serving and accepting.
    pub fn on_tunnel_open_failed(&mut self)
        requires
            old(self).wf(),
            old(self).serving,
            old(self).active_conns > 0,
        ensures
            final(self).wf(),
            final(self).serving,
            final(self).active_conns == old(self).active_conns - 1,
            final(self).channels == old(self).channels,
            final(self).region_file_present == old(self).region_file_present,
            final(self).cleanups_done == old(self).cleanups_done,
            final(self).stopped_by == old(self).stopped_by,
    {
        self.active_conns = self.active_conns - 1;
    }

    /// One connection's forwarder pair has finished and released itself.
    pub fn on_connection_finished(&mut self)
        requires
            old(self).wf(),
            old(self).active_conns > 0,
        ensures
            final(self).wf(),
            final(self).active_conns == old(self).active_conns - 1,
            final(self).serving == old(self).serving,
            final(self).channels == old(self).channels,
            final(self).region_file_present == old(self).region_file_present,
            final(self).cleanups_done == old(self).cleanups_done,
            final(self).stopped_by == old(self).stopped_by,
    {
        self.active_conns = self.active_conns - 1;
    }

    /// Serving stops — the plugin exited, the session failed, or the host
    /// was shut down. One transition, whatever the cause and however many
    /// connections are still active: the loop does not wait for them, and
    /// the shared-region file is removed, exactly once.
    pub fn stop(&mut self, cause: StopCause)
        requires
            old(self).wf(),
            old(self).serving,
        ensures
            final(self).wf(),
            !final(self).serving,
            !final(self).region_file_present,
            final(self).cleanups_done == 1,
            final(self).active_conns == old(self).active_conns,
            final(self).channels == old(self).channels,
            final(self).stopped_by == Some(cause),
    {
        self.serving = false;
        self.region_file_present = false;
        self.cleanups_done = self.cleanups_done + 1;
        self.stopped_by = Some(cause);
    }
}

/// Law: two distinct accepted connections are always assigned two distinct
/// channel identifiers.
pub proof fn lemma_accepted_channel_ids_distinct(s: Server, i: int, j: int)
    requires
        s.wf(),
        0 <= i < s.channels.issued@.len(),
        0 <= j < s.channels.issued@.len(),
        i != j,
    ensures
        s.channels.issued@[i] != s.channels.issued@[j],
{
    lemma_issued_ids_distinct(s.channels, i, j);
}

/// Law: every channel identifier the host issues is odd, so it can never
/// collide with the plugin side's even identifiers.
pub proof fn lemma_host_channel_ids_odd(s: Server, k: int)
    requires
        s.wf(),
        0 <= k < s.channels.issued@.len(),
    ensures
        s.channels.issued@[k] % 2 == 1,
{
    lemma_odd_start_issues_odd_ids(s.channels, k);
}

/// Law: once the server no longer serves — under normal shutdown and
/// plugin-exit shutdown alike — the shared-region file is gone, and was
/// removed exactly once.
pub proof fn lemma_stopped_server_has_no_region_file(s: Server)
    requires
        s.wf(),
        !s.serving,
    ensures
        !s.region_file_present,
        s.cleanups_done == 1,
{
}

} // verus!
