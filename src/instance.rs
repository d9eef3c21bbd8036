//! The lifecycle of a plugin instance: instantiated, activated, released.
//!
//! The native entry points are called by the holder of the native handle; the
//! types here decide which entry point is due and when. `run` exists only on
//! [`ActiveInstance`], so a unit that was never activated cannot be run.
use vstd::prelude::*;

verus! {

/// The largest frame count that one native `run` call takes.
pub const MAX_RUN_FRAMES: u32 = 0xffff_ffff;

/// A native entry point of a plugin instance that the host has to call.
#[derive(PartialEq, Eq, Structural, Clone, Copy, Debug)]
pub enum Hook {
    /// The optional activation entry point.
    Activate,
    /// The optional deactivation entry point.
    Deactivate,
    /// The mandatory cleanup entry point, which frees the instance.
    Cleanup,
}

/// Which optional entry points a plugin's descriptor provides.
#[derive(PartialEq, Eq, Structural, Clone, Copy, Debug)]
pub struct EntryPoints {
    pub has_activate: bool,
    pub has_deactivate: bool,
}

/// What the lifecycle knows of an instance in either state.
pub struct InstanceModel {
    pub entry: EntryPoints,
    pub connected: Seq<bool>,
}

/// A plugin instance that has been created but is not activated.
pub struct Instance {
    entry: EntryPoints,
    connected: Vec<bool>,
}

/// A plugin instance that has been activated and is ready to process data.
pub struct ActiveInstance {
    inner: Instance,
}

/// The entry points due when an instance is released from the given state.
pub open spec fn release_sequence(active: bool, entry: EntryPoints) -> Seq<Hook> {
    if active && entry.has_deactivate {
        seq![Hook::Deactivate, Hook::Cleanup]
    } else {
        seq![Hook::Cleanup]
    }
}

/// The entry point due on activation, if the plugin has one.
pub open spec fn activation_hook(entry: EntryPoints) -> Option<Hook> {
    if entry.has_activate {
        Some(Hook::Activate)
    } else {
        None
    }
}

/// The entry point due on deactivation, if the plugin has one.
pub open spec fn deactivation_hook(entry: EntryPoints) -> Option<Hook> {
    if entry.has_deactivate {
        Some(Hook::Deactivate)
    } else {
        None
    }
}

impl View for Instance {
    type V = InstanceModel;

    closed spec fn view(&self) -> InstanceModel {
        InstanceModel { entry: self.entry, connected: self.connected@ }
    }
}

impl View for ActiveInstance {
    type V = InstanceModel;

    closed spec fn view(&self) -> InstanceModel {
        self.inner@
    }
}

impl Instance {
    /// A newly created instance of a plugin with `port_count` ports, none connected.
    pub fn new(entry: EntryPoints, port_count: usize) -> (r: Instance)
        ensures
            r@.entry == entry,
            r@.connected == Seq::new(port_count as nat, |i: int| false),
    {
        let mut connected: Vec<bool> = Vec::new();
        let mut i: usize = 0;
        while i < port_count
            invariant
                i <= port_count,
                connected@ == Seq::new(i as nat, |j: int| false),
            decreases port_count - i,
        {
            connected.push(false);
            i = i + 1;
            proof {
                assert(connected@ =~= Seq::new(i as nat, |j: int| false));
            }
        }
        Instance { entry, connected }
    }

    /// The number of ports of the instance.
    pub fn port_count(&self) -> (r: usize)
        ensures
            r == self@.connected.len(),
    {
        self.connected.len()
    }

    /// Records that a buffer is connected to port `port_index` and returns the
    /// index for the native call, or `None` for an index out of range, which
    /// must not reach the plugin.
    pub fn connect_port(&mut self, port_index: usize) -> (r: Option<u32>)
        ensures
            r is Some == (port_index < old(self)@.connected.len() && port_index <= u32::MAX as usize),
            r is Some ==> r->Some_0 as usize == port_index
                && final(self)@.connected == old(self)@.connected.update(port_index as int, true),
            r is None ==> final(self)@ == old(self)@,
            final(self)@.entry == old(self)@.entry,
    {
        if port_index < self.connected.len() && port_index <= u32::MAX as usize {
            self.connected.set(port_index, true);
            Some(port_index as u32)
        } else {
            None
        }
    }

    /// Whether a buffer has been connected to every port.
    pub fn all_ports_connected(&self) -> (r: bool)
        ensures
            r == forall|i: int| 0 <= i < self@.connected.len() ==> self@.connected[i],
    {
        let mut i: usize = 0;
        while i < self.connected.len()
            invariant
                i <= self@.connected.len(),
                forall|j: int| 0 <= j < i ==> self@.connected[j],
            decreases self@.connected.len() - i,
        {
            if !self.connected[i] {
                return false;
            }
            i = i + 1;
        }
        true
    }

    /// Activates the instance. Returns the active instance, with its port
    /// connections kept, and the entry point to call, if the plugin has one.
    pub fn activate(self) -> (r: (ActiveInstance, Option<Hook>))
        ensures
            r.0@ == self@,
            r.1 == activation_hook(self@.entry),
    {
        let hook = if self.entry.has_activate {
            Some(Hook::Activate)
        } else {
            None
        };
        (ActiveInstance { inner: self }, hook)
    }

    /// The entry points to call, in order, when the instance is released.
    pub fn release_hooks(&self) -> (r: Vec<Hook>)
        ensures
            r@ == release_sequence(false, self@.entry),
    {
        let r = vec![Hook::Cleanup];
        proof {
            assert(r@ =~= seq![Hook::Cleanup]);
        }
        r
    }
}

impl ActiveInstance {
    /// Deactivates the instance. Returns the instance, with its port connections
    /// kept, and the entry point to call, if the plugin has one.
    pub fn deactivate(self) -> (r: (Instance, Option<Hook>))
        ensures
            r.0@ == self@,
            r.1 == deactivation_hook(self@.entry),
    {
        let hook = if self.inner.entry.has_deactivate {
            Some(Hook::Deactivate)
        } else {
            None
        };
        (self.inner, hook)
    }

    /// The underlying instance.
    pub fn instance(&self) -> (r: &Instance)
        ensures
            r@ == self@,
    {
        &self.inner
    }

    /// The underlying instance, for connecting other buffers between runs.
    pub fn instance_mut(&mut self) -> (r: &mut Instance)
        ensures
            r@ == old(self)@,
            final(self)@ == final(r)@,
    {
        &mut self.inner
    }

    /// The native calls that process `sample_count` frames: each takes at
    /// most `MAX_RUN_FRAMES` frames. Zero frames make one call of zero frames.
    pub fn run(&self, sample_count: usize) -> (r: FrameChunks)
        ensures
            r@ == run_plan(sample_count as nat),
    {
        FrameChunks::new(sample_count)
    }

    /// The entry points to call, in order, when the instance is released.
    pub fn release_hooks(&self) -> (r: Vec<Hook>)
        ensures
            r@ == release_sequence(true, self@.entry),
    {
        if self.inner.entry.has_deactivate {
            let r = vec![Hook::Deactivate, Hook::Cleanup];
            proof {
                assert(r@ =~= seq![Hook::Deactivate, Hook::Cleanup]);
            }
            r
        } else {
            self.inner.release_hooks()
        }
    }
}

/// The frame counts of the native `run` calls that process `n` frames.
pub open spec fn chunks_of(n: nat) -> Seq<u32>
    decreases n,
{
    if n <= MAX_RUN_FRAMES as nat {
        seq![n as u32]
    } else {
        seq![MAX_RUN_FRAMES].add(chunks_of((n - MAX_RUN_FRAMES) as nat))
    }
}

/// The calls that process `n` frames: one call when `n` fits, else full
/// chunks followed by the rest.
pub open spec fn run_plan(n: nat) -> Seq<u32> {
    chunks_of(n)
}

/// The sum of a sequence of frame counts.
pub open spec fn total(s: Seq<u32>) -> nat
    decreases s.len(),
{
    if s.len() == 0 {
        0
    } else {
        s[0] as nat + total(s.drop_first())
    }
}

/// The frame counts of the native `run` calls still to be made, in order.
pub struct FrameChunks {
    remaining: usize,
    done: bool,
}

impl View for FrameChunks {
    type V = Seq<u32>;

    closed spec fn view(&self) -> Seq<u32> {
        if self.done {
            Seq::empty()
        } else {
            chunks_of(self.remaining as nat)
        }
    }
}

impl FrameChunks {
    /// The calls that process `frames` frames.
    pub fn new(frames: usize) -> (r: FrameChunks)
        ensures
            r@ == run_plan(frames as nat),
    {
        FrameChunks { remaining: frames, done: false }
    }

    /// The frame count of the next call, or `None` when all calls have been made.
    pub fn next_chunk(&mut self) -> (r: Option<u32>)
        ensures
            old(self)@.len() == 0 ==> r is None && final(self)@ == old(self)@,
            old(self)@.len() > 0 ==> r == Some(old(self)@[0]) && final(self)@ == old(self)@.drop_first(),
    {
        if self.done {
            return None;
        }
        if self.remaining <= MAX_RUN_FRAMES as usize {
            let c = self.remaining as u32;
            self.done = true;
            self.remaining = 0;
            proof {
                assert(old(self)@ == seq![c]);
                assert(old(self)@.drop_first() =~= Seq::<u32>::empty());
            }
            Some(c)
        } else {
            self.remaining = self.remaining - MAX_RUN_FRAMES as usize;
            proof {
                assert(old(self)@ == seq![MAX_RUN_FRAMES].add(chunks_of(self.remaining as nat)));
                assert(old(self)@.drop_first() =~= chunks_of(self.remaining as nat));
            }
            Some(MAX_RUN_FRAMES)
        }
    }
}

/// The calls that process `n` frames process exactly `n` frames, each call at
/// most `MAX_RUN_FRAMES`, and there is at least one.
pub proof fn lemma_run_plan_covers(n: nat)
    ensures
        total(run_plan(n)) == n,
        run_plan(n).len() >= 1,
        forall|i: int| 0 <= i < run_plan(n).len() ==> run_plan(n)[i] <= MAX_RUN_FRAMES,
    decreases n,
{
    if n <= MAX_RUN_FRAMES as nat {
        assert(run_plan(n).drop_first() =~= Seq::<u32>::empty());
        assert(total(Seq::<u32>::empty()) == 0);
        assert(total(run_plan(n)) == run_plan(n)[0] as nat + total(run_plan(n).drop_first()));
    } else {
        let rest = (n - MAX_RUN_FRAMES) as nat;
        lemma_run_plan_covers(rest);
        assert(run_plan(n).drop_first() =~= run_plan(rest));
        assert(total(run_plan(n)) == run_plan(n)[0] as nat + total(run_plan(n).drop_first()));
        assert forall|i: int| 0 <= i < run_plan(n).len() implies run_plan(n)[i] <= MAX_RUN_FRAMES by {
            if i > 0 {
                assert(run_plan(n)[i] == run_plan(rest)[i - 1]);
            }
        }
    }
}

/// Releasing an instance, from either state, calls the cleanup entry point
/// exactly once and last; an active instance whose plugin has a deactivation
/// entry point is deactivated first.
pub proof fn lemma_release_cleans_up_once(active: bool, entry: EntryPoints)
    ensures
        release_sequence(active, entry).filter(|h: Hook| h == Hook::Cleanup).len() == 1,
        release_sequence(active, entry).last() == Hook::Cleanup,
        active && entry.has_deactivate ==> release_sequence(active, entry)[0] == Hook::Deactivate,
        !(active && entry.has_deactivate) ==> release_sequence(active, entry).len() == 1,
{
    let s = release_sequence(active, entry);
    let f = |h: Hook| h == Hook::Cleanup;
    reveal_with_fuel(Seq::filter, 3);
    if active && entry.has_deactivate {
        assert(s.drop_last() =~= seq![Hook::Deactivate]);
        assert(s.drop_last().drop_last() =~= Seq::<Hook>::empty());
    } else {
        assert(s.drop_last() =~= Seq::<Hook>::empty());
    }
}

/// Activating, deactivating and activating again gives an active instance
/// with the same entry points and port connections as the first activation,
/// and the same entry point is due on each activation.
pub proof fn lemma_activation_cycle(i: Instance, a1: ActiveInstance, d: Instance, a2: ActiveInstance)
    requires
        a1@ == i@,
        d@ == a1@,
        a2@ == d@,
    ensures
        a2@ == a1@,
        activation_hook(a2@.entry) == activation_hook(a1@.entry),
{
}

} // verus!
