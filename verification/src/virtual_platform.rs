//! A platform without native input: displays and faults are set by hand, and
//! everything that is done to it is recorded.

use vstd::prelude::*;
use crate::displays::NativeDisplaySnapshot;
use crate::input::InputEvent;
use crate::platform_port::PlatformPortError;

verus! {

/// What was done to the platform, and what it is set to do.
pub struct VirtualPlatformPort {
    pub injected: Vec<InputEvent>,
    pub injection_attempts: usize,
    pub forced_releases: Vec<InputEvent>,
    pub restore_count: usize,
    pub routing_to_peer: bool,
    pub routing_transitions: Vec<bool>,
    pub displays: Vec<NativeDisplaySnapshot>,
    pub display_snapshot_attempts: usize,
    pub display_change_pending: bool,
    pub display_snapshot_pending: bool,
    pub display_revision: u64,
    pub observed_display_revision: u64,
    pub fail_next_pointer_injection: bool,
    pub fail_restore_local_ownership: bool,
}

pub open spec fn counted(count: usize) -> usize {
    if count == usize::MAX {
        count
    } else {
        (count + 1) as usize
    }
}

fn count_up(count: usize) -> (next: usize)
    ensures
        next == counted(count),
{
    if count == usize::MAX {
        count
    } else {
        count + 1
    }
}

impl VirtualPlatformPort {
    /// A platform that shows `displays` and has seen no change of them.
    pub fn new(displays: Vec<NativeDisplaySnapshot>) -> (port: VirtualPlatformPort)
        ensures
            port.displays == displays,
            port.injected@.len() == 0,
            port.forced_releases@.len() == 0,
            port.routing_transitions@.len() == 0,
            port.injection_attempts == 0,
            port.restore_count == 0,
            port.display_snapshot_attempts == 0,
            !port.routing_to_peer,
            !port.change_seen(),
            !port.display_snapshot_pending,
            !port.fail_next_pointer_injection,
            !port.fail_restore_local_ownership,
    {
        VirtualPlatformPort {
            injected: Vec::new(),
            injection_attempts: 0,
            forced_releases: Vec::new(),
            restore_count: 0,
            routing_to_peer: false,
            routing_transitions: Vec::new(),
            displays,
            display_snapshot_attempts: 0,
            display_change_pending: false,
            display_snapshot_pending: false,
            display_revision: 0,
            observed_display_revision: 0,
            fail_next_pointer_injection: false,
            fail_restore_local_ownership: false,
        }
    }

    /// A change has not been looked at yet.
    pub open spec fn change_seen(&self) -> bool {
        self.display_change_pending || self.display_snapshot_pending || self.display_revision
            != self.observed_display_revision
    }

    /// The displays change, and are stable at once. Only the latest ones count.
    pub fn signal_display_change(&mut self, displays: Vec<NativeDisplaySnapshot>)
        ensures
            *final(self) == (VirtualPlatformPort {
                displays,
                display_revision: if old(self).display_revision == u64::MAX {
                    u64::MAX
                } else {
                    (old(self).display_revision + 1) as u64
                },
                display_change_pending: false,
                display_snapshot_pending: false,
                ..*old(self)
            }),
    {
        self.displays = displays;
        if self.display_revision < u64::MAX {
            self.display_revision = self.display_revision + 1;
        }
        self.display_change_pending = false;
        self.display_snapshot_pending = false;
    }

    /// The displays begin to change.
    pub fn signal_unstable_display_change(&mut self)
        ensures
            *final(self) == (VirtualPlatformPort {
                display_change_pending: true,
                display_snapshot_pending: true,
                ..*old(self)
            }),
            final(self).change_seen(),
    {
        self.display_change_pending = true;
        self.display_snapshot_pending = true;
    }

    pub fn display_change_pending(&self) -> (pending: bool)
        ensures
            pending == self.change_seen(),
    {
        self.display_change_pending || self.display_snapshot_pending || self.display_revision
            != self.observed_display_revision
    }

    /// Looks at the displays. While they change there is nothing to see; looking
    /// at them settles the change.
    pub fn display_snapshot(&mut self) -> (snapshot: Result<
        Vec<NativeDisplaySnapshot>,
        PlatformPortError,
    >)
        ensures
            if old(self).display_snapshot_pending {
                &&& snapshot == Err::<Vec<NativeDisplaySnapshot>, _>(
                    PlatformPortError::DisplaySnapshotPending,
                )
                &&& *final(self) == (VirtualPlatformPort {
                    display_snapshot_attempts: counted(old(self).display_snapshot_attempts),
                    ..*old(self)
                })
            } else {
                &&& snapshot matches Ok(seen) && seen@ == old(self).displays@
                &&& *final(self) == (VirtualPlatformPort {
                    display_snapshot_attempts: counted(old(self).display_snapshot_attempts),
                    observed_display_revision: old(self).display_revision,
                    display_change_pending: false,
                    ..*old(self)
                })
                &&& !final(self).change_seen()
            },
    {
        self.display_snapshot_attempts = count_up(self.display_snapshot_attempts);
        if self.display_snapshot_pending {
            return Err(PlatformPortError::DisplaySnapshotPending);
        }
        self.observed_display_revision = self.display_revision;
        self.display_change_pending = false;
        let mut seen: Vec<NativeDisplaySnapshot> = Vec::new();
        let mut at: usize = 0;
        while at < self.displays.len()
            invariant
                at <= self.displays@.len(),
                seen@ == self.displays@.take(at as int),
            decreases self.displays@.len() - at,
        {
            seen.push(self.displays[at]);
            assert(seen@ =~= self.displays@.take(at + 1));
            at = at + 1;
        }
        assert(seen@ =~= self.displays@);
        Ok(seen)
    }

    pub fn set_routing_to_peer(&mut self, enabled: bool)
        ensures
            final(self).routing_to_peer == enabled,
            final(self).routing_transitions@ == old(self).routing_transitions@.push(enabled),
            *final(self) == (VirtualPlatformPort {
                routing_to_peer: enabled,
                routing_transitions: final(self).routing_transitions,
                ..*old(self)
            }),
    {
        self.routing_to_peer = enabled;
        self.routing_transitions.push(enabled);
    }

    /// Injects input. A pointer motion can be set to fail once.
    pub fn inject(&mut self, event: InputEvent) -> (done: Result<(), PlatformPortError>)
        ensures
            if event is PointerMotion && old(self).fail_next_pointer_injection {
                &&& done == Err::<(), _>(PlatformPortError::DisplaySnapshotPending)
                &&& *final(self) == (VirtualPlatformPort {
                    injection_attempts: counted(old(self).injection_attempts),
                    fail_next_pointer_injection: false,
                    ..*old(self)
                })
            } else {
                &&& done is Ok
                &&& final(self).injected@ == old(self).injected@.push(event)
                &&& *final(self) == (VirtualPlatformPort {
                    injection_attempts: counted(old(self).injection_attempts),
                    injected: final(self).injected,
                    ..*old(self)
                })
            },
    {
        self.injection_attempts = count_up(self.injection_attempts);
        let motion = match event {
            InputEvent::PointerMotion { .. } => true,
            _ => false,
        };
        if motion && self.fail_next_pointer_injection {
            self.fail_next_pointer_injection = false;
            return Err(PlatformPortError::DisplaySnapshotPending);
        }
        self.injected.push(event);
        Ok(())
    }

    pub fn release_injected(&mut self, releases: &Vec<InputEvent>)
        ensures
            final(self).forced_releases@ == old(self).forced_releases@ + releases@,
            *final(self) == (VirtualPlatformPort {
                forced_releases: final(self).forced_releases,
                ..*old(self)
            }),
    {
        let mut at: usize = 0;
        assert(self.forced_releases@ =~= old(self).forced_releases@ + releases@.take(0));
        while at < releases.len()
            invariant
                at <= releases@.len(),
                self.forced_releases@ == old(self).forced_releases@ + releases@.take(at as int),
                *self == (VirtualPlatformPort {
                    forced_releases: self.forced_releases,
                    ..*old(self)
                }),
            decreases releases@.len() - at,
        {
            self.forced_releases.push(releases[at]);
            assert(self.forced_releases@ =~= old(self).forced_releases@ + releases@.take(at + 1));
            at = at + 1;
        }
        assert(releases@.take(at as int) =~= releases@);
    }

    pub fn restore_local_ownership(&mut self) -> (done: Result<(), PlatformPortError>)
        ensures
            done == if old(self).fail_restore_local_ownership {
                Err::<(), _>(PlatformPortError::Native)
            } else {
                Ok(())
            },
            *final(self) == (VirtualPlatformPort {
                routing_to_peer: false,
                restore_count: counted(old(self).restore_count),
                ..*old(self)
            }),
    {
        self.routing_to_peer = false;
        self.restore_count = count_up(self.restore_count);
        if self.fail_restore_local_ownership {
            Err(PlatformPortError::Native)
        } else {
            Ok(())
        }
    }
}

/// A count goes up by one, and stops at the greatest.
pub proof fn law_counts_go_up_by_one(count: usize)
    ensures
        count < usize::MAX ==> counted(count) == count + 1,
        count == usize::MAX ==> counted(count) == usize::MAX,
{
}

/// A change is to be looked at while the displays move, while a snapshot is
/// missing, and until the latest revision was seen.
pub proof fn law_changes_are_seen_until_looked_at(port: VirtualPlatformPort)
    ensures
        port.change_seen() <==> !(!port.display_change_pending && !port.display_snapshot_pending
            && port.display_revision == port.observed_display_revision),
{
}

/// Input is injected behind what was injected before, unless the next motion is
/// to fail; then only that one does.
pub proof fn law_injected_input_is_kept(
    port: &mut VirtualPlatformPort,
    event: InputEvent,
    done: Result<(), PlatformPortError>,
)
    requires
        call_ensures(VirtualPlatformPort::inject, (port, event), done),
    ensures
        done is Err <==> event is PointerMotion && old(port).fail_next_pointer_injection,
        done is Err ==> final(port).injected@ == old(port).injected@
            && !final(port).fail_next_pointer_injection,
        done is Ok ==> final(port).injected@.len() == old(port).injected@.len() + 1
            && final(port).injected@.last() == event,
        done matches Err(error) ==> error is DisplaySnapshotPending,
{
}

/// A snapshot shows the displays as they are and settles the change.
pub proof fn law_snapshots_settle_changes(
    port: &mut VirtualPlatformPort,
    snapshot: Result<Vec<NativeDisplaySnapshot>, PlatformPortError>,
)
    requires
        call_ensures(VirtualPlatformPort::display_snapshot, (port,), snapshot),
    ensures
        snapshot is Err <==> old(port).display_snapshot_pending,
        snapshot matches Ok(seen) ==> seen@ == old(port).displays@ && !final(port).change_seen(),
        snapshot matches Err(error) ==> error is DisplaySnapshotPending,
        final(port).displays == old(port).displays,
{
}

/// Ownership that is restored ends the routing to the peer, even where it says
/// that it failed.
pub proof fn law_restoring_ends_routing(
    port: &mut VirtualPlatformPort,
    done: Result<(), PlatformPortError>,
)
    requires
        call_ensures(VirtualPlatformPort::restore_local_ownership, (port,), done),
    ensures
        !final(port).routing_to_peer,
        done is Err <==> old(port).fail_restore_local_ownership,
        final(port).injected == old(port).injected,
{
}

} // verus!
