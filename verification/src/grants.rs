//! Capabilities, grants, and the data that every authenticated message carries.

use vstd::prelude::*;
use crate::identifiers::{DeviceId, SessionId};

verus! {

/// A set of the capabilities that one device grants to another.
#[derive(Clone, Copy, Debug, PartialEq, Eq, Structural)]
pub struct Capability {
    pub remote_input: bool,
    pub clipboard_read: bool,
    pub clipboard_write: bool,
    pub file_transfer: bool,
}

impl Capability {
    /// Control of the other device's keyboard and pointer.
    #[verifier::allow_in_spec]
    pub fn remote_input_only() -> Capability
        returns
            (Capability {
                remote_input: true,
                clipboard_read: false,
                clipboard_write: false,
                file_transfer: false,
            }),
    {
        Capability {
            remote_input: true,
            clipboard_read: false,
            clipboard_write: false,
            file_transfer: false,
        }
    }

    /// Reading of the clipboard.
    #[verifier::allow_in_spec]
    pub fn clipboard_read_only() -> Capability
        returns
            (Capability {
                remote_input: false,
                clipboard_read: true,
                clipboard_write: false,
                file_transfer: false,
            }),
    {
        Capability {
            remote_input: false,
            clipboard_read: true,
            clipboard_write: false,
            file_transfer: false,
        }
    }

    /// Writing of the clipboard.
    #[verifier::allow_in_spec]
    pub fn clipboard_write_only() -> Capability
        returns
            (Capability {
                remote_input: false,
                clipboard_read: false,
                clipboard_write: true,
                file_transfer: false,
            }),
    {
        Capability {
            remote_input: false,
            clipboard_read: false,
            clipboard_write: true,
            file_transfer: false,
        }
    }

    /// Sending of files.
    #[verifier::allow_in_spec]
    pub fn file_transfer_only() -> Capability
        returns
            (Capability {
                remote_input: false,
                clipboard_read: false,
                clipboard_write: false,
                file_transfer: true,
            }),
    {
        Capability {
            remote_input: false,
            clipboard_read: false,
            clipboard_write: false,
            file_transfer: true,
        }
    }

    /// Every capability of `part` is one of `self`.
    pub open spec fn holds(self, part: Capability) -> bool {
        &&& part.remote_input ==> self.remote_input
        &&& part.clipboard_read ==> self.clipboard_read
        &&& part.clipboard_write ==> self.clipboard_write
        &&& part.file_transfer ==> self.file_transfer
    }

    pub open spec fn none(self) -> bool {
        !self.remote_input && !self.clipboard_read && !self.clipboard_write && !self.file_transfer
    }

    /// `self` with the capabilities of `part` switched on or off.
    pub open spec fn with(self, part: Capability, enabled: bool) -> Capability {
        Capability {
            remote_input: if part.remote_input { enabled } else { self.remote_input },
            clipboard_read: if part.clipboard_read { enabled } else { self.clipboard_read },
            clipboard_write: if part.clipboard_write { enabled } else { self.clipboard_write },
            file_transfer: if part.file_transfer { enabled } else { self.file_transfer },
        }
    }

    /// Exactly one capability.
    pub open spec fn single(self) -> bool {
        self == Capability::remote_input_only() || self == Capability::clipboard_read_only() || self == Capability::clipboard_write_only() || self
            == Capability::file_transfer_only()
    }

    pub fn empty() -> (capability: Capability)
        ensures
            capability.none(),
    {
        Capability {
            remote_input: false,
            clipboard_read: false,
            clipboard_write: false,
            file_transfer: false,
        }
    }

    pub fn is_empty(&self) -> (empty: bool)
        ensures
            empty == self.none(),
    {
        !self.remote_input && !self.clipboard_read && !self.clipboard_write && !self.file_transfer
    }

    pub fn contains(&self, part: Capability) -> (contained: bool)
        ensures
            contained == self.holds(part),
    {
        (!part.remote_input || self.remote_input) && (!part.clipboard_read || self.clipboard_read)
            && (!part.clipboard_write || self.clipboard_write) && (!part.file_transfer
            || self.file_transfer)
    }

    pub fn set(&mut self, part: Capability, enabled: bool)
        ensures
            *final(self) == old(self).with(part, enabled),
    {
        if part.remote_input {
            self.remote_input = enabled;
        }
        if part.clipboard_read {
            self.clipboard_read = enabled;
        }
        if part.clipboard_write {
            self.clipboard_write = enabled;
        }
        if part.file_transfer {
            self.file_transfer = enabled;
        }
    }
}

/// Whether exactly one capability is meant.
pub fn is_single_capability(capability: Capability) -> (single: bool)
    ensures
        single == capability.single(),
{
    capability == Capability::remote_input_only() || capability == Capability::clipboard_read_only() || capability == Capability::clipboard_write_only()
        || capability == Capability::file_transfer_only()
}

/// Whether `next` follows `current` without a gap. The last epoch has no successor.
pub fn is_next_epoch(current: u64, next: u64) -> (follows: bool)
    ensures
        follows == (next == current + 1),
{
    match current.checked_add(1) {
        Some(expected) => next == expected,
        None => false,
    }
}

/// Who sent an authenticated message, in which session, where in its sequence,
/// and under which grant.
#[derive(Clone, Copy, Debug, PartialEq, Eq, Structural)]
pub struct EventMeta {
    pub session_id: SessionId,
    pub origin: DeviceId,
    pub sequence: u64,
    pub grant_epoch: u64,
    pub capability: Capability,
}

/// The sequence number after `value`: zero is never one.
pub open spec fn sequence_after(value: u64) -> u64 {
    if value == u64::MAX {
        1
    } else {
        (value + 1) as u64
    }
}

/// Takes the next sequence number.
pub fn next_sequence(value: &mut u64) -> (sequence: u64)
    ensures
        sequence == sequence_after(*old(value)),
        *final(value) == sequence,
        sequence != 0,
{
    if *value == u64::MAX {
        *value = 1;
    } else {
        *value = *value + 1;
    }
    *value
}

/// One set holds another exactly if each capability of that one is its own.
pub proof fn law_sets_hold_their_parts(all: Capability, part: Capability)
    ensures
        all.holds(part) <==> !(part.remote_input && !all.remote_input) && !(part.clipboard_read
            && !all.clipboard_read) && !(part.clipboard_write && !all.clipboard_write) && !(
        part.file_transfer && !all.file_transfer),
        all.holds(all),
        part.none() ==> all.holds(part),
        part.none() <==> part == (Capability {
            remote_input: false,
            clipboard_read: false,
            clipboard_write: false,
            file_transfer: false,
        }),
{
}

/// Switching capabilities on or off sets exactly those that are named: then all
/// or none of them are held, and the others are as they were.
pub proof fn law_switching_touches_only_what_is_named(
    before: Capability,
    part: Capability,
    enabled: bool,
)
    ensures
        ({
            let after = before.with(part, enabled);
            &&& part.remote_input ==> after.remote_input == enabled
            &&& part.clipboard_read ==> after.clipboard_read == enabled
            &&& part.clipboard_write ==> after.clipboard_write == enabled
            &&& part.file_transfer ==> after.file_transfer == enabled
            &&& !part.remote_input ==> after.remote_input == before.remote_input
            &&& !part.clipboard_read ==> after.clipboard_read == before.clipboard_read
            &&& !part.clipboard_write ==> after.clipboard_write == before.clipboard_write
            &&& !part.file_transfer ==> after.file_transfer == before.file_transfer
        }),
{
}

/// A set is single exactly if it holds one of the four capabilities and no other.
pub proof fn law_single_sets_hold_one_capability(capability: Capability)
    ensures
        capability.single() <==> (if capability.remote_input {
            1int
        } else {
            0
        }) + (if capability.clipboard_read {
            1int
        } else {
            0
        }) + (if capability.clipboard_write {
            1int
        } else {
            0
        }) + (if capability.file_transfer {
            1int
        } else {
            0
        }) == 1,
        Capability::remote_input_only().remote_input && Capability::remote_input_only().single(),
        Capability::clipboard_read_only().clipboard_read
            && Capability::clipboard_read_only().single(),
        Capability::clipboard_write_only().clipboard_write
            && Capability::clipboard_write_only().single(),
        Capability::file_transfer_only().file_transfer && Capability::file_transfer_only().single(),
{
}

/// Sequence numbers rise by one. After the last one they start again, but never
/// at zero.
pub proof fn law_sequence_numbers_rise_by_one(value: u64)
    ensures
        value < u64::MAX ==> sequence_after(value) == value + 1,
        value == u64::MAX ==> sequence_after(value) == 1,
        sequence_after(value) != 0,
{
}

/// An epoch is followed by one epoch only, and the last by none.
pub proof fn law_epochs_follow_one_by_one(current: u64, next: u64, other: u64, a: bool, b: bool)
    requires
        call_ensures(is_next_epoch, (current, next), a),
        call_ensures(is_next_epoch, (current, other), b),
    ensures
        a && b ==> next == other,
        a ==> next > current && next - current == 1,
        !a && next > current ==> next - current > 1,
        current == u64::MAX ==> !a,
{
}

} // verus!
