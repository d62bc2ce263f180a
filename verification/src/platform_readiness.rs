//! What the local platform is ready for, as the user interface shows it.

use vstd::prelude::*;

verus! {

#[derive(Clone, Copy, Debug, PartialEq, Eq, Structural)]
pub enum AccessibilityReadiness {
    Granted,
    ActionRequired,
    NotApplicable,
    Unavailable,
}

#[derive(Clone, Copy, Debug, PartialEq, Eq, Structural)]
pub enum InputReadiness {
    Ready,
    BlockedByPermission,
    BlockedByDesktop,
    Unavailable,
}

#[derive(Clone, Copy, Debug, PartialEq, Eq, Structural)]
pub enum LocalTopologyReadiness {
    Available,
    Unavailable,
}

#[derive(Clone, Copy, Debug, PartialEq, Eq, Structural)]
pub enum SessionTopologyReadiness {
    NotConnected,
    Synchronizing,
    Ready,
}

#[derive(Clone, Copy, Debug, PartialEq, Eq, Structural)]
pub struct ReadinessSnapshot {
    pub accessibility: AccessibilityReadiness,
    pub input: InputReadiness,
    pub local_topology: LocalTopologyReadiness,
    pub session_topology: SessionTopologyReadiness,
}

#[derive(Clone, Copy, Debug, PartialEq, Eq, Structural)]
pub struct LocalPlatformReadiness {
    pub accessibility: AccessibilityReadiness,
    pub input: InputReadiness,
    pub local_topology: LocalTopologyReadiness,
}

#[derive(Clone, Copy, Debug, PartialEq, Eq, Structural)]
pub enum ReadinessRequestError {
    /// Permission cannot be asked for on this platform.
    UnsupportedPlatform,
    /// The probe did not complete in time.
    ProbeUnavailable,
}

impl LocalPlatformReadiness {
    /// Nothing is known to work.
    #[verifier::allow_in_spec]
    pub fn unavailable() -> (readiness: LocalPlatformReadiness)
        returns
            (LocalPlatformReadiness {
                accessibility: AccessibilityReadiness::Unavailable,
                input: InputReadiness::Unavailable,
                local_topology: LocalTopologyReadiness::Unavailable,
            }),
    {
        LocalPlatformReadiness {
            accessibility: AccessibilityReadiness::Unavailable,
            input: InputReadiness::Unavailable,
            local_topology: LocalTopologyReadiness::Unavailable,
        }
    }

    /// The local readiness beside that of the session.
    #[verifier::allow_in_spec]
    pub fn snapshot(self, session_topology: SessionTopologyReadiness) -> (snapshot:
        ReadinessSnapshot)
        returns
            (ReadinessSnapshot {
                accessibility: self.accessibility,
                input: self.input,
                local_topology: self.local_topology,
                session_topology,
            }),
    {
        ReadinessSnapshot {
            accessibility: self.accessibility,
            input: self.input,
            local_topology: self.local_topology,
            session_topology,
        }
    }
}

/// A probe that did not complete tells nothing.
pub fn probe_or_unavailable(probe: Option<LocalPlatformReadiness>) -> (readiness:
    LocalPlatformReadiness)
    ensures
        readiness == match probe {
            Some(known) => known,
            None => LocalPlatformReadiness::unavailable(),
        },
{
    match probe {
        Some(known) => known,
        None => LocalPlatformReadiness::unavailable(),
    }
}

#[verifier::allow_in_spec]
pub fn local_readiness(
    accessibility: AccessibilityReadiness,
    input: InputReadiness,
    local_topology_available: bool,
) -> (readiness: LocalPlatformReadiness)
    returns
        (LocalPlatformReadiness {
            accessibility,
            input,
            local_topology: if local_topology_available {
                LocalTopologyReadiness::Available
            } else {
                LocalTopologyReadiness::Unavailable
            },
        }),
{
    LocalPlatformReadiness {
        accessibility,
        input,
        local_topology: if local_topology_available {
            LocalTopologyReadiness::Available
        } else {
            LocalTopologyReadiness::Unavailable
        },
    }
}

/// Where input needs a permission that the user gives, nothing works without it.
pub fn mac_local_readiness(
    accessibility_trusted: bool,
    input_prerequisites_available: bool,
    local_topology_available: bool,
) -> (readiness: LocalPlatformReadiness)
    ensures
        readiness == local_readiness(
            if accessibility_trusted {
                AccessibilityReadiness::Granted
            } else {
                AccessibilityReadiness::ActionRequired
            },
            if !accessibility_trusted {
                InputReadiness::BlockedByPermission
            } else if input_prerequisites_available {
                InputReadiness::Ready
            } else {
                InputReadiness::Unavailable
            },
            local_topology_available,
        ),
{
    local_readiness(
        if accessibility_trusted {
            AccessibilityReadiness::Granted
        } else {
            AccessibilityReadiness::ActionRequired
        },
        if !accessibility_trusted {
            InputReadiness::BlockedByPermission
        } else if input_prerequisites_available {
            InputReadiness::Ready
        } else {
            InputReadiness::Unavailable
        },
        local_topology_available,
    )
}

pub fn windows_local_readiness(input: InputReadiness, local_topology_available: bool) -> (readiness:
    LocalPlatformReadiness)
    ensures
        readiness == local_readiness(
            AccessibilityReadiness::NotApplicable,
            input,
            local_topology_available,
        ),
{
    local_readiness(AccessibilityReadiness::NotApplicable, input, local_topology_available)
}

/// What is known of the platform is shown beside the session as it is; the local
/// displays are available exactly if they were found.
pub proof fn law_readiness_is_shown_as_found(
    accessibility: AccessibilityReadiness,
    input: InputReadiness,
    found: bool,
    session: SessionTopologyReadiness,
)
    ensures
        ({
            let local = local_readiness(accessibility, input, found);
            let shown = local.snapshot(session);
            &&& local.accessibility == accessibility
            &&& local.input == input
            &&& local.local_topology is Available <==> found
            &&& shown.accessibility == accessibility
            &&& shown.input == input
            &&& shown.local_topology == local.local_topology
            &&& shown.session_topology == session
        }),
        LocalPlatformReadiness::unavailable().accessibility is Unavailable,
        LocalPlatformReadiness::unavailable().input is Unavailable,
        LocalPlatformReadiness::unavailable().local_topology is Unavailable,
{
}

/// On a Mac input is blocked exactly while permission is missing, and ready
/// only with it; elsewhere permission does not apply.
pub proof fn law_input_needs_permission(
    trusted: bool,
    available: bool,
    topology: bool,
    mac: LocalPlatformReadiness,
    input: InputReadiness,
    windows: LocalPlatformReadiness,
)
    requires
        call_ensures(mac_local_readiness, (trusted, available, topology), mac),
        call_ensures(windows_local_readiness, (input, topology), windows),
    ensures
        mac.accessibility is Granted <==> trusted,
        mac.accessibility is ActionRequired <==> !trusted,
        mac.input is BlockedByPermission <==> !trusted,
        mac.input is Ready <==> trusted && available,
        mac.input is Unavailable <==> trusted && !available,
        mac.local_topology is Available <==> topology,
        windows.accessibility is NotApplicable,
        windows.input == input,
        windows.local_topology is Available <==> topology,
{
}

/// A probe that did not answer leaves nothing known to work.
pub proof fn law_silent_probes_promise_nothing(
    probe: Option<LocalPlatformReadiness>,
    readiness: LocalPlatformReadiness,
)
    requires
        call_ensures(probe_or_unavailable, (probe,), readiness),
    ensures
        probe matches Some(known) ==> readiness == known,
        probe is None ==> readiness.accessibility is Unavailable && readiness.input is Unavailable
            && readiness.local_topology is Unavailable,
{
}

} // verus!
