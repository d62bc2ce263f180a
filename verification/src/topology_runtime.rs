//! Session-local display topology and per-peer placement policy.
//!
//! Routes are armed only when the peer granted input, the local displays are
//! published and acknowledged (or need not be), and no remote topology waits for
//! its commit. Every change on the way there disarms them first.

use vstd::prelude::*;
use vstd::string::*;
use crate::displays::{
    descriptors, maps_native, session_of, topology_view, DisplayMapModel, DisplayTopology,
    LocalDisplayMap, LocalTopologyCandidate, NativeDisplaySnapshot, TopologyModel,
    TopologyRuntimeError,
};
use crate::input::{collapse_axis, expand_axis, InputEvent, NormalizedPosition};
use crate::routes::{
    are_exterior_routes, derive_exterior_routes, DisplayEdge, EdgeRoute, PeerPlacement,
};
use crate::session_core::FocusState;
use crate::text::text_chars;

verus! {

pub const DEFAULT_ACTIVATION_BAND_MILLI: u32 = 8000;

pub const DEFAULT_HYSTERESIS_MILLI: u32 = 12000;

pub const DEFAULT_ENTRY_INSET_MILLI: u32 = 4000;

pub const DEFAULT_DEBOUNCE_MS: u32 = 80;

pub const DEFAULT_COOLDOWN_MS: u32 = 300;

/// How the pointer has to approach an edge.
#[derive(Clone, Copy, Debug, PartialEq, Eq, Structural)]
pub struct EdgeSettings {
    pub activation_band_milli: u32,
    pub hysteresis_milli: u32,
    pub entry_inset_milli: u32,
    pub debounce_ms: u32,
    pub cooldown_ms: u32,
}

/// Texts that the environment sets for the edge settings, where it sets any.
pub struct EdgeEnvironment<'a> {
    pub activation_band_milli: Option<&'a str>,
    pub hysteresis_milli: Option<&'a str>,
    pub entry_inset_milli: Option<&'a str>,
    pub debounce_ms: Option<&'a str>,
    pub cooldown_ms: Option<&'a str>,
}

/// A place of the pointer on a local display, each axis in thirty-two bits.
#[derive(Clone, Copy, Debug, PartialEq, Eq, Structural)]
pub struct PointerSample {
    pub display: u32,
    pub x: u32,
    pub y: u32,
    pub observed_at: u64,
}

/// A place of the pointer on a remote display.
#[derive(Clone, Copy, Debug, PartialEq, Eq, Structural)]
pub struct TargetPointerPosition {
    pub display: u32,
    pub x: u32,
    pub y: u32,
}

/// What the edge observer decided on a sample.
#[derive(Clone, Copy, Debug, PartialEq, Eq, Structural)]
pub struct EdgeDecision {
    pub route: EdgeRoute,
    pub target: TargetPointerPosition,
}

#[derive(Clone, Copy, Debug, PartialEq, Eq, Structural)]
pub enum LocalPointerAction {
    /// Keep the event local; no route is armed.
    Local,
    /// Ask for a lease, then seed the target after the authenticated grant.
    RequestFocus,
    /// A lease request is in flight, so the physical sample is not sent.
    Suppressed,
}

/// What a local pointer motion leads to.
#[derive(Clone, Copy, Debug, PartialEq, Eq)]
pub enum PointerStep {
    Settled(LocalPointerAction),
    /// The edge observer has to see the sample; its decision goes to
    /// `edge_observed`.
    Observe(PointerSample),
}

/// What asking for focus by hand leads to.
#[derive(Clone, Copy, Debug, PartialEq, Eq)]
pub enum ManualFocus {
    /// Keyboard, buttons and scroll are routed; the remote pointer stays.
    WithoutPointer,
    /// The sample has to be carried across the route; the result goes to
    /// `seed_manual_focus`.
    Carry { sample: PointerSample, route: EdgeRoute },
}

/// Routes that the edge observer has yet to accept.
pub struct RouteProposal {
    routes: Vec<EdgeRoute>,
}

impl View for RouteProposal {
    type V = Seq<EdgeRoute>;

    closed spec fn view(&self) -> Seq<EdgeRoute> {
        self.routes@
    }
}

impl RouteProposal {
    /// The proposed routes.
    pub fn routes(&self) -> (routes: &Vec<EdgeRoute>)
        ensures
            routes@ == self@,
    {
        &self.routes
    }
}

/// Value of a string of decimal digits.
pub open spec fn decimal(digits: Seq<char>) -> nat
    decreases digits.len(),
{
    if digits.len() == 0 {
        0
    } else {
        (decimal(digits.drop_last()) * 10 + (digits.last() as u32 - 48)) as nat
    }
}

/// Digits behind an optional plus sign.
pub open spec fn unsigned_digits(text: Seq<char>) -> Seq<char> {
    if text.len() > 0 && text[0] == '+' {
        text.skip(1)
    } else {
        text
    }
}

/// The number that a setting stands for, if it is one.
pub open spec fn setting_value(text: Seq<char>) -> Option<u32> {
    let digits = unsigned_digits(text);
    if digits.len() == 0 || (exists|i: int|
        0 <= i < digits.len() && !('0' <= #[trigger] digits[i] <= '9')) || decimal(digits)
        > u32::MAX {
        None
    } else {
        Some(decimal(digits) as u32)
    }
}

proof fn lemma_decimal_grows(digits: Seq<char>, n: int)
    requires
        0 <= n <= digits.len(),
        forall|i: int| 0 <= i < digits.len() ==> '0' <= #[trigger] digits[i] <= '9',
    ensures
        decimal(digits.take(n)) <= decimal(digits),
    decreases digits.len() - n,
{
    if n < digits.len() {
        lemma_decimal_grows(digits, n + 1);
        assert(digits.take(n + 1).drop_last() =~= digits.take(n));
        assert(digits.take(n + 1).last() == digits[n]);
    } else {
        assert(digits.take(n) =~= digits);
    }
}

/// Reads a setting of the environment.
pub fn env_u32(value: Option<&str>, default: u32) -> (setting: Result<u32, TopologyRuntimeError>)
    ensures
        setting == match value {
            None => Ok(default),
            Some(text) => match setting_value(text@) {
                Some(number) => Ok(number),
                None => Err(TopologyRuntimeError::InvalidEdgeConfiguration),
            },
        },
{
    let text = match value {
        Some(text) => text,
        None => {
            return Ok(default);
        },
    };
    let chars = text_chars(text);
    let total: usize = chars.len();
    let start: usize = if total > 0 && chars[0] == '+' {
        1
    } else {
        0
    };
    let ghost digits = unsigned_digits(text@);
    assert(digits =~= text@.skip(start as int));
    if start == total {
        return Err(TopologyRuntimeError::InvalidEdgeConfiguration);
    }
    let mut at: usize = start;
    while at < total
        invariant
            start <= at <= total,
            total == chars@.len(),
            chars@ == text@,
            value == Some(text),
            digits == text@.skip(start as int),
            digits == unsigned_digits(text@),
            forall|i: int| 0 <= i < at - start ==> '0' <= #[trigger] digits[i] <= '9',
        decreases total - at,
    {
        let c: char = chars[at];
        assert(digits[at - start] == c);
        if !('0' <= c && c <= '9') {
            return Err(TopologyRuntimeError::InvalidEdgeConfiguration);
        }
        at = at + 1;
    }
    let mut number: u32 = 0;
    let mut next: usize = start;
    assert(digits.take(0) =~= Seq::<char>::empty());
    while next < total
        invariant
            start <= next <= total,
            total == chars@.len(),
            chars@ == text@,
            value == Some(text),
            digits == text@.skip(start as int),
            digits == unsigned_digits(text@),
            forall|i: int| 0 <= i < digits.len() ==> '0' <= #[trigger] digits[i] <= '9',
            number == decimal(digits.take(next - start)),
        decreases total - next,
    {
        let c: char = chars[next];
        proof {
            assert(digits[next - start] == c);
            let longer = digits.take(next - start + 1);
            assert(longer.drop_last() =~= digits.take(next - start));
            assert(longer.last() == c);
            lemma_decimal_grows(digits, next - start + 1);
        }
        let digit: u64 = c as u64 - 48;
        let larger: u64 = number as u64 * 10 + digit;
        if larger > u32::MAX as u64 {
            return Err(TopologyRuntimeError::InvalidEdgeConfiguration);
        }
        number = larger as u32;
        next = next + 1;
    }
    assert(digits.take(next - start) =~= digits);
    Ok(number)
}

/// The edge settings of an environment; each unset one has its default.
pub fn edge_settings(environment: &EdgeEnvironment<'_>) -> (settings: Result<
    EdgeSettings,
    TopologyRuntimeError,
>)
    ensures
        ({
            let read = |value: Option<&str>, default: u32|
                match value {
                    None => Some(default),
                    Some(text) => setting_value(text@),
                };
            let activation = read(
                environment.activation_band_milli,
                DEFAULT_ACTIVATION_BAND_MILLI,
            );
            let hysteresis = read(environment.hysteresis_milli, DEFAULT_HYSTERESIS_MILLI);
            let inset = read(environment.entry_inset_milli, DEFAULT_ENTRY_INSET_MILLI);
            let debounce = read(environment.debounce_ms, DEFAULT_DEBOUNCE_MS);
            let cooldown = read(environment.cooldown_ms, DEFAULT_COOLDOWN_MS);
            match settings {
                Ok(known) => {
                    &&& activation == Some(known.activation_band_milli)
                    &&& hysteresis == Some(known.hysteresis_milli)
                    &&& inset == Some(known.entry_inset_milli)
                    &&& debounce == Some(known.debounce_ms)
                    &&& cooldown == Some(known.cooldown_ms)
                },
                Err(error) => {
                    &&& error == TopologyRuntimeError::InvalidEdgeConfiguration
                    &&& activation is None || hysteresis is None || inset is None || debounce is None
                        || cooldown is None
                },
            }
        }),
{
    let activation_band_milli: u32 = env_u32(
        environment.activation_band_milli,
        DEFAULT_ACTIVATION_BAND_MILLI,
    )?;
    let hysteresis_milli: u32 = env_u32(environment.hysteresis_milli, DEFAULT_HYSTERESIS_MILLI)?;
    let entry_inset_milli: u32 = env_u32(
        environment.entry_inset_milli,
        DEFAULT_ENTRY_INSET_MILLI,
    )?;
    let debounce_ms: u32 = env_u32(environment.debounce_ms, DEFAULT_DEBOUNCE_MS)?;
    let cooldown_ms: u32 = env_u32(environment.cooldown_ms, DEFAULT_COOLDOWN_MS)?;
    Ok(
        EdgeSettings {
            activation_band_milli,
            hysteresis_milli,
            entry_inset_milli,
            debounce_ms,
            cooldown_ms,
        },
    )
}

/// The middle of the edge that a route leaves by.
pub open spec fn boundary_center(route: EdgeRoute, observed_at: u64) -> PointerSample {
    let middle: u32 = u32::MAX / 2;
    let (x, y): (u32, u32) = match route.source_edge {
        DisplayEdge::Left => (0u32, middle),
        DisplayEdge::Right => (u32::MAX, middle),
        DisplayEdge::Top => (middle, 0u32),
        DisplayEdge::Bottom => (middle, u32::MAX),
    };
    PointerSample { display: route.source_display, x, y, observed_at }
}

fn boundary_center_sample(route: EdgeRoute, observed_at: u64) -> (sample: PointerSample)
    ensures
        sample == boundary_center(route, observed_at),
{
    let middle: u32 = u32::MAX / 2;
    let (x, y): (u32, u32) = match route.source_edge {
        DisplayEdge::Left => (0u32, middle),
        DisplayEdge::Right => (u32::MAX, middle),
        DisplayEdge::Top => (middle, 0u32),
        DisplayEdge::Bottom => (middle, u32::MAX),
    };
    PointerSample { display: route.source_display, x, y, observed_at }
}

/// The pointer motion that puts the remote pointer onto its target.
pub open spec fn target_motion(target: TargetPointerPosition) -> InputEvent {
    InputEvent::PointerMotion {
        position: NormalizedPosition {
            display: target.display as u64,
            x: (target.x / 65537) as u16,
            y: (target.y / 65537) as u16,
        },
    }
}

fn target_event(target: TargetPointerPosition) -> (event: InputEvent)
    ensures
        event == target_motion(target),
{
    InputEvent::PointerMotion {
        position: NormalizedPosition {
            display: target.display as u64,
            x: collapse_axis(target.x),
            y: collapse_axis(target.y),
        },
    }
}

/// What a session knows of the displays on both sides.
pub struct PeerTopologyModel {
    pub local: DisplayMapModel,
    pub staged_remote: Option<TopologyModel>,
    pub remote: Option<TopologyModel>,
    pub published_local_revision: Option<u64>,
    pub ready_local_revision: Option<u64>,
    pub local_transition_pending: bool,
    pub routes: Seq<EdgeRoute>,
    pub placement: PeerPlacement,
    pub peer_input_granted: bool,
    pub active_route: Option<EdgeRoute>,
    pub pending_target: Option<InputEvent>,
}

impl PeerTopologyModel {
    /// What focus by hand leads to: the first armed route is crossed in the
    /// middle of its boundary, and without one the pointer stays. Displays have
    /// to be known on both sides.
    pub open spec fn manual_focus(
        self,
        focus: Result<ManualFocus, TopologyRuntimeError>,
        after: PeerTopologyModel,
    ) -> bool {
        if self.local.revision == 0 || self.remote is None {
            &&& focus == Err::<ManualFocus, _>(TopologyRuntimeError::DisplayMappingUnavailable)
            &&& after == self
        } else {
            match focus {
                Ok(ManualFocus::WithoutPointer) => {
                    &&& forall|i: int|
                        0 <= i < self.routes.len() ==> !(#[trigger] self.routes[i]).enabled
                    &&& after == self.unfocused()
                },
                Ok(ManualFocus::Carry { sample, route }) => {
                    &&& exists|i: int|
                        {
                            &&& 0 <= i < self.routes.len()
                            &&& #[trigger] self.routes[i] == route
                            &&& route.enabled
                            &&& forall|j: int| 0 <= j < i ==> !(#[trigger] self.routes[j]).enabled
                        }
                    &&& sample == boundary_center(route, 0)
                    &&& after == self
                },
                Err(_) => false,
            }
        }
    }

    pub open spec fn unfocused(self) -> PeerTopologyModel {
        PeerTopologyModel { active_route: None, pending_target: None, ..self }
    }

    pub open spec fn disarmed(self) -> PeerTopologyModel {
        PeerTopologyModel { routes: Seq::empty(), ..self.unfocused() }
    }

    pub open spec fn in_transition(self) -> PeerTopologyModel {
        PeerTopologyModel { local_transition_pending: true, ..self.disarmed() }
    }

    /// The local displays are known, settled, and acknowledged if published.
    pub open spec fn local_ready(self) -> bool {
        &&& !self.local_transition_pending
        &&& self.local.revision > 0
        &&& (self.published_local_revision matches Some(published) ==> self.ready_local_revision
            == Some(published))
    }

    /// What a local pointer motion leads to. Only while focus is local can it
    /// cross to the peer.
    pub open spec fn pointer_step(
        self,
        position: NormalizedPosition,
        focus: FocusState,
        now: u64,
    ) -> Result<PointerStep, TopologyRuntimeError> {
        let settled = if focus is RequestingRemote || focus is ControllingRemote {
            LocalPointerAction::Suppressed
        } else {
            LocalPointerAction::Local
        };
        if self.routes.len() == 0 {
            Ok(PointerStep::Settled(settled))
        } else if !maps_native(self.local.placed, position.display) || self.local.revision == 0
            || self.remote is None {
            Err(TopologyRuntimeError::DisplayMappingUnavailable)
        } else if focus is Local {
            Ok(
                PointerStep::Observe(
                    PointerSample {
                        display: session_of(self.local.placed, position.display),
                        x: (position.x * 65537) as u32,
                        y: (position.y * 65537) as u32,
                        observed_at: now,
                    },
                ),
            )
        } else {
            Ok(PointerStep::Settled(settled))
        }
    }

    /// `routes` are what may be armed in this state.
    pub open spec fn warrants(self, routes: Seq<EdgeRoute>) -> bool {
        if self.peer_input_granted && self.local_ready() && self.staged_remote is None
            && self.remote is Some {
            are_exterior_routes(
                self.placement,
                descriptors(self.local.placed),
                self.remote->Some_0.displays,
                routes,
            )
        } else {
            routes.len() == 0
        }
    }
}

/// Displays, placement and routes of one peer session.
pub struct PeerTopologyState {
    local: LocalDisplayMap,
    staged_remote: Option<DisplayTopology>,
    remote: Option<DisplayTopology>,
    published_local_revision: Option<u64>,
    ready_local_revision: Option<u64>,
    local_transition_pending: bool,
    routes: Vec<EdgeRoute>,
    placement: PeerPlacement,
    peer_input_granted: bool,
    max_displays: usize,
    settings: EdgeSettings,
    active_route: Option<EdgeRoute>,
    pending_target: Option<InputEvent>,
}

impl View for PeerTopologyState {
    type V = PeerTopologyModel;

    closed spec fn view(&self) -> PeerTopologyModel {
        PeerTopologyModel {
            local: self.local@,
            staged_remote: topology_view(self.staged_remote),
            remote: topology_view(self.remote),
            published_local_revision: self.published_local_revision,
            ready_local_revision: self.ready_local_revision,
            local_transition_pending: self.local_transition_pending,
            routes: self.routes@,
            placement: self.placement,
            peer_input_granted: self.peer_input_granted,
            active_route: self.active_route,
            pending_target: self.pending_target,
        }
    }
}

impl PeerTopologyState {
    /// The edge settings that the session was made with.
    pub closed spec fn edge(&self) -> EdgeSettings {
        self.settings
    }

    /// How many displays one side may have.
    pub closed spec fn display_limit(&self) -> usize {
        self.max_displays
    }

    /// The settings and the limit are those of `other`.
    pub open spec fn same_limits(&self, other: &PeerTopologyState) -> bool {
        self.edge() == other.edge() && self.display_limit() == other.display_limit()
    }

    /// A session that knows no displays yet. `accepted` says whether the edge
    /// observer takes the settings.
    pub fn from_environment(
        placement: PeerPlacement,
        peer_input_granted: bool,
        max_displays: usize,
        settings: EdgeSettings,
        accepted: bool,
    ) -> (state: Result<PeerTopologyState, TopologyRuntimeError>)
        ensures
            match state {
                Err(error) => !accepted && error == TopologyRuntimeError::InvalidEdgeConfiguration,
                Ok(new) => {
                    &&& accepted
                    &&& new.edge() == settings
                    &&& new.display_limit() == max_displays
                    &&& new@ == (PeerTopologyModel {
                        local: DisplayMapModel {
                            placed: Seq::empty(),
                            next_session_id: 0,
                            revision: 0,
                        },
                        staged_remote: None,
                        remote: None,
                        published_local_revision: None,
                        ready_local_revision: None,
                        local_transition_pending: false,
                        routes: Seq::empty(),
                        placement,
                        peer_input_granted,
                        active_route: None,
                        pending_target: None,
                    })
                },
            },
    {
        if !accepted {
            return Err(TopologyRuntimeError::InvalidEdgeConfiguration);
        }
        Ok(
            PeerTopologyState {
                local: LocalDisplayMap::new(),
                staged_remote: None,
                remote: None,
                published_local_revision: None,
                ready_local_revision: None,
                local_transition_pending: false,
                routes: Vec::new(),
                placement,
                peer_input_granted,
                max_displays,
                settings,
                active_route: None,
                pending_target: None,
            },
        )
    }

    fn clear_derived_routes(&mut self)
        ensures
            final(self)@ == old(self)@.disarmed(),
            final(self).same_limits(old(self)),
            final(self).local == old(self).local,
    {
        self.routes = Vec::new();
        self.active_route = None;
        self.pending_target = None;
        assert(self@ == old(self)@.disarmed());
    }

    /// Works out which routes may be armed now, and ends what was under way.
    fn propose_routes(&mut self) -> (proposal: RouteProposal)
        ensures
            final(self)@ == old(self)@.unfocused(),
            final(self).same_limits(old(self)),
            old(self)@.warrants(proposal@),
    {
        self.active_route = None;
        self.pending_target = None;
        if !(self.peer_input_granted && self.local_is_ready() && self.staged_remote.is_none()) {
            return RouteProposal { routes: Vec::new() };
        }
        match (&self.remote, self.local.topology()) {
            (Some(remote), Some(local)) => RouteProposal {
                routes: derive_exterior_routes(self.placement, &local.displays, &remote.displays),
            },
            _ => RouteProposal { routes: Vec::new() },
        }
    }

    /// Arms proposed routes, if the edge observer accepted them.
    pub fn install_routes(&mut self, proposal: RouteProposal, accepted: bool) -> (installed: Result<
        (),
        TopologyRuntimeError,
    >)
        ensures
            final(self).same_limits(old(self)),
            if accepted {
                &&& installed is Ok
                &&& final(self)@ == (PeerTopologyModel { routes: proposal@, ..old(self)@ })
            } else {
                &&& installed == Err::<(), _>(TopologyRuntimeError::InvalidEdgeConfiguration)
                &&& final(self)@ == old(self)@
            },
    {
        if !accepted {
            return Err(TopologyRuntimeError::InvalidEdgeConfiguration);
        }
        self.routes = proposal.routes;
        assert(self@ == (PeerTopologyModel { routes: proposal@, ..old(self)@ }));
        Ok(())
    }

    /// The topology that a snapshot of the local displays would lead to, for the
    /// display vocabulary to admit or refuse; none, if there would be no other.
    pub fn proposed_topology(&self, snapshots: &[NativeDisplaySnapshot]) -> (proposed: Option<
        DisplayTopology,
    >)
        ensures
            self@.local.proposes(snapshots@, self.display_limit(), topology_view(proposed)),
    {
        self.local.proposed_topology(snapshots, self.max_displays)
    }

    /// Works out what a platform snapshot changes. Whatever may change disarms
    /// the routes. `topology_admitted` is the vocabulary's answer on
    /// `proposed_topology`.
    pub fn prepare_local_candidate(
        &mut self,
        snapshots: &[NativeDisplaySnapshot],
        topology_admitted: bool,
    ) -> (candidate: Result<Option<LocalTopologyCandidate>, TopologyRuntimeError>)
        ensures
            final(self).same_limits(old(self)),
            ({
                let m = old(self)@;
                let limit = old(self).display_limit();
                match candidate {
                    Err(error) => {
                        &&& error == TopologyRuntimeError::InvalidNativeSnapshot
                        &&& final(self)@ == m.in_transition()
                        &&& m.local.unusable(snapshots@, limit, topology_admitted)
                    },
                    Ok(None) => {
                        &&& final(self)@ == m
                        &&& m.local.acceptable(snapshots@, limit)
                        &&& m.local.unchanged_by(snapshots@)
                    },
                    Ok(Some(new)) => {
                        &&& final(self)@ == m.in_transition()
                        &&& topology_admitted
                        &&& new.base() == m.local.revision
                        &&& m.local.changed_map(snapshots@, limit, new.outcome())
                    },
                }
            }),
    {
        match self.local.prepare_reconcile(snapshots, self.max_displays, topology_admitted) {
            Ok(Some(candidate)) => {
                self.local_transition_pending = true;
                self.clear_derived_routes();
                assert(self@ == old(self)@.in_transition());
                Ok(Some(candidate))
            },
            Ok(None) => Ok(None),
            Err(error) => {
                self.local_transition_pending = true;
                self.clear_derived_routes();
                assert(self@ == old(self)@.in_transition());
                Err(error)
            },
        }
    }

    /// The local displays are about to change.
    pub fn begin_local_transition(&mut self)
        ensures
            final(self)@ == old(self)@.in_transition(),
            final(self).same_limits(old(self)),
    {
        self.local_transition_pending = true;
        self.clear_derived_routes();
        assert(self@ == old(self)@.in_transition());
    }

    /// The local displays turned out to be the same.
    pub fn finish_unchanged_local_transition(&mut self) -> (proposal: Result<
        RouteProposal,
        TopologyRuntimeError,
    >)
        ensures
            final(self).same_limits(old(self)),
            match proposal {
                Err(error) => {
                    &&& old(self)@.local.revision == 0
                    &&& error == TopologyRuntimeError::DisplayMappingUnavailable
                    &&& final(self)@ == old(self)@
                },
                Ok(routes) => {
                    &&& old(self)@.local.revision > 0
                    &&& final(self)@ == (PeerTopologyModel {
                        local_transition_pending: false,
                        ..old(self)@.unfocused()
                    })
                    &&& final(self)@.warrants(routes@)
                },
            },
    {
        if !self.local.is_known() {
            return Err(TopologyRuntimeError::DisplayMappingUnavailable);
        }
        self.local_transition_pending = false;
        let proposal = self.propose_routes();
        assert(self@ == (PeerTopologyModel {
            local_transition_pending: false,
            ..old(self)@.unfocused()
        }));
        Ok(proposal)
    }

    /// Puts a candidate into effect.
    pub fn commit_local_candidate(&mut self, candidate: LocalTopologyCandidate) -> (topology: Result<
        DisplayTopology,
        TopologyRuntimeError,
    >)
        ensures
            final(self).same_limits(old(self)),
            match topology {
                Err(error) => {
                    &&& error == TopologyRuntimeError::RevisionMismatch
                    &&& final(self)@ == old(self)@
                    &&& old(self)@.local.revision != candidate.base()
                        || candidate.outcome().revision as int != if candidate.base() == u64::MAX {
                        u64::MAX as int
                    } else {
                        candidate.base() + 1
                    }
                },
                Ok(published) => {
                    &&& old(self)@.local.revision == candidate.base()
                    &&& candidate.outcome().revision as int == if candidate.base() == u64::MAX {
                        u64::MAX as int
                    } else {
                        candidate.base() + 1
                    }
                    &&& final(self)@ == (PeerTopologyModel {
                        local: candidate.outcome(),
                        ..old(self)@
                    })
                    &&& published@ == (TopologyModel {
                        revision: candidate.outcome().revision,
                        displays: descriptors(candidate.outcome().placed),
                    })
                },
            },
    {
        let ghost outcome = candidate.outcome();
        let topology = self.local.commit(candidate);
        assert(topology is Ok ==> self@ == (PeerTopologyModel { local: outcome, ..old(self)@ }));
        assert(topology is Err ==> self@ == old(self)@);
        topology
    }

    /// The local displays are in effect and need not be published.
    pub fn mark_unpublished_local_ready(&mut self) -> (proposal: Result<
        RouteProposal,
        TopologyRuntimeError,
    >)
        ensures
            final(self).same_limits(old(self)),
            match proposal {
                Err(error) => {
                    &&& old(self)@.local.revision == 0
                        || old(self)@.published_local_revision is Some
                    &&& error == TopologyRuntimeError::UnexpectedAcknowledgement
                    &&& final(self)@ == old(self)@
                },
                Ok(routes) => {
                    &&& old(self)@.local.revision > 0
                    &&& old(self)@.published_local_revision is None
                    &&& final(self)@ == (PeerTopologyModel {
                        local_transition_pending: false,
                        ..old(self)@.unfocused()
                    })
                    &&& final(self)@.warrants(routes@)
                },
            },
    {
        if !self.local.is_known() || self.published_local_revision.is_some() {
            return Err(TopologyRuntimeError::UnexpectedAcknowledgement);
        }
        self.local_transition_pending = false;
        let proposal = self.propose_routes();
        assert(self@ == (PeerTopologyModel {
            local_transition_pending: false,
            ..old(self)@.unfocused()
        }));
        Ok(proposal)
    }

    /// The peer's right to see the local displays changed.
    pub fn invalidate_local_authorization(&mut self)
        ensures
            final(self).same_limits(old(self)),
            final(self)@ == (PeerTopologyModel {
                published_local_revision: None,
                ready_local_revision: None,
                ..old(self)@.in_transition()
            }),
    {
        self.published_local_revision = None;
        self.ready_local_revision = None;
        self.local_transition_pending = true;
        self.clear_derived_routes();
        assert(self@ == (PeerTopologyModel {
            published_local_revision: None,
            ready_local_revision: None,
            ..old(self)@.in_transition()
        }));
    }

    /// The right to use the peer's displays changed.
    pub fn invalidate_remote_authorization(&mut self)
        ensures
            final(self).same_limits(old(self)),
            final(self)@ == (PeerTopologyModel {
                staged_remote: None,
                remote: None,
                ..old(self)@.disarmed()
            }),
    {
        self.staged_remote = None;
        self.remote = None;
        self.clear_derived_routes();
        assert(self@ == (PeerTopologyModel {
            staged_remote: None,
            remote: None,
            ..old(self)@.disarmed()
        }));
    }

    /// Takes a remote topology in that the session authorized.
    pub fn stage_remote(&mut self, topology: DisplayTopology, authorized_revision: u64) -> (staged:
        Result<(), TopologyRuntimeError>)
        ensures
            final(self).same_limits(old(self)),
            if topology.revision == authorized_revision {
                &&& staged is Ok
                &&& final(self)@ == (PeerTopologyModel {
                    staged_remote: Some(topology@),
                    ..old(self)@.disarmed()
                })
            } else {
                &&& staged == Err::<(), _>(TopologyRuntimeError::RevisionMismatch)
                &&& final(self)@ == old(self)@
            },
    {
        if topology.revision != authorized_revision {
            return Err(TopologyRuntimeError::RevisionMismatch);
        }
        let ghost shown = topology@;
        self.clear_derived_routes();
        self.staged_remote = Some(topology);
        assert(self@ == (PeerTopologyModel {
            staged_remote: Some(shown),
            ..old(self)@.disarmed()
        }));
        Ok(())
    }

    /// Puts the staged remote topology into effect. A revision that does not
    /// match drops it.
    pub fn commit_remote(&mut self, authorized_revision: u64) -> (proposal: Result<
        RouteProposal,
        TopologyRuntimeError,
    >)
        ensures
            final(self).same_limits(old(self)),
            match proposal {
                Err(error) => {
                    &&& error == TopologyRuntimeError::RevisionMismatch
                    &&& !(old(self)@.staged_remote matches Some(staged) && staged.revision
                        == authorized_revision)
                    &&& final(self)@ == (PeerTopologyModel { staged_remote: None, ..old(self)@ })
                },
                Ok(routes) => {
                    &&& old(self)@.staged_remote matches Some(staged) && staged.revision
                        == authorized_revision
                    &&& final(self)@ == (PeerTopologyModel {
                        staged_remote: None,
                        remote: old(self)@.staged_remote,
                        ..old(self)@.unfocused()
                    })
                    &&& final(self)@.warrants(routes@)
                },
            },
    {
        match self.staged_remote.take() {
            None => {
                assert(self@ == (PeerTopologyModel { staged_remote: None, ..old(self)@ }));
                Err(TopologyRuntimeError::RevisionMismatch)
            },
            Some(staged) => {
                if staged.revision != authorized_revision {
                    assert(self@ == (PeerTopologyModel { staged_remote: None, ..old(self)@ }));
                    return Err(TopologyRuntimeError::RevisionMismatch);
                }
                self.remote = Some(staged);
                let proposal = self.propose_routes();
                assert(self@ == (PeerTopologyModel {
                    staged_remote: None,
                    remote: old(self)@.staged_remote,
                    ..old(self)@.unfocused()
                }));
                Ok(proposal)
            },
        }
    }

    /// The user moved the peer to another side.
    pub fn set_peer_placement(&mut self, placement: PeerPlacement) -> (proposal: RouteProposal)
        ensures
            final(self).same_limits(old(self)),
            final(self)@ == (PeerTopologyModel { placement, ..old(self)@.unfocused() }),
            final(self)@.warrants(proposal@),
    {
        self.placement = placement;
        let proposal = self.propose_routes();
        assert(self@ == (PeerTopologyModel { placement, ..old(self)@.unfocused() }));
        proposal
    }

    /// The local displays were sent to the peer, who has to acknowledge them.
    pub fn record_local_publish(&mut self, revision: u64)
        ensures
            final(self).same_limits(old(self)),
            final(self)@ == (PeerTopologyModel {
                published_local_revision: Some(revision),
                ready_local_revision: None,
                ..old(self)@.in_transition()
            }),
    {
        self.published_local_revision = Some(revision);
        self.ready_local_revision = None;
        self.local_transition_pending = true;
        self.clear_derived_routes();
        assert(self@ == (PeerTopologyModel {
            published_local_revision: Some(revision),
            ready_local_revision: None,
            ..old(self)@.in_transition()
        }));
    }

    /// Whether the peer still owes an acknowledgement.
    pub fn local_ack_pending(&self) -> (pending: bool)
        ensures
            pending == (self@.published_local_revision != self@.ready_local_revision),
    {
        self.published_local_revision != self.ready_local_revision
    }

    /// Whether the local displays are settled on both sides.
    pub fn local_is_ready(&self) -> (ready: bool)
        ensures
            ready == self@.local_ready(),
    {
        if self.local_transition_pending || !self.local.is_known() {
            return false;
        }
        match self.published_local_revision {
            Some(published) => self.ready_local_revision == Some(published),
            None => true,
        }
    }

    /// The peer acknowledged a revision.
    pub fn mark_local_ready(&mut self, revision: u64) -> (proposal: Result<
        RouteProposal,
        TopologyRuntimeError,
    >)
        ensures
            final(self).same_limits(old(self)),
            match proposal {
                Err(error) => {
                    &&& old(self)@.published_local_revision != Some(revision)
                    &&& error == TopologyRuntimeError::UnexpectedAcknowledgement
                    &&& final(self)@ == old(self)@
                },
                Ok(routes) => {
                    &&& old(self)@.published_local_revision == Some(revision)
                    &&& final(self)@ == (PeerTopologyModel {
                        ready_local_revision: Some(revision),
                        local_transition_pending: false,
                        ..old(self)@.unfocused()
                    })
                    &&& final(self)@.warrants(routes@)
                },
            },
    {
        if self.published_local_revision != Some(revision) {
            return Err(TopologyRuntimeError::UnexpectedAcknowledgement);
        }
        self.ready_local_revision = Some(revision);
        self.local_transition_pending = false;
        let proposal = self.propose_routes();
        assert(self@ == (PeerTopologyModel {
            ready_local_revision: Some(revision),
            local_transition_pending: false,
            ..old(self)@.unfocused()
        }));
        Ok(proposal)
    }

    /// Prepares focus that the user asks for by hand.
    pub fn prepare_manual_focus(&mut self) -> (focus: Result<ManualFocus, TopologyRuntimeError>)
        ensures
            final(self).same_limits(old(self)),
            old(self)@.manual_focus(focus, final(self)@),
    {
        if !self.local.is_known() || self.remote.is_none() {
            return Err(TopologyRuntimeError::DisplayMappingUnavailable);
        }
        let mut at: usize = 0;
        while at < self.routes.len()
            invariant
                at <= self.routes@.len(),
                self@ == old(self)@,
                self@.local.revision > 0,
                self@.remote is Some,
                self.same_limits(old(self)),
                forall|i: int| 0 <= i < at ==> !(#[trigger] self@.routes[i]).enabled,
            decreases self.routes@.len() - at,
        {
            let route: EdgeRoute = self.routes[at];
            if route.enabled {
                assert(self@.routes[at as int] == route);
                return Ok(
                    ManualFocus::Carry { sample: boundary_center_sample(route, 0), route },
                );
            }
            at = at + 1;
        }
        self.active_route = None;
        self.pending_target = None;
        assert(self@ == old(self)@.unfocused());
        Ok(ManualFocus::WithoutPointer)
    }

    /// Keeps where the pointer comes in, once it was carried across the route.
    pub fn seed_manual_focus(&mut self, route: EdgeRoute, target: Option<TargetPointerPosition>) -> (
        seeded: Result<(), TopologyRuntimeError>)
        ensures
            final(self).same_limits(old(self)),
            match target {
                None => {
                    &&& seeded == Err::<(), _>(TopologyRuntimeError::DisplayMappingUnavailable)
                    &&& final(self)@ == old(self)@
                },
                Some(place) => {
                    &&& seeded is Ok
                    &&& final(self)@ == (PeerTopologyModel {
                        active_route: Some(route),
                        pending_target: Some(target_motion(place)),
                        ..old(self)@
                    })
                },
            },
    {
        match target {
            None => Err(TopologyRuntimeError::DisplayMappingUnavailable),
            Some(place) => {
                self.active_route = Some(route);
                self.pending_target = Some(target_event(place));
                assert(self@ == (PeerTopologyModel {
                    active_route: Some(route),
                    pending_target: Some(target_motion(place)),
                    ..old(self)@
                }));
                Ok(())
            },
        }
    }

    /// What a local pointer motion leads to.
    pub fn local_pointer(&self, position: NormalizedPosition, focus: FocusState, now: u64) -> (step:
        Result<PointerStep, TopologyRuntimeError>)
        ensures
            step == self@.pointer_step(position, focus, now),
    {
        let settled = match focus {
            FocusState::RequestingRemote { .. } | FocusState::ControllingRemote { .. } => {
                LocalPointerAction::Suppressed
            },
            FocusState::Local | FocusState::ControlledByRemote { .. } => LocalPointerAction::Local,
        };
        if self.routes.len() == 0 {
            return Ok(PointerStep::Settled(settled));
        }
        let session: u32 = match self.local.session_id(position.display) {
            Some(session) => session,
            None => {
                return Err(TopologyRuntimeError::DisplayMappingUnavailable);
            },
        };
        if !self.local.is_known() || self.remote.is_none() {
            return Err(TopologyRuntimeError::DisplayMappingUnavailable);
        }
        match focus {
            FocusState::Local => Ok(
                PointerStep::Observe(
                    PointerSample {
                        display: session,
                        x: expand_axis(position.x),
                        y: expand_axis(position.y),
                        observed_at: now,
                    },
                ),
            ),
            _ => Ok(PointerStep::Settled(settled)),
        }
    }

    /// Keeps what the edge observer decided on a sample.
    pub fn edge_observed(&mut self, decision: Option<EdgeDecision>) -> (action: LocalPointerAction)
        ensures
            final(self).same_limits(old(self)),
            match decision {
                None => action == LocalPointerAction::Local && final(self)@ == old(self)@,
                Some(crossing) => {
                    &&& action == LocalPointerAction::RequestFocus
                    &&& final(self)@ == (PeerTopologyModel {
                        active_route: Some(crossing.route),
                        pending_target: Some(target_motion(crossing.target)),
                        ..old(self)@
                    })
                },
            },
    {
        match decision {
            None => LocalPointerAction::Local,
            Some(crossing) => {
                self.active_route = Some(crossing.route);
                self.pending_target = Some(target_event(crossing.target));
                assert(self@ == (PeerTopologyModel {
                    active_route: Some(crossing.route),
                    pending_target: Some(target_motion(crossing.target)),
                    ..old(self)@
                }));
                LocalPointerAction::RequestFocus
            },
        }
    }

    /// Turns the display of an incoming pointer motion from its session
    /// identifier into the native one; other input is left as it is.
    pub fn resolve_incoming(&self, event: InputEvent) -> (resolved: Result<
        InputEvent,
        TopologyRuntimeError,
    >)
        ensures
            match event {
                InputEvent::PointerMotion { position } => match resolved {
                    Ok(motion) => {
                        &&& motion is PointerMotion
                        &&& position.display <= u32::MAX
                        &&& maps_native(self@.local.placed, motion->position.display)
                        &&& session_of(self@.local.placed, motion->position.display)
                            == position.display
                        &&& motion->position.x == position.x
                        &&& motion->position.y == position.y
                    },
                    Err(error) => {
                        &&& error == TopologyRuntimeError::DisplayMappingUnavailable
                        &&& forall|i: int|
                            0 <= i < self@.local.placed.len() ==> (
                            #[trigger] self@.local.placed[i]).descriptor.id != position.display
                    },
                },
                _ => resolved == Ok::<_, TopologyRuntimeError>(event),
            },
    {
        match event {
            InputEvent::PointerMotion { position } => {
                if position.display > u32::MAX as u64 {
                    return Err(TopologyRuntimeError::DisplayMappingUnavailable);
                }
                match self.local.native_id(position.display as u32) {
                    Some(native) => Ok(
                        InputEvent::PointerMotion {
                            position: NormalizedPosition {
                                display: native,
                                x: position.x,
                                y: position.y,
                            },
                        },
                    ),
                    None => Err(TopologyRuntimeError::DisplayMappingUnavailable),
                }
            },
            _ => Ok(event),
        }
    }

    /// Takes the motion that seeds the remote pointer.
    pub fn take_pending_target(&mut self) -> (target: Option<InputEvent>)
        ensures
            final(self).same_limits(old(self)),
            target == old(self)@.pending_target,
            final(self)@ == (PeerTopologyModel { pending_target: None, ..old(self)@ }),
    {
        let target = self.pending_target.take();
        assert(self@ == (PeerTopologyModel { pending_target: None, ..old(self)@ }));
        target
    }

    /// Whether the remote pointer has to be seeded.
    pub fn pointer_enter_required(&self) -> (required: bool)
        ensures
            required == (self@.pending_target is Some),
    {
        self.pending_target.is_some()
    }

    /// Ends what was under way on a route.
    pub fn clear_focus_route(&mut self)
        ensures
            final(self).same_limits(old(self)),
            final(self)@ == old(self)@.unfocused(),
    {
        self.active_route = None;
        self.pending_target = None;
        assert(self@ == old(self)@.unfocused());
    }

    /// The routes that are armed.
    pub fn routes(&self) -> (routes: &Vec<EdgeRoute>)
        ensures
            routes@ == self@.routes,
    {
        &self.routes
    }

    /// The route that a focus change is under way on.
    pub fn active_route(&self) -> (route: Option<EdgeRoute>)
        ensures
            route == self@.active_route,
    {
        self.active_route
    }

    /// The displays of this workstation, as the peer sees them.
    pub fn local_topology(&self) -> (topology: Option<DisplayTopology>)
        ensures
            topology_view(topology) == if self@.local.revision > 0 {
                Some(
                    TopologyModel {
                        revision: self@.local.revision,
                        displays: descriptors(self@.local.placed),
                    },
                )
            } else {
                None
            },
    {
        self.local.topology()
    }

    /// The remote displays that are in effect.
    pub fn remote(&self) -> (topology: Option<&DisplayTopology>)
        ensures
            match topology {
                Some(known) => self@.remote == Some(known@),
                None => self@.remote is None,
            },
    {
        self.remote.as_ref()
    }

    /// The inset at which a pointer comes in over an edge.
    pub fn entry_inset_milli(&self) -> (inset: u32)
        ensures
            inset == self.edge().entry_inset_milli,
    {
        self.settings.entry_inset_milli
    }
}

/// Without the peer's grant, while the local displays change, or while a remote
/// topology waits for its commit, no route is warranted.
pub proof fn law_routes_need_grant_and_settled_topologies(
    m: PeerTopologyModel,
    routes: Seq<EdgeRoute>,
)
    requires
        m.warrants(routes),
        routes.len() > 0,
    ensures
        m.peer_input_granted,
        m.local_ready(),
        m.staged_remote is None,
        m.remote is Some,
        m.placement != PeerPlacement::Disabled,
        m.published_local_revision matches Some(revision) ==> m.ready_local_revision == Some(
            revision,
        ),
{
}

/// A setting is a decimal number: each further digit makes it ten times as large
/// and adds its own value. A plus sign before the digits changes nothing; anything
/// else, nothing at all, or too large a number, is no setting.
pub proof fn law_settings_are_decimal_numbers(digits: Seq<char>, digit: char)
    requires
        digits.len() > 0,
        digits[0] != '+',
    ensures
        setting_value(seq!['+'] + digits) == setting_value(digits),
        ('0' <= digit <= '9') && digit != '+' ==> setting_value(seq![digit]) == Some(
            (digit as u32 - 0x30) as u32,
        ),
        setting_value(digits) is None ==> setting_value(digits.push(digit)) is None,
        !('0' <= digit <= '9') ==> setting_value(digits.push(digit)) is None,
        setting_value(digits) matches Some(number) ==> ('0' <= digit <= '9' ==> {
            let longer = number * 10 + (digit as u32 - 0x30);
            &&& longer <= 0xffff_ffff ==> setting_value(digits.push(digit)) == Some(longer as u32)
            &&& longer > 0xffff_ffff ==> setting_value(digits.push(digit)) is None
        }),
        setting_value(Seq::<char>::empty()) is None,
        setting_value(seq!['+']) is None,
{
    let signed = seq!['+'] + digits;
    assert(signed.skip(1) =~= digits);
    let one = seq![digit];
    assert(one.drop_last() =~= Seq::<char>::empty());
    assert(decimal(Seq::<char>::empty()) == 0);
    assert(one[0] == digit);
    let longer = digits.push(digit);
    assert(longer.drop_last() =~= digits);
    assert(longer[longer.len() - 1] == digit);
    assert(longer[0] == digits[0]);
    if setting_value(digits) is Some {
        assert forall|i: int| 0 <= i < longer.len() && '0' <= digit <= '9' implies '0'
            <= #[trigger] longer[i] <= '9' by {
            if i < digits.len() {
                assert(longer[i] == digits[i]);
            }
        }
    } else {
        if exists|i: int| 0 <= i < digits.len() && !('0' <= #[trigger] digits[i] <= '9') {
            let i = choose|i: int| 0 <= i < digits.len() && !('0' <= #[trigger] digits[i] <= '9');
            assert(longer[i] == digits[i]);
        } else if '0' <= digit <= '9' {
            assert(decimal(longer) >= decimal(digits));
        }
    }
    assert(seq!['+'].skip(1) =~= Seq::<char>::empty());
}

/// Unless the environment says otherwise, an edge is approached within eight
/// units, left by twelve, entered by four, held for eighty milliseconds and rests
/// for three hundred.
pub proof fn law_edges_have_their_defaults()
    ensures
        DEFAULT_ACTIVATION_BAND_MILLI == 8_000,
        DEFAULT_HYSTERESIS_MILLI == 12_000,
        DEFAULT_ENTRY_INSET_MILLI == 4_000,
        DEFAULT_DEBOUNCE_MS == 80,
        DEFAULT_COOLDOWN_MS == 300,
{
}

/// A route is left in the middle of its own edge: at the very start or end of the
/// axis that the edge cuts, and halfway on the other.
pub proof fn law_routes_are_left_in_the_middle(route: EdgeRoute, observed_at: u64)
    ensures
        ({
            let sample = boundary_center(route, observed_at);
            &&& sample.display == route.source_display
            &&& sample.observed_at == observed_at
            &&& route.source_edge is Left ==> sample.x == 0 && sample.y == 0x7fff_ffff
            &&& route.source_edge is Right ==> sample.x == 0xffff_ffff && sample.y == 0x7fff_ffff
            &&& route.source_edge is Top ==> sample.x == 0x7fff_ffff && sample.y == 0
            &&& route.source_edge is Bottom ==> sample.x == 0x7fff_ffff && sample.y == 0xffff_ffff
        }),
{
}

/// The remote pointer is put onto its target: the same display, and the point of
/// the narrow axis that the target lies in.
pub proof fn law_targets_keep_their_place(target: TargetPointerPosition)
    ensures
        target_motion(target) matches InputEvent::PointerMotion { position } && {
            &&& position.display == target.display
            &&& position.x * 65537 <= target.x < (position.x + 1) * 65537
            &&& position.y * 65537 <= target.y < (position.y + 1) * 65537
        },
{
    assert(0 <= target.x / 65537 <= 0xffff);
    assert(0 <= target.y / 65537 <= 0xffff);
}

/// Focus by hand needs displays on both sides. It crosses the first route that is
/// armed, in the middle of its edge, and where none is, the pointer stays and what
/// was under way is forgotten.
pub proof fn law_focus_by_hand_takes_the_first_route(
    model: PeerTopologyModel,
    focus: Result<ManualFocus, TopologyRuntimeError>,
    after: PeerTopologyModel,
    first: int,
)
    requires
        model.manual_focus(focus, after),
    ensures
        focus is Err <==> model.local.revision == 0 || model.remote is None,
        focus matches Err(error) ==> error is DisplayMappingUnavailable && after == model,
        focus is Ok && 0 <= first < model.routes.len() && model.routes[first].enabled && (forall|
            j: int,
        |
            0 <= j < first ==> !(#[trigger] model.routes[j]).enabled) ==> (focus matches Ok(
            ManualFocus::Carry { sample, route },
        ) && route == model.routes[first] && sample == boundary_center(route, 0) && after == model),
        focus is Ok && (forall|j: int|
            0 <= j < model.routes.len() ==> !(#[trigger] model.routes[j]).enabled) ==> focus == Ok::<
            _,
            TopologyRuntimeError,
        >(ManualFocus::WithoutPointer) && after.active_route is None && after.pending_target is None
            && after == (PeerTopologyModel { active_route: None, pending_target: None, ..model }),
{
    if let Ok(ManualFocus::Carry { sample, route }) = focus {
        let i = choose|i: int|
            {
                &&& 0 <= i < model.routes.len()
                &&& #[trigger] model.routes[i] == route
                &&& route.enabled
                &&& forall|j: int| 0 <= j < i ==> !(#[trigger] model.routes[j]).enabled
            };
        if 0 <= first < model.routes.len() && model.routes[first].enabled && (forall|j: int|
            0 <= j < first ==> !(#[trigger] model.routes[j]).enabled) {
            assert(!(first < i));
            assert(!(i < first));
        }
    }
}

/// Ending the focus forgets the route and the target that were under way; putting
/// the routes away ends the focus too; and while the displays change both are so.
/// Nothing else changes.
pub proof fn law_focus_routes_and_changes_end_together(model: PeerTopologyModel)
    ensures
        model.unfocused() == (PeerTopologyModel {
            active_route: None,
            pending_target: None,
            ..model
        }),
        model.disarmed().routes.len() == 0,
        model.disarmed() == (PeerTopologyModel {
            routes: model.disarmed().routes,
            active_route: None,
            pending_target: None,
            ..model
        }),
        model.in_transition().local_transition_pending,
        model.in_transition() == (PeerTopologyModel {
            local_transition_pending: true,
            ..model.disarmed()
        }),
{
}

/// The local displays are ready exactly if they are known, do not change, and the
/// peer has acknowledged those that were published, if any were.
pub proof fn law_displays_are_ready_when_acknowledged(model: PeerTopologyModel)
    ensures
        model.local_ready() ==> !model.local_transition_pending && model.local.revision > 0,
        model.published_local_revision is None ==> (model.local_ready()
            <==> !model.local_transition_pending && model.local.revision > 0),
        model.published_local_revision matches Some(published) ==> (model.local_ready()
            <==> !model.local_transition_pending && model.local.revision > 0
            && model.ready_local_revision == Some(published)),
{
}

/// A motion here can cross to the peer only while focus is local and routes are
/// armed: then the edge observer sees it where it was, under the name that the
/// session gives the display. While the peer is asked for or controlled it is
/// kept from being sent twice.
pub proof fn law_motion_crosses_only_from_local_focus(
    model: PeerTopologyModel,
    position: NormalizedPosition,
    focus: FocusState,
    now: u64,
)
    ensures
        ({
            let step = model.pointer_step(position, focus, now);
            let known = maps_native(model.local.placed, position.display) && model.local.revision
                > 0 && model.remote is Some;
            &&& model.routes.len() == 0 ==> step is Ok
            &&& step is Err <==> model.routes.len() > 0 && !known
            &&& step matches Err(error) ==> error is DisplayMappingUnavailable
            &&& step matches Ok(PointerStep::Observe(sample)) ==> {
                &&& focus is Local
                &&& model.routes.len() > 0
                &&& sample.display == session_of(model.local.placed, position.display)
                &&& sample.x == position.x * 65537
                &&& sample.y == position.y * 65537
                &&& sample.observed_at == now
            }
            &&& focus is Local && model.routes.len() > 0 && known ==> (step matches Ok(
                PointerStep::Observe(_),
            ))
            &&& step matches Ok(PointerStep::Settled(action)) ==> {
                &&& action is Suppressed <==> focus is RequestingRemote || focus
                    is ControllingRemote
                &&& action is Local <==> focus is Local || focus is ControlledByRemote
            }
        }),
{
    let x = position.x;
    let y = position.y;
    assert(x * 65537 <= 0xffff_ffff && y * 65537 <= 0xffff_ffff);
}

/// Routes are armed where the peer grants input, the local displays are ready and
/// the peer's are in force: then exactly those that its placement gives. In every
/// other state none is.
pub proof fn law_routes_are_armed_in_one_state_only(
    model: PeerTopologyModel,
    routes: Seq<EdgeRoute>,
)
    ensures
        ({
            let armed = model.peer_input_granted && model.local_ready() && model.staged_remote
                is None && model.remote is Some;
            &&& !armed ==> (model.warrants(routes) <==> routes.len() == 0)
            &&& armed ==> (model.warrants(routes) <==> are_exterior_routes(
                model.placement,
                descriptors(model.local.placed),
                model.remote->Some_0.displays,
                routes,
            ))
        }),
{
}

/// Displays of the peer are taken over only under the revision that was
/// authorized, and are staged until then.
pub proof fn law_remote_displays_are_staged_and_taken(
    state: &mut PeerTopologyState,
    topology: DisplayTopology,
    revision: u64,
    staged: Result<(), TopologyRuntimeError>,
    later: &mut PeerTopologyState,
    proposal: Result<RouteProposal, TopologyRuntimeError>,
)
    requires
        call_ensures(PeerTopologyState::stage_remote, (state, topology, revision), staged),
        call_ensures(PeerTopologyState::commit_remote, (later, revision), proposal),
    ensures
        staged is Ok <==> topology.revision == revision,
        staged is Ok ==> final(state)@.staged_remote == Some(topology@),
        staged is Err ==> final(state)@ == old(state)@,
        final(state)@.remote == old(state)@.remote,
        final(later)@.staged_remote is None,
        proposal is Ok ==> final(later)@.remote == old(later)@.staged_remote && (old(
            later,
        )@.staged_remote matches Some(known) && known.revision == revision),
        proposal is Err ==> final(later)@.remote == old(later)@.remote,
        old(later)@.staged_remote is None ==> proposal is Err,
        proposal matches Err(error) ==> error is RevisionMismatch,
{
}

/// Displays of this device are ready once the revision that was published is
/// acknowledged, and no other.
pub proof fn law_acknowledged_displays_are_ready(
    state: &mut PeerTopologyState,
    revision: u64,
    proposal: Result<RouteProposal, TopologyRuntimeError>,
)
    requires
        call_ensures(PeerTopologyState::mark_local_ready, (state, revision), proposal),
    ensures
        proposal is Ok <==> old(state)@.published_local_revision == Some(revision),
        proposal is Ok ==> final(state)@.ready_local_revision == Some(revision)
            && !final(state)@.local_transition_pending,
        proposal is Err ==> final(state)@ == old(state)@,
        proposal matches Err(error) ==> error is UnexpectedAcknowledgement,
        final(state)@.local == old(state)@.local,
        final(state)@.remote == old(state)@.remote,
{
}

/// Routes are installed as proposed, or not at all.
pub proof fn law_routes_are_installed_as_proposed(
    state: &mut PeerTopologyState,
    proposal: RouteProposal,
    accepted: bool,
    installed: Result<(), TopologyRuntimeError>,
)
    requires
        call_ensures(PeerTopologyState::install_routes, (state, proposal, accepted), installed),
    ensures
        installed is Ok <==> accepted,
        accepted ==> final(state)@.routes == proposal@,
        !accepted ==> final(state)@ == old(state)@,
        installed matches Err(error) ==> error is InvalidEdgeConfiguration,
{
}

/// A candidate is committed only on what it was made of, and its revision is
/// the next one.
pub proof fn law_candidates_follow_their_base(
    state: &mut PeerTopologyState,
    candidate: LocalTopologyCandidate,
    topology: Result<DisplayTopology, TopologyRuntimeError>,
)
    requires
        call_ensures(PeerTopologyState::commit_local_candidate, (state, candidate), topology),
    ensures
        topology matches Ok(published) ==> {
            &&& old(state)@.local.revision == candidate.base()
            &&& final(state)@.local == candidate.outcome()
            &&& published@.revision == final(state)@.local.revision
            &&& candidate.base() < u64::MAX ==> published@.revision == candidate.base() + 1
            &&& published@.displays.len() == candidate.outcome().placed.len()
        },
        topology is Err ==> final(state)@ == old(state)@,
        topology matches Err(error) ==> error is RevisionMismatch,
        final(state)@.remote == old(state)@.remote,
{
}

/// Focus that is asked for by crossing an edge or by hand goes to the target of
/// the route; without a target nothing changes.
pub proof fn law_focus_goes_to_the_target(
    state: &mut PeerTopologyState,
    decision: Option<EdgeDecision>,
    action: LocalPointerAction,
    other: &mut PeerTopologyState,
    route: EdgeRoute,
    target: Option<TargetPointerPosition>,
    seeded: Result<(), TopologyRuntimeError>,
)
    requires
        call_ensures(PeerTopologyState::edge_observed, (state, decision), action),
        call_ensures(PeerTopologyState::seed_manual_focus, (other, route, target), seeded),
    ensures
        action is RequestFocus <==> decision is Some,
        action is Local <==> decision is None,
        decision is None ==> final(state)@ == old(state)@,
        decision matches Some(crossing) ==> final(state)@.active_route == Some(crossing.route)
            && final(state)@.pending_target == Some(target_motion(crossing.target)),
        seeded is Ok <==> target is Some,
        target is None ==> final(other)@ == old(other)@,
        target matches Some(place) ==> final(other)@.active_route == Some(route)
            && final(other)@.pending_target == Some(target_motion(place)),
        final(state)@.routes == old(state)@.routes,
        final(other)@.routes == old(other)@.routes,
{
}

/// Settings that are not given are the defaults; one that cannot be read
/// refuses them all.
pub proof fn law_settings_default(
    value: Option<&str>,
    default: u32,
    setting: Result<u32, TopologyRuntimeError>,
    environment: EdgeEnvironment<'_>,
    settings: Result<EdgeSettings, TopologyRuntimeError>,
)
    requires
        call_ensures(env_u32, (value, default), setting),
        call_ensures(edge_settings, (&environment,), settings),
    ensures
        value is None ==> setting == Ok::<u32, TopologyRuntimeError>(default),
        value matches Some(text) ==> (setting is Ok <==> setting_value(text@) is Some),
        setting matches Err(error) ==> error is InvalidEdgeConfiguration,
        settings matches Ok(known) ==> {
            &&& environment.activation_band_milli is None ==> known.activation_band_milli
                == DEFAULT_ACTIVATION_BAND_MILLI
            &&& environment.hysteresis_milli is None ==> known.hysteresis_milli
                == DEFAULT_HYSTERESIS_MILLI
            &&& environment.entry_inset_milli is None ==> known.entry_inset_milli
                == DEFAULT_ENTRY_INSET_MILLI
            &&& environment.debounce_ms is None ==> known.debounce_ms == DEFAULT_DEBOUNCE_MS
            &&& environment.cooldown_ms is None ==> known.cooldown_ms == DEFAULT_COOLDOWN_MS
        },
        environment.activation_band_milli is None && environment.hysteresis_milli is None
            && environment.entry_inset_milli is None && environment.debounce_ms is None
            && environment.cooldown_ms is None ==> settings is Ok,
        settings matches Err(error) ==> error is InvalidEdgeConfiguration,
{
}

/// Motion of the peer keeps its place on the display that it names here, and
/// input that is no motion is left as it is.
pub proof fn law_incoming_motion_keeps_its_place(
    state: PeerTopologyState,
    event: InputEvent,
    resolved: Result<InputEvent, TopologyRuntimeError>,
)
    requires
        call_ensures(PeerTopologyState::resolve_incoming, (&state, event), resolved),
    ensures
        !(event is PointerMotion) ==> resolved == Ok::<InputEvent, TopologyRuntimeError>(event),
        event is PointerMotion ==> (resolved matches Ok(motion) ==> motion is PointerMotion
            && motion->position.x == event->position.x && motion->position.y == event->position.y),
        resolved is Err ==> event is PointerMotion,
        resolved matches Err(error) ==> error is DisplayMappingUnavailable,
{
}

/// Displays that were published are waited for until they are ready.
pub proof fn law_published_displays_are_waited_for(
    state: PeerTopologyState,
    pending: bool,
    required: bool,
)
    requires
        call_ensures(PeerTopologyState::local_ack_pending, (&state,), pending),
        call_ensures(PeerTopologyState::pointer_enter_required, (&state,), required),
    ensures
        pending <==> state@.published_local_revision != state@.ready_local_revision,
        required <==> state@.pending_target is Some,
{
}

} // verus!
