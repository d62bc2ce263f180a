//! Edge routes that follow from where a peer is placed.

use vstd::prelude::*;
use crate::displays::DisplayDescriptor;

verus! {

broadcast use {vstd::seq_lib::group_to_multiset_ensures, vstd::multiset::group_multiset_axioms};

pub const MAX_DERIVED_EDGE_ROUTES: usize = 32;

/// Where the peer stands, seen from this workstation.
#[derive(Clone, Copy, Debug, PartialEq, Eq, Structural)]
pub enum PeerPlacement {
    Disabled,
    Left,
    Right,
    Above,
    Below,
}

#[derive(Clone, Copy, Debug, PartialEq, Eq, Structural)]
pub enum DisplayEdge {
    Left,
    Right,
    Top,
    Bottom,
}

/// How positions along one edge are carried over to the other.
#[derive(Clone, Copy, Debug, PartialEq, Eq, Structural)]
pub enum EdgeAlignment {
    Stretch,
}

#[derive(Clone, Copy, Debug, PartialEq, Eq, Structural)]
pub struct EdgeRoute {
    pub source_display: u32,
    pub source_edge: DisplayEdge,
    pub destination_display: u32,
    pub destination_edge: DisplayEdge,
    pub alignment: EdgeAlignment,
    pub enabled: bool,
}

/// The edge that the pointer leaves by, and the one that it comes in by.
pub open spec fn edges_of(placement: PeerPlacement) -> Option<(DisplayEdge, DisplayEdge)> {
    match placement {
        PeerPlacement::Disabled => None,
        PeerPlacement::Left => Some((DisplayEdge::Left, DisplayEdge::Right)),
        PeerPlacement::Right => Some((DisplayEdge::Right, DisplayEdge::Left)),
        PeerPlacement::Above => Some((DisplayEdge::Top, DisplayEdge::Bottom)),
        PeerPlacement::Below => Some((DisplayEdge::Bottom, DisplayEdge::Top)),
    }
}

fn placement_edges(placement: PeerPlacement) -> (edges: Option<(DisplayEdge, DisplayEdge)>)
    ensures
        edges == edges_of(placement),
{
    match placement {
        PeerPlacement::Disabled => None,
        PeerPlacement::Left => Some((DisplayEdge::Left, DisplayEdge::Right)),
        PeerPlacement::Right => Some((DisplayEdge::Right, DisplayEdge::Left)),
        PeerPlacement::Above => Some((DisplayEdge::Top, DisplayEdge::Bottom)),
        PeerPlacement::Below => Some((DisplayEdge::Bottom, DisplayEdge::Top)),
    }
}

/// The extent of a display as a signed number: the greatest one, where it does
/// not fit.
pub open spec fn signed_extent(extent: u64) -> int {
    if extent <= i64::MAX {
        extent as int
    } else {
        i64::MAX as int
    }
}

fn bounded_extent(extent: u64) -> (bounded: i128)
    ensures
        bounded == signed_extent(extent),
{
    if extent <= i64::MAX as u64 {
        extent as i128
    } else {
        i64::MAX as i128
    }
}

/// Where an edge of a display lies on its axis.
pub open spec fn coordinate(display: DisplayDescriptor, edge: DisplayEdge) -> int {
    match edge {
        DisplayEdge::Left => display.geometry.origin_x_milli as int,
        DisplayEdge::Right => display.geometry.origin_x_milli + signed_extent(
            display.geometry.logical_width_milli,
        ),
        DisplayEdge::Top => display.geometry.origin_y_milli as int,
        DisplayEdge::Bottom => display.geometry.origin_y_milli + signed_extent(
            display.geometry.logical_height_milli,
        ),
    }
}

fn edge_coordinate(display: &DisplayDescriptor, edge: DisplayEdge) -> (position: i128)
    ensures
        position == coordinate(*display, edge),
{
    match edge {
        DisplayEdge::Left => display.geometry.origin_x_milli as i128,
        DisplayEdge::Right => display.geometry.origin_x_milli as i128 + bounded_extent(
            display.geometry.logical_width_milli,
        ),
        DisplayEdge::Top => display.geometry.origin_y_milli as i128,
        DisplayEdge::Bottom => display.geometry.origin_y_milli as i128 + bounded_extent(
            display.geometry.logical_height_milli,
        ),
    }
}

/// No display reaches further out on this edge.
pub open spec fn outermost(
    displays: Seq<DisplayDescriptor>,
    edge: DisplayEdge,
    display: DisplayDescriptor,
) -> bool {
    forall|i: int|
        0 <= i < displays.len() ==> match edge {
            DisplayEdge::Left | DisplayEdge::Top => coordinate(display, edge) <= coordinate(
                #[trigger] displays[i],
                edge,
            ),
            DisplayEdge::Right | DisplayEdge::Bottom => coordinate(display, edge) >= coordinate(
                displays[i],
                edge,
            ),
        }
}

/// Where a display starts along an edge.
pub open spec fn along(display: DisplayDescriptor, edge: DisplayEdge) -> int {
    match edge {
        DisplayEdge::Left | DisplayEdge::Right => display.geometry.origin_y_milli as int,
        DisplayEdge::Top | DisplayEdge::Bottom => display.geometry.origin_x_milli as int,
    }
}

/// `a` comes before `b` along an edge, or stands level with it and has no
/// greater identifier.
pub open spec fn in_order(a: DisplayDescriptor, b: DisplayDescriptor, edge: DisplayEdge) -> bool {
    along(a, edge) < along(b, edge) || (along(a, edge) == along(b, edge) && a.id <= b.id)
}

/// `exterior` holds the outermost displays on an edge, in order along it.
pub open spec fn is_exterior(
    displays: Seq<DisplayDescriptor>,
    edge: DisplayEdge,
    exterior: Seq<DisplayDescriptor>,
) -> bool {
    &&& exterior.to_multiset() == displays.filter(
        |display: DisplayDescriptor| outermost(displays, edge, display),
    ).to_multiset()
    &&& forall|i: int, j: int|
        0 <= i < j < exterior.len() ==> in_order(
            #[trigger] exterior[i],
            #[trigger] exterior[j],
            edge,
        )
}

/// The route from one exterior display to the peer's display that lies opposite:
/// the centers of the two ordered rows are paired.
pub open spec fn paired_route(
    sources: Seq<DisplayDescriptor>,
    destinations: Seq<DisplayDescriptor>,
    edges: (DisplayEdge, DisplayEdge),
    index: int,
) -> EdgeRoute {
    EdgeRoute {
        source_display: sources[index].id,
        source_edge: edges.0,
        destination_display: destinations[((2 * index + 1) * destinations.len()) / (2
            * sources.len() as int)].id,
        destination_edge: edges.1,
        alignment: EdgeAlignment::Stretch,
        enabled: true,
    }
}

/// `routes` are the routes between two workstations for a placement.
pub open spec fn are_exterior_routes(
    placement: PeerPlacement,
    local: Seq<DisplayDescriptor>,
    remote: Seq<DisplayDescriptor>,
    routes: Seq<EdgeRoute>,
) -> bool {
    match edges_of(placement) {
        None => routes.len() == 0,
        Some(edges) => exists|
            sources: Seq<DisplayDescriptor>,
            destinations: Seq<DisplayDescriptor>,
        |
            {
                &&& #[trigger] is_exterior(local, edges.0, sources)
                &&& #[trigger] is_exterior(remote, edges.1, destinations)
                &&& routes == if destinations.len() == 0 {
                    Seq::<EdgeRoute>::empty()
                } else {
                    Seq::new(
                        if sources.len() < MAX_DERIVED_EDGE_ROUTES {
                            sources.len()
                        } else {
                            MAX_DERIVED_EDGE_ROUTES as nat
                        },
                        |i: int| paired_route(sources, destinations, edges, i),
                    )
                }
            },
    }
}

fn comes_first(a: &DisplayDescriptor, b: &DisplayDescriptor, edge: DisplayEdge) -> (first: bool)
    ensures
        first == in_order(*a, *b, edge),
{
    match edge {
        DisplayEdge::Left | DisplayEdge::Right => a.geometry.origin_y_milli
            < b.geometry.origin_y_milli || (a.geometry.origin_y_milli == b.geometry.origin_y_milli
            && a.id <= b.id),
        DisplayEdge::Top | DisplayEdge::Bottom => a.geometry.origin_x_milli
            < b.geometry.origin_x_milli || (a.geometry.origin_x_milli == b.geometry.origin_x_milli
            && a.id <= b.id),
    }
}

fn is_outermost(displays: &Vec<DisplayDescriptor>, edge: DisplayEdge, display: &DisplayDescriptor) -> (
    answer: bool)
    ensures
        answer == outermost(displays@, edge, *display),
{
    let own: i128 = edge_coordinate(display, edge);
    let mut at: usize = 0;
    while at < displays.len()
        invariant
            at <= displays@.len(),
            own == coordinate(*display, edge),
            forall|i: int|
                0 <= i < at ==> match edge {
                    DisplayEdge::Left | DisplayEdge::Top => own <= coordinate(
                        #[trigger] displays@[i],
                        edge,
                    ),
                    DisplayEdge::Right | DisplayEdge::Bottom => own >= coordinate(
                        displays@[i],
                        edge,
                    ),
                },
        decreases displays@.len() - at,
    {
        let other: i128 = edge_coordinate(&displays[at], edge);
        let further = match edge {
            DisplayEdge::Left | DisplayEdge::Top => other < own,
            DisplayEdge::Right | DisplayEdge::Bottom => other > own,
        };
        if further {
            assert(coordinate(displays@[at as int], edge) == other);
            return false;
        }
        at = at + 1;
    }
    true
}

/// The outermost displays on an edge, in order along it.
pub fn exterior_displays(displays: &Vec<DisplayDescriptor>, edge: DisplayEdge) -> (exterior: Vec<
    DisplayDescriptor,
>)
    ensures
        is_exterior(displays@, edge, exterior@),
{
    let ghost keep = |display: DisplayDescriptor| outermost(displays@, edge, display);
    let mut exterior: Vec<DisplayDescriptor> = Vec::new();
    let mut at: usize = 0;
    assert(displays@.take(0).filter(keep) =~= Seq::<DisplayDescriptor>::empty()) by {
        reveal(Seq::filter);
    }
    while at < displays.len()
        invariant
            at <= displays@.len(),
            keep == (|display: DisplayDescriptor| outermost(displays@, edge, display)),
            exterior@.to_multiset() == displays@.take(at as int).filter(keep).to_multiset(),
            forall|i: int, j: int|
                0 <= i < j < exterior@.len() ==> in_order(
                    #[trigger] exterior@[i],
                    #[trigger] exterior@[j],
                    edge,
                ),
        decreases displays@.len() - at,
    {
        let display: DisplayDescriptor = displays[at];
        proof {
            assert(displays@.take(at + 1) =~= displays@.take(at as int).push(display));
            assert(displays@.take(at + 1).drop_last() =~= displays@.take(at as int));
            assert(displays@.take(at + 1).filter(keep) == if keep(display) {
                displays@.take(at as int).filter(keep).push(display)
            } else {
                displays@.take(at as int).filter(keep)
            }) by {
                reveal(Seq::filter);
            }
        }
        if is_outermost(displays, edge, &display) {
            let ghost before = exterior@;
            let mut place: usize = 0;
            while place < exterior.len() && comes_first(&exterior[place], &display, edge)
                invariant
                    place <= exterior@.len(),
                    exterior@ == before,
                    forall|i: int|
                        0 <= i < place ==> in_order(#[trigger] exterior@[i], display, edge),
                decreases exterior@.len() - place,
            {
                place = place + 1;
            }
            exterior.insert(place, display);
            assert forall|i: int, j: int| 0 <= i < j < exterior@.len() implies in_order(
                #[trigger] exterior@[i],
                #[trigger] exterior@[j],
                edge,
            ) by {
                if i < place && j < place {
                    assert(exterior@[i] == before[i] && exterior@[j] == before[j]);
                } else if i < place && j == place {
                    assert(exterior@[i] == before[i]);
                } else if i < place {
                    assert(exterior@[i] == before[i] && exterior@[j] == before[j - 1]);
                } else if i == place {
                    assert(exterior@[j] == before[j - 1]);
                    if j - 1 > place {
                        assert(in_order(before[place as int], before[j - 1], edge));
                    }
                } else {
                    assert(exterior@[i] == before[i - 1] && exterior@[j] == before[j - 1]);
                }
            }
        }
        at = at + 1;
    }
    assert(displays@.take(at as int) =~= displays@);
    exterior
}

/// The routes between two workstations for a placement.
pub fn derive_exterior_routes(
    placement: PeerPlacement,
    local: &Vec<DisplayDescriptor>,
    remote: &Vec<DisplayDescriptor>,
) -> (routes: Vec<EdgeRoute>)
    ensures
        are_exterior_routes(placement, local@, remote@, routes@),
        routes@.len() <= MAX_DERIVED_EDGE_ROUTES,
{
    let edges = match placement_edges(placement) {
        Some(edges) => edges,
        None => {
            return Vec::new();
        },
    };
    let sources = exterior_displays(local, edges.0);
    let destinations = exterior_displays(remote, edges.1);
    let mut routes: Vec<EdgeRoute> = Vec::new();
    let source_count: usize = sources.len();
    let destination_count: usize = destinations.len();
    if destination_count == 0 {
        assert(routes@ =~= Seq::<EdgeRoute>::empty());
        return routes;
    }
    let mut index: usize = 0;
    while index < source_count && index < MAX_DERIVED_EDGE_ROUTES
        invariant
            index <= source_count,
            index <= MAX_DERIVED_EDGE_ROUTES,
            source_count == sources@.len(),
            destination_count == destinations@.len(),
            destination_count > 0,
            routes@.len() == index,
            forall|i: int|
                0 <= i < index ==> #[trigger] routes@[i] == paired_route(
                    sources@,
                    destinations@,
                    edges,
                    i,
                ),
        decreases source_count - index,
    {
        assert((2 * index + 1) * destination_count <= 63 * destination_count) by (nonlinear_arith)
            requires
                index < 32,
        ;
        let twice: u128 = (2 * index + 1) as u128 * destination_count as u128;
        let row: u128 = 2 * source_count as u128;
        proof {
            assert((2 * index + 1) * destination_count < 2 * source_count * destination_count)
                by (nonlinear_arith)
                requires
                    index < source_count,
                    destination_count > 0,
            ;
            assert(2 * source_count * destination_count == row * destination_count)
                by (nonlinear_arith)
                requires
                    row == 2 * source_count,
            ;
            assert(twice / row < destination_count) by (nonlinear_arith)
                requires
                    twice < row * destination_count,
                    row > 0,
            ;
        }
        let destination_index: usize = (twice / row) as usize;
        routes.push(
            EdgeRoute {
                source_display: sources[index].id,
                source_edge: edges.0,
                destination_display: destinations[destination_index].id,
                destination_edge: edges.1,
                alignment: EdgeAlignment::Stretch,
                enabled: true,
            },
        );
        index = index + 1;
    }
    assert(routes@ =~= Seq::new(
        if sources@.len() < MAX_DERIVED_EDGE_ROUTES {
            sources@.len()
        } else {
            MAX_DERIVED_EDGE_ROUTES as nat
        },
        |i: int| paired_route(sources@, destinations@, edges, i),
    ));
    routes
}

/// The exterior displays are among the displays, and no display reaches further
/// out than one of them.
proof fn lemma_exterior_members(
    displays: Seq<DisplayDescriptor>,
    edge: DisplayEdge,
    exterior: Seq<DisplayDescriptor>,
    display: DisplayDescriptor,
)
    requires
        is_exterior(displays, edge, exterior),
    ensures
        exterior.contains(display) <==> displays.contains(display) && outermost(
            displays,
            edge,
            display,
        ),
{
    let keep = |d: DisplayDescriptor| outermost(displays, edge, d);
    let kept = displays.filter(keep);
    assert(exterior.contains(display) <==> exterior.to_multiset().count(display) > 0);
    assert(kept.contains(display) <==> kept.to_multiset().count(display) > 0);
    if displays.contains(display) && keep(display) {
        let i = choose|i: int| 0 <= i < displays.len() && displays[i] == display;
        displays.lemma_filter_contains(keep, i);
    }
    if kept.contains(display) {
        let i = choose|i: int| 0 <= i < kept.len() && kept[i] == display;
        displays.lemma_filter_contains_rev(keep, kept[i]);
        displays.lemma_filter_pred(keep, i);
    }
}

proof fn lemma_some_display_is_outermost(
    displays: Seq<DisplayDescriptor>,
    edge: DisplayEdge,
    upto: int,
) -> (at: int)
    requires
        0 < upto <= displays.len(),
    ensures
        0 <= at < upto,
        outermost(displays.take(upto), edge, displays[at]),
    decreases upto,
{
    if upto == 1 {
        0
    } else {
        let before = lemma_some_display_is_outermost(displays, edge, upto - 1);
        let shorter = displays.take(upto - 1);
        let longer = displays.take(upto);
        let last = displays[upto - 1];
        let further = match edge {
            DisplayEdge::Left | DisplayEdge::Top => coordinate(last, edge) < coordinate(
                displays[before],
                edge,
            ),
            DisplayEdge::Right | DisplayEdge::Bottom => coordinate(last, edge) > coordinate(
                displays[before],
                edge,
            ),
        };
        let at = if further {
            upto - 1
        } else {
            before
        };
        assert forall|i: int| 0 <= i < longer.len() implies match edge {
            DisplayEdge::Left | DisplayEdge::Top => coordinate(displays[at], edge) <= coordinate(
                #[trigger] longer[i],
                edge,
            ),
            DisplayEdge::Right | DisplayEdge::Bottom => coordinate(displays[at], edge)
                >= coordinate(longer[i], edge),
        } by {
            if i < upto - 1 {
                assert(longer[i] == shorter[i]);
            }
        }
        at
    }
}

/// Every route leaves over the side that the peer stands on and comes in over
/// the side that faces it. A peer that is placed nowhere is not reached.
pub proof fn law_routes_lead_to_where_the_peer_stands(
    placement: PeerPlacement,
    local: Seq<DisplayDescriptor>,
    remote: Seq<DisplayDescriptor>,
    routes: Seq<EdgeRoute>,
)
    requires
        are_exterior_routes(placement, local, remote, routes),
    ensures
        placement is Disabled ==> routes.len() == 0,
        routes.len() <= 32,
        forall|i: int|
            0 <= i < routes.len() ==> {
                let route = #[trigger] routes[i];
                &&& route.enabled
                &&& route.alignment is Stretch
                &&& placement is Left ==> route.source_edge is Left && route.destination_edge
                    is Right
                &&& placement is Right ==> route.source_edge is Right && route.destination_edge
                    is Left
                &&& placement is Above ==> route.source_edge is Top && route.destination_edge
                    is Bottom
                &&& placement is Below ==> route.source_edge is Bottom && route.destination_edge
                    is Top
            },
{
}

/// A display that reaches as far left, right, up or down as any: the one with
/// the least or the greatest position on that axis.
pub proof fn law_outermost_displays_reach_furthest(
    displays: Seq<DisplayDescriptor>,
    display: DisplayDescriptor,
)
    requires
        display.geometry.logical_width_milli <= i64::MAX,
        display.geometry.logical_height_milli <= i64::MAX,
        forall|i: int|
            0 <= i < displays.len() ==> (#[trigger] displays[i]).geometry.logical_width_milli
                <= i64::MAX && displays[i].geometry.logical_height_milli <= i64::MAX,
    ensures
        outermost(displays, DisplayEdge::Left, display) <==> forall|i: int|
            0 <= i < displays.len() ==> display.geometry.origin_x_milli <= (
            #[trigger] displays[i]).geometry.origin_x_milli,
        outermost(displays, DisplayEdge::Top, display) <==> forall|i: int|
            0 <= i < displays.len() ==> display.geometry.origin_y_milli <= (
            #[trigger] displays[i]).geometry.origin_y_milli,
        outermost(displays, DisplayEdge::Right, display) <==> forall|i: int|
            0 <= i < displays.len() ==> display.geometry.origin_x_milli
                + display.geometry.logical_width_milli >= (
            #[trigger] displays[i]).geometry.origin_x_milli
                + displays[i].geometry.logical_width_milli,
        outermost(displays, DisplayEdge::Bottom, display) <==> forall|i: int|
            0 <= i < displays.len() ==> display.geometry.origin_y_milli
                + display.geometry.logical_height_milli >= (
            #[trigger] displays[i]).geometry.origin_y_milli
                + displays[i].geometry.logical_height_milli,
{
    assert forall|edge: DisplayEdge| #![auto] outermost(displays, edge, display) implies forall|
        i: int,
    |
        0 <= i < displays.len() ==> match edge {
            DisplayEdge::Left | DisplayEdge::Top => coordinate(display, edge) <= coordinate(
                #[trigger] displays[i],
                edge,
            ),
            DisplayEdge::Right | DisplayEdge::Bottom => coordinate(display, edge) >= coordinate(
                displays[i],
                edge,
            ),
        } by {}
}

/// A display is exterior on an edge exactly if it is one of the displays and
/// none reaches further. Above and below each other they go from top to bottom,
/// side by side from left to right; of two that stand level the one with the
/// lower identifier comes first.
pub proof fn law_exterior_displays_stand_in_order(
    displays: Seq<DisplayDescriptor>,
    edge: DisplayEdge,
    exterior: Seq<DisplayDescriptor>,
    display: DisplayDescriptor,
    i: int,
    j: int,
)
    requires
        is_exterior(displays, edge, exterior),
    ensures
        exterior.contains(display) <==> displays.contains(display) && outermost(
            displays,
            edge,
            display,
        ),
        displays.len() > 0 ==> exterior.len() > 0,
        0 <= i < j < exterior.len() ==> {
            let a = exterior[i];
            let b = exterior[j];
            &&& edge is Left || edge is Right ==> a.geometry.origin_y_milli
                <= b.geometry.origin_y_milli && (a.geometry.origin_y_milli
                == b.geometry.origin_y_milli ==> a.id <= b.id)
            &&& edge is Top || edge is Bottom ==> a.geometry.origin_x_milli
                <= b.geometry.origin_x_milli && (a.geometry.origin_x_milli
                == b.geometry.origin_x_milli ==> a.id <= b.id)
        },
{
    lemma_exterior_members(displays, edge, exterior, display);
    if displays.len() > 0 {
        let at = lemma_some_display_is_outermost(displays, edge, displays.len() as int);
        assert(displays.take(displays.len() as int) =~= displays);
        lemma_exterior_members(displays, edge, exterior, displays[at]);
        assert(displays.contains(displays[at]));
        assert(exterior.contains(displays[at]));
    }
}

/// Every route goes from a display of this workstation that no other one
/// reaches beyond, to such a display of the peer. Where the peer has displays
/// and there are not too many routes, none of the outermost displays here is
/// left without one.
pub proof fn law_routes_join_the_outermost_displays(
    placement: PeerPlacement,
    local: Seq<DisplayDescriptor>,
    remote: Seq<DisplayDescriptor>,
    routes: Seq<EdgeRoute>,
    display: DisplayDescriptor,
)
    requires
        are_exterior_routes(placement, local, remote, routes),
    ensures
        forall|i: int|
            0 <= i < routes.len() ==> {
                let route = #[trigger] routes[i];
                &&& exists|a: int|
                    0 <= a < local.len() && (#[trigger] local[a]).id == route.source_display
                        && outermost(local, route.source_edge, local[a])
                &&& exists|b: int|
                    0 <= b < remote.len() && (#[trigger] remote[b]).id == route.destination_display
                        && outermost(remote, route.destination_edge, remote[b])
            },
        !(placement is Disabled) && remote.len() > 0 && routes.len() < 32 && local.contains(display)
            && outermost(
            local,
            match placement {
                PeerPlacement::Left => DisplayEdge::Left,
                PeerPlacement::Right => DisplayEdge::Right,
                PeerPlacement::Above => DisplayEdge::Top,
                _ => DisplayEdge::Bottom,
            },
            display,
        ) ==> exists|i: int|
            0 <= i < routes.len() && (#[trigger] routes[i]).source_display == display.id,
{
    if let Some(edges) = edges_of(placement) {
        let (sources, destinations) = choose|
            sources: Seq<DisplayDescriptor>,
            destinations: Seq<DisplayDescriptor>,
        |
            {
                &&& #[trigger] is_exterior(local, edges.0, sources)
                &&& #[trigger] is_exterior(remote, edges.1, destinations)
                &&& routes == if destinations.len() == 0 {
                    Seq::<EdgeRoute>::empty()
                } else {
                    Seq::new(
                        if sources.len() < MAX_DERIVED_EDGE_ROUTES {
                            sources.len()
                        } else {
                            MAX_DERIVED_EDGE_ROUTES as nat
                        },
                        |i: int| paired_route(sources, destinations, edges, i),
                    )
                }
            };
        assert forall|i: int| 0 <= i < routes.len() implies {
            let route = #[trigger] routes[i];
            &&& exists|a: int|
                0 <= a < local.len() && (#[trigger] local[a]).id == route.source_display
                    && outermost(local, route.source_edge, local[a])
            &&& exists|b: int|
                0 <= b < remote.len() && (#[trigger] remote[b]).id == route.destination_display
                    && outermost(remote, route.destination_edge, remote[b])
        } by {
            let count = sources.len() as int;
            let row = destinations.len() as int;
            let k = ((2 * i + 1) * row) / (2 * count);
            assert(0 <= k < row) by (nonlinear_arith)
                requires
                    0 <= i < count,
                    row > 0,
                    k == ((2 * i + 1) * row) / (2 * count),
            ;
            lemma_exterior_members(local, edges.0, sources, sources[i]);
            lemma_exterior_members(remote, edges.1, destinations, destinations[k]);
            assert(sources.contains(sources[i]) && destinations.contains(destinations[k]));
            let a = choose|a: int| 0 <= a < local.len() && local[a] == sources[i];
            let b = choose|b: int| 0 <= b < remote.len() && remote[b] == destinations[k];
            assert(local[a].id == routes[i].source_display);
            assert(remote[b].id == routes[i].destination_display);
        }
        if remote.len() > 0 && routes.len() < 32 && local.contains(display) && outermost(
            local,
            edges.0,
            display,
        ) {
            law_exterior_displays_stand_in_order(remote, edges.1, destinations, display, 0, 0);
            lemma_exterior_members(local, edges.0, sources, display);
            let i = choose|i: int| 0 <= i < sources.len() && sources[i] == display;
            assert(routes[i].source_display == display.id);
        }
    }
}

/// The two rows of displays are laid over each other: the center of a source
/// lies within the destination that it leads to. Rows of one length are paired
/// one for one, and a later source never leads to an earlier destination.
pub proof fn law_rows_are_laid_over_each_other(
    sources: Seq<DisplayDescriptor>,
    destinations: Seq<DisplayDescriptor>,
    edges: (DisplayEdge, DisplayEdge),
    index: int,
    place: int,
)
    requires
        0 <= index < sources.len(),
        0 <= place < destinations.len(),
        2 * sources.len() * place <= (2 * index + 1) * destinations.len() < 2 * sources.len() * (
        place + 1),
    ensures
        paired_route(sources, destinations, edges, index).source_display == sources[index].id,
        paired_route(sources, destinations, edges, index).destination_display
            == destinations[place].id,
        sources.len() == destinations.len() ==> place == index,
{
    let count = sources.len() as int;
    let row = destinations.len() as int;
    let reach = (2 * index + 1) * row;
    assert(reach / (2 * count) == place) by (nonlinear_arith)
        requires
            count > 0,
            2 * count * place <= reach < 2 * count * (place + 1),
    ;
    if count == row {
        assert(place == index) by (nonlinear_arith)
            requires
                count > 0,
                2 * count * place <= (2 * index + 1) * count < 2 * count * (place + 1),
        ;
    }
}

/// `placement_edges` names two edges that face each other, the first on the
/// side where the peer stands, and none for a peer that stands nowhere. Peers
/// on facing sides have the same edges in turn.
proof fn law_placements_name_facing_edges(
    placement: PeerPlacement,
    edges: Option<(DisplayEdge, DisplayEdge)>,
)
    requires
        call_ensures(placement_edges, (placement,), edges),
    ensures
        edges is None <==> placement is Disabled,
        edges matches Some((leaves, enters)) ==> {
            &&& leaves is Left <==> placement is Left
            &&& leaves is Right <==> placement is Right
            &&& leaves is Top <==> placement is Above
            &&& leaves is Bottom <==> placement is Below
            &&& enters is Left <==> leaves is Right
            &&& enters is Right <==> leaves is Left
            &&& enters is Top <==> leaves is Bottom
            &&& enters is Bottom <==> leaves is Top
        },
{
}

} // verus!
