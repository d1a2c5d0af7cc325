//! Routes as the cache reads them: a chain of lightweight leg descriptors and
//! the legs themselves, each with its stops. Every descriptive field may be
//! missing; the functions here say what stands in for a missing one.

use crate::instant::Instant;
use crate::optional::copy_text;
use vstd::prelude::*;
use vstd::string::*;

verus! {

/// What describes the vehicle of a leg: where it is headed, the line, and the
/// kind of vehicle ("Tram", "Bus", ...).
#[derive(Debug, PartialEq, Eq)]
pub struct Mot {
    pub direction: Option<String>,
    pub name: Option<String>,
    pub product_name: Option<String>,
}

/// A stop on a leg, with the scheduled departure from it.
#[derive(Debug, PartialEq, Eq)]
pub struct RegularStop {
    pub name: Option<String>,
    pub departure_time: Option<Instant>,
}

/// One uninterrupted leg of a journey.
#[derive(Debug, PartialEq, Eq)]
pub struct PartialRoute {
    pub mot: Option<Mot>,
    pub regular_stops: Option<Vec<RegularStop>>,
}

/// A journey: the descriptors of its legs in travel order, and the legs.
#[derive(Debug, PartialEq, Eq)]
pub struct Route {
    pub mot_chain: Option<Vec<Mot>>,
    pub partial_routes: Option<Vec<PartialRoute>>,
}

/// Mathematical value of a [`Mot`].
pub struct MotView {
    pub direction: Option<Seq<char>>,
    pub name: Option<Seq<char>>,
    pub product_name: Option<Seq<char>>,
}

/// Mathematical value of a [`RegularStop`].
pub struct StopView {
    pub name: Option<Seq<char>>,
    pub departure_time: Option<Instant>,
}

/// Mathematical value of a [`PartialRoute`].
pub struct PartialRouteView {
    pub mot: Option<MotView>,
    pub regular_stops: Option<Seq<StopView>>,
}

/// Mathematical value of a [`Route`].
pub struct RouteView {
    pub mot_chain: Option<Seq<MotView>>,
    pub partial_routes: Option<Seq<PartialRouteView>>,
}

impl DeepView for Mot {
    type V = MotView;

    open spec fn deep_view(&self) -> MotView {
        MotView {
            direction: self.direction.deep_view(),
            name: self.name.deep_view(),
            product_name: self.product_name.deep_view(),
        }
    }
}

impl View for Mot {
    type V = MotView;

    open spec fn view(&self) -> MotView {
        self.deep_view()
    }
}

impl DeepView for RegularStop {
    type V = StopView;

    open spec fn deep_view(&self) -> StopView {
        StopView { name: self.name.deep_view(), departure_time: self.departure_time }
    }
}

impl View for RegularStop {
    type V = StopView;

    open spec fn view(&self) -> StopView {
        self.deep_view()
    }
}

impl DeepView for PartialRoute {
    type V = PartialRouteView;

    open spec fn deep_view(&self) -> PartialRouteView {
        PartialRouteView {
            mot: self.mot.deep_view(),
            regular_stops: self.regular_stops.deep_view(),
        }
    }
}

impl View for PartialRoute {
    type V = PartialRouteView;

    open spec fn view(&self) -> PartialRouteView {
        self.deep_view()
    }
}

impl DeepView for Route {
    type V = RouteView;

    open spec fn deep_view(&self) -> RouteView {
        RouteView {
            mot_chain: self.mot_chain.deep_view(),
            partial_routes: self.partial_routes.deep_view(),
        }
    }
}

impl View for Route {
    type V = RouteView;

    open spec fn view(&self) -> RouteView {
        self.deep_view()
    }
}

impl Clone for Mot {
    fn clone(&self) -> (copy: Self)
        ensures
            copy@ == self@,
    {
        Mot {
            direction: copy_text(&self.direction),
            name: copy_text(&self.name),
            product_name: copy_text(&self.product_name),
        }
    }
}

impl Clone for RegularStop {
    fn clone(&self) -> (copy: Self)
        ensures
            copy@ == self@,
    {
        RegularStop { name: copy_text(&self.name), departure_time: self.departure_time }
    }
}

/// Copies a list of stops.
fn copy_stops(stops: &Vec<RegularStop>) -> (copy: Vec<RegularStop>)
    ensures
        copy.deep_view() == stops.deep_view(),
{
    let mut copy: Vec<RegularStop> = Vec::new();
    let mut i: usize = 0;
    while i < stops.len()
        invariant
            i <= stops.len(),
            copy.len() == i,
            forall|j: int| 0 <= j < i ==> copy[j]@ == stops[j]@,
        decreases stops.len() - i,
    {
        copy.push(stops[i].clone());
        i += 1;
    }
    assert(copy.deep_view() =~= stops.deep_view());
    copy
}

impl Clone for PartialRoute {
    fn clone(&self) -> (copy: Self)
        ensures
            copy@ == self@,
    {
        let mot = match &self.mot {
            Some(m) => Some(m.clone()),
            None => None,
        };
        let regular_stops = match &self.regular_stops {
            Some(stops) => Some(copy_stops(stops)),
            None => None,
        };
        PartialRoute { mot, regular_stops }
    }
}

/// Copies a chain of leg descriptors.
fn copy_chain(chain: &Vec<Mot>) -> (copy: Vec<Mot>)
    ensures
        copy.deep_view() == chain.deep_view(),
{
    let mut copy: Vec<Mot> = Vec::new();
    let mut i: usize = 0;
    while i < chain.len()
        invariant
            i <= chain.len(),
            copy.len() == i,
            forall|j: int| 0 <= j < i ==> copy[j]@ == chain[j]@,
        decreases chain.len() - i,
    {
        copy.push(chain[i].clone());
        i += 1;
    }
    assert(copy.deep_view() =~= chain.deep_view());
    copy
}

/// Copies a list of legs.
fn copy_legs(legs: &Vec<PartialRoute>) -> (copy: Vec<PartialRoute>)
    ensures
        copy.deep_view() == legs.deep_view(),
{
    let mut copy: Vec<PartialRoute> = Vec::new();
    let mut i: usize = 0;
    while i < legs.len()
        invariant
            i <= legs.len(),
            copy.len() == i,
            forall|j: int| 0 <= j < i ==> copy[j]@ == legs[j]@,
        decreases legs.len() - i,
    {
        copy.push(legs[i].clone());
        i += 1;
    }
    assert(copy.deep_view() =~= legs.deep_view());
    copy
}

impl Clone for Route {
    fn clone(&self) -> (copy: Self)
        ensures
            copy@ == self@,
    {
        let mot_chain = match &self.mot_chain {
            Some(chain) => Some(copy_chain(chain)),
            None => None,
        };
        let partial_routes = match &self.partial_routes {
            Some(legs) => Some(copy_legs(legs)),
            None => None,
        };
        Route { mot_chain, partial_routes }
    }
}

/// The text shown where a name is missing.
pub open spec fn unknown() -> Seq<char> {
    "Unbekannt"@
}

/// The first stop of the first leg, if the route has one.
pub open spec fn first_stop_of(route: RouteView) -> Option<StopView> {
    match route.partial_routes {
        Some(legs) => if legs.len() > 0 {
            match legs[0].regular_stops {
                Some(stops) => if stops.len() > 0 {
                    Some(stops[0])
                } else {
                    None
                },
                None => None,
            }
        } else {
            None
        },
        None => None,
    }
}

/// The last stop of the last leg, if the route has one.
pub open spec fn last_stop_of(route: RouteView) -> Option<StopView> {
    match route.partial_routes {
        Some(legs) => if legs.len() > 0 {
            match legs.last().regular_stops {
                Some(stops) => if stops.len() > 0 {
                    Some(stops.last())
                } else {
                    None
                },
                None => None,
            }
        } else {
            None
        },
        None => None,
    }
}

/// The name of a stop that may be missing altogether.
pub open spec fn stop_name(stop: Option<StopView>) -> Seq<char> {
    match stop {
        Some(s) => match s.name {
            Some(name) => name,
            None => unknown(),
        },
        None => unknown(),
    }
}

/// The departure from a stop that may be missing altogether; `now` stands
/// in where no time is known.
pub open spec fn stop_departure(stop: Option<StopView>, now: Instant) -> Instant {
    match stop {
        Some(s) => match s.departure_time {
            Some(time) => time,
            None => now,
        },
        None => now,
    }
}

/// Where the route starts: the name of the first stop of its first leg.
pub open spec fn origin_name(route: RouteView) -> Seq<char> {
    stop_name(first_stop_of(route))
}

/// Where the route ends: the name of the last stop of its last leg.
pub open spec fn destination_name(route: RouteView) -> Seq<char> {
    stop_name(last_stop_of(route))
}

/// When the route departs: the departure from the first stop of its first
/// leg, or `now` where that is not known.
pub open spec fn route_departure(route: RouteView, now: Instant) -> Instant {
    stop_departure(first_stop_of(route), now)
}

/// When a leg departs: the departure from its first stop, or `now` where
/// that is not known.
pub open spec fn leg_departure(leg: PartialRouteView, now: Instant) -> Instant {
    match leg.regular_stops {
        Some(stops) => if stops.len() > 0 {
            stop_departure(Some(stops[0]), now)
        } else {
            now
        },
        None => now,
    }
}

/// The descriptor of the first leg, if the route has one.
pub open spec fn first_mot_of(route: RouteView) -> Option<MotView> {
    match route.mot_chain {
        Some(chain) => if chain.len() > 0 {
            Some(chain[0])
        } else {
            None
        },
        None => None,
    }
}

impl PartialRoute {
    /// The first stop of the leg.
    pub fn first_stop(&self) -> (stop: Option<&RegularStop>)
        ensures
            stop.deep_view() == match self@.regular_stops {
                Some(stops) => if stops.len() > 0 {
                    Some(stops[0])
                } else {
                    None
                },
                None => None,
            },
    {
        match &self.regular_stops {
            Some(stops) => if stops.len() > 0 {
                Some(&stops[0])
            } else {
                None
            },
            None => None,
        }
    }

    /// The last stop of the leg.
    pub fn last_stop(&self) -> (stop: Option<&RegularStop>)
        ensures
            stop.deep_view() == match self@.regular_stops {
                Some(stops) => if stops.len() > 0 {
                    Some(stops.last())
                } else {
                    None
                },
                None => None,
            },
    {
        match &self.regular_stops {
            Some(stops) => if stops.len() > 0 {
                Some(&stops[stops.len() - 1])
            } else {
                None
            },
            None => None,
        }
    }

    /// When the leg departs, with `now` in place of an unknown time.
    pub fn departure(&self, now: Instant) -> (time: Instant)
        ensures
            time == leg_departure(self@, now),
    {
        departure_from(self.first_stop(), now)
    }
}

/// Reads the name of a stop, with the placeholder where it is missing.
fn name_of(stop: Option<&RegularStop>) -> (name: String)
    ensures
        name@ == stop_name(stop.deep_view()),
{
    match stop {
        Some(s) => match &s.name {
            Some(name) => name.clone(),
            None => String::from_str("Unbekannt"),
        },
        None => String::from_str("Unbekannt"),
    }
}

/// Reads the departure from a stop, with `now` where it is missing.
fn departure_from(stop: Option<&RegularStop>, now: Instant) -> (time: Instant)
    ensures
        time == stop_departure(stop.deep_view(), now),
{
    match stop {
        Some(s) => match s.departure_time {
            Some(time) => time,
            None => now,
        },
        None => now,
    }
}

impl Route {
    /// The first stop of the first leg.
    pub fn first_stop(&self) -> (stop: Option<&RegularStop>)
        ensures
            stop.deep_view() == first_stop_of(self@),
    {
        match &self.partial_routes {
            Some(legs) => if legs.len() > 0 {
                legs[0].first_stop()
            } else {
                None
            },
            None => None,
        }
    }

    /// The last stop of the last leg.
    pub fn last_stop(&self) -> (stop: Option<&RegularStop>)
        ensures
            stop.deep_view() == last_stop_of(self@),
    {
        match &self.partial_routes {
            Some(legs) => if legs.len() > 0 {
                legs[legs.len() - 1].last_stop()
            } else {
                None
            },
            None => None,
        }
    }

    /// When the route departs, with `now` in place of an unknown time.
    pub fn departure(&self, now: Instant) -> (time: Instant)
        ensures
            time == route_departure(self@, now),
    {
        departure_from(self.first_stop(), now)
    }

    /// The descriptor of the first leg.
    pub fn first_mot(&self) -> (mot: Option<&Mot>)
        ensures
            mot.deep_view() == first_mot_of(self@),
    {
        match &self.mot_chain {
            Some(chain) => if chain.len() > 0 {
                Some(&chain[0])
            } else {
                None
            },
            None => None,
        }
    }
}

/// Origin, destination and departure time of a route. A missing name reads
/// as the placeholder, a missing departure time as `now`.
pub fn extract_route_info(route: &Route, now: Instant) -> (info: (String, String, Instant))
    ensures
        info.0@ == origin_name(route@),
        info.1@ == destination_name(route@),
        info.2 == route_departure(route@, now),
{
    let first = route.first_stop();
    let origin = name_of(first);
    let destination = name_of(route.last_stop());
    let departure = departure_from(first, now);
    (origin, destination, departure)
}

} // verus!
