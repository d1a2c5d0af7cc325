//! Short human-readable descriptions of cached routes, such as
//! `Tram von Hauptbahnhof nach Bühlau um 08:00`, by which a caller can point
//! at a route in conversation, and the split into upcoming and missed ones.

use crate::instant::Instant;
use crate::key::RouteKey;
use crate::optional::{text_or, text_or_else};
use crate::route::{
    destination_name,
    extract_route_info,
    first_mot_of,
    origin_name,
    route_departure,
    unknown,
    Route,
    RouteView,
};
use vstd::prelude::*;
use vstd::string::*;

verus! {

/// Short summary of a route for display and lookup.
#[derive(Debug, PartialEq, Eq)]
pub struct RouteSummary {
    /// The key under which the route is cached.
    pub key: RouteKey,
    /// The description shown to the user.
    pub summary: String,
    /// When the route departs.
    pub departure_time: Instant,
}

/// Mathematical value of a [`RouteSummary`].
pub struct SummaryView {
    pub key: Seq<char>,
    pub summary: Seq<char>,
    pub departure_time: Instant,
}

impl DeepView for RouteSummary {
    type V = SummaryView;

    open spec fn deep_view(&self) -> SummaryView {
        SummaryView {
            key: self.key@,
            summary: self.summary@,
            departure_time: self.departure_time,
        }
    }
}

impl View for RouteSummary {
    type V = SummaryView;

    open spec fn view(&self) -> SummaryView {
        self.deep_view()
    }
}

/// The kind of vehicle of the first leg, or the placeholder where the route
/// does not say.
pub open spec fn product_of(route: RouteView) -> Seq<char> {
    match first_mot_of(route) {
        Some(mot) => text_or(mot.product_name, unknown()),
        None => unknown(),
    }
}

/// The description of a route: vehicle, origin, destination and the time of
/// day of the departure, with the placeholder for every missing name and
/// `now` for a missing departure time.
pub open spec fn summary_text(route: RouteView, now: Instant) -> Seq<char> {
    product_of(route) + " von "@ + origin_name(route) + " nach "@ + destination_name(route)
        + " um "@ + route_departure(route, now).clock()
}

/// The summary of the route cached under `key`.
pub open spec fn summary_of(key: Seq<char>, route: RouteView, now: Instant) -> SummaryView {
    SummaryView {
        key,
        summary: summary_text(route, now),
        departure_time: route_departure(route, now),
    }
}

impl Clone for RouteSummary {
    fn clone(&self) -> (copy: Self)
        ensures
            copy@ == self@,
    {
        RouteSummary {
            key: self.key.clone(),
            summary: self.summary.clone(),
            departure_time: self.departure_time,
        }
    }
}

impl RouteSummary {
    /// Whether the route departs strictly after `now`. A route that departs
    /// at `now` exactly has been missed.
    pub fn is_future(&self, now: Instant) -> (future: bool)
        ensures
            future == self.departure_time.later_than(now),
    {
        self.departure_time.is_after(&now)
    }
}

/// Reads the kind of vehicle of the first leg of a route.
fn product_name_of(route: &Route) -> (product: &str)
    ensures
        product@ == product_of(route@),
{
    match route.first_mot() {
        Some(mot) => text_or_else(&mot.product_name, "Unbekannt"),
        None => "Unbekannt",
    }
}

/// Describes the route cached under `key`.
pub fn summarize(key: &str, route: &Route, now: Instant) -> (summary: RouteSummary)
    ensures
        summary@ == summary_of(key@, route@, now),
{
    let (origin, destination, departure_time) = extract_route_info(route, now);
    let clock = departure_time.clock_string();
    let mut text = String::from_str(product_name_of(route));
    text.append(" von ");
    text.append(origin.as_str());
    text.append(" nach ");
    text.append(destination.as_str());
    text.append(" um ");
    text.append(clock.as_str());
    RouteSummary { key: String::from_str(key), summary: text, departure_time }
}

} // verus!
