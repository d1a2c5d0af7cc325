//! Composite keys: the signature under which a route or a leg is cached.
//!
//! A key is the direction, the line name and the product name of a leg and
//! the departure time down to the second, joined by `|`. The departure time
//! takes part in every key, for routes and for legs alike. Keys are derived,
//! not unique: two legs with the same four parts share one key.

use crate::instant::Instant;
use crate::optional::{text_or, text_or_else};
use crate::route::{
    first_mot_of,
    leg_departure,
    route_departure,
    Mot,
    MotView,
    PartialRoute,
    PartialRouteView,
    Route,
    RouteView,
};
use vstd::prelude::*;
use vstd::string::*;

verus! {

/// Key of a cached route.
pub type RouteKey = String;

/// Key of a cached leg.
pub type PartialRouteKey = String;

/// The four parts of a key joined by `|`.
pub open spec fn composite_key(
    direction: Seq<char>,
    name: Seq<char>,
    product_name: Seq<char>,
    stamp: Seq<char>,
) -> Seq<char> {
    direction + seq!['|'] + name + seq!['|'] + product_name + seq!['|'] + stamp
}

/// The key of a leg described by `mot` that departs at `departure`. A
/// missing part of the description counts as the empty text.
pub open spec fn mot_key(mot: MotView, departure: Instant) -> Seq<char> {
    composite_key(
        text_or(mot.direction, Seq::empty()),
        text_or(mot.name, Seq::empty()),
        text_or(mot.product_name, Seq::empty()),
        departure.key_stamp_text(),
    )
}

/// The key of a route: the key of its first leg descriptor with the
/// departure time of the route. A route without leg descriptors has none.
pub open spec fn route_key(route: RouteView, now: Instant) -> Option<Seq<char>> {
    match first_mot_of(route) {
        Some(mot) => Some(mot_key(mot, route_departure(route, now))),
        None => None,
    }
}

/// The key of a leg: the key of its descriptor with the departure time of
/// the leg. A leg without a descriptor has none.
pub open spec fn leg_key(leg: PartialRouteView, now: Instant) -> Option<Seq<char>> {
    match leg.mot {
        Some(mot) => Some(mot_key(mot, leg_departure(leg, now))),
        None => None,
    }
}

/// Two legs with the same description that depart within the same second,
/// read on clocks with the same offset, have the same key.
pub proof fn lemma_same_second_same_key(mot: MotView, first: Instant, second: Instant)
    requires
        first.spec_seconds() == second.spec_seconds(),
        first.spec_offset() == second.spec_offset(),
    ensures
        mot_key(mot, first) == mot_key(mot, second),
{
}

/// Builds the composite key of a leg from its description and its departure
/// time.
pub fn make_composite_key(
    direction: &str,
    name: &str,
    product_name: &str,
    departure_time: Instant,
) -> (key: String)
    ensures
        key@ == composite_key(direction@, name@, product_name@, departure_time.key_stamp_text()),
{
    let stamp = departure_time.key_stamp();
    let mut key = String::from_str(direction);
    proof {
        reveal_strlit("|");
        assert("|"@ =~= seq!['|']);
    }
    key.append("|");
    key.append(name);
    key.append("|");
    key.append(product_name);
    key.append("|");
    key.append(stamp.as_str());
    key
}

/// Builds the key of the leg that `mot` describes.
pub fn key_of_mot(mot: &Mot, departure_time: Instant) -> (key: String)
    ensures
        key@ == mot_key(mot@, departure_time),
{
    proof {
        reveal_strlit("");
        assert(""@ =~= Seq::<char>::empty());
    }
    make_composite_key(
        text_or_else(&mot.direction, ""),
        text_or_else(&mot.name, ""),
        text_or_else(&mot.product_name, ""),
        departure_time,
    )
}

/// Builds the key of a route, if it has one. A missing departure time
/// counts as `now`.
pub fn key_of_route(route: &Route, now: Instant) -> (key: Option<RouteKey>)
    ensures
        key.deep_view() == route_key(route@, now),
{
    match route.first_mot() {
        Some(mot) => Some(key_of_mot(mot, route.departure(now))),
        None => None,
    }
}

/// Builds the key of a leg, if it has one. A missing departure time counts
/// as `now`.
pub fn key_of_leg(leg: &PartialRoute, now: Instant) -> (key: Option<PartialRouteKey>)
    ensures
        key.deep_view() == leg_key(leg@, now),
{
    match &leg.mot {
        Some(mot) => Some(key_of_mot(mot, leg.departure(now))),
        None => None,
    }
}

} // verus!
