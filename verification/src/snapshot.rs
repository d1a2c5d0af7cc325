//! What a cache holds after a list of routes was stored in it, as a
//! mathematical value, and the laws that hold of every such value.

use crate::instant::Instant;
use crate::key::{composite_key, leg_key, mot_key, route_key};
use crate::optional::text_or;
use crate::route::{
    first_mot_of,
    leg_departure,
    route_departure,
    MotView,
    PartialRouteView,
    RouteView,
};
use vstd::prelude::*;

verus! {

/// The keys of those legs that have one, in travel order.
pub open spec fn leg_keys(legs: Seq<PartialRouteView>, now: Instant) -> Seq<Seq<char>>
    decreases legs.len(),
{
    if legs.len() == 0 {
        Seq::empty()
    } else {
        let before = leg_keys(legs.drop_last(), now);
        match leg_key(legs.last(), now) {
            Some(key) => before.push(key),
            None => before,
        }
    }
}

/// `known` after each leg that has a key was entered under it, one after
/// the other: of two legs with one key the later stays.
pub open spec fn with_legs(
    known: Map<Seq<char>, PartialRouteView>,
    legs: Seq<PartialRouteView>,
    now: Instant,
) -> Map<Seq<char>, PartialRouteView>
    decreases legs.len(),
{
    if legs.len() == 0 {
        known
    } else {
        let before = with_legs(known, legs.drop_last(), now);
        match leg_key(legs.last(), now) {
            Some(key) => before.insert(key, legs.last()),
            None => before,
        }
    }
}

/// Whether `key` was derived from the description `mot`: it is made of the
/// direction, the line name and the product name that `mot` gives, in that
/// order, and of some timestamp.
pub open spec fn keyed_by(key: Seq<char>, mot: Option<MotView>) -> bool {
    &&& mot matches Some(m)
    &&& exists|stamp: Seq<char>|
        key == #[trigger] composite_key(
            text_or(m.direction, Seq::empty()),
            text_or(m.name, Seq::empty()),
            text_or(m.product_name, Seq::empty()),
            stamp,
        )
}

/// Mathematical value of a route cache.
pub struct CacheView {
    /// The cached routes by key.
    pub routes: Map<Seq<char>, RouteView>,
    /// The cached legs by key.
    pub partial_routes: Map<Seq<char>, PartialRouteView>,
    /// For a route key, the keys of the route's legs in travel order.
    pub route_to_partial: Map<Seq<char>, Seq<Seq<char>>>,
    /// The route keys in the order in which they first came in.
    pub order: Seq<Seq<char>>,
}

impl CacheView {
    /// The cache that holds nothing.
    pub open spec fn empty() -> CacheView {
        CacheView {
            routes: Map::empty(),
            partial_routes: Map::empty(),
            route_to_partial: Map::empty(),
            order: Seq::empty(),
        }
    }

    /// The cache after one more route came in. A route without a key is
    /// dropped. A route whose key is taken replaces the route that had it.
    /// Legs are entered, and the route's leg keys recorded, only where the
    /// route carries legs.
    pub open spec fn ingest(self, route: RouteView, now: Instant) -> CacheView {
        match route_key(route, now) {
            None => self,
            Some(key) => CacheView {
                routes: self.routes.insert(key, route),
                partial_routes: match route.partial_routes {
                    Some(legs) => with_legs(self.partial_routes, legs, now),
                    None => self.partial_routes,
                },
                route_to_partial: match route.partial_routes {
                    Some(legs) => self.route_to_partial.insert(key, leg_keys(legs, now)),
                    None => self.route_to_partial,
                },
                order: if self.routes.contains_key(key) {
                    self.order
                } else {
                    self.order.push(key)
                },
            },
        }
    }

    /// The three maps and the order agree: the order lists each route key
    /// once, every route with recorded legs is cached, every recorded leg
    /// key leads to a cached leg, and every route and every leg is cached
    /// under a key derived from its own description.
    pub open spec fn consistent(self) -> bool {
        &&& forall|key: Seq<char>| #[trigger]
            self.routes.contains_key(key) ==> keyed_by(key, first_mot_of(self.routes[key]))
        &&& forall|key: Seq<char>| #[trigger]
            self.partial_routes.contains_key(key) ==> keyed_by(key, self.partial_routes[key].mot)
        &&& forall|i: int|
            0 <= i < self.order.len() ==> self.routes.contains_key(#[trigger] self.order[i])
        &&& forall|key: Seq<char>| #[trigger]
            self.routes.contains_key(key) ==> self.order.contains(key)
        &&& self.order.no_duplicates()
        &&& forall|route: Seq<char>| #[trigger]
            self.route_to_partial.contains_key(route) ==> self.routes.contains_key(route)
        &&& forall|route: Seq<char>, i: int|
            self.route_to_partial.contains_key(route) && 0 <= i
                < self.route_to_partial[route].len() ==> self.partial_routes.contains_key(
                #[trigger] self.route_to_partial[route][i],
            )
    }
}

/// The cache after `routes` were stored in it, whatever it held before.
pub open spec fn snapshot(routes: Seq<RouteView>, now: Instant) -> CacheView
    decreases routes.len(),
{
    if routes.len() == 0 {
        CacheView::empty()
    } else {
        snapshot(routes.drop_last(), now).ingest(routes.last(), now)
    }
}

/// Entering legs keeps every leg that was known before.
pub proof fn lemma_with_legs_keeps(
    known: Map<Seq<char>, PartialRouteView>,
    legs: Seq<PartialRouteView>,
    now: Instant,
    key: Seq<char>,
)
    requires
        known.contains_key(key),
    ensures
        with_legs(known, legs, now).contains_key(key),
    decreases legs.len(),
{
    if legs.len() > 0 {
        lemma_with_legs_keeps(known, legs.drop_last(), now, key);
    }
}

/// Every key of a list of legs leads, once the legs are entered, to a leg.
pub proof fn lemma_leg_keys_known(
    known: Map<Seq<char>, PartialRouteView>,
    legs: Seq<PartialRouteView>,
    now: Instant,
    i: int,
)
    requires
        0 <= i < leg_keys(legs, now).len(),
    ensures
        with_legs(known, legs, now).contains_key(leg_keys(legs, now)[i]),
    decreases legs.len(),
{
    if legs.len() > 0 {
        let before = leg_keys(legs.drop_last(), now);
        if i < before.len() {
            lemma_leg_keys_known(known, legs.drop_last(), now, i);
        }
    }
}

/// A key derived from a description and a departure time is derived from
/// that description.
pub proof fn lemma_mot_key_keyed(mot: MotView, departure: Instant)
    ensures
        keyed_by(mot_key(mot, departure), Some(mot)),
{
    assert(mot_key(mot, departure) == composite_key(
        text_or(mot.direction, Seq::empty()),
        text_or(mot.name, Seq::empty()),
        text_or(mot.product_name, Seq::empty()),
        departure.key_stamp_text(),
    ));
}

/// Entering legs keeps every leg under a key derived from its description.
pub proof fn lemma_with_legs_keyed(
    known: Map<Seq<char>, PartialRouteView>,
    legs: Seq<PartialRouteView>,
    now: Instant,
)
    requires
        forall|key: Seq<char>| #[trigger]
            known.contains_key(key) ==> keyed_by(key, known[key].mot),
    ensures
        forall|key: Seq<char>| #[trigger]
            with_legs(known, legs, now).contains_key(key) ==> keyed_by(
                key,
                with_legs(known, legs, now)[key].mot,
            ),
    decreases legs.len(),
{
    if legs.len() > 0 {
        lemma_with_legs_keyed(known, legs.drop_last(), now);
        if let Some(mot) = legs.last().mot {
            lemma_mot_key_keyed(mot, leg_departure(legs.last(), now));
        }
    }
}

/// Taking in a route keeps a consistent cache consistent.
pub proof fn lemma_ingest_consistent(cache: CacheView, route: RouteView, now: Instant)
    requires
        cache.consistent(),
    ensures
        cache.ingest(route, now).consistent(),
{
    let after = cache.ingest(route, now);
    match route_key(route, now) {
        None => {},
        Some(key) => {
            lemma_mot_key_keyed(first_mot_of(route)->0, route_departure(route, now));
            if let Some(legs) = route.partial_routes {
                lemma_with_legs_keyed(cache.partial_routes, legs, now);
            }
            assert forall|k: Seq<char>| #[trigger]
                after.routes.contains_key(k) implies after.order.contains(k) by {
                if cache.routes.contains_key(k) {
                    let i = choose|i: int| 0 <= i < cache.order.len() && cache.order[i] == k;
                    assert(after.order[i] == k);
                } else {
                    assert(k == key);
                    assert(after.order[cache.order.len() as int] == k);
                }
            }
            assert forall|r: Seq<char>, i: int|
                after.route_to_partial.contains_key(r) && 0 <= i
                    < after.route_to_partial[r].len() implies after.partial_routes.contains_key(
                #[trigger] after.route_to_partial[r][i],
            ) by {
                match route.partial_routes {
                    None => {},
                    Some(legs) => {
                        if r == key {
                            lemma_leg_keys_known(cache.partial_routes, legs, now, i);
                        } else {
                            lemma_with_legs_keeps(
                                cache.partial_routes,
                                legs,
                                now,
                                cache.route_to_partial[r][i],
                            );
                        }
                    },
                }
            }
        },
    }
}

/// Whatever was stored, the three maps and the order agree afterwards.
pub proof fn lemma_snapshot_consistent(routes: Seq<RouteView>, now: Instant)
    ensures
        snapshot(routes, now).consistent(),
    decreases routes.len(),
{
    if routes.len() > 0 {
        lemma_snapshot_consistent(routes.drop_last(), now);
        lemma_ingest_consistent(snapshot(routes.drop_last(), now), routes.last(), now);
    }
}

/// The keys that the routes of a list have.
pub open spec fn keys_of(routes: Seq<RouteView>, now: Instant) -> Set<Seq<char>> {
    Set::new(
        |key: Seq<char>|
            exists|i: int|
                0 <= i < routes.len() && route_key(#[trigger] routes[i], now) == Some(key),
    )
}

/// A key is cached exactly when a route of the stored list has it.
pub proof fn lemma_route_cached_iff(routes: Seq<RouteView>, now: Instant, key: Seq<char>)
    ensures
        snapshot(routes, now).routes.contains_key(key) <==> keys_of(routes, now).contains(key),
    decreases routes.len(),
{
    if routes.len() > 0 {
        let rest = routes.drop_last();
        lemma_route_cached_iff(rest, now, key);
        if keys_of(rest, now).contains(key) {
            let i = choose|i: int|
                0 <= i < rest.len() && route_key(#[trigger] rest[i], now) == Some(key);
            assert(routes[i] == rest[i]);
        }
        if route_key(routes.last(), now) == Some(key) {
            assert(routes[routes.len() - 1] == routes.last());
        }
        if keys_of(routes, now).contains(key) {
            let i = choose|i: int|
                0 <= i < routes.len() && route_key(#[trigger] routes[i], now) == Some(key);
            if i < rest.len() {
                assert(rest[i] == routes[i]);
            }
        }
    }
}

/// After a list of routes was stored, the cache holds exactly one entry for
/// each key that a route of the list has: the cached keys are those keys,
/// the order lists each of them once, and there are no more entries than
/// routes.
pub proof fn lemma_one_entry_per_key(routes: Seq<RouteView>, now: Instant)
    ensures
        snapshot(routes, now).routes.dom() == keys_of(routes, now),
        snapshot(routes, now).order.no_duplicates(),
        snapshot(routes, now).order.to_set() == keys_of(routes, now),
        keys_of(routes, now).finite(),
        keys_of(routes, now).len() == snapshot(routes, now).order.len(),
        snapshot(routes, now).order.len() <= routes.len(),
{
    let cache = snapshot(routes, now);
    assert forall|key: Seq<char>| cache.routes.dom().contains(key) == keys_of(
        routes,
        now,
    ).contains(key) by {
        lemma_route_cached_iff(routes, now, key);
    }
    assert(cache.routes.dom() =~= keys_of(routes, now));
    lemma_snapshot_consistent(routes, now);
    assert(cache.order.to_set() =~= cache.routes.dom());
    cache.order.unique_seq_to_set();
    lemma_order_short(routes, now);
}

/// The cache never lists more keys than routes were stored.
proof fn lemma_order_short(routes: Seq<RouteView>, now: Instant)
    ensures
        snapshot(routes, now).order.len() <= routes.len(),
    decreases routes.len(),
{
    if routes.len() > 0 {
        lemma_order_short(routes.drop_last(), now);
    }
}

/// Of the routes of a list that share a key, the last one is cached.
pub proof fn lemma_last_route_stays(routes: Seq<RouteView>, now: Instant, i: int)
    requires
        0 <= i < routes.len(),
        route_key(routes[i], now) is Some,
        forall|j: int|
            i < j < routes.len() ==> route_key(#[trigger] routes[j], now) != route_key(
                routes[i],
                now,
            ),
    ensures
        snapshot(routes, now).routes.contains_key(route_key(routes[i], now)->0),
        snapshot(routes, now).routes[route_key(routes[i], now)->0] == routes[i],
    decreases routes.len(),
{
    let rest = routes.drop_last();
    if i < routes.len() - 1 {
        assert(rest[i] == routes[i]);
        assert forall|j: int| i < j < rest.len() implies route_key(
            #[trigger] rest[j],
            now,
        ) != route_key(rest[i], now) by {
            assert(rest[j] == routes[j]);
        }
        lemma_last_route_stays(rest, now, i);
        assert(routes[routes.len() - 1] == routes.last());
    }
}

/// Whether the route at position `i` brings the key `key` into the cache:
/// it has that key, and no route before it has.
pub open spec fn arrives(routes: Seq<RouteView>, now: Instant, i: int, key: Seq<char>) -> bool {
    &&& 0 <= i < routes.len()
    &&& route_key(routes[i], now) == Some(key)
    &&& forall|j: int| 0 <= j < i ==> route_key(#[trigger] routes[j], now) != Some(key)
}

/// A route that brings a key into a list still brings it into a longer one.
proof fn lemma_arrives_extends(routes: Seq<RouteView>, now: Instant, i: int, key: Seq<char>)
    requires
        routes.len() > 0,
        arrives(routes.drop_last(), now, i, key),
    ensures
        arrives(routes, now, i, key),
{
    let rest = routes.drop_last();
    assert(rest[i] == routes[i]);
    assert forall|j: int| 0 <= j < i implies route_key(#[trigger] routes[j], now) != Some(
        key,
    ) by {
        assert(rest[j] == routes[j]);
    }
}

/// The last route of a list brings its key where the key was not cached
/// before.
proof fn lemma_last_arrives(routes: Seq<RouteView>, now: Instant, key: Seq<char>)
    requires
        routes.len() > 0,
        route_key(routes.last(), now) == Some(key),
        !snapshot(routes.drop_last(), now).routes.contains_key(key),
    ensures
        arrives(routes, now, routes.len() - 1, key),
{
    let rest = routes.drop_last();
    lemma_route_cached_iff(rest, now, key);
    assert forall|j: int| 0 <= j < routes.len() - 1 implies route_key(
        #[trigger] routes[j],
        now,
    ) != Some(key) by {
        assert(rest[j] == routes[j]);
    }
}

/// Every key in the order was brought in by a route of the list.
pub proof fn lemma_order_key_arrived(routes: Seq<RouteView>, now: Instant, a: int)
    requires
        0 <= a < snapshot(routes, now).order.len(),
    ensures
        exists|i: int| #[trigger] arrives(routes, now, i, snapshot(routes, now).order[a]),
    decreases routes.len(),
{
    if routes.len() > 0 {
        let rest = routes.drop_last();
        let before = snapshot(rest, now);
        let key = snapshot(routes, now).order[a];
        if a < before.order.len() {
            lemma_order_key_arrived(rest, now, a);
            let i = choose|i: int| #[trigger] arrives(rest, now, i, before.order[a]);
            lemma_arrives_extends(routes, now, i, key);
        } else {
            lemma_last_arrives(routes, now, key);
        }
    }
}

/// The order is the order of first arrival: of two keys in it, the earlier
/// one was brought in by an earlier route of the list.
pub proof fn lemma_order_by_first_arrival(routes: Seq<RouteView>, now: Instant, a: int, b: int)
    requires
        0 <= a < b < snapshot(routes, now).order.len(),
    ensures
        exists|i: int, j: int|
            i < j && #[trigger] arrives(routes, now, i, snapshot(routes, now).order[a])
                && #[trigger] arrives(routes, now, j, snapshot(routes, now).order[b]),
    decreases routes.len(),
{
    if routes.len() > 0 {
        let rest = routes.drop_last();
        let before = snapshot(rest, now);
        let first = snapshot(routes, now).order[a];
        let second = snapshot(routes, now).order[b];
        if b < before.order.len() {
            lemma_order_by_first_arrival(rest, now, a, b);
            let (i, j) = choose|i: int, j: int|
                i < j && #[trigger] arrives(rest, now, i, before.order[a]) && #[trigger] arrives(
                    rest,
                    now,
                    j,
                    before.order[b],
                );
            lemma_arrives_extends(routes, now, i, first);
            lemma_arrives_extends(routes, now, j, second);
        } else {
            lemma_order_key_arrived(rest, now, a);
            let i = choose|i: int| #[trigger] arrives(rest, now, i, before.order[a]);
            lemma_arrives_extends(routes, now, i, first);
            lemma_last_arrives(routes, now, second);
            assert(arrives(routes, now, routes.len() - 1, second));
        }
    }
}

/// Every route is cached under the key that its own description gives.
pub open spec fn routes_coherent(routes: Map<Seq<char>, RouteView>, now: Instant) -> bool {
    forall|key: Seq<char>| #[trigger]
        routes.contains_key(key) ==> route_key(routes[key], now) == Some(key)
}

/// Every leg is cached under the key that its own description gives.
pub open spec fn legs_coherent(legs: Map<Seq<char>, PartialRouteView>, now: Instant) -> bool {
    forall|key: Seq<char>| #[trigger]
        legs.contains_key(key) ==> leg_key(legs[key], now) == Some(key)
}

/// Entering legs keeps keys and legs in agreement.
pub proof fn lemma_with_legs_coherent(
    known: Map<Seq<char>, PartialRouteView>,
    legs: Seq<PartialRouteView>,
    now: Instant,
)
    requires
        legs_coherent(known, now),
    ensures
        legs_coherent(with_legs(known, legs, now), now),
    decreases legs.len(),
{
    if legs.len() > 0 {
        lemma_with_legs_coherent(known, legs.drop_last(), now);
    }
}

/// After a store, every cached route and every cached leg sits under the
/// key derived from its own direction, line, product and departure time.
pub proof fn lemma_snapshot_coherent(routes: Seq<RouteView>, now: Instant)
    ensures
        routes_coherent(snapshot(routes, now).routes, now),
        legs_coherent(snapshot(routes, now).partial_routes, now),
    decreases routes.len(),
{
    if routes.len() > 0 {
        let before = snapshot(routes.drop_last(), now);
        lemma_snapshot_coherent(routes.drop_last(), now);
        match routes.last().partial_routes {
            Some(legs) => {
                lemma_with_legs_coherent(before.partial_routes, legs, now);
            },
            None => {},
        }
    }
}

/// Every leg key recorded for a cached route leads to a cached leg, and that
/// leg has the very direction, line name and product name from which the
/// key was derived.
pub proof fn lemma_leg_keys_resolve(
    routes: Seq<RouteView>,
    now: Instant,
    route: Seq<char>,
    i: int,
)
    requires
        snapshot(routes, now).route_to_partial.contains_key(route),
        0 <= i < snapshot(routes, now).route_to_partial[route].len(),
    ensures
        snapshot(routes, now).routes.contains_key(route),
        ({
            let cache = snapshot(routes, now);
            let key = cache.route_to_partial[route][i];
            &&& cache.partial_routes.contains_key(key)
            &&& cache.partial_routes[key].mot is Some
            &&& key == mot_key(
                cache.partial_routes[key].mot->0,
                leg_departure(cache.partial_routes[key], now),
            )
        }),
{
    lemma_snapshot_consistent(routes, now);
    lemma_snapshot_coherent(routes, now);
    let cache = snapshot(routes, now);
    assert(cache.partial_routes.contains_key(cache.route_to_partial[route][i]));
}

/// Whether one of `legs` has the key `key`.
pub open spec fn has_leg_key(legs: Seq<PartialRouteView>, now: Instant, key: Seq<char>) -> bool {
    exists|i: int| 0 <= i < legs.len() && leg_key(#[trigger] legs[i], now) == Some(key)
}

/// Whether storing `route` enters a leg under `key`: the route has a key of
/// its own, carries legs, and one of them has the key `key`.
pub open spec fn gives_leg_key(route: RouteView, now: Instant, key: Seq<char>) -> bool {
    &&& route_key(route, now) is Some
    &&& route.partial_routes matches Some(legs)
    &&& has_leg_key(legs, now, key)
}

/// The keys under which storing a list of routes enters legs.
pub open spec fn leg_keys_of(routes: Seq<RouteView>, now: Instant) -> Set<Seq<char>> {
    Set::new(
        |key: Seq<char>|
            exists|i: int| 0 <= i < routes.len() && gives_leg_key(#[trigger] routes[i], now, key),
    )
}

/// After legs were entered, a key is known exactly when it was known before
/// or one of the legs has it.
pub proof fn lemma_with_legs_known_iff(
    known: Map<Seq<char>, PartialRouteView>,
    legs: Seq<PartialRouteView>,
    now: Instant,
    key: Seq<char>,
)
    ensures
        with_legs(known, legs, now).contains_key(key) <==> known.contains_key(key) || has_leg_key(
            legs,
            now,
            key,
        ),
    decreases legs.len(),
{
    if legs.len() > 0 {
        let rest = legs.drop_last();
        lemma_with_legs_known_iff(known, rest, now, key);
        if has_leg_key(rest, now, key) {
            let i = choose|i: int|
                0 <= i < rest.len() && leg_key(#[trigger] rest[i], now) == Some(key);
            assert(legs[i] == rest[i]);
        }
        if leg_key(legs.last(), now) == Some(key) {
            assert(legs[legs.len() - 1] == legs.last());
        }
        if has_leg_key(legs, now, key) {
            let i = choose|i: int|
                0 <= i < legs.len() && leg_key(#[trigger] legs[i], now) == Some(key);
            if i < rest.len() {
                assert(rest[i] == legs[i]);
            }
        }
    }
}

/// A leg key is cached exactly when a route of the stored list entered a
/// leg under it.
pub proof fn lemma_leg_cached_iff(routes: Seq<RouteView>, now: Instant, key: Seq<char>)
    ensures
        snapshot(routes, now).partial_routes.contains_key(key) <==> leg_keys_of(
            routes,
            now,
        ).contains(key),
    decreases routes.len(),
{
    if routes.len() > 0 {
        let rest = routes.drop_last();
        let last = routes.last();
        lemma_leg_cached_iff(rest, now, key);
        if route_key(last, now) is Some {
            if let Some(legs) = last.partial_routes {
                lemma_with_legs_known_iff(snapshot(rest, now).partial_routes, legs, now, key);
            }
        }
        if leg_keys_of(rest, now).contains(key) {
            let i = choose|i: int|
                0 <= i < rest.len() && gives_leg_key(#[trigger] rest[i], now, key);
            assert(routes[i] == rest[i]);
        }
        if gives_leg_key(last, now, key) {
            assert(routes[routes.len() - 1] == last);
        }
        if leg_keys_of(routes, now).contains(key) {
            let i = choose|i: int|
                0 <= i < routes.len() && gives_leg_key(#[trigger] routes[i], now, key);
            if i < rest.len() {
                assert(rest[i] == routes[i]);
            }
        }
    }
}

/// The leg keys recorded for a cached route are those of the legs of the
/// last stored route that has the route's key and carries legs.
pub proof fn lemma_leg_keys_recorded(routes: Seq<RouteView>, now: Instant, i: int)
    requires
        0 <= i < routes.len(),
        route_key(routes[i], now) is Some,
        routes[i].partial_routes is Some,
        forall|j: int|
            i < j < routes.len() && (#[trigger] routes[j]).partial_routes is Some ==> route_key(
                routes[j],
                now,
            ) != route_key(routes[i], now),
    ensures
        snapshot(routes, now).route_to_partial.contains_key(route_key(routes[i], now)->0),
        snapshot(routes, now).route_to_partial[route_key(routes[i], now)->0] == leg_keys(
            routes[i].partial_routes->0,
            now,
        ),
    decreases routes.len(),
{
    let rest = routes.drop_last();
    if i < routes.len() - 1 {
        assert(rest[i] == routes[i]);
        assert forall|j: int|
            i < j < rest.len() && (#[trigger] rest[j]).partial_routes is Some implies route_key(
            rest[j],
            now,
        ) != route_key(rest[i], now) by {
            assert(rest[j] == routes[j]);
        }
        lemma_leg_keys_recorded(rest, now, i);
        assert(routes[routes.len() - 1] == routes.last());
    }
}

/// A second store supersedes the first: a key that only the first list of
/// routes gave is neither cached nor indexed after the second list was
/// stored.
pub proof fn lemma_store_supersedes(
    first: Seq<RouteView>,
    first_now: Instant,
    second: Seq<RouteView>,
    second_now: Instant,
    key: Seq<char>,
)
    requires
        keys_of(first, first_now).contains(key),
        !keys_of(second, second_now).contains(key),
    ensures
        snapshot(first, first_now).routes.contains_key(key),
        !snapshot(second, second_now).routes.contains_key(key),
        !snapshot(second, second_now).route_to_partial.contains_key(key),
        !snapshot(second, second_now).order.contains(key),
{
    lemma_route_cached_iff(first, first_now, key);
    lemma_route_cached_iff(second, second_now, key);
    lemma_snapshot_consistent(second, second_now);
}

/// A second store supersedes the first for legs too: a leg key that only
/// the first list of routes gave leads nowhere after the second list was
/// stored.
pub proof fn lemma_store_supersedes_legs(
    first: Seq<RouteView>,
    first_now: Instant,
    second: Seq<RouteView>,
    second_now: Instant,
    key: Seq<char>,
)
    requires
        leg_keys_of(first, first_now).contains(key),
        !leg_keys_of(second, second_now).contains(key),
    ensures
        snapshot(first, first_now).partial_routes.contains_key(key),
        !snapshot(second, second_now).partial_routes.contains_key(key),
{
    lemma_leg_cached_iff(first, first_now, key);
    lemma_leg_cached_iff(second, second_now, key);
}

} // verus!
