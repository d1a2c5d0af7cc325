//! The cache of the routes that were found last. Storing a new list of routes
//! replaces whatever was cached; routes and legs are then found again by
//! their composite keys or by their summaries.
//!
//! Two limitations are part of the design. Keys are derived from what a leg
//! looks like, so two routes that look alike share one entry and the later
//! one replaces the earlier. Summaries are shorter still, so two cached
//! routes can read the same; asked for by summary, the one whose key came in
//! first is returned.

use crate::instant::Instant;
use crate::key::{key_of_leg, key_of_route, PartialRouteKey, RouteKey};
use crate::route::{first_mot_of, PartialRoute, PartialRouteView, Route, RouteView};
use crate::snapshot::{
    keyed_by,
    leg_keys,
    lemma_snapshot_consistent,
    snapshot,
    with_legs,
    CacheView,
};
use crate::summary::{summarize, summary_of, summary_text, RouteSummary, SummaryView};
use crate::text::same_text;
use vstd::hash_map::StringHashMap;
use vstd::prelude::*;
use vstd::string::*;

verus! {

/// The routes of a map by their mathematical values.
pub open spec fn route_views(routes: Map<Seq<char>, Route>) -> Map<Seq<char>, RouteView> {
    Map::new(|key: Seq<char>| routes.contains_key(key), |key: Seq<char>| routes[key]@)
}

/// The legs of a map by their mathematical values.
pub open spec fn leg_views(legs: Map<Seq<char>, PartialRoute>) -> Map<
    Seq<char>,
    PartialRouteView,
> {
    Map::new(|key: Seq<char>| legs.contains_key(key), |key: Seq<char>| legs[key]@)
}

/// The key lists of a map by their mathematical values.
pub open spec fn key_lists(lists: Map<Seq<char>, Vec<String>>) -> Map<Seq<char>, Seq<Seq<char>>> {
    Map::new(|key: Seq<char>| lists.contains_key(key), |key: Seq<char>| lists[key].deep_view())
}

/// The summaries of all cached routes, in the order in which their keys
/// first came in.
pub open spec fn summaries_of(cache: CacheView, now: Instant) -> Seq<SummaryView> {
    Seq::new(
        cache.order.len(),
        |i: int| summary_of(cache.order[i], cache.routes[cache.order[i]], now),
    )
}

/// Whether the `i`-th cached route is described by `text`.
pub open spec fn described_by(cache: CacheView, i: int, text: Seq<char>, now: Instant) -> bool {
    0 <= i < cache.order.len() && summary_text(cache.routes[cache.order[i]], now) == text
}

/// Every listed summary leads back to a route: the `i`-th summary carries
/// the `i`-th key, and its text describes the route cached under that key.
/// Asked for by that text, the cache therefore finds a route that reads the
/// same, and the very route of that key where no earlier one reads the same.
pub proof fn lemma_listed_summary_describes(cache: CacheView, now: Instant, i: int)
    requires
        0 <= i < cache.order.len(),
    ensures
        summaries_of(cache, now)[i].key == cache.order[i],
        described_by(cache, i, summaries_of(cache, now)[i].summary, now),
{
}

/// Cache for the routes found last.
pub struct RouteCache {
    routes: StringHashMap<Route>,
    partial_routes: StringHashMap<PartialRoute>,
    route_to_partial: StringHashMap<Vec<PartialRouteKey>>,
    order: Vec<RouteKey>,
}

impl View for RouteCache {
    type V = CacheView;

    closed spec fn view(&self) -> CacheView {
        CacheView {
            routes: route_views(self.routes@),
            partial_routes: leg_views(self.partial_routes@),
            route_to_partial: key_lists(self.route_to_partial@),
            order: self.order.deep_view(),
        }
    }
}

/// Enters every leg that has a key into `known` and returns the keys in
/// travel order.
fn store_legs(
    known: &mut StringHashMap<PartialRoute>,
    legs: &Vec<PartialRoute>,
    now: Instant,
) -> (keys: Vec<PartialRouteKey>)
    ensures
        leg_views(final(known)@) == with_legs(leg_views(old(known)@), legs.deep_view(), now),
        keys.deep_view() == leg_keys(legs.deep_view(), now),
{
    let ghost before = leg_views(known@);
    let ghost all = legs.deep_view();
    let mut keys: Vec<PartialRouteKey> = Vec::new();
    let mut i: usize = 0;
    while i < legs.len()
        invariant
            i <= legs.len(),
            all == legs.deep_view(),
            leg_views(known@) == with_legs(before, all.take(i as int), now),
            keys.deep_view() == leg_keys(all.take(i as int), now),
        decreases legs.len() - i,
    {
        let leg = &legs[i];
        proof {
            assert(all.take(i + 1).drop_last() =~= all.take(i as int));
            assert(all.take(i + 1).last() == leg@);
        }
        match key_of_leg(leg, now) {
            Some(key) => {
                let ghost known_before = leg_views(known@);
                let ghost keys_before = keys.deep_view();
                known.insert(key.clone(), leg.clone());
                keys.push(key);
                proof {
                    assert(leg_views(known@) =~= known_before.insert(key@, leg@));
                    assert(keys.deep_view() =~= keys_before.push(key@));
                }
            },
            None => {},
        }
        i += 1;
    }
    proof {
        assert(all.take(legs.len() as int) =~= all);
    }
    keys
}

impl RouteCache {
    #[verifier::type_invariant]
    spec fn well_formed(&self) -> bool {
        self@.consistent()
    }

    /// A cache that holds nothing.
    pub fn new() -> (cache: RouteCache)
        ensures
            cache@ == CacheView::empty(),
    {
        let cache = RouteCache {
            routes: StringHashMap::new(),
            partial_routes: StringHashMap::new(),
            route_to_partial: StringHashMap::new(),
            order: Vec::new(),
        };
        proof {
            assert(cache@.routes =~= Map::empty());
            assert(cache@.partial_routes =~= Map::empty());
            assert(cache@.route_to_partial =~= Map::empty());
            assert(cache@.order =~= Seq::empty());
        }
        cache
    }

    /// Stores new route results in place of everything cached so far. A
    /// missing departure time counts as `now`.
    pub fn store_routes_at(&mut self, routes: Vec<Route>, now: Instant)
        ensures
            final(self)@ == snapshot(routes.deep_view(), now),
    {
        let ghost all = routes.deep_view();
        let mut stored: StringHashMap<Route> = StringHashMap::new();
        let mut legs: StringHashMap<PartialRoute> = StringHashMap::new();
        let mut index: StringHashMap<Vec<PartialRouteKey>> = StringHashMap::new();
        let mut order: Vec<RouteKey> = Vec::new();
        let ghost mut current = CacheView::empty();
        proof {
            assert(route_views(stored@) =~= current.routes);
            assert(leg_views(legs@) =~= current.partial_routes);
            assert(key_lists(index@) =~= current.route_to_partial);
            assert(order.deep_view() =~= current.order);
        }
        let mut i: usize = 0;
        while i < routes.len()
            invariant
                i <= routes.len(),
                all == routes.deep_view(),
                current == snapshot(all.take(i as int), now),
                route_views(stored@) == current.routes,
                leg_views(legs@) == current.partial_routes,
                key_lists(index@) == current.route_to_partial,
                order.deep_view() == current.order,
            decreases routes.len() - i,
        {
            let route = &routes[i];
            proof {
                assert(all.take(i + 1).drop_last() =~= all.take(i as int));
                assert(all.take(i + 1).last() == route@);
            }
            match key_of_route(route, now) {
                Some(key) => {
                    let ghost order_before = order.deep_view();
                    let ghost stored_before = route_views(stored@);
                    if !stored.contains_key(key.as_str()) {
                        order.push(key.clone());
                        proof {
                            assert(order.deep_view() =~= order_before.push(key@));
                        }
                    }
                    stored.insert(key.clone(), route.clone());
                    proof {
                        assert(route_views(stored@) =~= stored_before.insert(key@, route@));
                    }
                    match &route.partial_routes {
                        Some(partials) => {
                            let keys = store_legs(&mut legs, partials, now);
                            let ghost index_before = key_lists(index@);
                            index.insert(key, keys);
                            proof {
                                assert(key_lists(index@) =~= index_before.insert(
                                    key@,
                                    keys.deep_view(),
                                ));
                            }
                        },
                        None => {},
                    }
                },
                None => {},
            }
            proof {
                current = current.ingest(route@, now);
            }
            i += 1;
        }
        proof {
            assert(all.take(routes.len() as int) =~= all);
            lemma_snapshot_consistent(all, now);
        }
        *self = RouteCache { routes: stored, partial_routes: legs, route_to_partial: index, order };
    }

    /// Stores new route results in place of everything cached so far. A
    /// missing departure time counts as the moment of the call.
    pub fn store_routes(&mut self, routes: Vec<Route>)
        ensures
            exists|now: Instant| final(self)@ == snapshot(routes.deep_view(), now),
    {
        let now = Instant::now();
        self.store_routes_at(routes, now);
    }

    /// All cached routes by key.
    pub fn get_routes(&self) -> (routes: &StringHashMap<Route>)
        ensures
            route_views(routes@) == self@.routes,
    {
        &self.routes
    }

    /// The keys of all cached routes, each once, in the order in which they
    /// first came in.
    pub fn route_keys(&self) -> (keys: &Vec<RouteKey>)
        ensures
            keys.deep_view() == self@.order,
            keys.deep_view().no_duplicates(),
            forall|key: Seq<char>|
                keys.deep_view().contains(key) <==> self@.routes.contains_key(key),
    {
        proof {
            use_type_invariant(self);
        }
        &self.order
    }

    /// The route cached under `route_key`. A route that is found has the
    /// direction, line name and product name from which the key was derived.
    pub fn get_route(&self, route_key: &RouteKey) -> (found: Option<&Route>)
        ensures
            match found {
                Some(route) => {
                    &&& self@.routes.contains_key(route_key@)
                    &&& route@ == self@.routes[route_key@]
                    &&& keyed_by(route_key@, first_mot_of(route@))
                },
                None => !self@.routes.contains_key(route_key@),
            },
    {
        proof {
            use_type_invariant(self);
        }
        self.routes.get(route_key.as_str())
    }

    /// The leg cached under `partial_key`. A leg that is found has the
    /// direction, line name and product name from which the key was derived.
    pub fn get_partial_route(&self, partial_key: &PartialRouteKey) -> (found: Option<
        &PartialRoute,
    >)
        ensures
            match found {
                Some(leg) => {
                    &&& self@.partial_routes.contains_key(partial_key@)
                    &&& leg@ == self@.partial_routes[partial_key@]
                    &&& keyed_by(partial_key@, leg@.mot)
                },
                None => !self@.partial_routes.contains_key(partial_key@),
            },
    {
        proof {
            use_type_invariant(self);
        }
        self.partial_routes.get(partial_key.as_str())
    }

    /// The keys of the legs of the route cached under `route_key`, in travel
    /// order. Each of them leads to a cached leg, and the route is cached.
    pub fn get_partial_keys_for_route(&self, route_key: &RouteKey) -> (found: Option<
        &Vec<PartialRouteKey>,
    >)
        ensures
            match found {
                Some(keys) => {
                    &&& self@.route_to_partial.contains_key(route_key@)
                    &&& keys.deep_view() == self@.route_to_partial[route_key@]
                    &&& self@.routes.contains_key(route_key@)
                    &&& forall|i: int|
                        0 <= i < keys.len() ==> self@.partial_routes.contains_key(
                            #[trigger] keys[i]@,
                        )
                },
                None => !self@.route_to_partial.contains_key(route_key@),
            },
    {
        proof {
            use_type_invariant(self);
        }
        let found = self.route_to_partial.get(route_key.as_str());
        proof {
            if let Some(keys) = found {
                assert forall|i: int| 0 <= i < keys.len() implies self@.partial_routes.contains_key(
                    #[trigger] keys[i]@,
                ) by {
                    assert(self@.route_to_partial[route_key@][i] == keys[i]@);
                }
            }
        }
        found
    }

    /// Short descriptions of all cached routes, one for each, in the order
    /// in which their keys first came in. A missing departure time counts as
    /// `now`.
    pub fn get_route_summaries(&self, now: Instant) -> (summaries: Vec<RouteSummary>)
        ensures
            summaries.deep_view() == summaries_of(self@, now),
            summaries.len() == self@.routes.dom().len(),
            forall|i: int|
                0 <= i < summaries.len() ==> self@.routes.contains_key(
                    (#[trigger] summaries[i]).key@,
                ),
    {
        proof {
            use_type_invariant(self);
            assert(self@.order.to_set() =~= self@.routes.dom());
            self@.order.unique_seq_to_set();
        }
        let mut summaries: Vec<RouteSummary> = Vec::new();
        let mut i: usize = 0;
        while i < self.order.len()
            invariant
                i <= self.order.len(),
                self@.consistent(),
                summaries.len() == i,
                forall|j: int|
                    0 <= j < i ==> (#[trigger] summaries[j])@ == summaries_of(self@, now)[j],
            decreases self.order.len() - i,
        {
            let key = &self.order[i];
            proof {
                assert(self@.order[i as int] == key@);
                assert(self@.routes.contains_key(key@));
            }
            match self.routes.get(key.as_str()) {
                Some(route) => {
                    summaries.push(summarize(key.as_str(), route, now));
                },
                None => {},
            }
            i += 1;
        }
        proof {
            assert(summaries.deep_view() =~= summaries_of(self@, now));
            assert forall|i: int| 0 <= i < summaries.len() implies self@.routes.contains_key(
                (#[trigger] summaries[i]).key@,
            ) by {
                assert(summaries[i]@ == summaries_of(self@, now)[i]);
            }
        }
        summaries
    }

    /// The key of the route that `summary` describes. Where several cached
    /// routes have the same description, the key that came in first is
    /// returned.
    pub fn get_key_by_summary(&self, summary: &str, now: Instant) -> (found: Option<&RouteKey>)
        ensures
            match found {
                Some(key) => self@.routes.contains_key(key@) && exists|i: int|
                    {
                        &&& #[trigger] described_by(self@, i, summary@, now)
                        &&& forall|j: int| 0 <= j < i ==> !described_by(self@, j, summary@, now)
                        &&& key@ == self@.order[i]
                    },
                None => forall|i: int| !described_by(self@, i, summary@, now),
            },
    {
        proof {
            use_type_invariant(self);
        }
        let mut i: usize = 0;
        while i < self.order.len()
            invariant
                i <= self.order.len(),
                self@.consistent(),
                forall|j: int| 0 <= j < i ==> !described_by(self@, j, summary@, now),
            decreases self.order.len() - i,
        {
            let key = &self.order[i];
            proof {
                assert(self@.order[i as int] == key@);
                assert(self@.routes.contains_key(key@));
            }
            match self.routes.get(key.as_str()) {
                Some(route) => {
                    let listed = summarize(key.as_str(), route, now);
                    if same_text(listed.summary.as_str(), summary) {
                        proof {
                            assert(described_by(self@, i as int, summary@, now));
                        }
                        return Some(key);
                    }
                },
                None => {},
            }
            i += 1;
        }
        None
    }

    /// The route that `summary` describes. Where several cached routes have
    /// the same description, the one whose key came in first is returned.
    pub fn get_route_by_summary(&self, summary: &str, now: Instant) -> (found: Option<&Route>)
        ensures
            match found {
                Some(route) => summary_text(route@, now) == summary@ && exists|i: int|
                    {
                        &&& #[trigger] described_by(self@, i, summary@, now)
                        &&& forall|j: int| 0 <= j < i ==> !described_by(self@, j, summary@, now)
                        &&& route@ == self@.routes[self@.order[i]]
                    },
                None => forall|i: int| !described_by(self@, i, summary@, now),
            },
    {
        match self.get_key_by_summary(summary, now) {
            Some(key) => self.routes.get(key.as_str()),
            None => None,
        }
    }
}

impl Default for RouteCache {
    fn default() -> (cache: RouteCache)
        ensures
            cache@ == CacheView::empty(),
    {
        RouteCache::new()
    }
}

} // verus!
