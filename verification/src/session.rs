//! One route cache per session, so that callers who talk to the server at
//! the same time never see each other's routes. A session is known by an
//! opaque identifier; its cache comes into being with the first store and
//! stays until the session is ended from outside.

use crate::instant::Instant;
use crate::key::{PartialRouteKey, RouteKey};
use crate::route::{first_mot_of, PartialRoute, Route};
use crate::route_cache::{described_by, route_views, summaries_of, RouteCache};
use crate::snapshot::{keyed_by, snapshot, CacheView};
use crate::summary::{summary_text, RouteSummary};
use vstd::hash_map::StringHashMap;
use vstd::prelude::*;

verus! {

/// The caches of a map by their mathematical values.
pub open spec fn cache_views(sessions: Map<Seq<char>, RouteCache>) -> Map<Seq<char>, CacheView> {
    Map::new(|id: Seq<char>| sessions.contains_key(id), |id: Seq<char>| sessions[id]@)
}

/// The route caches of all sessions.
pub struct SessionRegistry {
    sessions: StringHashMap<RouteCache>,
}

impl View for SessionRegistry {
    type V = Map<Seq<char>, CacheView>;

    closed spec fn view(&self) -> Map<Seq<char>, CacheView> {
        cache_views(self.sessions@)
    }
}

impl SessionRegistry {
    /// A registry without sessions.
    pub fn new() -> (registry: SessionRegistry)
        ensures
            registry@ == Map::<Seq<char>, CacheView>::empty(),
    {
        let registry = SessionRegistry { sessions: StringHashMap::new() };
        proof {
            assert(registry@ =~= Map::<Seq<char>, CacheView>::empty());
        }
        registry
    }

    /// Stores new route results for one session in place of everything that
    /// was cached for it, in a cache built afresh. Other sessions are left as
    /// they are. A missing departure time counts as `now`.
    pub fn store_at(&mut self, session_id: &str, routes: Vec<Route>, now: Instant)
        ensures
            final(self)@ == old(self)@.insert(session_id@, snapshot(routes.deep_view(), now)),
    {
        let mut cache = RouteCache::new();
        cache.store_routes_at(routes, now);
        let ghost before = self@;
        self.sessions.insert(String::from_str(session_id), cache);
        proof {
            assert(self@ =~= before.insert(session_id@, snapshot(routes.deep_view(), now)));
        }
    }

    /// Stores new route results for one session in place of everything that
    /// was cached for it. A missing departure time counts as the moment of
    /// the call.
    pub fn store(&mut self, session_id: &str, routes: Vec<Route>)
        ensures
            exists|now: Instant|
                final(self)@ == old(self)@.insert(
                    session_id@,
                    snapshot(routes.deep_view(), now),
                ),
    {
        let now = Instant::now();
        self.store_at(session_id, routes, now);
    }

    /// Forgets a session and its cache.
    pub fn end_session(&mut self, session_id: &str)
        ensures
            final(self)@ == old(self)@.remove(session_id@),
    {
        let ghost before = self@;
        self.sessions.remove(session_id);
        proof {
            assert(self@ =~= before.remove(session_id@));
        }
    }

    /// The cache of a session, if the session is known.
    pub fn cache(&self, session_id: &str) -> (found: Option<&RouteCache>)
        ensures
            match found {
                Some(cache) => self@.contains_key(session_id@) && cache@ == self@[session_id@],
                None => !self@.contains_key(session_id@),
            },
    {
        self.sessions.get(session_id)
    }

    /// All routes cached for a session.
    pub fn get_routes(&self, session_id: &str) -> (found: Option<&StringHashMap<Route>>)
        ensures
            match found {
                Some(routes) => self@.contains_key(session_id@) && route_views(routes@)
                    == self@[session_id@].routes,
                None => !self@.contains_key(session_id@),
            },
    {
        match self.cache(session_id) {
            Some(cache) => Some(cache.get_routes()),
            None => None,
        }
    }

    /// The route cached for a session under `route_key`.
    pub fn get_route(&self, session_id: &str, route_key: &RouteKey) -> (found: Option<&Route>)
        ensures
            match found {
                Some(route) => {
                    &&& self@.contains_key(session_id@)
                    &&& self@[session_id@].routes.contains_key(route_key@)
                    &&& route@ == self@[session_id@].routes[route_key@]
                    &&& keyed_by(route_key@, first_mot_of(route@))
                },
                None => !self@.contains_key(session_id@) || !self@[session_id@].routes.contains_key(
                    route_key@,
                ),
            },
    {
        match self.cache(session_id) {
            Some(cache) => cache.get_route(route_key),
            None => None,
        }
    }

    /// The leg cached for a session under `partial_key`.
    pub fn get_partial_route(&self, session_id: &str, partial_key: &PartialRouteKey) -> (found:
        Option<&PartialRoute>)
        ensures
            match found {
                Some(leg) => {
                    &&& self@.contains_key(session_id@)
                    &&& self@[session_id@].partial_routes.contains_key(partial_key@)
                    &&& leg@ == self@[session_id@].partial_routes[partial_key@]
                    &&& keyed_by(partial_key@, leg@.mot)
                },
                None => !self@.contains_key(session_id@)
                    || !self@[session_id@].partial_routes.contains_key(partial_key@),
            },
    {
        match self.cache(session_id) {
            Some(cache) => cache.get_partial_route(partial_key),
            None => None,
        }
    }

    /// The keys of the legs of the route cached for a session under
    /// `route_key`, in travel order.
    pub fn get_partial_keys_for_route(&self, session_id: &str, route_key: &RouteKey) -> (found:
        Option<&Vec<PartialRouteKey>>)
        ensures
            match found {
                Some(keys) => {
                    &&& self@.contains_key(session_id@)
                    &&& self@[session_id@].route_to_partial.contains_key(route_key@)
                    &&& keys.deep_view() == self@[session_id@].route_to_partial[route_key@]
                    &&& forall|i: int|
                        0 <= i < keys.len() ==> self@[session_id@].partial_routes.contains_key(
                            #[trigger] keys[i]@,
                        )
                },
                None => !self@.contains_key(session_id@)
                    || !self@[session_id@].route_to_partial.contains_key(route_key@),
            },
    {
        match self.cache(session_id) {
            Some(cache) => cache.get_partial_keys_for_route(route_key),
            None => None,
        }
    }

    /// Short descriptions of the routes cached for a session.
    pub fn get_route_summaries(&self, session_id: &str, now: Instant) -> (found: Option<
        Vec<RouteSummary>,
    >)
        ensures
            match found {
                Some(summaries) => self@.contains_key(session_id@) && summaries.deep_view()
                    == summaries_of(self@[session_id@], now),
                None => !self@.contains_key(session_id@),
            },
    {
        match self.cache(session_id) {
            Some(cache) => Some(cache.get_route_summaries(now)),
            None => None,
        }
    }

    /// The key of the route cached for a session that `summary` describes;
    /// where several do, the key that came in first.
    pub fn get_key_by_summary(&self, session_id: &str, summary: &str, now: Instant) -> (found:
        Option<&RouteKey>)
        ensures
            match found {
                Some(key) => {
                    &&& self@.contains_key(session_id@)
                    &&& self@[session_id@].routes.contains_key(key@)
                    &&& exists|i: int|
                        {
                            &&& #[trigger] described_by(self@[session_id@], i, summary@, now)
                            &&& forall|j: int|
                                0 <= j < i ==> !described_by(self@[session_id@], j, summary@, now)
                            &&& key@ == self@[session_id@].order[i]
                        }
                },
                None => !self@.contains_key(session_id@) || forall|i: int|
                    !described_by(self@[session_id@], i, summary@, now),
            },
    {
        match self.cache(session_id) {
            Some(cache) => cache.get_key_by_summary(summary, now),
            None => None,
        }
    }

    /// The route cached for a session that `summary` describes; where
    /// several do, the one whose key came in first.
    pub fn get_route_by_summary(&self, session_id: &str, summary: &str, now: Instant) -> (found:
        Option<&Route>)
        ensures
            match found {
                Some(route) => self@.contains_key(session_id@) && summary_text(route@, now)
                    == summary@ && exists|i: int|
                    {
                        &&& #[trigger] described_by(self@[session_id@], i, summary@, now)
                        &&& forall|j: int|
                            0 <= j < i ==> !described_by(self@[session_id@], j, summary@, now)
                        &&& route@ == self@[session_id@].routes[self@[session_id@].order[i]]
                    },
                None => !self@.contains_key(session_id@) || forall|i: int|
                    !described_by(self@[session_id@], i, summary@, now),
            },
    {
        match self.cache(session_id) {
            Some(cache) => cache.get_route_by_summary(summary, now),
            None => None,
        }
    }
}

impl Default for SessionRegistry {
    fn default() -> (registry: SessionRegistry)
        ensures
            registry@ == Map::<Seq<char>, CacheView>::empty(),
    {
        SessionRegistry::new()
    }
}

} // verus!
