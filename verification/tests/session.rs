use dvb_mcp::instant::Instant;
use dvb_mcp::route::{Mot, PartialRoute, RegularStop, Route};
use dvb_mcp::session::SessionRegistry;

fn text(s: &str) -> Option<String> {
    Some(s.to_string())
}

/// Seconds after 2024-05-01 08:00:00 on a clock two hours ahead of UTC.
fn eight_plus(seconds: i64) -> Instant {
    Instant::new(1_714_543_200 + seconds, 0, 7200).unwrap()
}

fn ride(direction: &str, line: &str, product: &str, from: &str, to: &str, departure: Instant) -> Route {
    let mot = Mot { direction: text(direction), name: text(line), product_name: text(product) };
    Route {
        mot_chain: Some(vec![mot.clone()]),
        partial_routes: Some(vec![PartialRoute {
            mot: Some(mot),
            regular_stops: Some(vec![
                RegularStop { name: text(from), departure_time: Some(departure) },
                RegularStop { name: text(to), departure_time: None },
            ]),
        }]),
    }
}

fn tram() -> Route {
    ride("Striesen", "6", "Tram", "Hauptbahnhof", "Bühlau", eight_plus(0))
}

fn bus() -> Route {
    ride("Löbtau", "61", "Bus", "Technische Universität", "Tharandter Straße", eight_plus(5400))
}

const TRAM_KEY: &str = "Striesen|6|Tram|20240501T080000";
const BUS_KEY: &str = "Löbtau|61|Bus|20240501T093000";

#[test]
fn unknown_session_has_nothing() {
    let registry = SessionRegistry::new();
    let now = eight_plus(-3600);
    assert!(registry.cache("alice").is_none());
    assert!(registry.get_routes("alice").is_none());
    assert!(registry.get_route("alice", &TRAM_KEY.to_string()).is_none());
    assert!(registry.get_partial_route("alice", &TRAM_KEY.to_string()).is_none());
    assert!(registry.get_partial_keys_for_route("alice", &TRAM_KEY.to_string()).is_none());
    assert!(registry.get_route_summaries("alice", now).is_none());
    assert!(registry.get_route_by_summary("alice", "Tram von Hauptbahnhof nach Bühlau um 08:00", now).is_none());
    assert!(SessionRegistry::default().cache("").is_none());
}

#[test]
fn store_creates_the_session() {
    let mut registry = SessionRegistry::new();
    let now = eight_plus(-3600);
    registry.store_at("alice", vec![tram()], now);
    assert_eq!(registry.get_routes("alice").unwrap().len(), 1);
    assert_eq!(registry.get_route("alice", &TRAM_KEY.to_string()), Some(&tram()));
    assert_eq!(
        registry.get_partial_keys_for_route("alice", &TRAM_KEY.to_string()),
        Some(&vec![TRAM_KEY.to_string()])
    );
    let leg = registry.get_partial_route("alice", &TRAM_KEY.to_string()).unwrap();
    assert_eq!(leg.mot.as_ref().unwrap().name, text("6"));
    let summaries = registry.get_route_summaries("alice", now).unwrap();
    assert_eq!(summaries.len(), 1);
    assert_eq!(summaries[0].summary, "Tram von Hauptbahnhof nach Bühlau um 08:00");
    assert_eq!(
        registry.get_route_by_summary("alice", "Tram von Hauptbahnhof nach Bühlau um 08:00", now),
        Some(&tram())
    );
    assert_eq!(
        registry.get_key_by_summary("alice", "Tram von Hauptbahnhof nach Bühlau um 08:00", now),
        Some(&TRAM_KEY.to_string())
    );
    assert_eq!(registry.get_key_by_summary("alice", "Tram", now), None);
    assert_eq!(
        registry.get_key_by_summary("bob", "Tram von Hauptbahnhof nach Bühlau um 08:00", now),
        None
    );
}

#[test]
fn sessions_do_not_see_each_other() {
    let mut registry = SessionRegistry::new();
    let now = eight_plus(-3600);
    registry.store_at("alice", vec![tram()], now);
    registry.store_at("bob", vec![bus()], now);
    assert!(registry.get_route("alice", &TRAM_KEY.to_string()).is_some());
    assert!(registry.get_route("alice", &BUS_KEY.to_string()).is_none());
    assert!(registry.get_route("bob", &BUS_KEY.to_string()).is_some());
    assert!(registry.get_route("bob", &TRAM_KEY.to_string()).is_none());
    assert!(registry
        .get_route_by_summary("bob", "Tram von Hauptbahnhof nach Bühlau um 08:00", now)
        .is_none());
    assert!(registry.get_route("carol", &TRAM_KEY.to_string()).is_none());
}

#[test]
fn store_replaces_only_the_session_it_is_for() {
    let mut registry = SessionRegistry::new();
    let now = eight_plus(-3600);
    registry.store_at("alice", vec![tram()], now);
    registry.store_at("bob", vec![tram(), bus()], now);
    registry.store_at("alice", vec![bus()], now);
    assert!(registry.get_route("alice", &TRAM_KEY.to_string()).is_none());
    assert!(registry.get_partial_route("alice", &TRAM_KEY.to_string()).is_none());
    assert!(registry.get_route("alice", &BUS_KEY.to_string()).is_some());
    assert_eq!(registry.get_routes("bob").unwrap().len(), 2);
    assert!(registry.get_route("bob", &TRAM_KEY.to_string()).is_some());
}

#[test]
fn storing_nothing_leaves_an_empty_session() {
    let mut registry = SessionRegistry::new();
    let now = eight_plus(-3600);
    registry.store_at("alice", vec![tram()], now);
    registry.store_at("alice", vec![], now);
    assert_eq!(registry.get_routes("alice").unwrap().len(), 0);
    assert_eq!(registry.get_route_summaries("alice", now), Some(vec![]));
}

#[test]
fn ended_session_is_forgotten() {
    let mut registry = SessionRegistry::new();
    let now = eight_plus(-3600);
    registry.store_at("alice", vec![tram()], now);
    registry.store_at("bob", vec![bus()], now);
    registry.end_session("alice");
    assert!(registry.cache("alice").is_none());
    assert!(registry.get_route("alice", &TRAM_KEY.to_string()).is_none());
    assert!(registry.get_route("bob", &BUS_KEY.to_string()).is_some());
    registry.end_session("nobody");
    assert!(registry.get_route("bob", &BUS_KEY.to_string()).is_some());
}

#[test]
fn store_uses_the_clock_only_for_missing_times() {
    let mut registry = SessionRegistry::new();
    registry.store("alice", vec![tram()]);
    assert_eq!(registry.get_route("alice", &TRAM_KEY.to_string()), Some(&tram()));
    let later = eight_plus(1);
    let summaries = registry.get_route_summaries("alice", later).unwrap();
    assert!(!summaries[0].is_future(later));
    assert!(summaries[0].is_future(eight_plus(-1)));
}
