use dvb_mcp::coords::DVBPointCoords;
use dvb_mcp::elicit::{
    begin_elicit, finish_elicit, reply_text, ElicitOutcome, ElicitStep, Elicited, JourneyField,
};
use dvb_mcp::instant::Instant;
use dvb_mcp::request::{parse_mode, parse_mot_filter, RouteOptions, TransportMode};
use dvb_mcp::resource::{
    answer_resource, classify_resource, list_resources, ResourceAnswer, ResourceEntry,
    ResourceRequest,
};
use dvb_mcp::user_context::{UserContext, UserContextStatus};

fn text(s: &str) -> Option<String> {
    Some(s.to_string())
}

fn noon() -> Instant {
    // 2024-05-01 12:00:00 on a clock two hours ahead of UTC
    Instant::new(1_714_557_600, 0, 7200).unwrap()
}

#[test]
fn context_with_all_fields_is_complete() {
    let context = UserContext::at(text("Postplatz"), text("Altmarkt"), text("Flughafen"), noon());
    assert_eq!(context.status, UserContextStatus::Complete);
    assert!(context.context_available);
    assert_eq!(
        context.message,
        "User journey: Origin: Postplatz, Current location: Altmarkt, Destination: Flughafen"
    );
    assert_eq!(context.origin, text("Postplatz"));
    assert_eq!(context.location, text("Altmarkt"));
    assert_eq!(context.destination, text("Flughafen"));
    assert_eq!(context.last_updated, "2024-05-01T12:00:00+02:00");
}

#[test]
fn context_with_two_fields_is_partial() {
    let without_destination = UserContext::at(text("Postplatz"), text("Altmarkt"), None, noon());
    assert_eq!(without_destination.status, UserContextStatus::Partial);
    assert!(without_destination.context_available);
    assert_eq!(
        without_destination.message,
        "User origin: Postplatz, Current location: Altmarkt (destination not set)"
    );
    let without_location = UserContext::at(text("Postplatz"), None, text("Flughafen"), noon());
    assert_eq!(without_location.status, UserContextStatus::Partial);
    assert_eq!(
        without_location.message,
        "User origin: Postplatz, Destination: Flughafen (current location not set)"
    );
    let without_origin = UserContext::at(None, text("Altmarkt"), text("Flughafen"), noon());
    assert_eq!(without_origin.status, UserContextStatus::Partial);
    assert_eq!(
        without_origin.message,
        "Current location: Altmarkt, Destination: Flughafen (origin not set)"
    );
}

#[test]
fn context_with_one_field_is_partial() {
    let origin = UserContext::at(text("Postplatz"), None, None, noon());
    assert_eq!(origin.status, UserContextStatus::Partial);
    assert!(origin.context_available);
    assert_eq!(origin.message, "User origin: Postplatz (location and destination not set)");
    let location = UserContext::at(None, text("Altmarkt"), None, noon());
    assert_eq!(location.status, UserContextStatus::Partial);
    assert_eq!(location.message, "Current location: Altmarkt (origin and destination not set)");
    let destination = UserContext::at(None, None, text("Flughafen"), noon());
    assert_eq!(destination.status, UserContextStatus::Partial);
    assert_eq!(destination.message, "Destination: Flughafen (origin and location not set)");
}

#[test]
fn context_without_fields_is_empty() {
    let context = UserContext::at(None, None, None, noon());
    assert_eq!(context.status, UserContextStatus::Empty);
    assert!(!context.context_available);
    assert_eq!(context.message, "No user context saved yet");
    assert_eq!(context.origin, None);
}

#[test]
fn new_context_is_stamped_with_the_clock() {
    let before = chrono::Local::now();
    let context = UserContext::new(text("Postplatz"), None, None);
    let after = chrono::Local::now();
    assert_eq!(context.status, UserContextStatus::Partial);
    assert_eq!(context.message, "User origin: Postplatz (location and destination not set)");
    let stamped = chrono::DateTime::parse_from_rfc3339(&context.last_updated).unwrap();
    assert!(before <= stamped && stamped <= after);
    assert_eq!(context.clone(), context);
}

#[test]
fn fixed_addresses_are_recognised() {
    assert_eq!(classify_resource("dvb://user/context"), ResourceRequest::Context);
    assert_eq!(classify_resource("dvb://user/origin"), ResourceRequest::Origin);
    assert_eq!(classify_resource("dvb://user/location"), ResourceRequest::Location);
    assert_eq!(classify_resource("dvb://user/destination"), ResourceRequest::Destination);
}

#[test]
fn departures_address_carries_the_stop() {
    assert_eq!(
        classify_resource("dvb://departures/33000028"),
        ResourceRequest::Departures { stop_id: "33000028".to_string() }
    );
    assert_eq!(
        classify_resource("dvb://departures/"),
        ResourceRequest::Departures { stop_id: String::new() }
    );
    assert_eq!(
        classify_resource("dvb://departures/a/b"),
        ResourceRequest::Departures { stop_id: "a/b".to_string() }
    );
    assert_eq!(
        classify_resource("dvb://departures/Löbtau"),
        ResourceRequest::Departures { stop_id: "Löbtau".to_string() }
    );
}

#[test]
fn other_addresses_are_unknown() {
    assert_eq!(classify_resource(""), ResourceRequest::Unknown);
    assert_eq!(classify_resource("dvb://user/context/"), ResourceRequest::Unknown);
    assert_eq!(classify_resource("dvb://user/Origin"), ResourceRequest::Unknown);
    assert_eq!(classify_resource("dvb://departures"), ResourceRequest::Unknown);
    assert_eq!(classify_resource("x-dvb://departures/1"), ResourceRequest::Unknown);
}

#[test]
fn set_fields_are_answered_with_their_value() {
    let origin = text("Postplatz");
    let location = text("Altmarkt");
    let destination = text("Flughafen");
    assert_eq!(
        answer_resource("dvb://user/origin", &origin, &location, &destination),
        ResourceAnswer::Field { name: "origin".to_string(), value: "Postplatz".to_string() }
    );
    assert_eq!(
        answer_resource("dvb://user/location", &origin, &location, &destination),
        ResourceAnswer::Field { name: "location".to_string(), value: "Altmarkt".to_string() }
    );
    assert_eq!(
        answer_resource("dvb://user/destination", &origin, &location, &destination),
        ResourceAnswer::Field { name: "destination".to_string(), value: "Flughafen".to_string() }
    );
    assert_eq!(
        answer_resource("dvb://user/context", &origin, &location, &destination),
        ResourceAnswer::Context
    );
}

#[test]
fn unset_fields_are_not_found() {
    assert_eq!(
        answer_resource("dvb://user/origin", &None, &None, &None),
        ResourceAnswer::NotFound { message: "Origin not set".to_string() }
    );
    assert_eq!(
        answer_resource("dvb://user/location", &None, &None, &None),
        ResourceAnswer::NotFound { message: "Current location not set".to_string() }
    );
    assert_eq!(
        answer_resource("dvb://user/destination", &None, &None, &None),
        ResourceAnswer::NotFound { message: "Destination not set".to_string() }
    );
    assert_eq!(
        answer_resource("dvb://user/context", &None, &None, &None),
        ResourceAnswer::Context
    );
}

#[test]
fn departures_are_to_be_fetched_and_the_rest_is_not_found() {
    assert_eq!(
        answer_resource("dvb://departures/33000028", &None, &None, &None),
        ResourceAnswer::Departures { stop_id: "33000028".to_string() }
    );
    assert_eq!(
        answer_resource("dvb://station/1", &text("a"), &text("b"), &text("c")),
        ResourceAnswer::NotFound { message: "Resource not found".to_string() }
    );
}

fn entry(uri: &str, name: &str) -> ResourceEntry {
    ResourceEntry { uri: uri.to_string(), name: name.to_string() }
}

#[test]
fn only_the_context_is_listed_when_nothing_is_set() {
    assert_eq!(list_resources(false, false, false), vec![entry("dvb://user/context", "User Context")]);
}

#[test]
fn set_fields_are_listed_in_order() {
    assert_eq!(
        list_resources(true, true, true),
        vec![
            entry("dvb://user/context", "User Context"),
            entry("dvb://user/origin", "User Origin"),
            entry("dvb://user/location", "User Current Location"),
            entry("dvb://user/destination", "User Destination"),
        ]
    );
    assert_eq!(
        list_resources(false, true, false),
        vec![
            entry("dvb://user/context", "User Context"),
            entry("dvb://user/location", "User Current Location"),
        ]
    );
    assert_eq!(
        list_resources(true, false, true),
        vec![
            entry("dvb://user/context", "User Context"),
            entry("dvb://user/origin", "User Origin"),
            entry("dvb://user/destination", "User Destination"),
        ]
    );
}

#[test]
fn every_listed_resource_can_be_read() {
    let origin = text("Postplatz");
    let destination = text("Flughafen");
    for listed in list_resources(true, false, true) {
        let answer = answer_resource(&listed.uri, &origin, &None, &destination);
        assert!(!matches!(answer, ResourceAnswer::NotFound { .. }));
    }
}

#[test]
fn mode_names_are_read_letter_for_letter() {
    assert_eq!(parse_mode("Tram"), Some(TransportMode::Tram));
    assert_eq!(parse_mode("Bus"), Some(TransportMode::Bus));
    assert_eq!(parse_mode("Ferry"), Some(TransportMode::Ferry));
    assert_eq!(parse_mode("Train"), Some(TransportMode::Train));
    assert_eq!(parse_mode("tram"), None);
    assert_eq!(parse_mode("Tram "), None);
    assert_eq!(parse_mode(""), None);
    assert_eq!(parse_mode("Cableway"), None);
}

#[test]
fn mot_filter_passes_over_unknown_names() {
    let names: Vec<String> =
        ["Bus", "Zeppelin", "Tram", "bus", "Bus", "Train", "", "Ferry"].iter().map(|s| s.to_string()).collect();
    assert_eq!(
        parse_mot_filter(&names),
        vec![
            TransportMode::Bus,
            TransportMode::Tram,
            TransportMode::Bus,
            TransportMode::Train,
            TransportMode::Ferry,
        ]
    );
    assert_eq!(parse_mot_filter(&vec![]), vec![]);
    assert_eq!(parse_mot_filter(&vec!["Zeppelin".to_string()]), vec![]);
}

#[test]
fn route_options_fill_in_what_is_left_open() {
    assert_eq!(
        RouteOptions::resolve(None, None, None),
        RouteOptions { isarrivaltime: false, shorttermchanges: true, format: "json".to_string() }
    );
    assert_eq!(
        RouteOptions::resolve(Some(true), Some(false), text("xml")),
        RouteOptions { isarrivaltime: true, shorttermchanges: false, format: "xml".to_string() }
    );
    assert_eq!(
        RouteOptions::resolve(Some(false), Some(true), None),
        RouteOptions { isarrivaltime: false, shorttermchanges: true, format: "json".to_string() }
    );
}

#[test]
fn a_known_field_is_not_asked_for() {
    assert_eq!(
        begin_elicit(JourneyField::Origin, &text("Postplatz")),
        ElicitStep::Reply { text: "Starting from Postplatz!".to_string() }
    );
    assert_eq!(
        begin_elicit(JourneyField::Location, &text("Altmarkt")),
        ElicitStep::Reply { text: "Currently at Altmarkt!".to_string() }
    );
    assert_eq!(
        begin_elicit(JourneyField::Destination, &text("Flughafen")),
        ElicitStep::Reply { text: "Going to Flughafen!".to_string() }
    );
}

#[test]
fn an_unknown_field_is_asked_for() {
    assert_eq!(
        begin_elicit(JourneyField::Origin, &None),
        ElicitStep::Ask { prompt: "Please provide where you are starting from".to_string() }
    );
    assert_eq!(
        begin_elicit(JourneyField::Location, &None),
        ElicitStep::Ask { prompt: "Please provide where you are right now".to_string() }
    );
    assert_eq!(
        begin_elicit(JourneyField::Destination, &None),
        ElicitStep::Ask { prompt: "Please provide where you want to go.".to_string() }
    );
}

#[test]
fn a_given_place_is_remembered() {
    assert_eq!(
        finish_elicit(JourneyField::Origin, Elicited::Given { place: "Postplatz".to_string() }),
        ElicitOutcome { remember: text("Postplatz"), reply: Ok("Starting from Postplatz!".to_string()) }
    );
    assert_eq!(
        finish_elicit(JourneyField::Destination, Elicited::Given { place: String::new() }),
        ElicitOutcome { remember: text(""), reply: Ok("Going to !".to_string()) }
    );
}

#[test]
fn the_assumed_place_is_not_remembered() {
    assert_eq!(
        finish_elicit(JourneyField::Location, Elicited::Declined),
        ElicitOutcome { remember: None, reply: Ok("Currently at Hauptbahnhof Dresden!".to_string()) }
    );
    assert_eq!(
        finish_elicit(JourneyField::Origin, Elicited::Declined),
        ElicitOutcome { remember: None, reply: Ok("Starting from Hauptbahnhof Dresden!".to_string()) }
    );
}

#[test]
fn a_failed_question_is_reported() {
    assert_eq!(
        finish_elicit(JourneyField::Origin, Elicited::Failed),
        ElicitOutcome { remember: None, reply: Err("unable to determine origin".to_string()) }
    );
    assert_eq!(
        finish_elicit(JourneyField::Location, Elicited::Failed),
        ElicitOutcome { remember: None, reply: Err("unable to determine location".to_string()) }
    );
    assert_eq!(
        finish_elicit(JourneyField::Destination, Elicited::Failed),
        ElicitOutcome { remember: None, reply: Err("unable to determine destination".to_string()) }
    );
}

#[test]
fn reply_names_the_place() {
    assert_eq!(reply_text(JourneyField::Destination, "Bühlau"), "Going to Bühlau!");
}

#[test]
fn point_coords_keep_the_order_of_the_pair() {
    // Dresden Hauptbahnhof as the provider lists it.
    let point = DVBPointCoords::from((5_657_516, 4_621_644));
    assert_eq!(point, DVBPointCoords { latitude: 5_657_516, longitude: 4_621_644 });
    assert_eq!(point.easting_northing(), (4_621_644, 5_657_516));
}
