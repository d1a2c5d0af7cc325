//! The resources that the server offers about the user's journey: which of
//! them exist at a given moment, and what a request for one of them is
//! answered with.

use crate::text::{same_text, strip_prefix};
use vstd::prelude::*;
use vstd::string::*;

verus! {

/// Address of the whole user context.
pub open spec fn context_uri() -> Seq<char> {
    "dvb://user/context"@
}

/// Address of the journey's origin.
pub open spec fn origin_uri() -> Seq<char> {
    "dvb://user/origin"@
}

/// Address of the user's current location.
pub open spec fn location_uri() -> Seq<char> {
    "dvb://user/location"@
}

/// Address of the journey's destination.
pub open spec fn destination_uri() -> Seq<char> {
    "dvb://user/destination"@
}

/// What the address of a stop's departures starts with; the stop's
/// identifier follows.
pub open spec fn departures_prefix() -> Seq<char> {
    "dvb://departures/"@
}

/// What an address asks for.
#[derive(Debug, PartialEq, Eq)]
pub enum ResourceRequest {
    /// The whole user context.
    Context,
    /// The journey's origin.
    Origin,
    /// The user's current location.
    Location,
    /// The journey's destination.
    Destination,
    /// The next departures from a stop.
    Departures { stop_id: String },
    /// Nothing that the server offers.
    Unknown,
}

/// Mathematical value of a [`ResourceRequest`].
pub enum RequestView {
    Context,
    Origin,
    Location,
    Destination,
    Departures { stop_id: Seq<char> },
    Unknown,
}

impl DeepView for ResourceRequest {
    type V = RequestView;

    open spec fn deep_view(&self) -> RequestView {
        match self {
            ResourceRequest::Context => RequestView::Context,
            ResourceRequest::Origin => RequestView::Origin,
            ResourceRequest::Location => RequestView::Location,
            ResourceRequest::Destination => RequestView::Destination,
            ResourceRequest::Departures { stop_id } => RequestView::Departures {
                stop_id: stop_id@,
            },
            ResourceRequest::Unknown => RequestView::Unknown,
        }
    }
}

impl View for ResourceRequest {
    type V = RequestView;

    open spec fn view(&self) -> RequestView {
        self.deep_view()
    }
}

/// What the address `uri` asks for: one of the four fixed addresses, the
/// departures of the stop named behind the prefix, or nothing known.
pub open spec fn request_of(uri: Seq<char>) -> RequestView {
    if uri == context_uri() {
        RequestView::Context
    } else if uri == origin_uri() {
        RequestView::Origin
    } else if uri == location_uri() {
        RequestView::Location
    } else if uri == destination_uri() {
        RequestView::Destination
    } else if departures_prefix().is_prefix_of(uri) {
        RequestView::Departures { stop_id: uri.skip(departures_prefix().len() as int) }
    } else {
        RequestView::Unknown
    }
}

/// Reads an address.
pub fn classify_resource(uri: &str) -> (request: ResourceRequest)
    ensures
        request@ == request_of(uri@),
{
    if same_text(uri, "dvb://user/context") {
        ResourceRequest::Context
    } else if same_text(uri, "dvb://user/origin") {
        ResourceRequest::Origin
    } else if same_text(uri, "dvb://user/location") {
        ResourceRequest::Location
    } else if same_text(uri, "dvb://user/destination") {
        ResourceRequest::Destination
    } else {
        match strip_prefix(uri, "dvb://departures/") {
            Some(stop_id) => {
                proof {
                    let prefix = departures_prefix();
                    assert(uri@.subrange(0, prefix.len() as int) =~= prefix);
                    assert(uri@.skip(prefix.len() as int) =~= stop_id@);
                }
                ResourceRequest::Departures { stop_id: String::from_str(stop_id) }
            },
            None => ResourceRequest::Unknown,
        }
    }
}

/// What a request for a resource is answered with.
#[derive(Debug, PartialEq, Eq)]
pub enum ResourceAnswer {
    /// The whole user context is shown.
    Context,
    /// One field of the context is shown under its name.
    Field { name: String, value: String },
    /// The departures from a stop have to be fetched and are shown.
    Departures { stop_id: String },
    /// There is no such resource; the message says why.
    NotFound { message: String },
}

/// Mathematical value of a [`ResourceAnswer`].
pub enum AnswerView {
    Context,
    Field { name: Seq<char>, value: Seq<char> },
    Departures { stop_id: Seq<char> },
    NotFound { message: Seq<char> },
}

impl DeepView for ResourceAnswer {
    type V = AnswerView;

    open spec fn deep_view(&self) -> AnswerView {
        match self {
            ResourceAnswer::Context => AnswerView::Context,
            ResourceAnswer::Field { name, value } => AnswerView::Field {
                name: name@,
                value: value@,
            },
            ResourceAnswer::Departures { stop_id } => AnswerView::Departures {
                stop_id: stop_id@,
            },
            ResourceAnswer::NotFound { message } => AnswerView::NotFound { message: message@ },
        }
    }
}

impl View for ResourceAnswer {
    type V = AnswerView;

    open spec fn view(&self) -> AnswerView {
        self.deep_view()
    }
}

/// The answer for one field of the context: its value under `name` where it
/// is set, and `missing` where it is not.
pub open spec fn field_answer(
    name: Seq<char>,
    value: Option<Seq<char>>,
    missing: Seq<char>,
) -> AnswerView {
    match value {
        Some(v) => AnswerView::Field { name, value: v },
        None => AnswerView::NotFound { message: missing },
    }
}

/// The answer to a request, given what is known of the user's journey.
pub open spec fn answer_of(
    request: RequestView,
    origin: Option<Seq<char>>,
    location: Option<Seq<char>>,
    destination: Option<Seq<char>>,
) -> AnswerView {
    match request {
        RequestView::Context => AnswerView::Context,
        RequestView::Origin => field_answer("origin"@, origin, "Origin not set"@),
        RequestView::Location => field_answer("location"@, location, "Current location not set"@),
        RequestView::Destination => field_answer(
            "destination"@,
            destination,
            "Destination not set"@,
        ),
        RequestView::Departures { stop_id } => AnswerView::Departures { stop_id },
        RequestView::Unknown => AnswerView::NotFound { message: "Resource not found"@ },
    }
}

/// Answers for one field of the context.
fn answer_field(name: &str, value: &Option<String>, missing: &str) -> (answer: ResourceAnswer)
    ensures
        answer@ == field_answer(name@, value.deep_view(), missing@),
{
    match value {
        Some(v) => ResourceAnswer::Field { name: String::from_str(name), value: v.clone() },
        None => ResourceAnswer::NotFound { message: String::from_str(missing) },
    }
}

/// Decides what a request for the resource at `uri` is answered with.
pub fn answer_resource(
    uri: &str,
    origin: &Option<String>,
    location: &Option<String>,
    destination: &Option<String>,
) -> (answer: ResourceAnswer)
    ensures
        answer@ == answer_of(
            request_of(uri@),
            origin.deep_view(),
            location.deep_view(),
            destination.deep_view(),
        ),
{
    match classify_resource(uri) {
        ResourceRequest::Context => ResourceAnswer::Context,
        ResourceRequest::Origin => answer_field("origin", origin, "Origin not set"),
        ResourceRequest::Location => answer_field(
            "location",
            location,
            "Current location not set",
        ),
        ResourceRequest::Destination => answer_field(
            "destination",
            destination,
            "Destination not set",
        ),
        ResourceRequest::Departures { stop_id } => ResourceAnswer::Departures { stop_id },
        ResourceRequest::Unknown => ResourceAnswer::NotFound {
            message: String::from_str("Resource not found"),
        },
    }
}

/// A resource as the server lists it.
#[derive(Debug, PartialEq, Eq)]
pub struct ResourceEntry {
    /// The address of the resource.
    pub uri: String,
    /// The name shown for it.
    pub name: String,
}

/// Mathematical value of a [`ResourceEntry`].
pub struct EntryView {
    pub uri: Seq<char>,
    pub name: Seq<char>,
}

impl DeepView for ResourceEntry {
    type V = EntryView;

    open spec fn deep_view(&self) -> EntryView {
        EntryView { uri: self.uri@, name: self.name@ }
    }
}

impl View for ResourceEntry {
    type V = EntryView;

    open spec fn view(&self) -> EntryView {
        self.deep_view()
    }
}

/// The entry for a resource, where the resource is there.
pub open spec fn entry_if(present: bool, uri: Seq<char>, name: Seq<char>) -> Seq<EntryView> {
    if present {
        seq![EntryView { uri, name }]
    } else {
        Seq::empty()
    }
}

/// The resources on offer: always the whole context, then origin, location
/// and destination, each only while it is set.
pub open spec fn listed(origin_set: bool, location_set: bool, destination_set: bool) -> Seq<
    EntryView,
> {
    entry_if(true, context_uri(), "User Context"@) + entry_if(
        origin_set,
        origin_uri(),
        "User Origin"@,
    ) + entry_if(location_set, location_uri(), "User Current Location"@) + entry_if(
        destination_set,
        destination_uri(),
        "User Destination"@,
    )
}

/// Lists the resources on offer.
pub fn list_resources(origin_set: bool, location_set: bool, destination_set: bool) -> (entries: Vec<
    ResourceEntry,
>)
    ensures
        entries.deep_view() == listed(origin_set, location_set, destination_set),
{
    let mut entries: Vec<ResourceEntry> = Vec::new();
    entries.push(
        ResourceEntry {
            uri: String::from_str("dvb://user/context"),
            name: String::from_str("User Context"),
        },
    );
    if origin_set {
        entries.push(
            ResourceEntry {
                uri: String::from_str("dvb://user/origin"),
                name: String::from_str("User Origin"),
            },
        );
    }
    if location_set {
        entries.push(
            ResourceEntry {
                uri: String::from_str("dvb://user/location"),
                name: String::from_str("User Current Location"),
            },
        );
    }
    if destination_set {
        entries.push(
            ResourceEntry {
                uri: String::from_str("dvb://user/destination"),
                name: String::from_str("User Destination"),
            },
        );
    }
    proof {
        assert(entries.deep_view() =~= listed(origin_set, location_set, destination_set));
    }
    entries
}

} // verus!
