//! What the server knows about the user's journey: where it starts, where
//! the user is right now and where the user wants to go, with a judgement of
//! how complete that knowledge is and a sentence that says it in words.

use crate::instant::Instant;
use crate::optional::copy_text;
use vstd::prelude::*;
use vstd::string::*;

verus! {

/// Status of user context completeness.
#[derive(Debug, Clone, Copy, PartialEq, Eq, Structural)]
pub enum UserContextStatus {
    /// All three fields (origin, location, destination) are set.
    Complete,
    /// At least one field is set, but not all.
    Partial,
    /// No fields are set.
    Empty,
}

/// User context containing origin, current location, and destination.
#[derive(Debug, PartialEq, Eq)]
pub struct UserContext {
    /// Where the user's journey starts.
    pub origin: Option<String>,
    /// Where the user currently is.
    pub location: Option<String>,
    /// Where the user wants to go.
    pub destination: Option<String>,
    /// Last time context was updated, in RFC 3339 notation.
    pub last_updated: String,
    /// Whether any context is available.
    pub context_available: bool,
    /// Status of context completeness.
    pub status: UserContextStatus,
    /// Human-readable description of the context.
    pub message: String,
}

/// Mathematical value of a [`UserContext`].
pub struct ContextView {
    pub origin: Option<Seq<char>>,
    pub location: Option<Seq<char>>,
    pub destination: Option<Seq<char>>,
    pub last_updated: Seq<char>,
    pub context_available: bool,
    pub status: UserContextStatus,
    pub message: Seq<char>,
}

impl DeepView for UserContext {
    type V = ContextView;

    open spec fn deep_view(&self) -> ContextView {
        ContextView {
            origin: self.origin.deep_view(),
            location: self.location.deep_view(),
            destination: self.destination.deep_view(),
            last_updated: self.last_updated@,
            context_available: self.context_available,
            status: self.status,
            message: self.message@,
        }
    }
}

impl View for UserContext {
    type V = ContextView;

    open spec fn view(&self) -> ContextView {
        self.deep_view()
    }
}

/// How complete the context is, given which of the three fields are set.
pub open spec fn status_of(origin: bool, location: bool, destination: bool) -> UserContextStatus {
    if origin && location && destination {
        UserContextStatus::Complete
    } else if origin || location || destination {
        UserContextStatus::Partial
    } else {
        UserContextStatus::Empty
    }
}

/// The sentence that describes the context: it names every field that is
/// set and, in brackets, every field that is not.
pub open spec fn message_of(
    origin: Option<Seq<char>>,
    location: Option<Seq<char>>,
    destination: Option<Seq<char>>,
) -> Seq<char> {
    match (origin, location, destination) {
        (Some(org), Some(loc), Some(dest)) => "User journey: Origin: "@ + org
            + ", Current location: "@ + loc + ", Destination: "@ + dest,
        (Some(org), Some(loc), None) => "User origin: "@ + org + ", Current location: "@ + loc
            + " (destination not set)"@,
        (Some(org), None, Some(dest)) => "User origin: "@ + org + ", Destination: "@ + dest
            + " (current location not set)"@,
        (None, Some(loc), Some(dest)) => "Current location: "@ + loc + ", Destination: "@ + dest
            + " (origin not set)"@,
        (Some(org), None, None) => "User origin: "@ + org
            + " (location and destination not set)"@,
        (None, Some(loc), None) => "Current location: "@ + loc
            + " (origin and destination not set)"@,
        (None, None, Some(dest)) => "Destination: "@ + dest + " (origin and location not set)"@,
        (None, None, None) => "No user context saved yet"@,
    }
}

/// The context made of the three fields, last updated at the time that
/// `last_updated` spells out.
pub open spec fn context_of(
    origin: Option<Seq<char>>,
    location: Option<Seq<char>>,
    destination: Option<Seq<char>>,
    last_updated: Seq<char>,
) -> ContextView {
    ContextView {
        origin,
        location,
        destination,
        last_updated,
        context_available: origin is Some || location is Some || destination is Some,
        status: status_of(origin is Some, location is Some, destination is Some),
        message: message_of(origin, location, destination),
    }
}

/// Writes the sentence that describes the context.
fn describe(
    origin: &Option<String>,
    location: &Option<String>,
    destination: &Option<String>,
) -> (message: String)
    ensures
        message@ == message_of(origin.deep_view(), location.deep_view(), destination.deep_view()),
{
    match (origin, location, destination) {
        (Some(org), Some(loc), Some(dest)) => {
            let mut message = String::from_str("User journey: Origin: ");
            message.append(org.as_str());
            message.append(", Current location: ");
            message.append(loc.as_str());
            message.append(", Destination: ");
            message.append(dest.as_str());
            message
        },
        (Some(org), Some(loc), None) => {
            let mut message = String::from_str("User origin: ");
            message.append(org.as_str());
            message.append(", Current location: ");
            message.append(loc.as_str());
            message.append(" (destination not set)");
            message
        },
        (Some(org), None, Some(dest)) => {
            let mut message = String::from_str("User origin: ");
            message.append(org.as_str());
            message.append(", Destination: ");
            message.append(dest.as_str());
            message.append(" (current location not set)");
            message
        },
        (None, Some(loc), Some(dest)) => {
            let mut message = String::from_str("Current location: ");
            message.append(loc.as_str());
            message.append(", Destination: ");
            message.append(dest.as_str());
            message.append(" (origin not set)");
            message
        },
        (Some(org), None, None) => {
            let mut message = String::from_str("User origin: ");
            message.append(org.as_str());
            message.append(" (location and destination not set)");
            message
        },
        (None, Some(loc), None) => {
            let mut message = String::from_str("Current location: ");
            message.append(loc.as_str());
            message.append(" (origin and destination not set)");
            message
        },
        (None, None, Some(dest)) => {
            let mut message = String::from_str("Destination: ");
            message.append(dest.as_str());
            message.append(" (origin and location not set)");
            message
        },
        (None, None, None) => String::from_str("No user context saved yet"),
    }
}

impl UserContext {
    /// Creates the context from the given values, as of the instant `now`.
    pub fn at(
        origin: Option<String>,
        location: Option<String>,
        destination: Option<String>,
        now: Instant,
    ) -> (context: UserContext)
        ensures
            context@ == context_of(
                origin.deep_view(),
                location.deep_view(),
                destination.deep_view(),
                now.rfc3339(),
            ),
    {
        let any_set = origin.is_some() || location.is_some() || destination.is_some();
        let all_set = origin.is_some() && location.is_some() && destination.is_some();
        let status = if all_set {
            UserContextStatus::Complete
        } else if any_set {
            UserContextStatus::Partial
        } else {
            UserContextStatus::Empty
        };
        let message = describe(&origin, &location, &destination);
        UserContext {
            origin,
            location,
            destination,
            last_updated: now.to_rfc3339(),
            context_available: any_set,
            status,
            message,
        }
    }

    /// Creates the context from the given values, as of the moment of the
    /// call.
    pub fn new(
        origin: Option<String>,
        location: Option<String>,
        destination: Option<String>,
    ) -> (context: UserContext)
        ensures
            context@ == context_of(
                origin.deep_view(),
                location.deep_view(),
                destination.deep_view(),
                context@.last_updated,
            ),
            exists|now: Instant| context@.last_updated == now.rfc3339(),
    {
        let now = Instant::now();
        let context = UserContext::at(origin, location, destination, now);
        proof {
            assert(context@.last_updated == now.rfc3339());
        }
        context
    }
}

impl Clone for UserContext {
    fn clone(&self) -> (copy: Self)
        ensures
            copy@ == self@,
    {
        UserContext {
            origin: copy_text(&self.origin),
            location: copy_text(&self.location),
            destination: copy_text(&self.destination),
            last_updated: self.last_updated.clone(),
            context_available: self.context_available,
            status: self.status,
            message: self.message.clone(),
        }
    }
}

} // verus!
