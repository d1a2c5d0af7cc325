//! Asking the user for a missing part of the journey. The server asks only
//! where it does not know the answer yet, remembers what the user says, and
//! has a reply ready for every way the question can end.

use vstd::prelude::*;
use vstd::string::*;

verus! {

/// The part of the journey that a question is about.
#[derive(Debug, Clone, Copy, PartialEq, Eq, Structural)]
pub enum JourneyField {
    /// Where the journey starts.
    Origin,
    /// Where the user is right now.
    Location,
    /// Where the user wants to go.
    Destination,
}

/// The place assumed where the user was asked and gave no answer.
pub open spec fn default_place() -> Seq<char> {
    "Hauptbahnhof Dresden"@
}

/// The question put to the user.
pub open spec fn prompt_of(field: JourneyField) -> Seq<char> {
    match field {
        JourneyField::Origin => "Please provide where you are starting from"@,
        JourneyField::Location => "Please provide where you are right now"@,
        JourneyField::Destination => "Please provide where you want to go."@,
    }
}

/// The reply that names the place the server goes on with.
pub open spec fn reply_of(field: JourneyField, place: Seq<char>) -> Seq<char> {
    match field {
        JourneyField::Origin => "Starting from "@ + place + "!"@,
        JourneyField::Location => "Currently at "@ + place + "!"@,
        JourneyField::Destination => "Going to "@ + place + "!"@,
    }
}

/// The reply given where the question could not be put.
pub open spec fn failure_of(field: JourneyField) -> Seq<char> {
    match field {
        JourneyField::Origin => "unable to determine origin"@,
        JourneyField::Location => "unable to determine location"@,
        JourneyField::Destination => "unable to determine destination"@,
    }
}

/// What the server does when it is to make sure of a field.
#[derive(Debug, PartialEq, Eq)]
pub enum ElicitStep {
    /// The field is known: reply at once.
    Reply { text: String },
    /// The field is not known: put the question to the user.
    Ask { prompt: String },
}

/// Mathematical value of an [`ElicitStep`].
pub enum StepView {
    Reply { text: Seq<char> },
    Ask { prompt: Seq<char> },
}

impl DeepView for ElicitStep {
    type V = StepView;

    open spec fn deep_view(&self) -> StepView {
        match self {
            ElicitStep::Reply { text } => StepView::Reply { text: text@ },
            ElicitStep::Ask { prompt } => StepView::Ask { prompt: prompt@ },
        }
    }
}

impl View for ElicitStep {
    type V = StepView;

    open spec fn view(&self) -> StepView {
        self.deep_view()
    }
}

/// How a question to the user ended.
#[derive(Debug, PartialEq, Eq)]
pub enum Elicited {
    /// The user named a place.
    Given { place: String },
    /// The user was asked and gave no answer.
    Declined,
    /// The question could not be put.
    Failed,
}

/// What follows from the end of a question: what is remembered from now on,
/// and what is said in reply.
#[derive(Debug, PartialEq, Eq)]
pub struct ElicitOutcome {
    /// The place to remember for the field, if there is one.
    pub remember: Option<String>,
    /// The reply, or the words of the failure.
    pub reply: Result<String, String>,
}

/// Mathematical value of an [`ElicitOutcome`].
pub struct OutcomeView {
    pub remember: Option<Seq<char>>,
    pub reply: Result<Seq<char>, Seq<char>>,
}

impl DeepView for ElicitOutcome {
    type V = OutcomeView;

    open spec fn deep_view(&self) -> OutcomeView {
        OutcomeView {
            remember: self.remember.deep_view(),
            reply: match self.reply {
                Ok(text) => Ok(text@),
                Err(text) => Err(text@),
            },
        }
    }
}

impl View for ElicitOutcome {
    type V = OutcomeView;

    open spec fn view(&self) -> OutcomeView {
        self.deep_view()
    }
}

/// The first step, given what is known of the field.
pub open spec fn step_of(field: JourneyField, known: Option<Seq<char>>) -> StepView {
    match known {
        Some(place) => StepView::Reply { text: reply_of(field, place) },
        None => StepView::Ask { prompt: prompt_of(field) },
    }
}

/// What follows from the end of the question. A place that the user named
/// is remembered; the place assumed for a user who gave none is not.
pub open spec fn outcome_of(field: JourneyField, answer: Option<Option<Seq<char>>>) -> OutcomeView {
    match answer {
        Some(Some(place)) => OutcomeView {
            remember: Some(place),
            reply: Ok(reply_of(field, place)),
        },
        Some(None) => OutcomeView { remember: None, reply: Ok(reply_of(field, default_place())) },
        None => OutcomeView { remember: None, reply: Err(failure_of(field)) },
    }
}

impl Elicited {
    /// The answer as a plain value: the place given, no place, or no answer
    /// at all.
    pub open spec fn answer(&self) -> Option<Option<Seq<char>>> {
        match self {
            Elicited::Given { place } => Some(Some(place@)),
            Elicited::Declined => Some(None),
            Elicited::Failed => None,
        }
    }
}

/// Writes the reply that names the place the server goes on with.
pub fn reply_text(field: JourneyField, place: &str) -> (text: String)
    ensures
        text@ == reply_of(field, place@),
{
    let mut text = match field {
        JourneyField::Origin => String::from_str("Starting from "),
        JourneyField::Location => String::from_str("Currently at "),
        JourneyField::Destination => String::from_str("Going to "),
    };
    text.append(place);
    text.append("!");
    text
}

/// Decides whether the user has to be asked about `field`.
pub fn begin_elicit(field: JourneyField, known: &Option<String>) -> (step: ElicitStep)
    ensures
        step@ == step_of(field, known.deep_view()),
{
    match known {
        Some(place) => ElicitStep::Reply { text: reply_text(field, place.as_str()) },
        None => ElicitStep::Ask {
            prompt: match field {
                JourneyField::Origin => String::from_str(
                    "Please provide where you are starting from",
                ),
                JourneyField::Location => String::from_str(
                    "Please provide where you are right now",
                ),
                JourneyField::Destination => String::from_str(
                    "Please provide where you want to go.",
                ),
            },
        },
    }
}

/// Decides what is remembered and what is said once the question about
/// `field` has ended.
pub fn finish_elicit(field: JourneyField, answer: Elicited) -> (outcome: ElicitOutcome)
    ensures
        outcome@ == outcome_of(field, answer.answer()),
{
    match answer {
        Elicited::Given { place } => {
            let text = reply_text(field, place.as_str());
            ElicitOutcome { remember: Some(place), reply: Ok(text) }
        },
        Elicited::Declined => ElicitOutcome {
            remember: None,
            reply: Ok(reply_text(field, "Hauptbahnhof Dresden")),
        },
        Elicited::Failed => ElicitOutcome {
            remember: None,
            reply: Err(
                match field {
                    JourneyField::Origin => String::from_str("unable to determine origin"),
                    JourneyField::Location => String::from_str("unable to determine location"),
                    JourneyField::Destination => String::from_str(
                        "unable to determine destination",
                    ),
                },
            ),
        },
    }
}

} // verus!
