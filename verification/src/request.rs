//! Rules for reading what a caller asks for: which modes of transport a
//! departure query is narrowed to, and what a route query means where the
//! caller leaves a choice open.

use crate::text::same_text;
use vstd::prelude::*;
use vstd::string::*;

verus! {

/// A mode of transport by which departures can be filtered.
#[derive(Debug, Clone, Copy, PartialEq, Eq, Structural)]
pub enum TransportMode {
    Tram,
    Bus,
    Ferry,
    Train,
}

/// The mode that `name` spells, letter for letter, if it spells one.
pub open spec fn mode_of(name: Seq<char>) -> Option<TransportMode> {
    if name == "Tram"@ {
        Some(TransportMode::Tram)
    } else if name == "Bus"@ {
        Some(TransportMode::Bus)
    } else if name == "Ferry"@ {
        Some(TransportMode::Ferry)
    } else if name == "Train"@ {
        Some(TransportMode::Train)
    } else {
        None
    }
}

/// The modes that a list of names spells, in the order of the list; names
/// that spell no mode are passed over.
pub open spec fn modes_of(names: Seq<Seq<char>>) -> Seq<TransportMode>
    decreases names.len(),
{
    if names.len() == 0 {
        Seq::empty()
    } else {
        let before = modes_of(names.drop_last());
        match mode_of(names.last()) {
            Some(mode) => before.push(mode),
            None => before,
        }
    }
}

/// Reads the name of a mode of transport.
pub fn parse_mode(name: &str) -> (mode: Option<TransportMode>)
    ensures
        mode == mode_of(name@),
{
    if same_text(name, "Tram") {
        Some(TransportMode::Tram)
    } else if same_text(name, "Bus") {
        Some(TransportMode::Bus)
    } else if same_text(name, "Ferry") {
        Some(TransportMode::Ferry)
    } else if same_text(name, "Train") {
        Some(TransportMode::Train)
    } else {
        None
    }
}

/// Reads a list of names of modes of transport, passing over the names that
/// spell none.
pub fn parse_mot_filter(names: &Vec<String>) -> (modes: Vec<TransportMode>)
    ensures
        modes@ == modes_of(names.deep_view()),
{
    let ghost all = names.deep_view();
    let mut modes: Vec<TransportMode> = Vec::new();
    let mut i: usize = 0;
    while i < names.len()
        invariant
            i <= names.len(),
            all == names.deep_view(),
            modes@ == modes_of(all.take(i as int)),
        decreases names.len() - i,
    {
        proof {
            assert(all.take(i + 1).drop_last() =~= all.take(i as int));
            assert(all.take(i + 1).last() == names[i as int]@);
        }
        match parse_mode(names[i].as_str()) {
            Some(mode) => {
                modes.push(mode);
            },
            None => {},
        }
        i += 1;
    }
    proof {
        assert(all.take(names.len() as int) =~= all);
    }
    modes
}

/// The choices of a route query with nothing left open.
#[derive(Debug, PartialEq, Eq)]
pub struct RouteOptions {
    /// Whether the given time is the wanted arrival, not the departure.
    pub isarrivaltime: bool,
    /// Whether short-term changes of the timetable are taken into account.
    pub shorttermchanges: bool,
    /// The format in which the provider is to answer.
    pub format: String,
}

impl RouteOptions {
    /// Settles the choices of a route query: the time is a departure unless
    /// said otherwise, short-term changes count unless said otherwise, and
    /// the answer comes as `json` unless another format is named.
    pub fn resolve(
        isarrivaltime: Option<bool>,
        shorttermchanges: Option<bool>,
        format: Option<String>,
    ) -> (options: RouteOptions)
        ensures
            options.isarrivaltime == match isarrivaltime {
                Some(choice) => choice,
                None => false,
            },
            options.shorttermchanges == match shorttermchanges {
                Some(choice) => choice,
                None => true,
            },
            options.format@ == match format {
                Some(name) => name@,
                None => "json"@,
            },
    {
        RouteOptions {
            isarrivaltime: match isarrivaltime {
                Some(choice) => choice,
                None => false,
            },
            shorttermchanges: match shorttermchanges {
                Some(choice) => choice,
                None => true,
            },
            format: match format {
                Some(name) => name,
                None => String::from_str("json"),
            },
        }
    }
}

} // verus!
