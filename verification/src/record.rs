//! The records that are published: one per elevator outage, one line of text
//! per disruption of the suspension railway, and what stands in for them when
//! there is nothing to report.

use vstd::prelude::*;
use crate::text::{parse_period, same_text, split_period, trim, trimmed};

verus! {

/// One elevator outage.
#[derive(Debug, PartialEq, Eq)]
pub struct ElevatorStatus {
    pub station: String,
    pub event: String,
    pub start_time: String,
    pub end_time: String,
    pub location: String,
    pub info: String,
}

/// What an `ElevatorStatus` says, as plain text.
pub struct ElevatorView {
    pub station: Seq<char>,
    pub event: Seq<char>,
    pub start_time: Seq<char>,
    pub end_time: Seq<char>,
    pub location: Seq<char>,
    pub info: Seq<char>,
}

impl View for ElevatorStatus {
    type V = ElevatorView;

    open spec fn view(&self) -> ElevatorView {
        ElevatorView {
            station: self.station@,
            event: self.event@,
            start_time: self.start_time@,
            end_time: self.end_time@,
            location: self.location@,
            info: self.info@,
        }
    }
}

impl DeepView for ElevatorStatus {
    type V = ElevatorView;

    open spec fn deep_view(&self) -> ElevatorView {
        self@
    }
}

impl Clone for ElevatorStatus {
    fn clone(&self) -> (r: Self)
        ensures
            r@ == self@,
    {
        ElevatorStatus {
            station: self.station.clone(),
            event: self.event.clone(),
            start_time: self.start_time.clone(),
            end_time: self.end_time.clone(),
            location: self.location.clone(),
            info: self.info.clone(),
        }
    }
}

/// The means of transport that a row of the page reports on.
#[derive(Clone, Copy, Debug, PartialEq, Eq, Structural)]
pub enum Transportation {
    /// An elevator: the row gives a record.
    Elevator,
    /// The suspension railway: the row gives a line entry.
    Subway,
    /// Anything else: the row is passed over.
    Unknown,
}

/// The discriminator of a row that reports on an elevator.
pub const ELEVATOR: &'static str = "elevator";

/// The discriminator of a row that reports on the suspension railway.
pub const SUBWAY: &'static str = "subway";

/// The means of transport that the discriminator `value` names.
pub open spec fn transportation_of(value: Seq<char>) -> Transportation {
    if value == ELEVATOR@ {
        Transportation::Elevator
    } else if value == SUBWAY@ {
        Transportation::Subway
    } else {
        Transportation::Unknown
    }
}

/// Each of the two known discriminators names its own means of transport, and
/// every other value names none.
pub proof fn lemma_discriminators(value: Seq<char>)
    ensures
        transportation_of(ELEVATOR@) == Transportation::Elevator,
        transportation_of(SUBWAY@) == Transportation::Subway,
        transportation_of(value) == Transportation::Unknown <==> value != ELEVATOR@ && value
            != SUBWAY@,
{
    reveal_strlit("elevator");
    reveal_strlit("subway");
    assert(ELEVATOR@.len() != SUBWAY@.len());
}

/// Tells which means of transport a row's discriminator names. Any value but
/// the two known ones, the empty one included, is `Unknown`.
pub fn classify(value: &str) -> (r: Transportation)
    ensures
        r == transportation_of(value@),
{
    if same_text(value, ELEVATOR) {
        Transportation::Elevator
    } else if same_text(value, SUBWAY) {
        Transportation::Subway
    } else {
        Transportation::Unknown
    }
}

/// The record of an elevator outage whose cells hold the given raw texts.
pub open spec fn elevator_from(
    station: Seq<char>,
    event: Seq<char>,
    period: Seq<char>,
    location: Seq<char>,
    info: Seq<char>,
) -> ElevatorView {
    let window = split_period(period);
    ElevatorView {
        station: trimmed(station),
        event: trimmed(event),
        start_time: window.0,
        end_time: window.1,
        location: trimmed(location),
        info: trimmed(info),
    }
}

/// Builds the record of an elevator outage from the raw texts of its cells:
/// each is trimmed, and the period is split into its start and its end.
pub fn elevator_record(station: &str, event: &str, period: &str, location: &str, info: &str) -> (r:
    ElevatorStatus)
    ensures
        r@ == elevator_from(station@, event@, period@, location@, info@),
{
    let (start_time, end_time) = parse_period(period);
    ElevatorStatus {
        station: trim(station),
        event: trim(event),
        start_time,
        end_time,
        location: trim(location),
        info: trim(info),
    }
}

/// What stands between the event and the location in a line entry.
pub const ENTRY_SEPARATOR: &'static str = ": ";

/// The line entry for a disruption whose cells hold the given raw texts.
pub open spec fn line_from(event: Seq<char>, location: Seq<char>) -> Seq<char> {
    trimmed(event) + ENTRY_SEPARATOR@ + trimmed(location)
}

/// Builds the line entry "<event>: <location>" from the raw texts of a
/// disruption's cells, each trimmed.
pub fn line_entry(event: &str, location: &str) -> (r: String)
    ensures
        r@ == line_from(event@, location@),
{
    let mut r = trim(event);
    let location = trim(location);
    r.append(ENTRY_SEPARATOR);
    r.append(location.as_str());
    r
}

/// The line that is published when no disruption is reported.
pub const NO_DISRUPTIONS: &'static str = "Keine aktuellen Störungen";

/// The text of the record that is published when no outage is reported.
pub const ALL_IN_SERVICE: &'static str = "Alle Aufzüge sind in Betrieb";

/// The record that is published when no outage is reported: only its `info`
/// is set.
pub open spec fn elevator_placeholder() -> ElevatorView {
    ElevatorView {
        station: Seq::empty(),
        event: Seq::empty(),
        start_time: Seq::empty(),
        end_time: Seq::empty(),
        location: Seq::empty(),
        info: ALL_IN_SERVICE@,
    }
}

/// The lines to publish for the disruptions `lines`.
pub open spec fn published_lines(lines: Seq<Seq<char>>) -> Seq<Seq<char>> {
    if lines.len() == 0 {
        seq![NO_DISRUPTIONS@]
    } else {
        lines
    }
}

/// The records to publish for the outages `elevators`.
pub open spec fn published_elevators(elevators: Seq<ElevatorView>) -> Seq<ElevatorView> {
    if elevators.len() == 0 {
        seq![elevator_placeholder()]
    } else {
        elevators
    }
}

/// Puts the placeholder line in the place of an empty list of disruptions.
pub fn with_placeholder_line(lines: Vec<String>) -> (r: Vec<String>)
    ensures
        r.deep_view() == published_lines(lines.deep_view()),
{
    if lines.len() == 0 {
        let mut r: Vec<String> = Vec::new();
        r.push(String::from_str(NO_DISRUPTIONS));
        assert(r.deep_view() =~= seq![NO_DISRUPTIONS@]);
        r
    } else {
        lines
    }
}

/// Puts the placeholder record in the place of an empty list of outages.
pub fn with_placeholder_elevator(elevators: Vec<ElevatorStatus>) -> (r: Vec<ElevatorStatus>)
    ensures
        r.deep_view() == published_elevators(elevators.deep_view()),
{
    if elevators.len() == 0 {
        let mut r: Vec<ElevatorStatus> = Vec::new();
        r.push(
            ElevatorStatus {
                station: String::new(),
                event: String::new(),
                start_time: String::new(),
                end_time: String::new(),
                location: String::new(),
                info: String::from_str(ALL_IN_SERVICE),
            },
        );
        assert(r.deep_view() =~= seq![elevator_placeholder()]);
        r
    } else {
        elevators
    }
}

} // verus!
