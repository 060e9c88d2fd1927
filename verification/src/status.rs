//! The status line: the four fields in their fixed layout, and the bytes
//! that are published as the root window's title.

use vstd::prelude::*;
use vstd::string::*;
use crate::clock::{read_local_clock, ClockReading};
use crate::layout::{active_layout, active_layout_of, LayoutError};
use crate::temperature::{read_temperature, temperature_field, SensorError};
use crate::text::viewed;

verus! {

/// The four fields of one status line. They are made afresh for each line.
#[derive(Debug)]
pub struct PollResult {
    /// The temperature, as `+NN.00°C`.
    pub temperature: String,
    /// The active keyboard layout, in upper case.
    pub layout: String,
    /// The date, as `DD.MM.YY`.
    pub date: String,
    /// The time, as `HH:MM:SS`.
    pub time: String,
}

/// Why no status line could be composed.
#[derive(Clone, Copy, Debug, PartialEq, Eq)]
pub enum PollError {
    /// The sensor's text gives no temperature.
    Sensor(SensorError),
    /// The keyboard state gives no layout.
    Layout(LayoutError),
}

/// The status line for the four fields: four blanks, then each field
/// between bars and single blanks, then three blanks.
pub open spec fn status_text(
    temperature: Seq<char>,
    layout: Seq<char>,
    date: Seq<char>,
    time: Seq<char>,
) -> Seq<char> {
    "    | "@ + temperature + " | "@ + layout + " | "@ + date + " | "@ + time + " |   "@
}

/// The fields that the sources give at the clock reading `clock`, as
/// sequences of characters: the temperature comes first, and its failure is
/// reported before that of the layout.
pub open spec fn polled(sensor: Seq<char>, names: Seq<u8>, group: nat, clock: ClockReading)
    -> Result<(Seq<char>, Seq<char>, Seq<char>, Seq<char>), PollError> {
    match temperature_field(sensor) {
        Err(e) => Err(PollError::Sensor(e)),
        Ok(temperature) => match active_layout_of(names, group) {
            Err(e) => Err(PollError::Layout(e)),
            Ok(layout) => Ok((temperature, layout, clock.date(), clock.time())),
        },
    }
}

/// The status line that the sources give at the clock reading `clock`.
pub open spec fn status_at(sensor: Seq<char>, names: Seq<u8>, group: nat, clock: ClockReading)
    -> Result<Seq<char>, PollError> {
    match polled(sensor, names, group, clock) {
        Err(e) => Err(e),
        Ok(fields) => Ok(status_text(fields.0, fields.1, fields.2, fields.3)),
    }
}

impl PollResult {
    /// The four fields as sequences of characters.
    pub open spec fn fields(&self) -> (Seq<char>, Seq<char>, Seq<char>, Seq<char>) {
        (self.temperature@, self.layout@, self.date@, self.time@)
    }

    /// Renders the fields into the status line.
    pub fn render(&self) -> (r: String)
        ensures
            r@ == status_text(self.temperature@, self.layout@, self.date@, self.time@),
    {
        let mut out = String::from_str("    | ");
        out.append(self.temperature.as_str());
        out.append(" | ");
        out.append(self.layout.as_str());
        out.append(" | ");
        out.append(self.date.as_str());
        out.append(" | ");
        out.append(self.time.as_str());
        out.append(" |   ");
        out
    }
}

/// Gathers the four fields from the sensor's text, the keyboard's layout
/// list and active group, and a clock reading.
pub fn poll(sensor: &str, names: &[u8], group: u8, clock: &ClockReading) -> (r: Result<
    PollResult,
    PollError,
>)
    requires
        clock.wf(),
    ensures
        r is Ok ==> polled(sensor@, names@, group as nat, *clock) == Ok::<
            (Seq<char>, Seq<char>, Seq<char>, Seq<char>),
            PollError,
        >(r->Ok_0.fields()),
        r is Err ==> polled(sensor@, names@, group as nat, *clock) == Err::<
            (Seq<char>, Seq<char>, Seq<char>, Seq<char>),
            PollError,
        >(r->Err_0),
{
    let temperature = match read_temperature(sensor) {
        Ok(t) => t,
        Err(e) => {
            return Err(PollError::Sensor(e));
        },
    };
    let layout = match active_layout(names, group) {
        Ok(l) => l,
        Err(e) => {
            return Err(PollError::Layout(e));
        },
    };
    Ok(PollResult { temperature, layout, date: clock.format_date(), time: clock.format_time() })
}

/// The status line for the given sources at the given clock reading.
pub fn statusbar_at(sensor: &str, names: &[u8], group: u8, clock: &ClockReading) -> (r: Result<
    String,
    PollError,
>)
    requires
        clock.wf(),
    ensures
        viewed(r) == status_at(sensor@, names@, group as nat, *clock),
{
    match poll(sensor, names, group, clock) {
        Ok(fields) => Ok(fields.render()),
        Err(e) => Err(e),
    }
}

/// The status line for the given sources at the present moment: the local
/// clock is read once, after the sources have been found usable.
pub fn statusbar(sensor: &str, names: &[u8], group: u8) -> (r: Result<String, PollError>)
    ensures
        exists|clock: ClockReading|
            clock.wf() && viewed(r) == #[trigger] status_at(sensor@, names@, group as nat, clock),
        r is Ok <==> temperature_field(sensor@) is Ok && active_layout_of(names@, group as nat)
            is Ok,
{
    let clock = read_local_clock();
    statusbar_at(sensor, names, group, &clock)
}

/// The bytes that are handed to the display server as the title: the UTF-8
/// bytes of the status line and one closing zero byte. There are none where
/// the line itself holds a zero byte, which would end the title early.
pub fn title_bytes(status: &str) -> (r: Option<Vec<u8>>)
    ensures
        r is Some <==> !status.spec_bytes().contains(0u8),
        r is Some ==> r->0@ == status.spec_bytes().push(0u8),
{
    let mut bytes: Vec<u8> = status.as_bytes_vec();
    let n: usize = bytes.len();
    let mut i: usize = 0;
    while i < n
        invariant
            n == bytes@.len(),
            bytes@ == status.spec_bytes(),
            i <= n,
            forall|j: int| 0 <= j < i ==> bytes@[j] != 0u8,
        decreases n - i,
    {
        if bytes[i] == 0 {
            assert(status.spec_bytes()[i as int] == 0u8);
            return None;
        }
        i = i + 1;
    }
    bytes.push(0);
    Some(bytes)
}

} // verus!
