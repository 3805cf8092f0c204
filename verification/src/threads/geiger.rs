//! The radiation worker. The counter on the serial line sends one line of
//! text every second; the worker keeps the counts per minute of the last
//! minute and reports their mean once a minute.
//!
//! A read need not start where a line starts. A line break ends a line, so
//! what was left of a line in front of it is passed over and the line behind
//! it is read.

pub use crate::error::Error;
use crate::reading::{mean_reading, said, Quantity, SensorReading};
use crate::text::{
    chars_of, field_views, lemma_split_joined, lines_of, parse_unsigned_in, parsed_unsigned,
    range_equals, split_fields, split_lines, split_on, trim_bounds, trimmed, ParseFault,
};
use crate::threads::SerialRead;
use crate::window::{pushed, RollingWindow};
use vstd::prelude::*;
use vstd::string::*;

verus! {

/// The time between two reads of the serial line, in milliseconds.
pub const PERIOD_MS: u64 = 1000;

/// How long a read waits for data, in milliseconds. It is short: what is not
/// there yet is read a second later.
pub const READ_TIMEOUT_MS: u64 = 10;

/// The most that one read takes from the line, in bytes.
pub const READ_BUFFER_LEN: usize = 200;

/// The number of samples that the window holds, and the number of ticks
/// between two reports.
pub const SAMPLES_PER_REPORT: u32 = 60;

/// The field with which a line of the counter starts.
pub open spec fn marker() -> Seq<char> {
    seq!['C', 'P', 'S']
}

/// What a piece of text from the counter holds.
#[derive(Clone, Copy, Debug, PartialEq, Eq, Structural)]
pub enum CpmFrame {
    /// The counts per minute of a line.
    Sample(u32),
    /// No field is the marker: there is no line, or only the rest of one.
    NoMarker,
    /// The line ends before the counts per minute.
    Truncated,
    /// The field of the counts per minute holds no number that fits.
    Malformed(ParseFault),
}

/// The place of the first field of `fields` that is the marker once the
/// whitespace around it is cut off, or the number of fields if none is.
pub open spec fn first_marker(fields: Seq<Seq<char>>) -> int
    decreases fields.len(),
{
    if fields.len() == 0 {
        0
    } else if trimmed(fields[0]) == marker() {
        0
    } else {
        1 + first_marker(fields.drop_first())
    }
}

/// What one line holds. A line of the counter is a list of fields with
/// commas between them: the marker, the counts per second, a label, the
/// counts per minute, and more. The fields before the first marker are
/// passed over, and the counts per minute are the third field behind it.
pub open spec fn line_frame(line: Seq<char>) -> CpmFrame {
    let fields = split_fields(line, ',');
    let at = first_marker(fields);
    if at >= fields.len() {
        CpmFrame::NoMarker
    } else if at + 3 >= fields.len() {
        CpmFrame::Truncated
    } else {
        match parsed_unsigned(trimmed(fields[at + 3]), 0xFFFF_FFFF) {
            Ok(n) => CpmFrame::Sample(n as u32),
            Err(e) => CpmFrame::Malformed(e),
        }
    }
}

/// Which of two counts: what the text in front holds and what the text
/// behind it holds. Counts come before a fault, a fault comes before no
/// marker at all, and of two of a kind the one in front.
pub open spec fn preferred(front: CpmFrame, behind: CpmFrame) -> CpmFrame {
    if front is Sample {
        front
    } else if behind is Sample {
        behind
    } else if front is NoMarker {
        behind
    } else {
        front
    }
}

/// What `lines` hold: the counts of the first line that has any. If no line
/// has counts, the fault of the first line with a marker, if there is one.
pub open spec fn frame_in(lines: Seq<Seq<char>>) -> CpmFrame
    decreases lines.len(),
{
    if lines.len() == 0 {
        CpmFrame::NoMarker
    } else {
        preferred(line_frame(lines[0]), frame_in(lines.drop_first()))
    }
}

/// What `text` holds. The text is read line by line, so that a read which
/// starts inside a line, or holds a line that is cut short, still gives the
/// counts of the whole line that it holds.
pub open spec fn cpm_frame(text: Seq<char>) -> CpmFrame {
    frame_in(split_lines(text))
}

/// The first marker is where a marker stands that none stands before.
pub proof fn lemma_first_marker(fields: Seq<Seq<char>>, at: int)
    requires
        0 <= at <= fields.len(),
        forall|j: int| 0 <= j < at ==> trimmed(#[trigger] fields[j]) != marker(),
        at < fields.len() ==> trimmed(fields[at]) == marker(),
    ensures
        first_marker(fields) == at,
    decreases at,
{
    if at > 0 {
        let rest = fields.drop_first();
        assert(trimmed(fields[0]) != marker());
        assert forall|j: int| 0 <= j < at - 1 implies trimmed(#[trigger] rest[j]) != marker() by {
            assert(rest[j] == fields[j + 1]);
        }
        if at < fields.len() {
            assert(rest[at - 1] == fields[at]);
        }
        lemma_first_marker(rest, at - 1);
    }
}

/// What is preferred of three does not depend on which two are weighed first.
pub proof fn lemma_preferred_associates(a: CpmFrame, b: CpmFrame, c: CpmFrame)
    ensures
        preferred(a, preferred(b, c)) == preferred(preferred(a, b), c),
{
}

/// The lines of two runs, one behind the other, hold what is preferred of
/// what each run holds.
pub proof fn lemma_frame_in_joined(front: Seq<Seq<char>>, behind: Seq<Seq<char>>)
    ensures
        frame_in(front + behind) == preferred(frame_in(front), frame_in(behind)),
    decreases front.len(),
{
    if front.len() == 0 {
        assert(front + behind =~= behind);
    } else {
        let rest = front.drop_first();
        assert((front + behind).drop_first() =~= rest + behind);
        assert((front + behind)[0] == front[0]);
        lemma_frame_in_joined(rest, behind);
        lemma_preferred_associates(line_frame(front[0]), frame_in(rest), frame_in(behind));
    }
}

/// The first line with counts decides.
pub proof fn lemma_first_line_with_counts(lines: Seq<Seq<char>>, k: int)
    requires
        0 <= k < lines.len(),
        line_frame(lines[k]) is Sample,
        forall|j: int| 0 <= j < k ==> !(line_frame(#[trigger] lines[j]) is Sample),
    ensures
        frame_in(lines) == line_frame(lines[k]),
    decreases k,
{
    if k > 0 {
        let rest = lines.drop_first();
        assert(rest[k - 1] == lines[k]);
        assert forall|j: int| 0 <= j < k - 1 implies !(line_frame(#[trigger] rest[j]) is Sample) by {
            assert(rest[j] == lines[j + 1]);
        }
        assert(!(line_frame(lines[0]) is Sample));
        lemma_first_line_with_counts(rest, k - 1);
    }
}

/// Resynchronisation: of a read that holds a line break, what stands in
/// front of the break and what stands behind it are read each for itself.
/// So where the front is the rest of a line, without counts of its own, and
/// a whole line stands behind the break, the read gives the counts of that
/// line, and the rest in front adds nothing.
pub proof fn lemma_resynchronises(front: Seq<char>, line_break: char, behind: Seq<char>)
    requires
        line_break == '\r' || line_break == '\n',
    ensures
        cpm_frame(front + seq![line_break] + behind) == preferred(
            cpm_frame(front),
            cpm_frame(behind),
        ),
        !(cpm_frame(front) is Sample) && cpm_frame(behind) is Sample ==> cpm_frame(
            front + seq![line_break] + behind,
        ) == cpm_frame(behind),
{
    lemma_split_joined(front, line_break, behind, '\r', '\n');
    lemma_frame_in_joined(split_lines(front), split_lines(behind));
}

/// What the line `line` holds.
pub fn parse_line(line: &Vec<char>) -> (frame: CpmFrame)
    ensures
        frame == line_frame(line@),
{
    let fields = split_on(line, ',');
    let word: Vec<char> = vec!['C', 'P', 'S'];
    assert(word@ =~= marker());
    let ghost views = field_views(fields@);
    let mut i: usize = 0;
    while i < fields.len()
        invariant
            i <= fields.len(),
            views == field_views(fields@),
            views == split_fields(line@, ','),
            word@ == marker(),
            forall|j: int| 0 <= j < i ==> trimmed(#[trigger] views[j]) != marker(),
        decreases fields.len() - i,
    {
        let field = &fields[i];
        let (start, end) = trim_bounds(field);
        assert(views[i as int] == field@);
        if range_equals(field, start, end, &word) {
            proof {
                lemma_first_marker(views, i as int);
            }
            if fields.len() - i <= 3 {
                return CpmFrame::Truncated;
            }
            let counts = &fields[i + 3];
            assert(views[i + 3] == counts@);
            let (from, to) = trim_bounds(counts);
            return match parse_unsigned_in(counts, from, to, 0xFFFF_FFFF) {
                Ok(n) => CpmFrame::Sample(n as u32),
                Err(e) => CpmFrame::Malformed(e),
            };
        }
        i = i + 1;
    }
    proof {
        lemma_first_marker(views, fields.len() as int);
    }
    CpmFrame::NoMarker
}

/// What `text` holds.
pub fn parse_frame(text: &str) -> (frame: CpmFrame)
    ensures
        frame == cpm_frame(text@),
{
    let chars = chars_of(text);
    let lines = lines_of(&chars);
    let ghost views = field_views(lines@);
    let mut found = CpmFrame::NoMarker;
    let mut i: usize = 0;
    assert(views.skip(0) =~= views);
    while i < lines.len()
        invariant
            i <= lines.len(),
            views == field_views(lines@),
            views == split_lines(text@),
            !(found is Sample),
            frame_in(views) == preferred(found, frame_in(views.skip(i as int))),
        decreases lines.len() - i,
    {
        let here = parse_line(&lines[i]);
        proof {
            let rest = views.skip(i as int);
            assert(rest[0] == lines[i as int]@);
            assert(rest.drop_first() =~= views.skip(i + 1));
            lemma_preferred_associates(found, here, frame_in(views.skip(i + 1)));
        }
        match here {
            CpmFrame::Sample(_) => {
                return here;
            },
            CpmFrame::NoMarker => {},
            _ => {
                if let CpmFrame::NoMarker = found {
                    found = here;
                }
            },
        }
        i = i + 1;
    }
    assert(views.skip(lines.len() as int) =~= Seq::<Seq<char>>::empty());
    found
}

/// The failure to set up the serial line, which the line describes as `detail`.
pub fn port_error(detail: &str) -> (e: Error)
    ensures
        e@ == detail@,
{
    Error::new(String::from_str(detail))
}

/// What one read of the serial line came to.
#[derive(Clone, Copy, Debug, PartialEq, Eq, Structural)]
pub enum Intake {
    /// A line was read and holds these counts per minute.
    Sample(u32),
    /// Text was read that holds no counts per minute; the frame says why.
    Rejected(CpmFrame),
    /// Nothing arrived in time.
    Quiet,
    /// The port failed: worth a warning, and nothing else.
    PortFailed,
}

/// What a read of the serial line comes to.
pub open spec fn intake_of(read: SerialRead<String>) -> Intake {
    match read {
        SerialRead::Data(text) => match cpm_frame(text@) {
            CpmFrame::Sample(n) => Intake::Sample(n),
            other => Intake::Rejected(other),
        },
        SerialRead::TimedOut => Intake::Quiet,
        SerialRead::Failed => Intake::PortFailed,
    }
}

/// What the radiation worker knows.
pub struct GeigerState {
    /// The ticks since the last report, this one included.
    pub counter: u32,
    /// The counts per minute of the last minute, newest first.
    pub window: Seq<u32>,
    /// The number of samples that the window has room for.
    pub capacity: nat,
}

/// The radiation worker.
pub struct Geiger {
    counter: u32,
    window: RollingWindow<u32>,
}

impl View for Geiger {
    type V = GeigerState;

    closed spec fn view(&self) -> GeigerState {
        GeigerState {
            counter: self.counter,
            window: self.window@,
            capacity: self.window.room(),
        }
    }
}

/// What the window holds once a read has come to `intake`.
pub open spec fn window_after(state: GeigerState, intake: Intake) -> Seq<u32> {
    match intake {
        Intake::Sample(n) => pushed(state.window, state.capacity, n),
        _ => state.window,
    }
}

/// Whether a report is due at this tick.
pub open spec fn report_due(state: GeigerState) -> bool {
    state.counter >= SAMPLES_PER_REPORT
}

impl Geiger {
    /// A worker that has sampled nothing yet.
    pub fn new() -> (g: Geiger)
        ensures
            g@ == (GeigerState {
                counter: 1,
                window: Seq::<u32>::empty(),
                capacity: SAMPLES_PER_REPORT as nat,
            }),
    {
        Geiger { counter: 1, window: RollingWindow::new(SAMPLES_PER_REPORT as usize) }
    }

    /// The counts per minute held, newest first.
    pub fn samples(&self) -> (v: Vec<u32>)
        ensures
            v@ == self@.window,
    {
        self.window.samples()
    }

    /// One tick: takes what the read of this second came to, and reports once
    /// a minute. A sample goes into the window. When a report is due and the
    /// window holds anything, the report is the mean of what it holds, at
    /// `now_ms`; the count of ticks starts over, the window stays.
    pub fn on_tick(&mut self, read: SerialRead<String>, now_ms: u64) -> (tick: (
        Intake,
        Option<SensorReading>,
    ))
        ensures
            tick.0 == intake_of(read),
            final(self)@.window == window_after(old(self)@, intake_of(read)),
            final(self)@.capacity == old(self)@.capacity,
            final(self)@.counter == if report_due(old(self)@) {
                1u32
            } else {
                (old(self)@.counter + 1) as u32
            },
            said(tick.1) == if report_due(old(self)@) {
                mean_reading(Quantity::Radiation, now_ms, final(self)@.window)
            } else {
                None
            },
    {
        let intake = match read {
            SerialRead::Data(text) => match parse_frame(text.as_str()) {
                CpmFrame::Sample(n) => Intake::Sample(n),
                other => Intake::Rejected(other),
            },
            SerialRead::TimedOut => Intake::Quiet,
            SerialRead::Failed => Intake::PortFailed,
        };
        if let Intake::Sample(n) = intake {
            self.window.push(n);
        }
        let mut report: Option<SensorReading> = None;
        if self.counter >= SAMPLES_PER_REPORT {
            report = SensorReading::of_mean(Quantity::Radiation, now_ms, &self.window);
            self.counter = 0;
        }
        self.counter = self.counter + 1;
        (intake, report)
    }
}

} // verus!
