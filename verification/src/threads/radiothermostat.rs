//! The thermostat worker: it polls a thermostat on the network once a minute
//! and forwards what the thermostat says, stamped with the time of the poll.

pub use crate::error::Error;
use crate::payload::{Message, Payload};
use crate::reading::thermostat_topic;
use vstd::prelude::*;
use vstd::string::*;

verus! {

/// Where the thermostat answers.
pub open spec fn endpoint() -> Seq<char> {
    "http://172.20.30.30/tstat"@
}

/// What a poll came to.
#[derive(Debug)]
pub enum Poll {
    /// The thermostat answered, and the answer, stamped and serialized
    /// again, reads like this.
    Answer(String),
    /// The thermostat answered something that cannot be read.
    Unreadable,
    /// The thermostat did not answer.
    Failed,
}

/// The message that a poll leads to: an answer is forwarded, and a poll that
/// failed is left for the next period to make up for.
pub open spec fn forwarded(poll: Poll) -> Option<Message> {
    match poll {
        Poll::Answer(body) => Some(Message { destination: thermostat_topic(), body: body@ }),
        _ => None,
    }
}

/// The thermostat worker.
#[derive(Debug)]
pub struct RadioThermostat {
    period_secs: u64,
    timeout_ms: u64,
}

impl RadioThermostat {
    /// The time between two polls, in seconds.
    pub closed spec fn period(&self) -> u64 {
        self.period_secs
    }

    /// How long a poll may take, in milliseconds.
    pub closed spec fn timeout(&self) -> u64 {
        self.timeout_ms
    }

    /// A worker that polls once a minute and gives the thermostat twenty
    /// seconds to answer.
    pub fn new() -> (r: Result<RadioThermostat, Error>)
        ensures
            r matches Ok(w) && w.period() == 60 && w.timeout() == 20000,
    {
        Ok(RadioThermostat { period_secs: 60, timeout_ms: 20000 })
    }

    /// The time between two polls, in seconds.
    pub fn period_secs(&self) -> (p: u64)
        ensures
            p == self.period(),
    {
        self.period_secs
    }

    /// How long a poll may take, in milliseconds.
    pub fn timeout_ms(&self) -> (t: u64)
        ensures
            t == self.timeout(),
    {
        self.timeout_ms
    }

    /// Where the thermostat answers.
    pub fn url(&self) -> (u: String)
        ensures
            u@ == endpoint(),
    {
        String::from_str("http://172.20.30.30/tstat")
    }

    /// The message that `poll` leads to, if any.
    pub fn on_poll(&self, poll: Poll) -> (message: Option<Payload>)
        ensures
            match message {
                Some(p) => forwarded(poll) == Some(p@),
                None => forwarded(poll) is None,
            },
    {
        match poll {
            Poll::Answer(body) => Some(Payload::new(String::from_str("/ws/2/grp/thermostat"), body)),
            _ => None,
        }
    }
}

} // verus!
