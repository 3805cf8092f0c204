//! The readings that the workers emit, and the destination of each kind.
//!
//! A reading is put into words by the serializer that the process is run
//! with; this module says where the words go.

use crate::payload::{Message, Payload};
use crate::text::{decimal_text, format_decimal};
use crate::window::{mean_of, RollingWindow};
use vstd::prelude::*;
use vstd::string::*;

verus! {

/// The physical quantities that are reported one value at a time.
#[derive(Clone, Copy, Debug, PartialEq, Eq, Structural)]
pub enum Quantity {
    /// Carbon dioxide equivalent, in parts per million.
    Co2,
    /// Volatile organic compounds, in parts per billion.
    Voc,
    /// Air pressure, in inches of mercury.
    Pressure,
    /// Ionising radiation, in counts per minute.
    Radiation,
}

/// The number under which the consumers know a quantity.
pub open spec fn id_of(q: Quantity) -> u32 {
    match q {
        Quantity::Co2 => 52,
        Quantity::Voc => 53,
        Quantity::Pressure => 54,
        Quantity::Radiation => 55,
    }
}

/// The quantity that consumers know under the number `id`, if there is one.
pub open spec fn quantity_of(id: u32) -> Option<Quantity> {
    if id == 52 {
        Some(Quantity::Co2)
    } else if id == 53 {
        Some(Quantity::Voc)
    } else if id == 54 {
        Some(Quantity::Pressure)
    } else if id == 55 {
        Some(Quantity::Radiation)
    } else {
        None
    }
}

/// Every quantity is found again under its own number, and under no other.
pub proof fn lemma_ids_are_distinct(q: Quantity, id: u32)
    ensures
        quantity_of(id) == Some(q) <==> id_of(q) == id,
{
}

/// The destination of single-value readings.
pub open spec fn generic_topic() -> Seq<char> {
    "/ws/2/grp/generic"@
}

/// The destination of temperature and humidity readings.
pub open spec fn temp_humidity_topic() -> Seq<char> {
    "/ws/2/grp/temp_humidity"@
}

/// The destination of particulate readings.
pub open spec fn air_particulate_topic() -> Seq<char> {
    "/ws/2/grp/air_particulate"@
}

/// The destination of thermostat readings.
pub open spec fn thermostat_topic() -> Seq<char> {
    "/ws/2/grp/thermostat"@
}

/// The place that the sensors of this station stand for.
pub const LOCATION: u32 = 2;

impl Quantity {
    /// The number under which the consumers know this quantity.
    pub fn id(&self) -> (id: u32)
        ensures
            id == id_of(*self),
    {
        match self {
            Quantity::Co2 => 52,
            Quantity::Voc => 53,
            Quantity::Pressure => 54,
            Quantity::Radiation => 55,
        }
    }

    /// The quantity that consumers know under the number `id`, if there is one.
    pub fn from_id(id: u32) -> (q: Option<Quantity>)
        ensures
            q == quantity_of(id),
    {
        if id == 52 {
            Some(Quantity::Co2)
        } else if id == 53 {
            Some(Quantity::Voc)
        } else if id == 54 {
            Some(Quantity::Pressure)
        } else if id == 55 {
            Some(Quantity::Radiation)
        } else {
            None
        }
    }
}

/// What a single-value reading says.
pub struct Reading {
    /// The number of the quantity.
    pub sensor_id: u32,
    /// Milliseconds since the epoch.
    pub timestamp: u64,
    /// The value, in decimal.
    pub value: Seq<char>,
}

/// One value of one quantity at one moment. The value is decimal text, so
/// that every producer spells it the same way.
#[derive(Debug, PartialEq, Eq)]
pub struct SensorReading {
    sensor_id: u32,
    timestamp: u64,
    value: String,
}

impl View for SensorReading {
    type V = Reading;

    closed spec fn view(&self) -> Reading {
        Reading { sensor_id: self.sensor_id, timestamp: self.timestamp, value: self.value@ }
    }
}

impl SensorReading {
    /// The reading of `quantity` at `timestamp` whose value is spelled `value`.
    pub fn new(quantity: Quantity, timestamp: u64, value: String) -> (r: SensorReading)
        ensures
            r@ == (Reading { sensor_id: id_of(quantity), timestamp, value: value@ }),
    {
        SensorReading { sensor_id: quantity.id(), timestamp, value }
    }

    /// The reading of `quantity` at `timestamp` whose value is the whole number `count`.
    pub fn counted(quantity: Quantity, timestamp: u64, count: u32) -> (r: SensorReading)
        ensures
            r@ == (Reading {
                sensor_id: id_of(quantity),
                timestamp,
                value: decimal_text(count as nat),
            }),
    {
        SensorReading { sensor_id: quantity.id(), timestamp, value: format_decimal(count as u64) }
    }

    /// The number of the quantity.
    pub fn sensor_id(&self) -> (id: u32)
        ensures
            id == self@.sensor_id,
    {
        self.sensor_id
    }

    /// Milliseconds since the epoch.
    pub fn timestamp(&self) -> (t: u64)
        ensures
            t == self@.timestamp,
    {
        self.timestamp
    }

    /// The value, in decimal.
    pub fn value(&self) -> (v: &String)
        ensures
            v@ == self@.value,
    {
        &self.value
    }

    /// The message that carries this reading, serialized as `body`.
    pub fn message(&self, body: String) -> (p: Payload)
        ensures
            p@ == (Message { destination: generic_topic(), body: body@ }),
    {
        Payload::new(String::from_str("/ws/2/grp/generic"), body)
    }
}

/// What `reading` says, if there is one.
pub open spec fn said(reading: Option<SensorReading>) -> Option<Reading> {
    match reading {
        Some(r) => Some(r@),
        None => None,
    }
}

/// What is reported of `quantity` at `timestamp` from the samples of
/// `window`: their mean, and nothing while there is no sample.
pub open spec fn mean_reading(quantity: Quantity, timestamp: u64, window: Seq<u32>) -> Option<
    Reading,
> {
    if window.len() > 0 {
        Some(
            Reading {
                sensor_id: id_of(quantity),
                timestamp,
                value: decimal_text(mean_of(window)),
            },
        )
    } else {
        None
    }
}

impl SensorReading {
    /// The reading of `quantity` at `timestamp` whose value is the mean of
    /// the samples that `window` holds, if it holds any.
    pub fn of_mean(quantity: Quantity, timestamp: u64, window: &RollingWindow<u32>) -> (r: Option<
        SensorReading,
    >)
        ensures
            said(r) == mean_reading(quantity, timestamp, window@),
    {
        match window.mean() {
            Some(mean) => Some(SensorReading::counted(quantity, timestamp, mean)),
            None => None,
        }
    }
}

/// Quantities that belong together and are delivered together.
#[derive(Clone, Copy, Debug, PartialEq, Eq, Structural)]
pub enum CompositeReading {
    /// Temperature and relative humidity, each as the bit pattern of an
    /// IEEE 754 single-precision value; the temperature in degrees Celsius.
    TempHumidity { timestamp: u64, location: u32, temperature: u32, humidity: u32 },
    /// Fine and coarse particulate matter, in tenths of a microgram per cubic metre.
    Particulate { timestamp: u64, location: u32, pm2_5: i16, pm10: i16 },
}

impl CompositeReading {
    /// The destination of readings of this kind.
    pub open spec fn topic(self) -> Seq<char> {
        match self {
            CompositeReading::TempHumidity { .. } => temp_humidity_topic(),
            CompositeReading::Particulate { .. } => air_particulate_topic(),
        }
    }

    /// The message that carries this reading, serialized as `body`.
    pub fn message(&self, body: String) -> (p: Payload)
        ensures
            p@ == (Message { destination: self.topic(), body: body@ }),
    {
        match self {
            CompositeReading::TempHumidity { .. } => Payload::new(
                String::from_str("/ws/2/grp/temp_humidity"),
                body,
            ),
            CompositeReading::Particulate { .. } => Payload::new(
                String::from_str("/ws/2/grp/air_particulate"),
                body,
            ),
        }
    }
}

} // verus!
