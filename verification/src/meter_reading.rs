//! The raw telemetry payload, the validated reading, and the record validator.
//!
//! A raw payload carries up to four fields, each possibly missing or of the
//! wrong type. Validation first decodes the structure (every required field
//! present and correctly typed), then applies the business rules in a fixed
//! order, stopping at the first violation. Consumption is carried in
//! hundredths of a kWh; timestamps as milliseconds since the Unix epoch, UTC.

use vstd::prelude::*;

verus! {

/// Upper bound on a single reading's consumption, in hundredths of a kWh.
pub const MAX_CONSUMPTION: u64 = 100_000;

/// One field of a raw payload: absent, a string, a number (in hundredths),
/// or present with some other, unusable type.
#[derive(Debug, Clone)]
pub enum RawValue {
    Missing,
    Text(String),
    Number(i64),
    Other,
}

/// An untyped payload as the event source emits it: any field may be
/// missing or wrongly typed.
#[derive(Debug, Clone)]
pub struct RawReading {
    pub timestamp: RawValue,
    pub meter_id: RawValue,
    pub consumer_id: RawValue,
    pub consumption: RawValue,
}

/// A reading that passed validation; `wf` holds for every value that
/// `parse_meter_reading` returns.
#[derive(Debug, Clone)]
pub struct MeterReading {
    /// Milliseconds since the Unix epoch, UTC.
    pub timestamp: i64,
    pub meter_id: String,
    pub consumer_id: String,
    /// Hundredths of a kWh, at most `MAX_CONSUMPTION`.
    pub consumption: u64,
}

impl MeterReading {
    /// The invariant of a validated reading: non-empty identifiers and a
    /// consumption within the allowed domain.
    pub open spec fn wf(self) -> bool {
        &&& self.meter_id@.len() > 0
        &&& self.consumer_id@.len() > 0
        &&& self.consumption <= MAX_CONSUMPTION
    }
}

/// Why a raw payload was rejected: it did not decode into the expected
/// shape, or it decoded but broke a business rule.
#[derive(Debug, Clone)]
pub enum MeterReadingError {
    DecodeError(String),
    ValidationError(String),
}

/// The instant a timestamp string denotes, in milliseconds since the Unix
/// epoch, or `None` when the string is not a well-formed timestamp. The
/// result depends on the characters alone.
pub uninterp spec fn instant_of(s: Seq<char>) -> Option<i64>;

/// Relies on chrono: `str::parse::<DateTime<Utc>>` accepts exactly the
/// well-formed timestamp strings, and `timestamp_millis` places the parsed
/// instant on the Unix epoch millisecond scale; both depend on the input
/// characters alone.
#[verifier::external_body]
pub(crate) fn parse_instant(s: &str) -> (r: Option<i64>)
    ensures
        r == instant_of(s@),
{
    match s.parse::<chrono::DateTime<chrono::Utc>>() {
        Ok(t) => Some(t.timestamp_millis()),
        Err(_) => None,
    }
}

/// The timestamp field is present, a string, and denotes an instant.
pub open spec fn raw_ts_ok(r: RawReading) -> bool {
    &&& r.timestamp is Text
    &&& instant_of(r.timestamp->Text_0@) is Some
}

/// The meter identifier is present and a string.
pub open spec fn raw_meter_typed(r: RawReading) -> bool {
    r.meter_id is Text
}

/// The consumer identifier is present and a string.
pub open spec fn raw_consumer_typed(r: RawReading) -> bool {
    r.consumer_id is Text
}

/// The consumption field is present and a number.
pub open spec fn raw_consumption_typed(r: RawReading) -> bool {
    r.consumption is Number
}

/// Structural decode succeeds: every required field is present and of the
/// expected type.
pub open spec fn raw_decodes(r: RawReading) -> bool {
    &&& raw_ts_ok(r)
    &&& raw_meter_typed(r)
    &&& raw_consumer_typed(r)
    &&& raw_consumption_typed(r)
}

/// The payload decodes and satisfies every business rule.
pub open spec fn raw_valid(r: RawReading) -> bool {
    &&& raw_decodes(r)
    &&& 0 <= r.consumption->Number_0 <= MAX_CONSUMPTION
    &&& r.meter_id->Text_0@.len() > 0
    &&& r.consumer_id->Text_0@.len() > 0
}

/// Converts a raw payload into a validated reading, or classifies the
/// failure: a decode error when a required field is missing or wrongly
/// typed, else the first violated business rule, checked in the order
/// negative consumption, excessive consumption, empty meter ID, empty
/// consumer ID.
pub fn parse_meter_reading(raw: &RawReading) -> (r: Result<MeterReading, MeterReadingError>)
    ensures
        r is Ok <==> raw_valid(*raw),
        raw_valid(*raw) ==> (r matches Ok(m)
            && Some(m.timestamp) == instant_of(raw.timestamp->Text_0@)
            && m.meter_id@ == raw.meter_id->Text_0@
            && m.consumer_id@ == raw.consumer_id->Text_0@
            && m.consumption == raw.consumption->Number_0
            && m.wf()),
        !raw_ts_ok(*raw) ==> (r matches Err(MeterReadingError::DecodeError(msg))
            && msg@ == "missing or invalid timestamp"@),
        raw_ts_ok(*raw) && !raw_meter_typed(*raw)
            ==> (r matches Err(MeterReadingError::DecodeError(msg))
                && msg@ == "missing or invalid meter_id"@),
        raw_ts_ok(*raw) && raw_meter_typed(*raw) && !raw_consumer_typed(*raw)
            ==> (r matches Err(MeterReadingError::DecodeError(msg))
                && msg@ == "missing or invalid consumer_id"@),
        raw_ts_ok(*raw) && raw_meter_typed(*raw) && raw_consumer_typed(*raw)
            && !raw_consumption_typed(*raw)
            ==> (r matches Err(MeterReadingError::DecodeError(msg))
                && msg@ == "missing or invalid consumption"@),
        raw_decodes(*raw) && raw.consumption->Number_0 < 0
            ==> (r matches Err(MeterReadingError::ValidationError(msg))
                && msg@ == "consumption cannot be negative"@),
        raw_decodes(*raw) && 0 <= raw.consumption->Number_0
            && raw.consumption->Number_0 > MAX_CONSUMPTION
            ==> (r matches Err(MeterReadingError::ValidationError(msg))
                && msg@ == "consumption is too high"@),
        raw_decodes(*raw) && 0 <= raw.consumption->Number_0 <= MAX_CONSUMPTION
            && raw.meter_id->Text_0@.len() == 0
            ==> (r matches Err(MeterReadingError::ValidationError(msg))
                && msg@ == "meter ID cannot be empty"@),
        raw_decodes(*raw) && 0 <= raw.consumption->Number_0 <= MAX_CONSUMPTION
            && raw.meter_id->Text_0@.len() > 0 && raw.consumer_id->Text_0@.len() == 0
            ==> (r matches Err(MeterReadingError::ValidationError(msg))
                && msg@ == "consumer ID cannot be empty"@),
{
    let timestamp: i64 = match &raw.timestamp {
        RawValue::Text(t) => match parse_instant(t.as_str()) {
            Some(ms) => ms,
            None => {
                return Err(MeterReadingError::DecodeError(
                    String::from_str("missing or invalid timestamp"),
                ));
            },
        },
        _ => {
            return Err(MeterReadingError::DecodeError(
                String::from_str("missing or invalid timestamp"),
            ));
        },
    };
    let meter_id: String = match &raw.meter_id {
        RawValue::Text(t) => t.clone(),
        _ => {
            return Err(MeterReadingError::DecodeError(
                String::from_str("missing or invalid meter_id"),
            ));
        },
    };
    let consumer_id: String = match &raw.consumer_id {
        RawValue::Text(t) => t.clone(),
        _ => {
            return Err(MeterReadingError::DecodeError(
                String::from_str("missing or invalid consumer_id"),
            ));
        },
    };
    let consumption: i64 = match &raw.consumption {
        RawValue::Number(n) => *n,
        _ => {
            return Err(MeterReadingError::DecodeError(
                String::from_str("missing or invalid consumption"),
            ));
        },
    };

    if consumption < 0 {
        return Err(MeterReadingError::ValidationError(
            String::from_str("consumption cannot be negative"),
        ));
    }
    if consumption as u64 > MAX_CONSUMPTION {
        return Err(MeterReadingError::ValidationError(
            String::from_str("consumption is too high"),
        ));
    }
    if meter_id.as_str().is_empty() {
        return Err(MeterReadingError::ValidationError(
            String::from_str("meter ID cannot be empty"),
        ));
    }
    if consumer_id.as_str().is_empty() {
        return Err(MeterReadingError::ValidationError(
            String::from_str("consumer ID cannot be empty"),
        ));
    }

    Ok(MeterReading { timestamp, meter_id, consumer_id, consumption: consumption as u64 })
}

} // verus!
