//! The synthetic event source.
//!
//! The source draws meter and consumer identities from small fixed pools and
//! emits, for each draw, either a well-formed payload or — with the anomaly
//! chance — one of five malformed variants. Every random draw goes through
//! one trusted range wrapper; everything built from the draws is verified,
//! and the malformation strategy is a pure function of its draws.

use vstd::prelude::*;
use rand::Rng;
use rand_chacha::ChaCha12Rng;
use crate::meter_reading::{instant_of, raw_decodes, raw_valid, RawReading, RawValue};

verus! {

/// The generator state of the event source; a value of this type is opaque
/// here, and only the range wrapper below draws from it.
#[verifier::external_type_specification]
#[verifier::external_body]
pub struct ExChaCha12Rng(ChaCha12Rng);

/// Relies on rand's `Rng::gen_range`: for a non-empty integer range it
/// returns a value within the range, lower bound included, upper excluded.
#[verifier::external_body]
fn rng_range(rng: &mut ChaCha12Rng, lo: u64, hi: u64) -> (r: u64)
    requires
        lo < hi,
    ensures
        lo <= r < hi,
{
    rng.gen_range(lo..hi)
}

/// The fixed pool of meter identities.
pub open spec fn meter_pool_has(s: Seq<char>) -> bool {
    s == "MTR-001"@ || s == "MTR-002"@ || s == "MTR-003"@
}

/// The fixed pool of consumer identities.
pub open spec fn consumer_pool_has(s: Seq<char>) -> bool {
    s == "CNS-001"@ || s == "CNS-002"@ || s == "CNS-003"@
}

/// A well-formed payload: all four fields present and correctly typed, the
/// identities from the pools, the consumption drawn from `[0, 100)` kWh
/// (in hundredths).
pub open spec fn normal_shape(r: RawReading, ts: Seq<char>) -> bool {
    &&& r.timestamp matches RawValue::Text(t) && t@ == ts
    &&& r.meter_id matches RawValue::Text(m) && meter_pool_has(m@)
    &&& r.consumer_id matches RawValue::Text(c) && consumer_pool_has(c@)
    &&& r.consumption matches RawValue::Number(x) && 0 <= x < 10_000
}

/// The exact malformed payload the strategy produces for a given variant:
/// omit the meter identity, give it a numeric value, omit the consumer
/// identity, give the consumption a non-numeric value, or omit it.
pub open spec fn anomaly_shape(
    r: RawReading,
    variant: u64,
    ts: Seq<char>,
    m: Seq<char>,
    c: Seq<char>,
    x: i64,
) -> bool {
    &&& r.timestamp matches RawValue::Text(t) && t@ == ts
    &&& if variant == 0 {
        &&& r.meter_id is Missing
        &&& r.consumer_id matches RawValue::Text(ci) && ci@ == c
        &&& r.consumption matches RawValue::Number(n) && n == x
    } else if variant == 1 {
        &&& r.meter_id matches RawValue::Number(n) && n == 1_234_500
        &&& r.consumer_id matches RawValue::Text(ci) && ci@ == c
        &&& r.consumption matches RawValue::Number(n) && n == x
    } else if variant == 2 {
        &&& r.meter_id matches RawValue::Text(mi) && mi@ == m
        &&& r.consumer_id is Missing
        &&& r.consumption matches RawValue::Number(n) && n == x
    } else if variant == 3 {
        &&& r.meter_id matches RawValue::Text(mi) && mi@ == m
        &&& r.consumer_id matches RawValue::Text(ci) && ci@ == c
        &&& r.consumption matches RawValue::Text(t) && t@ == "InvalidType"@
    } else {
        &&& r.meter_id matches RawValue::Text(mi) && mi@ == m
        &&& r.consumer_id matches RawValue::Text(ci) && ci@ == c
        &&& r.consumption is Missing
    }
}

/// A payload carrying one of the five malformations, built from pool
/// identities and an in-range consumption draw.
pub open spec fn anomalous_shape(r: RawReading, ts: Seq<char>) -> bool {
    exists|variant: u64, m: Seq<char>, c: Seq<char>, x: i64|
        #[trigger] anomaly_shape(r, variant, ts, m, c, x) && variant < 5 && meter_pool_has(m)
            && consumer_pool_has(c) && 0 <= x < 10_000
}

/// The meter identity at a pool position.
fn meter_id_at(i: u64) -> (r: String)
    requires
        i < 3,
    ensures
        meter_pool_has(r@),
        r@.len() > 0,
{
    proof {
        reveal_strlit("MTR-001");
        reveal_strlit("MTR-002");
        reveal_strlit("MTR-003");
    }
    if i == 0 {
        String::from_str("MTR-001")
    } else if i == 1 {
        String::from_str("MTR-002")
    } else {
        String::from_str("MTR-003")
    }
}

/// The consumer identity at a pool position.
fn consumer_id_at(i: u64) -> (r: String)
    requires
        i < 3,
    ensures
        consumer_pool_has(r@),
        r@.len() > 0,
{
    proof {
        reveal_strlit("CNS-001");
        reveal_strlit("CNS-002");
        reveal_strlit("CNS-003");
    }
    if i == 0 {
        String::from_str("CNS-001")
    } else if i == 1 {
        String::from_str("CNS-002")
    } else {
        String::from_str("CNS-003")
    }
}

/// Builds a well-formed payload around the given timestamp string: pool
/// identities and a consumption drawn uniformly from `[0, 100)` kWh.
pub fn generate_normal_reading(rng: &mut ChaCha12Rng, timestamp: String) -> (r: RawReading)
    ensures
        normal_shape(r, timestamp@),
{
    let meter_id = meter_id_at(rng_range(rng, 0, 3));
    let consumer_id = consumer_id_at(rng_range(rng, 0, 3));
    let consumption = rng_range(rng, 0, 10_000);
    RawReading {
        timestamp: RawValue::Text(timestamp),
        meter_id: RawValue::Text(meter_id),
        consumer_id: RawValue::Text(consumer_id),
        consumption: RawValue::Number(consumption as i64),
    }
}

/// The pure malformation strategy: maps a variant draw and the field draws
/// to the exact malformed payload of that variant. Every variant fails the
/// structural decode.
pub fn anomalous_payload(
    variant: u64,
    timestamp: String,
    meter_id: String,
    consumer_id: String,
    consumption: i64,
) -> (r: RawReading)
    requires
        variant < 5,
    ensures
        anomaly_shape(r, variant, timestamp@, meter_id@, consumer_id@, consumption),
        !raw_decodes(r),
{
    if variant == 0 {
        RawReading {
            timestamp: RawValue::Text(timestamp),
            meter_id: RawValue::Missing,
            consumer_id: RawValue::Text(consumer_id),
            consumption: RawValue::Number(consumption),
        }
    } else if variant == 1 {
        RawReading {
            timestamp: RawValue::Text(timestamp),
            meter_id: RawValue::Number(1_234_500),
            consumer_id: RawValue::Text(consumer_id),
            consumption: RawValue::Number(consumption),
        }
    } else if variant == 2 {
        RawReading {
            timestamp: RawValue::Text(timestamp),
            meter_id: RawValue::Text(meter_id),
            consumer_id: RawValue::Missing,
            consumption: RawValue::Number(consumption),
        }
    } else if variant == 3 {
        RawReading {
            timestamp: RawValue::Text(timestamp),
            meter_id: RawValue::Text(meter_id),
            consumer_id: RawValue::Text(consumer_id),
            consumption: RawValue::Text(String::from_str("InvalidType")),
        }
    } else {
        RawReading {
            timestamp: RawValue::Text(timestamp),
            meter_id: RawValue::Text(meter_id),
            consumer_id: RawValue::Text(consumer_id),
            consumption: RawValue::Missing,
        }
    }
}

/// Draws a malformation variant and the field values, and builds the
/// malformed payload; the result never passes the structural decode.
pub fn generate_anomalous_reading(rng: &mut ChaCha12Rng, timestamp: String) -> (r: RawReading)
    ensures
        anomalous_shape(r, timestamp@),
        !raw_decodes(r),
{
    let variant = rng_range(rng, 0, 5);
    let meter_id = meter_id_at(rng_range(rng, 0, 3));
    let consumer_id = consumer_id_at(rng_range(rng, 0, 3));
    let consumption = rng_range(rng, 0, 10_000) as i64;
    let ghost m = meter_id@;
    let ghost c = consumer_id@;
    let r = anomalous_payload(variant, timestamp, meter_id, consumer_id, consumption);
    proof {
        assert(anomaly_shape(r, variant, timestamp@, m, c, consumption));
    }
    r
}

/// Draws the anomaly chance and emits either a well-formed payload (nine
/// times out of ten) or one of the five malformed variants.
pub fn generate_reading(rng: &mut ChaCha12Rng, timestamp: String) -> (r: RawReading)
    ensures
        normal_shape(r, timestamp@) || (anomalous_shape(r, timestamp@) && !raw_decodes(r)),
{
    let chance = rng_range(rng, 0, 1000);
    if chance < 100 {
        generate_anomalous_reading(rng, timestamp)
    } else {
        generate_normal_reading(rng, timestamp)
    }
}

/// Draws the pacing delay before the next payload, in milliseconds.
pub fn pacing_interval(rng: &mut ChaCha12Rng) -> (r: u64)
    ensures
        500 <= r < 3000,
{
    rng_range(rng, 500, 3000)
}

/// A well-formed payload validates exactly when its timestamp string
/// denotes an instant: the pool identities are non-empty and the drawn
/// consumption lies within the allowed domain.
pub proof fn lemma_normal_shape_valid(r: RawReading, ts: Seq<char>)
    requires
        normal_shape(r, ts),
    ensures
        raw_valid(r) <==> instant_of(ts) is Some,
{
    reveal_strlit("MTR-001");
    reveal_strlit("MTR-002");
    reveal_strlit("MTR-003");
    reveal_strlit("CNS-001");
    reveal_strlit("CNS-002");
    reveal_strlit("CNS-003");
}

} // verus!
