use vstd::prelude::*;
use std::collections::HashMap;
use crate::reading::{decoded, parse_data_at, SensorData};

verus! {

broadcast use vstd::std_specs::hash::group_hash_axioms;

/// Manufacturer code under which the vendor's payload is keyed inside an
/// advertisement's manufacturer-data map.
pub const MANUFACTURER_CODE: u16 = 1794;

/// Bytes of non-sensor header that precede the record inside the vendor's
/// advertisement payload.
pub const ADVERTISEMENT_HEADER_LEN: usize = 8;

/// A reading accepted by the passive scan, together with the identity of
/// the device that broadcast it.
#[derive(Clone, Copy, Debug, PartialEq, Eq, Structural)]
pub struct ScanResult {
    pub sensor_data: SensorData,
    pub id: u64,
}

/// Whether an event from device `id` observed at time `now` carries new
/// data: it does unless a watermark is recorded for the device and `now`
/// is still earlier than it.
pub open spec fn accepts(table: Map<u64, u64>, id: u64, now: u64) -> bool {
    !table.contains_key(id) || now >= table[id]
}

/// The watermark recorded on acceptance: the time the device's next
/// genuinely new measurement is due, `now + (interval - age + 1)` seconds.
/// A device reporting `age > interval` is malformed telemetry; the added
/// duration is clamped to zero rather than left to underflow.
pub open spec fn next_watermark(now: u64, interval: u16, age: u16) -> int {
    if age <= interval {
        now + (interval - age) + 1
    } else {
        now as int
    }
}

/// Per-device suppression horizon for the passive scan: maps a device's
/// identity to the time before which further advertisements from it are
/// dropped as duplicates. Owned by one scan stream; entries are only ever
/// inserted or overwritten, never removed.
pub struct WatermarkTable {
    times: HashMap<u64, u64>,
}

impl View for WatermarkTable {
    type V = Map<u64, u64>;

    closed spec fn view(&self) -> Map<u64, u64> {
        self.times@
    }
}

impl WatermarkTable {
    /// A table with no device recorded yet.
    pub fn new() -> (r: Self)
        ensures
            r@ == Map::<u64, u64>::empty(),
    {
        WatermarkTable { times: HashMap::new() }
    }

    /// The watermark currently recorded for a device, if any.
    pub fn watermark_of(&self, id: u64) -> (r: Option<u64>)
        ensures
            match r {
                Option::Some(t) => self@.contains_key(id) && t == self@[id],
                Option::None => !self@.contains_key(id),
            },
    {
        match self.times.get(&id) {
            Option::Some(t) => Some(*t),
            Option::None => None,
        }
    }

    /// The dedup step for one decoded event from device `id` at time `now`:
    /// the event is accepted iff the device has no recorded watermark or
    /// `now` has reached it, and acceptance records the next watermark,
    /// overwriting the prior entry. A recorded watermark never regresses.
    pub fn check_and_update(&mut self, id: u64, now: u64, interval: u16, age: u16) -> (accepted:
        bool)
        requires
            now + 0x1_0000 <= u64::MAX,
        ensures
            accepted == accepts(old(self)@, id, now),
            accepted ==> final(self)@ == old(self)@.insert(
                id,
                next_watermark(now, interval, age) as u64,
            ),
            !accepted ==> final(self)@ == old(self)@,
            accepted && old(self)@.contains_key(id) ==> next_watermark(now, interval, age) >= old(
                self,
            )@[id],
    {
        let duplicate = match self.times.get(&id) {
            Option::Some(t) => now < *t,
            Option::None => false,
        };
        if duplicate {
            return false;
        }
        let delta: u64 = if age <= interval {
            (interval - age) as u64 + 1
        } else {
            0
        };
        self.times.insert(id, now + delta);
        true
    }
}

/// Processes the vendor payload of one advertisement from device `id`
/// observed at time `now`: skips the non-sensor header, decodes the record,
/// and applies the dedup step. A payload too short to decode is dropped as
/// noise, leaving the table unchanged; a decoded duplicate is dropped too;
/// an accepted event is returned with the device's identity and its next
/// watermark recorded.
pub fn handle_advertisement(
    table: &mut WatermarkTable,
    id: u64,
    now: u64,
    payload: &Vec<u8>,
) -> (r: Option<ScanResult>)
    requires
        now + 0x1_0000 <= u64::MAX,
    ensures
        payload@.len() < ADVERTISEMENT_HEADER_LEN + 13 ==> r is None && final(table)@ == old(table)@,
        payload@.len() >= ADVERTISEMENT_HEADER_LEN + 13 ==> {
            let d = decoded(payload@.skip(ADVERTISEMENT_HEADER_LEN as int));
            if accepts(old(table)@, id, now) {
                r == Some(ScanResult { sensor_data: d, id }) && final(table)@ == old(table)@.insert(
                    id,
                    next_watermark(now, d.interval, d.age) as u64,
                )
            } else {
                r is None && final(table)@ == old(table)@
            }
        },
{
    match parse_data_at(payload, ADVERTISEMENT_HEADER_LEN) {
        Result::Ok(data) => {
            if table.check_and_update(id, now, data.interval, data.age) {
                Some(ScanResult { sensor_data: data, id })
            } else {
                None
            }
        },
        Result::Err(_) => None,
    }
}

/// Processes one manufacturer-data advertisement event, as the passive scan
/// sees it: an event whose map does not carry the vendor's manufacturer
/// code is not the vendor's and is dropped; otherwise the payload under
/// that code is handled as `handle_advertisement` says.
pub fn process_manufacturer_event(
    table: &mut WatermarkTable,
    id: u64,
    now: u64,
    manufacturer_data: &HashMap<u16, Vec<u8>>,
) -> (r: Option<ScanResult>)
    requires
        now + 0x1_0000 <= u64::MAX,
    ensures
        !manufacturer_data@.contains_key(MANUFACTURER_CODE) ==> r is None && final(table)@ == old(
            table,
        )@,
        manufacturer_data@.contains_key(MANUFACTURER_CODE) ==> {
            let payload = manufacturer_data@[MANUFACTURER_CODE]@;
            &&& payload.len() < ADVERTISEMENT_HEADER_LEN + 13 ==> r is None && final(table)@ == old(
                table,
            )@
            &&& payload.len() >= ADVERTISEMENT_HEADER_LEN + 13 ==> {
                let d = decoded(payload.skip(ADVERTISEMENT_HEADER_LEN as int));
                if accepts(old(table)@, id, now) {
                    r == Some(ScanResult { sensor_data: d, id }) && final(table)@ == old(table)@.insert(
                        id,
                        next_watermark(now, d.interval, d.age) as u64,
                    )
                } else {
                    r is None && final(table)@ == old(table)@
                }
            }
        },
{
    match manufacturer_data.get(&MANUFACTURER_CODE) {
        Option::Some(payload) => handle_advertisement(table, id, now, payload),
        Option::None => None,
    }
}

} // verus!
