use vstd::prelude::*;

verus! {

/// One decoded measurement from a current-readings payload.
///
/// `temperature` is the raw wire value; degrees Celsius are obtained by
/// scaling it by 1/20. `pressure` has already been divided by 10 and is in
/// whole hPa. All other fields are carried through from the wire unchanged.
#[derive(Clone, Copy, Debug, PartialEq, Eq, Structural)]
pub struct SensorData {
    pub co2: u16,
    pub temperature: u16,
    pub pressure: u16,
    pub humidity: u8,
    pub battery: u8,
    pub status: u8,
    pub interval: u16,
    pub age: u16,
}

/// Failure of a payload decode: the buffer ended before the full record.
#[derive(Clone, Copy, Debug, PartialEq, Eq, Structural)]
pub enum DecodeError {
    ShortRead,
}

/// The unsigned 16-bit value stored little-endian in two bytes.
pub open spec fn le16(lo: u8, hi: u8) -> int {
    lo + 256 * hi
}

/// The record a well-formed payload of at least 13 bytes decodes to:
/// co2 at bytes 0-1, raw temperature at 2-3, pressure at 4-5 (divided by
/// 10), humidity, battery and status at 6-8, interval at 9-10 and age at
/// 11-12, all multi-byte fields little-endian.
pub open spec fn decoded(bytes: Seq<u8>) -> SensorData
    recommends
        bytes.len() >= 13,
{
    SensorData {
        co2: le16(bytes[0], bytes[1]) as u16,
        temperature: le16(bytes[2], bytes[3]) as u16,
        pressure: (le16(bytes[4], bytes[5]) / 10) as u16,
        humidity: bytes[6],
        battery: bytes[7],
        status: bytes[8],
        interval: le16(bytes[9], bytes[10]) as u16,
        age: le16(bytes[11], bytes[12]) as u16,
    }
}

/// Reads the little-endian 16-bit field at `bytes[i..i+2]`.
fn le16_at(bytes: &Vec<u8>, i: usize) -> (r: u16)
    requires
        i + 2 <= bytes@.len(),
    ensures
        r == le16(bytes@[i as int], bytes@[i + 1]),
{
    // Establishes bytes@.len() <= usize::MAX, which bounds the index sums.
    let _n = bytes.len();
    (bytes[i] as u16) + (bytes[i + 1] as u16) * 256
}

/// Decodes the record that starts at `start`. Fails with `ShortRead`, and
/// only then, when fewer than 13 bytes remain from `start`; no other
/// validation is performed, out-of-range values pass through unchanged.
pub fn parse_data_at(bytes: &Vec<u8>, start: usize) -> (r: Result<SensorData, DecodeError>)
    requires
        start <= usize::MAX - 13,
    ensures
        bytes@.len() >= start + 13 ==> r == Ok::<SensorData, DecodeError>(
            decoded(bytes@.skip(start as int)),
        ),
        bytes@.len() < start + 13 ==> r == Err::<SensorData, DecodeError>(DecodeError::ShortRead),
{
    if bytes.len() < start + 13 {
        return Err(DecodeError::ShortRead);
    }
    let co2 = le16_at(bytes, start);
    let temperature = le16_at(bytes, start + 2);
    let pressure = le16_at(bytes, start + 4) / 10;
    let humidity = bytes[start + 6];
    let battery = bytes[start + 7];
    let status = bytes[start + 8];
    let interval = le16_at(bytes, start + 9);
    let age = le16_at(bytes, start + 11);
    let data = SensorData { co2, temperature, pressure, humidity, battery, status, interval, age };
    proof {
        let tail = bytes@.skip(start as int);
        assert forall|k: int| 0 <= k < 13 implies tail[k] == bytes@[start + k] by {}
        assert(data == decoded(tail));
    }
    Ok(data)
}

/// Decodes a record from the start of the buffer.
pub fn parse_data(bytes: &Vec<u8>) -> (r: Result<SensorData, DecodeError>)
    ensures
        bytes@.len() >= 13 ==> r == Ok::<SensorData, DecodeError>(decoded(bytes@)),
        bytes@.len() < 13 ==> r == Err::<SensorData, DecodeError>(DecodeError::ShortRead),
{
    let r = parse_data_at(bytes, 0);
    proof {
        assert(bytes@.skip(0) =~= bytes@);
    }
    r
}

/// Decoding is a pure function of the bytes: equal inputs give equal records.
pub proof fn lemma_decode_deterministic(b1: Seq<u8>, b2: Seq<u8>)
    requires
        b1 =~= b2,
    ensures
        decoded(b1) == decoded(b2),
{
}

/// Whether a record can be written back losslessly into the 13-byte wire
/// layout: the stored pressure, multiplied back by 10, must fit in 16 bits.
pub open spec fn encodable(d: SensorData) -> bool {
    d.pressure * 10 <= 0xFFFF
}

/// The 13-byte little-endian wire image of a record.
pub open spec fn encoded(d: SensorData) -> Seq<u8>
    recommends
        encodable(d),
{
    seq![
        (d.co2 % 256) as u8,
        (d.co2 / 256) as u8,
        (d.temperature % 256) as u8,
        (d.temperature / 256) as u8,
        ((d.pressure * 10) % 256) as u8,
        (((d.pressure * 10) as u16) / 256) as u8,
        d.humidity,
        d.battery,
        d.status,
        (d.interval % 256) as u8,
        (d.interval / 256) as u8,
        (d.age % 256) as u8,
        (d.age / 256) as u8,
    ]
}

/// Writes a record back into the 13-byte little-endian wire layout.
pub fn encode_data(d: &SensorData) -> (r: Vec<u8>)
    requires
        encodable(*d),
    ensures
        r@ =~= encoded(*d),
        r@.len() == 13,
{
    let mut out: Vec<u8> = Vec::new();
    out.push((d.co2 % 256) as u8);
    out.push((d.co2 / 256) as u8);
    out.push((d.temperature % 256) as u8);
    out.push((d.temperature / 256) as u8);
    let pressure_raw: u16 = d.pressure * 10;
    out.push((pressure_raw % 256) as u8);
    out.push((pressure_raw / 256) as u8);
    out.push(d.humidity);
    out.push(d.battery);
    out.push(d.status);
    out.push((d.interval % 256) as u8);
    out.push((d.interval / 256) as u8);
    out.push((d.age % 256) as u8);
    out.push((d.age / 256) as u8);
    out
}

/// A 16-bit value split into its little-endian bytes reassembles to itself.
proof fn lemma_le16_split(x: u16)
    ensures
        le16((x % 256) as u8, (x / 256) as u8) == x,
{
}

/// Round trip: a record written back into the wire layout and decoded again
/// comes out unchanged. The stored pressure must fit the layout again
/// (`encodable`); the raw temperature round-trips exactly, so the /20
/// scaling is reproduced bit for bit.
pub proof fn lemma_round_trip(d: SensorData)
    requires
        encodable(d),
    ensures
        decoded(encoded(d)) == d,
{
    let e = encoded(d);
    lemma_le16_split(d.co2);
    lemma_le16_split(d.temperature);
    lemma_le16_split((d.pressure * 10) as u16);
    lemma_le16_split(d.interval);
    lemma_le16_split(d.age);
    assert(le16(e[4], e[5]) == d.pressure * 10);
    assert(d.pressure * 10 / 10 == d.pressure) by (nonlinear_arith);
    assert(decoded(e) == d);
}

} // verus!
