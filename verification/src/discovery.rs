use vstd::prelude::*;
use crate::errors::ConnectionError;

verus! {

broadcast use vstd::string::group_string_axioms;

/// Identifier of the current-readings characteristic, as a 128-bit value:
/// f0cd3001-95da-4f4b-9ac8-aa55d312af0c.
pub const CURRENT_READINGS_CHARACTERISTIC: u128 = 0xf0cd3001_95da_4f4b_9ac8_aa55d312af0c;

/// Identifier of the service the device family advertises, as a 128-bit
/// value: 0000fce0-0000-1000-8000-00805f9b34fb.
pub const ADVERTISED_SERVICE_UUID: u128 = 0x0000fce0_0000_1000_8000_00805f9b34fb;

/// The text form of the current-readings identifier, as carried inside
/// `ConnectionError::CharacteristicNotFound`.
pub open spec fn characteristic_uuid_text() -> Seq<char> {
    "f0cd3001-95da-4f4b-9ac8-aa55d312af0c"@
}

/// The ASCII bytes of the advertised-name fragment that identifies the
/// device family: "Aranet4".
pub open spec fn marker_matches_at(s: Seq<u8>, i: int) -> bool {
    &&& 0 <= i
    &&& i + 7 <= s.len()
    &&& s[i] == 65
    &&& s[i + 1] == 114
    &&& s[i + 2] == 97
    &&& s[i + 3] == 110
    &&& s[i + 4] == 101
    &&& s[i + 5] == 116
    &&& s[i + 6] == 52
}

/// Whether the name bytes contain the device-family fragment anywhere.
pub open spec fn has_marker(s: Seq<u8>) -> bool {
    exists|i: int| marker_matches_at(s, i)
}

/// Whether an advertised local name (absent for peers that do not advertise
/// one) identifies the device family.
pub open spec fn is_aranet_name(n: Option<Vec<u8>>) -> bool {
    match n {
        Option::Some(v) => has_marker(v@),
        Option::None => false,
    }
}

/// Tests the device-family fragment at one position of the name bytes.
fn marker_at(hay: &Vec<u8>, i: usize) -> (r: bool)
    requires
        i + 7 <= hay@.len(),
    ensures
        r == marker_matches_at(hay@, i as int),
{
    // Establishes hay@.len() <= usize::MAX, which bounds the index sums.
    let _n = hay.len();
    hay[i] == 65 && hay[i + 1] == 114 && hay[i + 2] == 97 && hay[i + 3] == 110 && hay[i + 4]
        == 101 && hay[i + 5] == 116 && hay[i + 6] == 52
}

/// Whether the name bytes contain the device-family fragment ("Aranet4",
/// as UTF-8) as a contiguous run.
pub fn contains_marker(hay: &Vec<u8>) -> (r: bool)
    ensures
        r == has_marker(hay@),
{
    let n = hay.len();
    if n < 7 {
        return false;
    }
    let end = n - 7;
    let mut i: usize = 0;
    while i <= end
        invariant
            7 <= n <= usize::MAX,
            n == hay@.len(),
            end == n - 7,
            i <= end + 1,
            forall|j: int| 0 <= j < i ==> !marker_matches_at(hay@, j),
        decreases end + 1 - i,
    {
        if marker_at(hay, i) {
            return true;
        }
        i = i + 1;
    }
    proof {
        assert forall|j: int| !marker_matches_at(hay@, j) by {
            if 0 <= j && j + 7 <= hay@.len() {
                assert(j < i);
            }
        }
    }
    false
}

/// First peer whose advertised name contains the device-family fragment.
/// Returns the index of the earliest such peer, or `None` when no peer's
/// name matches.
pub fn find_by_name(names: &Vec<Option<Vec<u8>>>) -> (r: Option<usize>)
    ensures
        match r {
            Option::Some(i) => i < names@.len() && is_aranet_name(names@[i as int]) && forall|
                j: int,
            | 0 <= j < i ==> !is_aranet_name(names@[j]),
            Option::None => forall|j: int| 0 <= j < names@.len() ==> !is_aranet_name(names@[j]),
        },
{
    let n = names.len();
    let mut i: usize = 0;
    while i < n
        invariant
            n == names@.len(),
            i <= n,
            forall|j: int| 0 <= j < i ==> !is_aranet_name(names@[j]),
        decreases n - i,
    {
        match &names[i] {
            Option::Some(v) => {
                if contains_marker(v) {
                    return Some(i);
                }
            },
            Option::None => {},
        }
        i = i + 1;
    }
    None
}

/// Adapter selection: Discovery always takes the first adapter the platform
/// enumerates. With no adapter present it fails with `AdapterUnavaliable`
/// before any scan is attempted.
pub fn select_adapter(adapter_count: usize) -> (r: Result<usize, ConnectionError>)
    ensures
        adapter_count == 0 ==> r == Err::<usize, ConnectionError>(
            ConnectionError::AdapterUnavaliable,
        ),
        adapter_count > 0 ==> r == Ok::<usize, ConnectionError>(0usize),
{
    if adapter_count == 0 {
        Err(ConnectionError::AdapterUnavaliable)
    } else {
        Ok(0)
    }
}

/// Locates the current-readings characteristic among the identifiers a
/// connected peer exposes. Returns the index of its first occurrence; when
/// it is absent, fails with `CharacteristicNotFound` carrying the missing
/// identifier's text.
pub fn find_characteristic(uuids: &Vec<u128>) -> (r: Result<usize, ConnectionError>)
    ensures
        match r {
            Result::Ok(i) => i < uuids@.len() && uuids@[i as int]
                == CURRENT_READINGS_CHARACTERISTIC && forall|j: int|
                0 <= j < i ==> uuids@[j] != CURRENT_READINGS_CHARACTERISTIC,
            Result::Err(e) => (forall|j: int|
                0 <= j < uuids@.len() ==> uuids@[j] != CURRENT_READINGS_CHARACTERISTIC) && (
            e matches ConnectionError::CharacteristicNotFound(s) && s@
                == characteristic_uuid_text()),
        },
{
    let n = uuids.len();
    let mut i: usize = 0;
    while i < n
        invariant
            n == uuids@.len(),
            i <= n,
            forall|j: int| 0 <= j < i ==> uuids@[j] != CURRENT_READINGS_CHARACTERISTIC,
        decreases n - i,
    {
        if uuids[i] == CURRENT_READINGS_CHARACTERISTIC {
            return Ok(i);
        }
        i = i + 1;
    }
    Err(ConnectionError::CharacteristicNotFound(
        "f0cd3001-95da-4f4b-9ac8-aa55d312af0c".to_string(),
    ))
}

} // verus!
