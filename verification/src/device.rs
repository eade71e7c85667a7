//! Input-device identification and selection. A device is addressed by a
//! stable identifier: a reproducible hash of its human-readable name,
//! rendered in lowercase hexadecimal. The empty identifier means "use the
//! system default input device". Enumerating the hardware itself is a
//! driver concern and happens outside the library; selection here works
//! on the enumerated names.

use vstd::prelude::*;
use crate::text::hex_rep;
use crate::text::u64_to_hex_string;

verus! {

/// The offset basis of the 64-bit FNV-1a hash.
pub const FNV64_OFFSET: u64 = 0xcbf2_9ce4_8422_2325;

/// The prime of the 64-bit FNV-1a hash.
pub const FNV64_PRIME: u64 = 0x0000_0100_0000_01b3;

/// One FNV-1a step: fold one character (its Unicode scalar value) into
/// the running hash.
pub open spec fn fnv1a_step(h: u64, c: char) -> u64 {
    vstd::wrapping::u64_specs::wrapping_mul(h ^ ((c as u32) as u64), FNV64_PRIME)
}

/// The 64-bit FNV-1a hash of a name, character by character. The same
/// name always yields the same hash, on every machine and in every
/// process.
pub open spec fn fnv1a_64(chars: Seq<char>) -> u64
    decreases chars.len(),
{
    if chars.len() == 0 {
        FNV64_OFFSET
    } else {
        fnv1a_step(fnv1a_64(chars.drop_last()), chars.last())
    }
}

/// The stable identifier of a device name: its hash rendered in lowercase
/// hexadecimal without leading zeroes.
pub open spec fn device_id_chars(name: Seq<char>) -> Seq<char> {
    hex_rep(fnv1a_64(name) as nat)
}

/// An input device as the presentation layer lists it: the stable
/// identifier and the human-readable name.
#[derive(Debug)]
pub struct AudioDevice {
    pub id: String,
    pub name: String,
}

/// The 64-bit hash of one device name.
pub fn device_name_hash(name: &str) -> (h: u64)
    ensures
        h == fnv1a_64(name@),
{
    let n = name.unicode_len();
    let mut h: u64 = FNV64_OFFSET;
    let mut i: usize = 0;
    while i < n
        invariant
            i <= n,
            n == name@.len(),
            h == fnv1a_64(name@.subrange(0, i as int)),
        decreases n - i,
    {
        let c = name.get_char(i);
        h = (h ^ ((c as u32) as u64)).wrapping_mul(FNV64_PRIME);
        proof {
            assert(name@.subrange(0, i + 1).drop_last() =~= name@.subrange(0, i as int));
            assert(name@.subrange(0, i + 1).last() == name@[i as int]);
        }
        i = i + 1;
    }
    proof {
        assert(name@.subrange(0, n as int) =~= name@);
    }
    h
}

/// The stable identifier for a device name. Reproducible: the same name
/// string gives the same identifier, always.
pub fn get_device_hash(name: &str) -> (id: String)
    ensures
        id@ == device_id_chars(name@),
{
    u64_to_hex_string(device_name_hash(name))
}

/// The device listing handed to the presentation layer: every enumerated
/// name, in order, paired with its stable identifier.
pub fn device_listing(names: &Vec<String>) -> (list: Vec<AudioDevice>)
    ensures
        list@.len() == names@.len(),
        forall|i: int|
            0 <= i < names@.len() ==> (#[trigger] list@[i]).id@ == device_id_chars(names@[i]@)
                && list@[i].name@ == names@[i]@,
{
    let mut list: Vec<AudioDevice> = Vec::new();
    let mut i: usize = 0;
    while i < names.len()
        invariant
            i <= names.len(),
            list@.len() == i,
            forall|j: int|
                0 <= j < i ==> (#[trigger] list@[j]).id@ == device_id_chars(names@[j]@)
                    && list@[j].name@ == names@[j]@,
        decreases names.len() - i,
    {
        let name = names[i].clone();
        let id = get_device_hash(name.as_str());
        list.push(AudioDevice { id, name });
        i = i + 1;
    }
    list
}

/// How a device selector resolves against the enumerated device names.
pub enum DeviceChoice {
    /// The empty selector: open the system default input device.
    SystemDefault,
    /// The selector matched the name at this position (the first match).
    Index(usize),
    /// The selector matched no enumerated name.
    NoMatch,
}

/// Resolves a device selector against the enumerated names: the empty
/// selector means the system default; otherwise the first name whose
/// stable identifier equals the selector wins; with no match the device
/// cannot be found.
pub fn select_input_device(device_id: &str, names: &Vec<String>) -> (r: DeviceChoice)
    ensures
        device_id@.len() == 0 <==> r is SystemDefault,
        r matches DeviceChoice::Index(i) ==> i < names@.len() && device_id_chars(names@[i as int]@)
            == device_id@ && (forall|j: int|
            0 <= j < i ==> device_id_chars(#[trigger] names@[j]@) != device_id@),
        r is NoMatch ==> device_id@.len() > 0 && (forall|j: int|
            0 <= j < names@.len() ==> device_id_chars(#[trigger] names@[j]@) != device_id@),
    {
    if device_id.unicode_len() == 0 {
        return DeviceChoice::SystemDefault;
    }
    let wanted = String::from_str(device_id);
    let mut i: usize = 0;
    while i < names.len()
        invariant
            i <= names.len(),
            wanted@ == device_id@,
            device_id@.len() > 0,
            forall|j: int| 0 <= j < i ==> device_id_chars(#[trigger] names@[j]@) != device_id@,
        decreases names.len() - i,
    {
        let candidate = get_device_hash(names[i].as_str());
        if candidate == wanted {
            return DeviceChoice::Index(i);
        }
        i = i + 1;
    }
    DeviceChoice::NoMatch
}

} // verus!
