//! Decisions of the BLE acquisition front-end.
//!
//! The driver scans for peripherals, connects to the one whose advertised
//! name passes a fixed filter, and subscribes to one fixed notify
//! characteristic.  The scan, connection and subscription mechanics live
//! with the driver; this module holds the decisions: which peripheral to
//! use, and which characteristic to subscribe to.

use vstd::prelude::*;

verus! {

/// The 128-bit identifier of the characteristic that carries current
/// readings; part of the contract with the remote firmware.
pub const NOTIFY_CHARACTERISTIC_UUID: u128 = 0xae84d642_7f4b_11ec_a8a3_0242ac120002;

/// The advertised-name filter: only peripherals whose name holds this text
/// are used; part of the contract with the remote firmware.
pub open spec fn peripheral_name_filter() -> Seq<char> {
    "M5Atom-MCP3424 BLE Sender"@
}

/// Whether `needle` stands in `hay` starting at position `i`.
pub open spec fn matches_at(hay: Seq<char>, needle: Seq<char>, i: int) -> bool {
    0 <= i && i + needle.len() <= hay.len() && forall|k: int|
        0 <= k < needle.len() ==> hay[i + k] == #[trigger] needle[k]
}

/// Whether `needle` occurs anywhere in `hay` as a contiguous run.
pub open spec fn contains_seq(hay: Seq<char>, needle: Seq<char>) -> bool {
    exists|i: int| #[trigger] matches_at(hay, needle, i)
}

/// Whether `needle` occurs in `hay`: a verified counterpart of substring
/// containment on text.
pub fn contains_chars(hay: &str, needle: &str) -> (r: bool)
    ensures
        r == contains_seq(hay@, needle@),
{
    let hn = hay.unicode_len();
    let nn = needle.unicode_len();
    if nn > hn {
        proof {
            assert(!contains_seq(hay@, needle@)) by {
                if contains_seq(hay@, needle@) {
                    let x = choose|x: int| matches_at(hay@, needle@, x);
                    assert(matches_at(hay@, needle@, x));
                }
            }
        }
        return false;
    }
    let mut i: usize = 0;
    while i <= hn - nn
        invariant
            nn <= hn,
            hn == hay@.len(),
            nn == needle@.len(),
            i <= hn - nn + 1,
            forall|x: int| 0 <= x < i ==> !matches_at(hay@, needle@, x),
        decreases hn - nn + 1 - i,
    {
        let mut k: usize = 0;
        while k < nn && hay.get_char(i + k) == needle.get_char(k)
            invariant
                i + nn <= hn,
                hn == hay@.len(),
                nn == needle@.len(),
                k <= nn,
                forall|x: int| 0 <= x < k ==> hay@[i + x] == #[trigger] needle@[x],
            decreases nn - k,
        {
            k += 1;
        }
        if k == nn {
            proof {
                assert(matches_at(hay@, needle@, i as int));
            }
            return true;
        }
        proof {
            assert(!matches_at(hay@, needle@, i as int)) by {
                if matches_at(hay@, needle@, i as int) {
                    assert(hay@[i + k] == needle@[k as int]);
                }
            }
        }
        i += 1;
    }
    proof {
        assert(!contains_seq(hay@, needle@)) by {
            if contains_seq(hay@, needle@) {
                let x = choose|x: int| matches_at(hay@, needle@, x);
                assert(matches_at(hay@, needle@, x));
            }
        }
    }
    false
}

/// Whether an advertised peripheral name passes the name filter.
pub fn name_matches_filter(name: &str) -> (r: bool)
    ensures
        r == contains_seq(name@, peripheral_name_filter()),
{
    contains_chars(name, "M5Atom-MCP3424 BLE Sender")
}

/// What to do with one discovered peripheral.
#[derive(Clone, Copy, Debug, PartialEq, Eq, Structural)]
pub enum PeripheralDecision {
    /// The advertised name does not pass the filter: never connect.
    Skip,
    /// The name passes and no connection stands yet: try to connect.
    Connect,
    /// The name passes and the peripheral is already connected: use it.
    UseExisting,
}

/// Decides how the scan treats one discovered peripheral, from its
/// advertised name and whether a connection to it already stands.
pub fn evaluate_peripheral(name: &str, is_connected: bool) -> (d: PeripheralDecision)
    ensures
        (d == PeripheralDecision::Skip) == !contains_seq(name@, peripheral_name_filter()),
        (d == PeripheralDecision::Connect) == (contains_seq(name@, peripheral_name_filter())
            && !is_connected),
        (d == PeripheralDecision::UseExisting) == (contains_seq(name@, peripheral_name_filter())
            && is_connected),
{
    if name_matches_filter(name) {
        if is_connected {
            PeripheralDecision::UseExisting
        } else {
            PeripheralDecision::Connect
        }
    } else {
        PeripheralDecision::Skip
    }
}

/// What the driver reads of one GATT characteristic: its 128-bit identifier
/// and whether it is notify-capable.
#[derive(Clone, Copy, Debug, PartialEq, Eq, Structural)]
pub struct GattCharacteristic {
    /// The characteristic's identifier, as its 128 bits.
    pub uuid_bits: u128,
    /// Whether the characteristic's capability flags mark it notify-capable.
    pub can_notify: bool,
}

/// The characteristic current readings arrive on: the fixed identifier,
/// with notification capability.
pub open spec fn is_notify_channel(c: GattCharacteristic) -> bool {
    c.uuid_bits == NOTIFY_CHARACTERISTIC_UUID && c.can_notify
}

/// Picks the subscription target: the first characteristic that carries
/// current readings.  `None` means the expected characteristic is absent —
/// a firmware mismatch the driver treats as fatal.
pub fn find_notify_characteristic(chars: &Vec<GattCharacteristic>) -> (r: Option<usize>)
    ensures
        (match r {
            Some(i) => i < chars@.len() && is_notify_channel(chars@[i as int]) && forall|j: int|
                0 <= j < i ==> !is_notify_channel(chars@[j]),
            None => forall|j: int| 0 <= j < chars@.len() ==> !is_notify_channel(chars@[j]),
        }),
{
    let mut i: usize = 0;
    while i < chars.len()
        invariant
            i <= chars@.len(),
            forall|j: int| 0 <= j < i ==> !is_notify_channel(chars@[j]),
        decreases chars@.len() - i,
    {
        let c = chars[i];
        if c.uuid_bits == NOTIFY_CHARACTERISTIC_UUID && c.can_notify {
            return Some(i);
        }
        i += 1;
    }
    None
}

} // verus!
