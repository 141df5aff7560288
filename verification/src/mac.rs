//! Hardware addresses: canonical-format validation and the pure part of
//! the neighbor-cache resolver (IPv4 address to hardware address).

use vstd::prelude::*;
use vstd::string::*;

use crate::errors::Error;

verus! {

/// A hexadecimal digit, either case.
pub open spec fn spec_is_hex_digit(c: char) -> bool {
    ('0' <= c && c <= '9') || ('a' <= c && c <= 'f') || ('A' <= c && c <= 'F')
}

/// The canonical hardware-address shape: six groups of two hex digits,
/// separated by single colons.
pub open spec fn spec_mac_valid(s: Seq<char>) -> bool {
    &&& s.len() == 17
    &&& forall|i: int|
        0 <= i < 17 ==> (if i % 3 == 2 {
            s[i] == ':'
        } else {
            spec_is_hex_digit(#[trigger] s[i])
        })
}

/// Checks one character for being a hexadecimal digit.
pub fn is_hex_digit(c: char) -> (r: bool)
    ensures
        r == spec_is_hex_digit(c),
{
    ('0' <= c && c <= '9') || ('a' <= c && c <= 'f') || ('A' <= c && c <= 'F')
}

/// Validation gate for hardware addresses: accepts exactly the strings of
/// six colon-separated groups of two hex digits. Every address that
/// reaches the enforcement backend passes through this check first.
pub fn is_mac_valid(s: &str) -> (r: bool)
    ensures
        r == spec_mac_valid(s@),
{
    let n = s.unicode_len();
    if n != 17 {
        return false;
    }
    let mut i: usize = 0;
    while i < 17
        invariant
            i <= 17,
            s@.len() == 17,
            forall|j: int|
                0 <= j < i ==> (if j % 3 == 2 {
                    s@[j] == ':'
                } else {
                    spec_is_hex_digit(#[trigger] s@[j])
                }),
        decreases 17 - i,
    {
        let c = s.get_char(i);
        if i % 3 == 2 {
            if c != ':' {
                return false;
            }
        } else {
            if !is_hex_digit(c) {
                return false;
            }
        }
        i += 1;
    }
    true
}

/// The lowercase hex digit for a value below sixteen.
pub open spec fn spec_hex_digit_char(v: int) -> char {
    if v == 0 {
        '0'
    } else if v == 1 {
        '1'
    } else if v == 2 {
        '2'
    } else if v == 3 {
        '3'
    } else if v == 4 {
        '4'
    } else if v == 5 {
        '5'
    } else if v == 6 {
        '6'
    } else if v == 7 {
        '7'
    } else if v == 8 {
        '8'
    } else if v == 9 {
        '9'
    } else if v == 10 {
        'a'
    } else if v == 11 {
        'b'
    } else if v == 12 {
        'c'
    } else if v == 13 {
        'd'
    } else if v == 14 {
        'e'
    } else {
        'f'
    }
}

/// The one-character string holding the lowercase hex digit for `v`.
fn hex_str(v: u8) -> (r: &'static str)
    requires
        v < 16,
    ensures
        r@ =~= seq![spec_hex_digit_char(v as int)],
{
    let digits = "0123456789abcdef";
    proof {
        reveal_strlit("0123456789abcdef");
    }
    digits.substring_ascii(v as usize, v as usize + 1)
}

/// The bytes of a link-layer address rendered as lowercase two-digit hex
/// groups joined by colons.
pub open spec fn spec_mac_string(bytes: Seq<u8>) -> Seq<char>
    decreases bytes.len(),
{
    if bytes.len() == 0 {
        Seq::empty()
    } else if bytes.len() == 1 {
        seq![
            spec_hex_digit_char(bytes[0] as int / 16),
            spec_hex_digit_char(bytes[0] as int % 16),
        ]
    } else {
        spec_mac_string(bytes.drop_last()) + seq![':'] + seq![
            spec_hex_digit_char(bytes.last() as int / 16),
            spec_hex_digit_char(bytes.last() as int % 16),
        ]
    }
}

/// Formats the bytes of a link-layer address as lowercase two-digit hex
/// groups joined by colons.
pub fn mac_string_of(bytes: &Vec<u8>) -> (r: String)
    ensures
        r@ == spec_mac_string(bytes@),
{
    let mut r = String::new();
    let mut i: usize = 0;
    while i < bytes.len()
        invariant
            i <= bytes@.len(),
            r@ == spec_mac_string(bytes@.take(i as int)),
        decreases bytes@.len() - i,
    {
        if i > 0 {
            r.append(":");
            proof {
                reveal_strlit(":");
            }
        }
        let b = bytes[i];
        r.append(hex_str(b / 16));
        r.append(hex_str(b % 16));
        proof {
            let pre = bytes@.take(i as int + 1);
            assert(pre.drop_last() =~= bytes@.take(i as int));
            assert(pre.last() == bytes@[i as int]);
            assert(r@ =~= spec_mac_string(pre));
        }
        i += 1;
    }
    proof {
        assert(bytes@.take(bytes@.len() as int) =~= bytes@);
    }
    r
}

/// Every hex digit the formatter emits is a hex digit.
proof fn lemma_hex_digit_char_is_hex(v: int)
    requires
        0 <= v < 16,
    ensures
        spec_is_hex_digit(spec_hex_digit_char(v)),
{
}

/// Shape of the formatted address: empty for no bytes, else three
/// characters per byte minus the missing final colon, with a colon at
/// every third position and hex digits everywhere else.
proof fn lemma_mac_string_shape(bytes: Seq<u8>)
    ensures
        bytes.len() == 0 ==> spec_mac_string(bytes).len() == 0,
        bytes.len() > 0 ==> spec_mac_string(bytes).len() == 3 * bytes.len() - 1,
        forall|i: int|
            0 <= i < spec_mac_string(bytes).len() ==> (if i % 3 == 2 {
                spec_mac_string(bytes)[i] == ':'
            } else {
                spec_is_hex_digit(#[trigger] spec_mac_string(bytes)[i])
            }),
    decreases bytes.len(),
{
    if bytes.len() > 1 {
        lemma_mac_string_shape(bytes.drop_last());
        let s = spec_mac_string(bytes);
        let init = spec_mac_string(bytes.drop_last());
        lemma_hex_digit_char_is_hex(bytes.last() as int / 16);
        lemma_hex_digit_char_is_hex(bytes.last() as int % 16);
        assert forall|i: int| 0 <= i < s.len() implies (if i % 3 == 2 {
            s[i] == ':'
        } else {
            spec_is_hex_digit(s[i])
        }) by {
            if i < init.len() {
                assert(s[i] == init[i]);
            }
        }
    } else if bytes.len() == 1 {
        lemma_hex_digit_char_is_hex(bytes[0] as int / 16);
        lemma_hex_digit_char_is_hex(bytes[0] as int % 16);
    }
}

/// The resolver's output passes the canonical-format gate: a six-byte
/// link-layer address formats to a string that hardware-address
/// validation accepts, so a resolved address is never rejected further
/// down the pipeline.
pub proof fn lemma_mac_string_valid(bytes: Seq<u8>)
    requires
        bytes.len() == 6,
    ensures
        spec_mac_valid(spec_mac_string(bytes)),
{
    lemma_mac_string_shape(bytes);
}

/// One entry of the kernel's IPv4 neighbor cache, reduced to what the
/// resolver reads: the destination address, if the entry carries one, and
/// the link-layer address attribute, if the entry carries one.
pub struct NeighborEntry {
    /// Destination IPv4 address, as its 32-bit big-endian value.
    pub destination: Option<u32>,
    /// Link-layer address bytes.
    pub lladdr: Option<Vec<u8>>,
}

/// Whether some entry of the cache maps the given address.
pub open spec fn spec_has_mapping(entries: Seq<NeighborEntry>, ip: u32) -> bool {
    exists|i: int| 0 <= i < entries.len() && entries[i].destination == Some(ip)
}

/// Index of the first entry whose destination equals `ip`; meaningful only
/// when such an entry exists.
pub open spec fn spec_first_mapping(entries: Seq<NeighborEntry>, ip: u32) -> int
    decreases entries.len(),
{
    if entries.len() == 0 {
        0
    } else if entries[0].destination == Some(ip) {
        0
    } else {
        1 + spec_first_mapping(entries.drop_first(), ip)
    }
}

/// When a mapping exists, `spec_first_mapping` is in range, matches, and
/// no earlier entry matches.
pub proof fn lemma_first_mapping(entries: Seq<NeighborEntry>, ip: u32)
    requires
        spec_has_mapping(entries, ip),
    ensures
        0 <= spec_first_mapping(entries, ip) < entries.len(),
        entries[spec_first_mapping(entries, ip)].destination == Some(ip),
        forall|j: int| 0 <= j < spec_first_mapping(entries, ip) ==> entries[j].destination != Some(ip),
    decreases entries.len(),
{
    if entries.len() > 0 && entries[0].destination != Some(ip) {
        assert(spec_has_mapping(entries.drop_first(), ip)) by {
            let i = choose|i: int|
                0 <= i < entries.len() && entries[i].destination == Some(ip);
            assert(entries.drop_first()[i - 1].destination == Some(ip));
        }
        lemma_first_mapping(entries.drop_first(), ip);
        assert forall|j: int|
            0 <= j < spec_first_mapping(entries, ip) implies entries[j].destination != Some(
            ip,
        ) by {
            if j > 0 {
                assert(entries.drop_first()[j - 1] == entries[j]);
            }
        }
    }
}

/// Resolves an IPv4 address against a snapshot of the kernel's neighbor
/// cache: takes the first entry whose destination equals the address and
/// formats its link-layer address, as the resolver contract demands.
pub fn mac_from_neighbors(entries: &Vec<NeighborEntry>, ip: u32) -> (r: Result<String, Error>)
    ensures
        !spec_has_mapping(entries@, ip) ==> (r matches Err(e) && e is NoMappingForAddress),
        spec_has_mapping(entries@, ip) ==> {
            let entry = entries@[spec_first_mapping(entries@, ip)];
            match r {
                Ok(mac) => entry.lladdr matches Some(bytes) && mac@ == spec_mac_string(bytes@),
                Err(e) => entry.lladdr is None && e is MissingHardwareAddress,
            }
        },
{
    let mut i: usize = 0;
    while i < entries.len()
        invariant
            i <= entries@.len(),
            forall|j: int| 0 <= j < i ==> entries@[j].destination != Some(ip),
        decreases entries@.len() - i,
    {
        let matches_ip = match &entries[i].destination {
            Some(d) => *d == ip,
            None => false,
        };
        if matches_ip {
            proof {
                assert(spec_has_mapping(entries@, ip));
                lemma_first_mapping(entries@, ip);
                assert(spec_first_mapping(entries@, ip) == i as int) by {
                    let k = spec_first_mapping(entries@, ip);
                    if k < i as int {
                        assert(entries@[k].destination == Some(ip));
                    }
                    if k > i as int {
                        assert(entries@[i as int].destination != Some(ip));
                    }
                }
            }
            return match &entries[i].lladdr {
                Some(bytes) => Ok(mac_string_of(bytes)),
                None => Err(Error::MissingHardwareAddress),
            };
        }
        i += 1;
    }
    Err(Error::NoMappingForAddress)
}

} // verus!
