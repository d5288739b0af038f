use vstd::prelude::*;
use vstd::string::StrSliceExecFns;

use crate::errors::FakeBluetoothError;

verus! {

// A modalias string has the shape `source:vVVVVpPPPPdDDDD`: the part before
// the first `:` is the source identifier, and the part between the first `:`
// and the next `:` (or the end) carries three 4-digit hexadecimal groups at
// fixed offsets 1..5, 6..10 and 11..15.  The marker characters at offsets 0,
// 5 and 10 are not inspected.
/// Whether `c` is an ASCII hexadecimal digit (the codes below are the ASCII
/// codes of `0`..`9`, `a`..`f` and `A`..`F`).
pub open spec fn is_hex_digit(c: char) -> bool {
    (48 <= c as u32 && c as u32 <= 57) || (97 <= c as u32 && c as u32 <= 102) || (65 <= c as u32
        && c as u32 <= 70)
}

/// The numeric value of a hexadecimal digit.
pub open spec fn hex_digit_value(c: char) -> int {
    if 48 <= c as u32 && c as u32 <= 57 {
        c as u32 - 48
    } else if 97 <= c as u32 && c as u32 <= 102 {
        c as u32 - 97 + 10
    } else {
        c as u32 - 65 + 10
    }
}

/// Whether every character of `s` is a hexadecimal digit.
pub open spec fn all_hex(s: Seq<char>) -> bool {
    forall|i: int| 0 <= i < s.len() ==> is_hex_digit(s[i])
}

/// The value of a 4-digit hexadecimal group, read big-endian: the group
/// `VVVV` encodes the 16-bit integer `high_byte * 256 + low_byte`.
pub open spec fn hex_group_value(s: Seq<char>) -> int
    recommends
        s.len() == 4,
{
    4096 * hex_digit_value(s[0]) + 256 * hex_digit_value(s[1]) + 16 * hex_digit_value(s[2])
        + hex_digit_value(s[3])
}

/// Whether `m` contains a `:` separator.
pub open spec fn has_colon(m: Seq<char>) -> bool {
    exists|i: int| 0 <= i < m.len() && m[i] == ':'
}

/// The index of the first `:` in `m`, or `m.len()` if there is none.
pub open spec fn first_colon(m: Seq<char>) -> int
    decreases m.len(),
{
    if m.len() == 0 {
        0
    } else if m[0] == ':' {
        0
    } else {
        1 + first_colon(m.subrange(1, m.len() as int))
    }
}

/// `first_colon` is the index left of which no `:` occurs and at which one
/// stands, or the length when there is none.
pub proof fn lemma_first_colon_at(m: Seq<char>, i: int)
    requires
        0 <= i <= m.len(),
        forall|j: int| 0 <= j < i ==> m[j] != ':',
        i == m.len() || m[i] == ':',
    ensures
        first_colon(m) == i,
    decreases i,
{
    if i > 0 {
        let rest = m.subrange(1, m.len() as int);
        assert forall|j: int| 0 <= j < i - 1 implies rest[j] != ':' by {
            assert(rest[j] == m[j + 1]);
        }
        lemma_first_colon_at(rest, i - 1);
    }
}

/// The source identifier: everything left of the first `:`.
pub open spec fn modalias_source(m: Seq<char>) -> Seq<char> {
    m.subrange(0, first_colon(m))
}

/// The identifier segment: everything between the first `:` and the next
/// `:`, or the end of the string.
pub open spec fn modalias_right(m: Seq<char>) -> Seq<char>
    recommends
        has_colon(m),
{
    let rest = m.subrange(first_colon(m) + 1, m.len() as int);
    rest.subrange(0, first_colon(rest))
}

/// Whether `m` decodes: it has a `:`, the identifier segment reaches the
/// fixed offsets, and all three groups are hexadecimal.
pub open spec fn modalias_well_formed(m: Seq<char>) -> bool {
    &&& has_colon(m)
    &&& modalias_right(m).len() >= 15
    &&& all_hex(modalias_right(m).subrange(1, 5))
    &&& all_hex(modalias_right(m).subrange(6, 10))
    &&& all_hex(modalias_right(m).subrange(11, 15))
}

/// The vendor identifier encoded at offsets 1..5 of the identifier segment.
pub open spec fn modalias_vendor_id(m: Seq<char>) -> int {
    hex_group_value(modalias_right(m).subrange(1, 5))
}

/// The product identifier encoded at offsets 6..10 of the identifier
/// segment.
pub open spec fn modalias_product_id(m: Seq<char>) -> int {
    hex_group_value(modalias_right(m).subrange(6, 10))
}

/// The device identifier encoded at offsets 11..15 of the identifier
/// segment.
pub open spec fn modalias_device_id(m: Seq<char>) -> int {
    hex_group_value(modalias_right(m).subrange(11, 15))
}

/// The index of the first `:` in `s` at or after `from`, or `s`'s length if
/// there is none.
fn find_colon(s: &str, from: usize) -> (r: usize)
    requires
        from <= s@.len(),
    ensures
        from <= r <= s@.len(),
        forall|j: int| from <= j < r ==> s@[j] != ':',
        r < s@.len() ==> s@[r as int] == ':',
{
    let n = s.unicode_len();
    let mut i = from;
    loop
        invariant
            from <= i <= n,
            n == s@.len(),
            forall|j: int| from <= j < i ==> s@[j] != ':',
        decreases n - i,
    {
        if i == n {
            return i;
        }
        if s.get_char(i) == ':' {
            return i;
        }
        i += 1;
    }
}

/// The value of the hexadecimal digit `c`, or `None` if `c` is no such
/// digit.
fn hex_value_of_char(c: char) -> (r: Option<u32>)
    ensures
        is_hex_digit(c) ==> (r matches Some(v) && v == hex_digit_value(c) && v < 16),
        !is_hex_digit(c) ==> r is None,
{
    let n = c as u32;
    if 48 <= n && n <= 57 {
        Some(n - 48)
    } else if 97 <= n && n <= 102 {
        Some(n - 97 + 10)
    } else if 65 <= n && n <= 70 {
        Some(n - 65 + 10)
    } else {
        None
    }
}

/// Reads the 4-digit hexadecimal group starting at `start`, big-endian.
fn read_hex_group(s: &str, start: usize) -> (r: Result<u32, FakeBluetoothError>)
    requires
        start + 4 <= s@.len() <= usize::MAX,
    ensures
        all_hex(s@.subrange(start as int, start as int + 4)) ==> (r matches Ok(v) && v
            == hex_group_value(s@.subrange(start as int, start as int + 4))),
        !all_hex(s@.subrange(start as int, start as int + 4)) ==> r == Err::<
            u32,
            FakeBluetoothError,
        >(FakeBluetoothError::MalformedModalias),
{
    let ghost group = s@.subrange(start as int, start as int + 4);
    let v0 = match hex_value_of_char(s.get_char(start)) {
        Some(v) => v,
        None => {
            proof {
                assert(!is_hex_digit(group[0]));
            }
            return Err(FakeBluetoothError::MalformedModalias);
        },
    };
    let v1 = match hex_value_of_char(s.get_char(start + 1)) {
        Some(v) => v,
        None => {
            proof {
                assert(!is_hex_digit(group[1]));
            }
            return Err(FakeBluetoothError::MalformedModalias);
        },
    };
    let v2 = match hex_value_of_char(s.get_char(start + 2)) {
        Some(v) => v,
        None => {
            proof {
                assert(!is_hex_digit(group[2]));
            }
            return Err(FakeBluetoothError::MalformedModalias);
        },
    };
    let v3 = match hex_value_of_char(s.get_char(start + 3)) {
        Some(v) => v,
        None => {
            proof {
                assert(!is_hex_digit(group[3]));
            }
            return Err(FakeBluetoothError::MalformedModalias);
        },
    };
    Ok(4096 * v0 + 256 * v1 + 16 * v2 + v3)
}

/// Decodes a modalias string into its source identifier and the vendor,
/// product and device identifiers.  The routine is pure: it shares no state
/// and always re-runs the full decode.
pub fn decode_modalias(modalias: &str) -> (r: Result<
    (String, u32, u32, u32),
    FakeBluetoothError,
>)
    ensures
        modalias_well_formed(modalias@) ==> (r matches Ok(t) && t.0@ == modalias_source(modalias@)
            && t.1 == modalias_vendor_id(modalias@) && t.2 == modalias_product_id(modalias@)
            && t.3 == modalias_device_id(modalias@)),
        !modalias_well_formed(modalias@) ==> r == Err::<
            (String, u32, u32, u32),
            FakeBluetoothError,
        >(FakeBluetoothError::MalformedModalias),
{
    let ghost m = modalias@;
    let n = modalias.unicode_len();
    let fc = find_colon(modalias, 0);
    if fc == n {
        proof {
            assert(!has_colon(m));
        }
        return Err(FakeBluetoothError::MalformedModalias);
    }
    proof {
        lemma_first_colon_at(m, fc as int);
        assert(has_colon(m));
    }
    let rc = find_colon(modalias, fc + 1);
    let ghost rest = m.subrange(fc + 1, m.len() as int);
    proof {
        assert forall|j: int| 0 <= j < rc - (fc + 1) implies rest[j] != ':' by {
            assert(rest[j] == m[fc + 1 + j]);
        }
        lemma_first_colon_at(rest, rc - (fc + 1));
        assert(modalias_right(m) =~= m.subrange(fc + 1, rc as int));
    }
    let seg_len = rc - (fc + 1);
    if seg_len < 15 {
        return Err(FakeBluetoothError::MalformedModalias);
    }
    proof {
        assert(modalias_right(m).subrange(1, 5) =~= m.subrange(fc + 2, fc + 6));
        assert(modalias_right(m).subrange(6, 10) =~= m.subrange(fc + 7, fc + 11));
        assert(modalias_right(m).subrange(11, 15) =~= m.subrange(fc + 12, fc + 16));
    }
    let vendor = match read_hex_group(modalias, fc + 2) {
        Ok(v) => v,
        Err(e) => {
            return Err(e);
        },
    };
    let product = match read_hex_group(modalias, fc + 7) {
        Ok(v) => v,
        Err(e) => {
            return Err(e);
        },
    };
    let device = match read_hex_group(modalias, fc + 12) {
        Ok(v) => v,
        Err(e) => {
            return Err(e);
        },
    };
    let source = modalias.substring_char(0, fc).to_owned();
    Ok((source, vendor, product, device))
}

} // verus!
