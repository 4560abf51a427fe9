//! The FAT 8.3 short-name grammar, and the byte trim the resolver uses.
//!
//! A name in valid 8.3 form is opened directly; any other name has to be
//! found by scanning a directory's long names. Which side of that fork a
//! name falls on is decided here, byte by byte.
//!
//! Policy for names outside ASCII: this module treats any byte at or
//! above `0x80` as not in 8.3 form, so such names always resolve through
//! the directory scan, where long names are compared byte-for-byte,
//! case-sensitively and without Unicode normalization.

use vstd::prelude::*;
use vstd::slice::*;

verus! {

/// Whether `b` may stand in the base or extension of an 8.3 name.
///
/// Control bytes, the FAT-forbidden punctuation, the space, the period
/// (which only separates base from extension) and everything outside
/// ASCII are excluded.
pub open spec fn spec_valid_sfn_byte(b: u8) -> bool {
    &&& b >= 0x21
    &&& b < 0x80
    &&& b != 0x22  // "
    &&& b != 0x2a  // *
    &&& b != 0x2b  // +
    &&& b != 0x2c  // ,
    &&& b != 0x2e  // . is the separator, never a name byte
    &&& b != 0x2f  // /
    &&& b != 0x3a  // :
    &&& b != 0x3b  // ;
    &&& b != 0x3c  // <
    &&& b != 0x3d  // =
    &&& b != 0x3e  // >
    &&& b != 0x3f  // ?
    &&& b != 0x5b  // [
    &&& b != 0x5c  // backslash
    &&& b != 0x5d  // ]
    &&& b != 0x7c  // |
}

/// One pass of the 8.3 scanner from position `i`, having already placed
/// `idx` of the eleven name cells, with `seen_dot` saying whether the
/// extension has begun. Mirrors how a FAT implementation fills the
/// space-padded 11-byte cell array.
pub open spec fn spec_sfn_scan(s: Seq<u8>, i: int, idx: int, seen_dot: bool) -> bool
    recommends
        0 <= i <= s.len(),
    decreases s.len() - i,
{
    if i < 0 || i >= s.len() {
        idx != 0
    } else {
        let b = s[i];
        if b == 0x2e {
            if 1 <= idx <= 8 {
                spec_sfn_scan(s, i + 1, 8, true)
            } else {
                false
            }
        } else if spec_valid_sfn_byte(b) {
            if seen_dot {
                if 8 <= idx < 11 {
                    spec_sfn_scan(s, i + 1, idx + 1, true)
                } else {
                    false
                }
            } else {
                if idx < 8 {
                    spec_sfn_scan(s, i + 1, idx + 1, false)
                } else {
                    false
                }
            }
        } else {
            false
        }
    }
}

/// Whether `s` is a valid 8.3 short name.
///
/// The empty name and `.` stand for the directory itself and `..` for
/// its parent; both are valid. Everything else must scan as up to eight
/// base bytes, optionally a period and up to three extension bytes.
pub open spec fn is_valid_short_name(s: Seq<u8>) -> bool {
    ||| s.len() == 0
    ||| s == seq![0x2eu8]
    ||| s == seq![0x2eu8, 0x2eu8]
    ||| spec_sfn_scan(s, 0, 0, false)
}

/// Decide whether `b` may stand in the base or extension of an 8.3 name.
pub fn valid_sfn_byte(b: u8) -> (r: bool)
    ensures
        r == spec_valid_sfn_byte(b),
{
    b >= 0x21 && b < 0x80 && b != 0x22 && b != 0x2a && b != 0x2b && b != 0x2c && b != 0x2e && b
        != 0x2f && b != 0x3a && b != 0x3b && b != 0x3c && b != 0x3d && b != 0x3e && b != 0x3f && b
        != 0x5b && b != 0x5c && b != 0x5d && b != 0x7c
}

/// Decide whether `name` is already in valid 8.3 form.
pub fn is_short_name(name: &[u8]) -> (r: bool)
    ensures
        r == is_valid_short_name(name@),
{
    let n = name.len();
    if n == 0 {
        return true;
    }
    if n == 1 && *slice_index_get(name, 0) == 0x2e {
        assert(name@ =~= seq![0x2eu8]);
        return true;
    }
    if n == 2 && *slice_index_get(name, 0) == 0x2e && *slice_index_get(name, 1) == 0x2e {
        assert(name@ =~= seq![0x2eu8, 0x2eu8]);
        return true;
    }
    let mut i: usize = 0;
    let mut idx: u8 = 0;
    let mut seen_dot = false;
    while i < n
        invariant
            0 <= i <= n,
            n == name@.len(),
            idx <= 11,
            seen_dot ==> 8 <= idx,
            1 <= n,
            name@ != seq![0x2eu8],
            name@ != seq![0x2eu8, 0x2eu8],
            spec_sfn_scan(name@, 0, 0, false) == spec_sfn_scan(
                name@,
                i as int,
                idx as int,
                seen_dot,
            ),
        decreases n - i,
    {
        let b = *slice_index_get(name, i);
        if b == 0x2e {
            if 1 <= idx && idx <= 8 {
                idx = 8;
                seen_dot = true;
            } else {
                proof {
                    assert(!spec_sfn_scan(name@, i as int, idx as int, seen_dot));
                }
                return false;
            }
        } else if valid_sfn_byte(b) {
            if seen_dot {
                if idx < 11 {
                    idx = idx + 1;
                } else {
                    proof {
                        assert(!spec_sfn_scan(name@, i as int, idx as int, seen_dot));
                    }
                    return false;
                }
            } else {
                if idx < 8 {
                    idx = idx + 1;
                } else {
                    proof {
                        assert(!spec_sfn_scan(name@, i as int, idx as int, seen_dot));
                    }
                    return false;
                }
            }
        } else {
            proof {
                assert(!spec_sfn_scan(name@, i as int, idx as int, seen_dot));
            }
            return false;
        }
        i = i + 1;
    }
    proof {
        assert(spec_sfn_scan(name@, n as int, idx as int, seen_dot) == (idx != 0));
    }
    idx > 0
}

/// Whether `b` is ASCII whitespace: space, tab, newline, form feed or
/// carriage return.
pub open spec fn spec_ascii_ws(b: u8) -> bool {
    b == 0x20 || b == 0x09 || b == 0x0a || b == 0x0c || b == 0x0d
}

/// `s` without its leading ASCII whitespace.
pub open spec fn spec_ltrim(s: Seq<u8>) -> Seq<u8>
    decreases s.len(),
{
    if s.len() > 0 && spec_ascii_ws(s[0]) {
        spec_ltrim(s.drop_first())
    } else {
        s
    }
}

/// `s` without its trailing ASCII whitespace.
pub open spec fn spec_rtrim(s: Seq<u8>) -> Seq<u8>
    decreases s.len(),
{
    if s.len() > 0 && spec_ascii_ws(s[s.len() - 1]) {
        spec_rtrim(s.drop_last())
    } else {
        s
    }
}

/// `s` without leading and trailing ASCII whitespace.
pub open spec fn spec_trim(s: Seq<u8>) -> Seq<u8> {
    spec_rtrim(spec_ltrim(s))
}

/// Strip leading and trailing ASCII whitespace, as a directory scan does
/// to each reconstructed long name before comparing it.
pub fn trim_ascii(s: &[u8]) -> (r: Vec<u8>)
    ensures
        r@ == spec_trim(s@),
{
    let n = s.len();
    proof {
        assert(s@.subrange(0, n as int) =~= s@);
    }
    let mut start: usize = 0;
    loop
        invariant
            0 <= start <= n,
            n == s@.len(),
            spec_ltrim(s@) == spec_ltrim(s@.subrange(start as int, n as int)),
        ensures
            0 <= start <= n,
            n == s@.len(),
            spec_ltrim(s@) == spec_ltrim(s@.subrange(start as int, n as int)),
            start == n || !spec_ascii_ws(s@[start as int]),
        decreases n - start,
    {
        if start >= n {
            break;
        }
        let b = *slice_index_get(s, start);
        if !(b == 0x20 || b == 0x09 || b == 0x0a || b == 0x0c || b == 0x0d) {
            break;
        }
        proof {
            assert(s@.subrange(start as int, n as int).drop_first() =~= s@.subrange(
                start as int + 1,
                n as int,
            ));
        }
        start = start + 1;
    }
    proof {
        assert(spec_ltrim(s@) =~= s@.subrange(start as int, n as int));
    }
    let mut end: usize = n;
    loop
        invariant
            start <= end <= n,
            n == s@.len(),
            spec_ltrim(s@) == s@.subrange(start as int, n as int),
            spec_trim(s@) == spec_rtrim(s@.subrange(start as int, end as int)),
        ensures
            start <= end <= n,
            n == s@.len(),
            spec_trim(s@) == spec_rtrim(s@.subrange(start as int, end as int)),
            end == start || !spec_ascii_ws(s@[end - 1]),
        decreases end,
    {
        if end <= start {
            break;
        }
        let b = *slice_index_get(s, end - 1);
        if !(b == 0x20 || b == 0x09 || b == 0x0a || b == 0x0c || b == 0x0d) {
            break;
        }
        proof {
            assert(s@.subrange(start as int, end as int).drop_last() =~= s@.subrange(
                start as int,
                end as int - 1,
            ));
        }
        end = end - 1;
    }
    proof {
        assert(spec_trim(s@) =~= s@.subrange(start as int, end as int));
    }
    let mut r: Vec<u8> = Vec::new();
    let mut i: usize = start;
    while i < end
        invariant
            start <= i <= end <= n,
            n == s@.len(),
            r@ =~= s@.subrange(start as int, i as int),
        decreases end - i,
    {
        r.push(*slice_index_get(s, i));
        proof {
            assert(r@ =~= s@.subrange(start as int, i as int + 1));
        }
        i = i + 1;
    }
    proof {
        assert(r@ =~= spec_trim(s@));
    }
    r
}

} // verus!
