//! Parsing of device paths and group-link targets.
//!
//! The caller hands paths in as raw bytes: the last component of a device
//! path is the device's kernel-assigned name, and the last component of the
//! group link target is the owning group's numeric identifier.

use vstd::prelude::*;

use crate::errors::VfioError;

verus! {

/// Whether `c` is an ASCII decimal digit.
pub open spec fn is_digit(c: u8) -> bool {
    48 <= c <= 57
}

/// Whether every byte of `s` is an ASCII decimal digit.
pub open spec fn all_digits(s: Seq<u8>) -> bool {
    forall|i: int| 0 <= i < s.len() ==> is_digit(#[trigger] s[i])
}

/// The decimal value of `s`, most significant digit first.
pub open spec fn dec_value(s: Seq<u8>) -> int
    decreases s.len(),
{
    if s.len() == 0 {
        0
    } else {
        dec_value(s.drop_last()) * 10 + (s.last() - 48)
    }
}

/// The decimal value of an all-digit string is never negative.
pub proof fn lemma_dec_value_nonneg(s: Seq<u8>)
    requires
        all_digits(s),
    ensures
        dec_value(s) >= 0,
    decreases s.len(),
{
    if s.len() > 0 {
        assert(all_digits(s.drop_last()));
        lemma_dec_value_nonneg(s.drop_last());
    }
}

/// Extending an all-digit string never decreases its decimal value.
pub proof fn lemma_dec_value_prefix_le(s: Seq<u8>, i: int)
    requires
        all_digits(s),
        0 <= i <= s.len(),
    ensures
        dec_value(s.subrange(0, i)) <= dec_value(s),
    decreases s.len() - i,
{
    if i < s.len() {
        lemma_dec_value_prefix_le(s, i + 1);
        let t = s.subrange(0, i + 1);
        assert(t.drop_last() =~= s.subrange(0, i));
        assert(all_digits(s.subrange(0, i)));
        lemma_dec_value_nonneg(s.subrange(0, i));
        assert(dec_value(t) == dec_value(s.subrange(0, i)) * 10 + (s[i] - 48));
    } else {
        assert(s.subrange(0, i) =~= s);
    }
}

/// Parses `s` as an unsigned decimal number. Succeeds exactly when `s` is
/// non-empty, all digits, and its value fits in a `u32`.
pub fn parse_decimal_u32(s: &[u8]) -> (r: Option<u32>)
    ensures
        match r {
            Some(v) => s@.len() > 0 && all_digits(s@) && dec_value(s@) == v as int,
            None => s@.len() == 0 || !all_digits(s@) || dec_value(s@) > u32::MAX,
        },
{
    let n = s.len();
    if n == 0 {
        return None;
    }
    let mut i: usize = 0;
    while i < n
        invariant
            n == s@.len(),
            i <= n,
            forall|j: int| 0 <= j < i as int ==> is_digit(#[trigger] s@[j]),
        decreases n - i,
    {
        let c = s[i];
        if c < 48 || c > 57 {
            return None;
        }
        i = i + 1;
    }
    let mut acc: u64 = 0;
    let mut k: usize = 0;
    proof {
        assert(s@.subrange(0, 0) =~= Seq::<u8>::empty());
    }
    while k < n
        invariant
            n == s@.len(),
            k <= n,
            all_digits(s@),
            acc <= u32::MAX,
            acc as int == dec_value(s@.subrange(0, k as int)),
        decreases n - k,
    {
        let d = s[k];
        let next: u64 = acc * 10 + (d - 48) as u64;
        proof {
            assert(s@.subrange(0, k + 1).drop_last() =~= s@.subrange(0, k as int));
            assert(dec_value(s@.subrange(0, k + 1)) == dec_value(s@.subrange(0, k as int)) * 10 + (
            s@[k as int] - 48));
        }
        if next > u32::MAX as u64 {
            proof {
                lemma_dec_value_prefix_le(s@, k + 1);
            }
            return None;
        }
        acc = next;
        k = k + 1;
    }
    proof {
        assert(s@.subrange(0, n as int) =~= s@);
    }
    Some(acc as u32)
}

/// Whether `b` is a UTF-8 continuation byte.
pub open spec fn utf8_cont(b: u8) -> bool {
    0x80 <= b <= 0xBF
}

/// Whether `s` is a well-formed UTF-8 byte string: the shortest-form
/// encodings of scalar values up to 0x10FFFF, surrogates excluded.
pub open spec fn utf8_ok(s: Seq<u8>) -> bool
    decreases s.len(),
{
    if s.len() == 0 {
        true
    } else {
        let b0 = s[0];
        if b0 <= 0x7F {
            utf8_ok(s.skip(1))
        } else if 0xC2 <= b0 <= 0xDF {
            s.len() >= 2 && utf8_cont(s[1]) && utf8_ok(s.skip(2))
        } else if b0 == 0xE0 {
            s.len() >= 3 && 0xA0 <= s[1] <= 0xBF && utf8_cont(s[2]) && utf8_ok(s.skip(3))
        } else if 0xE1 <= b0 <= 0xEC || b0 == 0xEE || b0 == 0xEF {
            s.len() >= 3 && utf8_cont(s[1]) && utf8_cont(s[2]) && utf8_ok(s.skip(3))
        } else if b0 == 0xED {
            s.len() >= 3 && 0x80 <= s[1] <= 0x9F && utf8_cont(s[2]) && utf8_ok(s.skip(3))
        } else if b0 == 0xF0 {
            s.len() >= 4 && 0x90 <= s[1] <= 0xBF && utf8_cont(s[2]) && utf8_cont(s[3]) && utf8_ok(
                s.skip(4),
            )
        } else if 0xF1 <= b0 <= 0xF3 {
            s.len() >= 4 && utf8_cont(s[1]) && utf8_cont(s[2]) && utf8_cont(s[3]) && utf8_ok(
                s.skip(4),
            )
        } else if b0 == 0xF4 {
            s.len() >= 4 && 0x80 <= s[1] <= 0x8F && utf8_cont(s[2]) && utf8_cont(s[3]) && utf8_ok(
                s.skip(4),
            )
        } else {
            false
        }
    }
}

/// An all-digit string is plain ASCII, hence well-formed UTF-8.
pub proof fn lemma_all_digits_utf8(s: Seq<u8>)
    requires
        all_digits(s),
    ensures
        utf8_ok(s),
    decreases s.len(),
{
    if s.len() > 0 {
        assert(is_digit(s[0]));
        assert forall|i: int| 0 <= i < s.skip(1).len() implies is_digit(
            #[trigger] s.skip(1)[i],
        ) by {
            assert(s.skip(1)[i] == s[i + 1]);
        }
        lemma_all_digits_utf8(s.skip(1));
    }
}

/// Checks `s` for UTF-8 well-formedness, mirroring `utf8_ok`.
pub fn is_valid_utf8(s: &[u8]) -> (r: bool)
    ensures
        r == utf8_ok(s@),
{
    let n = s.len();
    let mut i: usize = 0;
    proof {
        assert(s@.skip(0) =~= s@);
    }
    while i < n
        invariant
            n == s@.len(),
            i <= n,
            utf8_ok(s@) == utf8_ok(s@.skip(i as int)),
        decreases n - i,
    {
        let ghost tail = s@.skip(i as int);
        proof {
            assert(tail[0] == s@[i as int]);
            assert(forall|k: int| 0 <= k < tail.len() ==> #[trigger] tail[k] == s@[i + k]);
        }
        let b0 = s[i];
        if b0 <= 0x7F {
            proof {
                assert(tail.skip(1) =~= s@.skip(i + 1));
            }
            i = i + 1;
        } else if 0xC2 <= b0 && b0 <= 0xDF {
            if n - i < 2 || !(s[i + 1] >= 0x80 && s[i + 1] <= 0xBF) {
                return false;
            }
            proof {
                assert(tail.skip(2) =~= s@.skip(i + 2));
            }
            i = i + 2;
        } else if b0 == 0xE0 {
            if n - i < 3 || !(s[i + 1] >= 0xA0 && s[i + 1] <= 0xBF) || !(s[i + 2] >= 0x80 && s[i
                + 2] <= 0xBF) {
                return false;
            }
            proof {
                assert(tail.skip(3) =~= s@.skip(i + 3));
            }
            i = i + 3;
        } else if (0xE1 <= b0 && b0 <= 0xEC) || b0 == 0xEE || b0 == 0xEF {
            if n - i < 3 || !(s[i + 1] >= 0x80 && s[i + 1] <= 0xBF) || !(s[i + 2] >= 0x80 && s[i
                + 2] <= 0xBF) {
                return false;
            }
            proof {
                assert(tail.skip(3) =~= s@.skip(i + 3));
            }
            i = i + 3;
        } else if b0 == 0xED {
            if n - i < 3 || !(s[i + 1] >= 0x80 && s[i + 1] <= 0x9F) || !(s[i + 2] >= 0x80 && s[i
                + 2] <= 0xBF) {
                return false;
            }
            proof {
                assert(tail.skip(3) =~= s@.skip(i + 3));
            }
            i = i + 3;
        } else if b0 == 0xF0 {
            if n - i < 4 || !(s[i + 1] >= 0x90 && s[i + 1] <= 0xBF) || !(s[i + 2] >= 0x80 && s[i
                + 2] <= 0xBF) || !(s[i + 3] >= 0x80 && s[i + 3] <= 0xBF) {
                return false;
            }
            proof {
                assert(tail.skip(4) =~= s@.skip(i + 4));
            }
            i = i + 4;
        } else if 0xF1 <= b0 && b0 <= 0xF3 {
            if n - i < 4 || !(s[i + 1] >= 0x80 && s[i + 1] <= 0xBF) || !(s[i + 2] >= 0x80 && s[i
                + 2] <= 0xBF) || !(s[i + 3] >= 0x80 && s[i + 3] <= 0xBF) {
                return false;
            }
            proof {
                assert(tail.skip(4) =~= s@.skip(i + 4));
            }
            i = i + 4;
        } else if b0 == 0xF4 {
            if n - i < 4 || !(s[i + 1] >= 0x80 && s[i + 1] <= 0x8F) || !(s[i + 2] >= 0x80 && s[i
                + 2] <= 0xBF) || !(s[i + 3] >= 0x80 && s[i + 3] <= 0xBF) {
                return false;
            }
            proof {
                assert(tail.skip(4) =~= s@.skip(i + 4));
            }
            i = i + 4;
        } else {
            return false;
        }
    }
    proof {
        assert(s@.skip(n as int) =~= Seq::<u8>::empty());
    }
    true
}

/// Where the last path component of `s` starts: just after the last
/// separator, or at the start if there is none.
pub open spec fn name_start(s: Seq<u8>) -> int
    decreases s.len(),
{
    if s.len() == 0 {
        0
    } else if s.last() == 47 {
        s.len() as int
    } else {
        name_start(s.drop_last())
    }
}

/// The last path component of `s`.
pub open spec fn last_component(s: Seq<u8>) -> Seq<u8> {
    s.subrange(name_start(s), s.len() as int)
}

/// Resolves the last component of a device path: the device's
/// kernel-assigned name, which the caller passes to the group's
/// device-handle lookup. Fails with `InvalidPath` when the component is
/// empty, is not well-formed UTF-8, or holds a byte that cannot appear in a
/// name handed to the kernel (a NUL).
pub fn device_name_from_path(path: &[u8]) -> (r: Result<Vec<u8>, VfioError>)
    ensures
        match r {
            Ok(name) => name@ == last_component(path@) && name@.len() > 0 && utf8_ok(name@)
                && forall|i: int| 0 <= i < name@.len() ==> (#[trigger] name@[i]) != 0,
            Err(e) => e == VfioError::InvalidPath && (last_component(path@).len() == 0
                || !utf8_ok(last_component(path@)) || exists|i: int|
                0 <= i < last_component(path@).len() && (#[trigger] last_component(path@)[i])
                    == 0),
        },
{
    let n = path.len();
    let mut j: usize = n;
    proof {
        assert(path@.subrange(0, n as int) =~= path@);
    }
    while j > 0 && path[j - 1] != 47
        invariant
            n == path@.len(),
            j <= n,
            name_start(path@) == name_start(path@.subrange(0, j as int)),
        decreases j,
    {
        proof {
            assert(path@.subrange(0, j as int).drop_last() =~= path@.subrange(0, j - 1));
            assert(path@.subrange(0, j as int).last() == path@[j - 1]);
        }
        j = j - 1;
    }
    proof {
        if j == 0 {
            assert(path@.subrange(0, 0) =~= Seq::<u8>::empty());
        } else {
            assert(path@.subrange(0, j as int).last() == path@[j - 1]);
        }
        assert(name_start(path@) == j as int);
    }
    let start: usize = j;
    if start == n {
        return Err(VfioError::InvalidPath);
    }
    let mut name: Vec<u8> = Vec::new();
    let mut k: usize = start;
    while k < n
        invariant
            n == path@.len(),
            start as int == name_start(path@),
            start <= k <= n,
            name@ == path@.subrange(start as int, k as int),
            forall|i: int| 0 <= i < name@.len() ==> (#[trigger] name@[i]) != 0,
        decreases n - k,
    {
        let c = path[k];
        if c == 0 {
            proof {
                assert(last_component(path@).len() == n - start);
                assert(last_component(path@)[k as int - start as int] == path@[k as int]);
            }
            return Err(VfioError::InvalidPath);
        }
        name.push(c);
        proof {
            assert(path@.subrange(start as int, k + 1) =~= path@.subrange(start as int, k as int)
                .push(path@[k as int]));
        }
        k = k + 1;
    }
    if !is_valid_utf8(name.as_slice()) {
        return Err(VfioError::InvalidPath);
    }
    Ok(name)
}

/// Resolves a group identifier from the target of the device's group link:
/// its last path component must be a decimal number that fits in a `u32`.
pub fn group_id_from_link(target: &[u8]) -> (r: Result<u32, VfioError>)
    ensures
        match r {
            Ok(id) => last_component(target@).len() > 0 && all_digits(last_component(target@))
                && dec_value(last_component(target@)) == id as int,
            Err(e) => e == VfioError::InvalidPath && (last_component(target@).len() == 0
                || !all_digits(last_component(target@)) || dec_value(last_component(target@))
                > u32::MAX),
        },
{
    let name = match device_name_from_path(target) {
        Ok(name) => name,
        Err(e) => {
            proof {
                let lc = last_component(target@);
                if lc.len() > 0 {
                    if exists|i: int| 0 <= i < lc.len() && (#[trigger] lc[i]) == 0 {
                        let i = choose|i: int| 0 <= i < lc.len() && (#[trigger] lc[i]) == 0;
                        assert(!is_digit(lc[i]));
                    } else if all_digits(lc) {
                        lemma_all_digits_utf8(lc);
                    }
                }
            }
            return Err(e);
        },
    };
    match parse_decimal_u32(name.as_slice()) {
        Some(v) => Ok(v),
        None => Err(VfioError::InvalidPath),
    }
}

} // verus!
