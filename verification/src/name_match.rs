//! Case-insensitive matching of process names against the sidecar's base
//! name, under both its hyphenated and its underscored spelling.
//!
//! The cleanup sweep kills every process whose name matches here, so the
//! match rule is kept as an explicit pair of patterns rather than inferred
//! from the executable name. Names are handled as bytes with ASCII case
//! folding.

use vstd::prelude::*;

verus! {

/// ASCII lower-casing of one byte.
pub open spec fn lower_byte(b: u8) -> u8 {
    if 65 <= b <= 90 {
        (b + 32) as u8
    } else {
        b
    }
}

/// ASCII lower-casing of a byte string.
pub open spec fn lower_bytes(s: Seq<u8>) -> Seq<u8> {
    s.map_values(|b: u8| lower_byte(b))
}

/// `needle` occurs in `hay` starting at position `i`.
pub open spec fn occurs_at(hay: Seq<u8>, needle: Seq<u8>, i: int) -> bool {
    &&& 0 <= i
    &&& i + needle.len() <= hay.len()
    &&& hay.subrange(i, i + needle.len() as int) == needle
}

/// `needle` occurs somewhere in `hay`.
pub open spec fn contains_seq(hay: Seq<u8>, needle: Seq<u8>) -> bool {
    exists|i: int| occurs_at(hay, needle, i)
}

/// The hyphenated spelling of the sidecar's base name, `flask-backend`.
pub open spec fn hyphen_base_name() -> Seq<u8> {
    seq![102u8, 108u8, 97u8, 115u8, 107u8, 45u8, 98u8, 97u8, 99u8, 107u8, 101u8, 110u8, 100u8]
}

/// The underscored spelling of the sidecar's base name, `flask_backend`.
pub open spec fn underscore_base_name() -> Seq<u8> {
    seq![102u8, 108u8, 97u8, 115u8, 107u8, 95u8, 98u8, 97u8, 99u8, 107u8, 101u8, 110u8, 100u8]
}

/// A process name designates a sidecar instance: lower-cased, it contains
/// the base name under either spelling.
pub open spec fn name_matches(name: Seq<u8>) -> bool {
    ||| contains_seq(lower_bytes(name), hyphen_base_name())
    ||| contains_seq(lower_bytes(name), underscore_base_name())
}

/// ASCII lower-casing, byte by byte.
fn to_lower(name: &[u8]) -> (v: Vec<u8>)
    ensures
        v@ == lower_bytes(name@),
{
    let mut v: Vec<u8> = Vec::new();
    let mut i: usize = 0;
    while i < name.len()
        invariant
            i <= name@.len(),
            v@ == lower_bytes(name@.take(i as int)),
        decreases name@.len() - i,
    {
        let b = name[i];
        let low: u8 = if 65 <= b && b <= 90 {
            b + 32
        } else {
            b
        };
        v.push(low);
        i = i + 1;
        proof {
            assert(name@.take(i as int).drop_last() =~= name@.take(i - 1));
            assert(lower_bytes(name@.take(i as int)) =~= lower_bytes(name@.take(i - 1)).push(
                lower_byte(name@[i - 1]),
            ));
        }
    }
    proof {
        assert(name@.take(name@.len() as int) =~= name@);
    }
    v
}

/// Whether `needle` occurs in `hay`, by a direct scan of every position.
fn contains_sub(hay: &[u8], needle: &[u8]) -> (b: bool)
    ensures
        b == contains_seq(hay@, needle@),
{
    if needle.len() > hay.len() {
        proof {
            assert(forall|i: int| !occurs_at(hay@, needle@, i));
        }
        return false;
    }
    if needle.len() == 0 {
        proof {
            assert(occurs_at(hay@, needle@, 0)) by {
                assert(hay@.subrange(0, 0) =~= needle@);
            }
        }
        return true;
    }
    let bound: usize = hay.len() - needle.len();
    let mut i: usize = 0;
    loop
        invariant
            1 <= needle@.len() <= hay@.len() <= usize::MAX,
            bound == hay@.len() - needle@.len(),
            i <= bound + 1,
            forall|k: int| 0 <= k < i ==> !occurs_at(hay@, needle@, k),
        decreases bound + 1 - i,
    {
        if i > bound {
            proof {
                assert(forall|k: int| occurs_at(hay@, needle@, k) ==> 0 <= k <= bound);
            }
            return false;
        }
        let mut j: usize = 0;
        let mut mismatch: bool = false;
        while j < needle.len()
            invariant
                i + needle@.len() <= hay@.len() <= usize::MAX,
                j <= needle@.len(),
                !mismatch ==> hay@.subrange(i as int, i + j) =~= needle@.take(j as int),
                mismatch ==> !occurs_at(hay@, needle@, i as int),
            decreases needle@.len() - j,
        {
            if hay[i + j] != needle[j] {
                proof {
                    if occurs_at(hay@, needle@, i as int) {
                        assert(hay@.subrange(i as int, i + needle@.len())[j as int] == needle@[
                            j as int
                        ]);
                    }
                }
                mismatch = true;
                j = needle.len();
            } else {
                proof {
                    assert(hay@.subrange(i as int, i + j + 1) =~= hay@.subrange(
                        i as int,
                        i + j,
                    ).push(hay@[i + j]));
                    assert(needle@.take(j + 1) =~= needle@.take(j as int).push(needle@[j as int]));
                }
                j = j + 1;
            }
        }
        if !mismatch {
            proof {
                assert(needle@.take(needle@.len() as int) =~= needle@);
                assert(occurs_at(hay@, needle@, i as int));
            }
            return true;
        }
        i = i + 1;
    }
}

/// The hyphenated base-name pattern as bytes.
fn hyphen_pattern() -> (v: Vec<u8>)
    ensures
        v@ == hyphen_base_name(),
{
    let mut v: Vec<u8> = Vec::new();
    v.push(102);
    v.push(108);
    v.push(97);
    v.push(115);
    v.push(107);
    v.push(45);
    v.push(98);
    v.push(97);
    v.push(99);
    v.push(107);
    v.push(101);
    v.push(110);
    v.push(100);
    proof {
        assert(v@ =~= hyphen_base_name());
    }
    v
}

/// The underscored base-name pattern as bytes.
fn underscore_pattern() -> (v: Vec<u8>)
    ensures
        v@ == underscore_base_name(),
{
    let mut v: Vec<u8> = Vec::new();
    v.push(102);
    v.push(108);
    v.push(97);
    v.push(115);
    v.push(107);
    v.push(95);
    v.push(98);
    v.push(97);
    v.push(99);
    v.push(107);
    v.push(101);
    v.push(110);
    v.push(100);
    proof {
        assert(v@ =~= underscore_base_name());
    }
    v
}

/// Whether a process name, given as bytes, designates a sidecar instance.
pub fn matches_sidecar_name(name: &[u8]) -> (b: bool)
    ensures
        b == name_matches(name@),
{
    let lowered = to_lower(name);
    let hyphen = hyphen_pattern();
    if contains_sub(lowered.as_slice(), hyphen.as_slice()) {
        return true;
    }
    let underscore = underscore_pattern();
    contains_sub(lowered.as_slice(), underscore.as_slice())
}

} // verus!
