//! The byte size of one view of a mirrored allocation.
//!
//! A view holds whole elements and whole granules of the platform's mapping
//! granularity, and it is the smallest size that does so for the requested
//! number of elements.

use crate::error::Error;
use crate::multiples::{
    blocks_for, checked_lcm, common_multiple, divides, is_lcm, lemma_divides_quotient,
    lemma_lcm_divides_common_multiples, lemma_product_divides,
};
use vstd::arithmetic::div_mod::lemma_fundamental_div_mod_converse;
use vstd::prelude::*;

verus! {

/// `bytes` is made of whole elements and of whole granules, and has room for
/// `count` elements.
pub open spec fn covers(bytes: nat, count: nat, elem_size: nat, granularity: nat) -> bool {
    &&& common_multiple(bytes, elem_size, granularity)
    &&& bytes >= count * elem_size
}

/// `bytes` is the least size that covers `count` elements.
pub open spec fn is_normalized(bytes: nat, count: nat, elem_size: nat, granularity: nat) -> bool {
    &&& covers(bytes, count, elem_size, granularity)
    &&& forall|m: nat| #[trigger] covers(m, count, elem_size, granularity) ==> bytes <= m
}

/// Every multiple of `unit` that is at least `bytes` is at least `blocks`
/// units, when `blocks` is the least such number of units.
proof fn lemma_multiple_above(m: nat, unit: nat, blocks: nat, bytes: nat)
    requires
        divides(unit, m),
        m >= bytes,
        blocks > 0 ==> (blocks - 1) * unit < bytes,
    ensures
        m >= blocks * unit,
{
    lemma_divides_quotient(unit, m);
    let j = m / unit;
    assert(m >= blocks * unit) by (nonlinear_arith)
        requires
            m == unit * j,
            m >= bytes,
            unit > 0,
            blocks > 0 ==> (blocks - 1) * unit < bytes,
    ;
}

/// The size of one view for `count` elements of `elem_size` bytes each, where
/// mappings come in multiples of `granularity` bytes.
///
/// No elements need no bytes. Otherwise the size is the least common multiple
/// of the element size and the granularity, taken as many times as it takes to
/// hold the elements. The request overflows when twice that size, the span of
/// both views, does not fit a `usize`.
pub fn normalized_size(count: usize, elem_size: usize, granularity: usize) -> (r: Result<
    usize,
    Error,
>)
    requires
        count > 0 ==> elem_size > 0 && granularity > 0,
    ensures
        count == 0 ==> r == Ok::<usize, Error>(0),
        count > 0 ==> match r {
            Ok(bytes) => {
                &&& is_normalized(bytes as nat, count as nat, elem_size as nat, granularity as nat)
                &&& 2 * bytes <= usize::MAX
            },
            Err(e) => {
                &&& e == Error::Overflow
                &&& forall|m: nat| #[trigger]
                    covers(m, count as nat, elem_size as nat, granularity as nat) ==> 2 * m
                        > usize::MAX
            },
        },
{
    if count == 0 {
        return Ok(0);
    }
    assert(count as nat * elem_size as nat > 0) by (nonlinear_arith)
        requires
            count > 0,
            elem_size > 0,
    ;
    let unit: usize = match checked_lcm(elem_size, granularity) {
        Some(unit) => unit,
        None => {
            return Err(Error::Overflow);
        },
    };
    let raw: usize = match count.checked_mul(elem_size) {
        Some(raw) => raw,
        None => {
            return Err(Error::Overflow);
        },
    };
    let blocks: usize = blocks_for(raw, unit);
    assert forall|m: nat| #[trigger]
        covers(m, count as nat, elem_size as nat, granularity as nat) implies m >= blocks
        * unit by {
        lemma_lcm_divides_common_multiples(
            unit as nat,
            elem_size as nat,
            granularity as nat,
            m,
        );
        lemma_multiple_above(m, unit as nat, blocks as nat, raw as nat);
    }
    let bytes: usize = match blocks.checked_mul(unit) {
        Some(bytes) => bytes,
        None => {
            return Err(Error::Overflow);
        },
    };
    proof {
        lemma_lcm_divides_common_multiples(
            unit as nat,
            elem_size as nat,
            granularity as nat,
            unit as nat,
        );
        lemma_multiple_of_common_multiple(
            unit as nat,
            blocks as nat,
            elem_size as nat,
            granularity as nat,
        );
    }
    match bytes.checked_mul(2) {
        Some(_) => Ok(bytes),
        None => Err(Error::Overflow),
    }
}

/// A multiple of a common multiple is a common multiple.
proof fn lemma_multiple_of_common_multiple(unit: nat, k: nat, a: nat, b: nat)
    requires
        common_multiple(unit, a, b),
    ensures
        common_multiple(k * unit, a, b),
{
    lemma_divides_quotient(a, unit);
    lemma_divides_quotient(b, unit);
    let ua = unit / a;
    let ub = unit / b;
    assert(k * unit == a * (k * ua)) by (nonlinear_arith)
        requires
            unit == a * ua,
    ;
    assert(k * unit == b * (k * ub)) by (nonlinear_arith)
        requires
            unit == b * ub,
    ;
    lemma_product_divides(a, k * ua);
    lemma_product_divides(b, k * ub);
}

/// At most one size is the normalized size of a request.
pub proof fn lemma_normalized_unique(
    b1: nat,
    b2: nat,
    count: nat,
    elem_size: nat,
    granularity: nat,
)
    requires
        is_normalized(b1, count, elem_size, granularity),
        is_normalized(b2, count, elem_size, granularity),
    ensures
        b1 == b2,
{
}

/// A normalized size holds at least the requested number of elements, and it
/// holds a whole number of units, where a unit is the least common multiple of
/// the element size and the granularity: counted in elements, the length is a
/// multiple of the elements in one unit.
pub proof fn lemma_normalized_length(
    bytes: nat,
    count: nat,
    elem_size: nat,
    granularity: nat,
    unit: nat,
)
    requires
        is_normalized(bytes, count, elem_size, granularity),
        is_lcm(unit, elem_size, granularity),
    ensures
        bytes / elem_size >= count,
        bytes == (bytes / elem_size) * elem_size,
        divides(unit, bytes),
        divides(unit / elem_size, bytes / elem_size),
{
    lemma_lcm_divides_common_multiples(unit, elem_size, granularity, bytes);
    lemma_divides_quotient(elem_size, bytes);
    lemma_divides_quotient(elem_size, unit);
    lemma_divides_quotient(unit, bytes);
    let len = bytes / elem_size;
    let per = unit / elem_size;
    let k = bytes / unit;
    assert(len >= count && bytes == len * elem_size) by (nonlinear_arith)
        requires
            bytes == elem_size * len,
            bytes >= count * elem_size,
            elem_size > 0,
    ;
    assert(per > 0 && len == per * k) by (nonlinear_arith)
        requires
            bytes == elem_size * len,
            unit == elem_size * per,
            bytes == unit * k,
            elem_size > 0,
            unit > 0,
    ;
    lemma_product_divides(per, k);
}

/// A normalized size is the unit taken as many times as it takes to hold the
/// elements: the bytes of the elements divided by the unit, rounded up, times
/// the unit, where the unit is the least common multiple of the element size
/// and the granularity.
pub proof fn lemma_normalized_formula(
    bytes: nat,
    count: nat,
    elem_size: nat,
    granularity: nat,
    unit: nat,
)
    requires
        is_normalized(bytes, count, elem_size, granularity),
        is_lcm(unit, elem_size, granularity),
    ensures
        bytes == ((count * elem_size + unit - 1) / unit as int) * unit,
{
    let raw = count * elem_size;
    lemma_lcm_divides_common_multiples(unit, elem_size, granularity, bytes);
    lemma_divides_quotient(unit, bytes);
    let k = bytes / unit;
    if k > 0 {
        let below = (k - 1) as nat * unit;
        lemma_multiple_of_common_multiple(unit, (k - 1) as nat, elem_size, granularity);
        assert(below < bytes) by (nonlinear_arith)
            requires
                below == (k - 1) * unit,
                bytes == unit * k,
                unit > 0,
        ;
        assert(!covers(below, count, elem_size, granularity));
        assert(below < raw);
    }
    let rest = raw + unit - 1 - unit * k;
    assert(0 <= rest < unit) by (nonlinear_arith)
        requires
            rest == raw + unit - 1 - unit * k,
            bytes == unit * k,
            bytes >= raw,
            k > 0 ==> (k - 1) * unit < raw,
            unit > 0,
            raw >= 0,
            k >= 0,
    ;
    lemma_fundamental_div_mod_converse(raw + unit - 1, unit as int, k as int, rest);
    assert(bytes == k * unit) by (nonlinear_arith)
        requires
            bytes == unit * k,
    ;
}

/// The two 32-bit words of a size, the upper word first, for platforms that
/// take the size of a backing object in two words.
pub fn size_words(bytes: u64) -> (words: (u32, u32))
    ensures
        words.0 * 0x1_0000_0000 + words.1 == bytes,
{
    let upper: u64 = bytes >> 32;
    let lower: u64 = bytes & 0xffff_ffff;
    assert(upper <= 0xffff_ffff && lower <= 0xffff_ffff && upper * 0x1_0000_0000 + lower == bytes)
        by (bit_vector)
        requires
            upper == bytes >> 32,
            lower == bytes & 0xffff_ffff,
    ;
    (upper as u32, lower as u32)
}

} // verus!
