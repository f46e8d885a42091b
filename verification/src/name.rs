//! Names for backing objects that have to be created by name.

use vstd::prelude::*;

verus! {

/// The number of distinct stamps: a stamp has at most four decimal digits.
pub const STAMPS: u16 = 10000;

/// The least width of the stamp in a name.
pub const STAMP_WIDTH: usize = 4;

/// What every name starts with: `/shm-vrb-`.
pub open spec fn name_prefix() -> Seq<u8> {
    seq![47u8, 115u8, 104u8, 109u8, 45u8, 118u8, 114u8, 98u8, 45u8]
}

/// The decimal digits of `n` in ASCII, the most significant first.
pub open spec fn decimal(n: nat) -> Seq<u8>
    decreases n,
{
    if n < 10 {
        seq![(48 + n) as u8]
    } else {
        decimal(n / 10).push((48 + n % 10) as u8)
    }
}

/// `text` behind as many spaces as it takes to fill `width` bytes.
pub open spec fn right_aligned(text: Seq<u8>, width: nat) -> Seq<u8> {
    if text.len() >= width {
        text
    } else {
        Seq::new((width - text.len()) as nat, |i: int| 32u8) + text
    }
}

/// The name that belongs to a stamp: the prefix, then the stamp in decimal,
/// right-aligned in four bytes.
pub open spec fn name_of(stamp: nat) -> Seq<u8> {
    name_prefix() + right_aligned(decimal(stamp), STAMP_WIDTH as nat)
}

/// The stamp that a clock reading gives: its last four decimal digits.
pub open spec fn stamp_from(nanos: i64) -> u16 {
    (nanos as int % STAMPS as int) as u16
}

/// The stamp for a reading of the clock's nanoseconds.
pub fn stamp_of(nanos: i64) -> (stamp: u16)
    ensures
        stamp == stamp_from(nanos),
        stamp < STAMPS,
{
    let rest: i64 = nanos % 10000;
    if rest < 0 {
        (rest + 10000) as u16
    } else {
        rest as u16
    }
}

/// The decimal digits of `n`.
fn decimal_digits(n: u16) -> (text: Vec<u8>)
    ensures
        text@ == decimal(n as nat),
        1 <= text@.len() <= 5,
    decreases n,
{
    if n < 10 {
        let mut text: Vec<u8> = Vec::new();
        text.push(48 + n as u8);
        assert(text@ =~= decimal(n as nat));
        text
    } else {
        let mut text: Vec<u8> = decimal_digits(n / 10);
        text.push(48 + (n % 10) as u8);
        assert(n / 10 >= 10 ==> text@.len() <= 5) by {
            if n / 10 >= 10 {
                reveal_with_fuel(decimal, 6);
            }
        }
        text
    }
}

/// The name of the backing object for a stamp, without a terminator.
pub fn object_name(stamp: u16) -> (name: Vec<u8>)
    ensures
        name@ == name_of(stamp as nat),
{
    let text: Vec<u8> = decimal_digits(stamp);
    let mut name: Vec<u8> = Vec::new();
    name.push(47);
    name.push(115);
    name.push(104);
    name.push(109);
    name.push(45);
    name.push(118);
    name.push(114);
    name.push(98);
    name.push(45);
    assert(name@ =~= name_prefix());
    let mut filled: usize = text.len();
    while filled < STAMP_WIDTH
        invariant
            text@.len() <= filled <= 5,
            filled <= STAMP_WIDTH || filled == text@.len(),
            name@ == name_prefix() + Seq::new((filled - text@.len()) as nat, |i: int| 32u8),
        decreases STAMP_WIDTH - filled,
    {
        name.push(32);
        filled = filled + 1;
        assert(name@ =~= name_prefix() + Seq::new(
            (filled - text@.len()) as nat,
            |i: int| 32u8,
        ));
    }
    let ghost padding = name@;
    let mut i: usize = 0;
    while i < text.len()
        invariant
            i <= text@.len(),
            name@ == padding + text@.subrange(0, i as int),
        decreases text@.len() - i,
    {
        name.push(text[i]);
        i = i + 1;
        assert(name@ =~= padding + text@.subrange(0, i as int));
    }
    assert(text@.subrange(0, text@.len() as int) =~= text@);
    assert(name@ =~= name_of(stamp as nat));
    name
}

} // verus!
