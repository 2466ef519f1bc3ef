use vstd::prelude::*;

verus! {

/// The number that `width` bytes of `b`, starting at `at`, spell with the
/// least significant byte first.
pub open spec fn le_nat(b: Seq<u8>, at: int, width: nat) -> nat
    decreases width,
{
    if width == 0 {
        0
    } else {
        b[at] as nat + 256 * le_nat(b, at + 1, (width - 1) as nat)
    }
}

/// The number spelled depends only on the bytes read.
pub proof fn lemma_le_nat_same(a: Seq<u8>, b: Seq<u8>, at: int, width: nat)
    requires
        forall|i: int| at <= i < at + width ==> a[i] == b[i],
    ensures
        le_nat(a, at, width) == le_nat(b, at, width),
    decreases width,
{
    if width > 0 {
        lemma_le_nat_same(a, b, at + 1, (width - 1) as nat);
    }
}

/// The unsigned 32-bit number at `at`.
pub open spec fn le_u32(b: Seq<u8>, at: int) -> u32 {
    le_nat(b, at, 4) as u32
}

/// The unsigned 64-bit number at `at`.
pub open spec fn le_u64(b: Seq<u8>, at: int) -> u64 {
    le_nat(b, at, 8) as u64
}

/// The signed 32-bit number at `at`, in two's complement.
pub open spec fn le_i32(b: Seq<u8>, at: int) -> i32 {
    let n = le_nat(b, at, 4);
    if n < 0x8000_0000 {
        n as i32
    } else {
        (n - 0x1_0000_0000) as i32
    }
}

/// The signed 64-bit number at `at`, in two's complement.
pub open spec fn le_i64(b: Seq<u8>, at: int) -> i64 {
    let n = le_nat(b, at, 8);
    if n < 0x8000_0000_0000_0000 {
        n as i64
    } else {
        (n - 0x1_0000_0000_0000_0000) as i64
    }
}

/// Reads the unsigned 32-bit number at `at`.
pub fn read_u32(b: &[u8], at: usize) -> (v: u32)
    requires
        at + 4 <= b@.len(),
    ensures
        v == le_u32(b@, at as int),
        v == le_nat(b@, at as int, 4),
{
    proof {
        reveal_with_fuel(le_nat, 5);
    }
    let b0: u32 = b[at] as u32;
    let b1: u32 = b[at + 1] as u32;
    let b2: u32 = b[at + 2] as u32;
    let b3: u32 = b[at + 3] as u32;
    b0 + b1 * 0x100 + b2 * 0x1_0000 + b3 * 0x100_0000
}

/// Reads the unsigned 64-bit number at `at`.
pub fn read_u64(b: &[u8], at: usize) -> (v: u64)
    requires
        at + 8 <= b@.len(),
    ensures
        v == le_u64(b@, at as int),
        v == le_nat(b@, at as int, 8),
{
    proof {
        reveal_with_fuel(le_nat, 9);
    }
    let b0: u64 = b[at] as u64;
    let b1: u64 = b[at + 1] as u64;
    let b2: u64 = b[at + 2] as u64;
    let b3: u64 = b[at + 3] as u64;
    let b4: u64 = b[at + 4] as u64;
    let b5: u64 = b[at + 5] as u64;
    let b6: u64 = b[at + 6] as u64;
    let b7: u64 = b[at + 7] as u64;
    b0 + b1 * 0x100 + b2 * 0x1_0000 + b3 * 0x100_0000 + b4 * 0x1_0000_0000 + b5
        * 0x100_0000_0000 + b6 * 0x1_0000_0000_0000 + b7 * 0x100_0000_0000_0000
}

/// Reads the signed 32-bit number at `at`.
pub fn read_i32(b: &[u8], at: usize) -> (v: i32)
    requires
        at + 4 <= b@.len(),
    ensures
        v == le_i32(b@, at as int),
{
    let u: u32 = read_u32(b, at);
    if u < 0x8000_0000 {
        u as i32
    } else {
        let low: u32 = u - 0x8000_0000;
        (low as i32) - 0x4000_0000 - 0x4000_0000
    }
}

/// Reads the signed 64-bit number at `at`.
pub fn read_i64(b: &[u8], at: usize) -> (v: i64)
    requires
        at + 8 <= b@.len(),
    ensures
        v == le_i64(b@, at as int),
{
    let u: u64 = read_u64(b, at);
    if u < 0x8000_0000_0000_0000 {
        u as i64
    } else {
        let low: u64 = u - 0x8000_0000_0000_0000;
        (low as i64) - 0x4000_0000_0000_0000 - 0x4000_0000_0000_0000
    }
}

/// `after` is `before` with the `width` bytes at `at` replaced.
pub open spec fn same_but(before: Seq<u8>, after: Seq<u8>, at: int, width: int) -> bool {
    &&& after.len() == before.len()
    &&& forall|i: int| 0 <= i < before.len() && !(at <= i < at + width) ==> after[i] == before[i]
}

/// Replacing bytes leaves what the bytes elsewhere spell.
pub proof fn lemma_same_but_keeps(before: Seq<u8>, after: Seq<u8>, at: int, width: int)
    requires
        same_but(before, after, at, width),
    ensures
        forall|f: int, w: nat|
            0 <= f && f + w <= before.len() && (f + w <= at || at + width <= f) ==> #[trigger] le_nat(
                after,
                f,
                w,
            ) == le_nat(before, f, w),
{
    assert forall|f: int, w: nat|
        0 <= f && f + w <= before.len() && (f + w <= at || at + width <= f) implies #[trigger] le_nat(
        after,
        f,
        w,
    ) == le_nat(before, f, w) by {
        lemma_le_nat_same(after, before, f, w);
    }
}

/// Writes the unsigned 32-bit number `v` at `at`.
pub fn write_u32(b: &mut Vec<u8>, at: usize, v: u32)
    requires
        at + 4 <= old(b)@.len(),
    ensures
        same_but(old(b)@, final(b)@, at as int, 4),
        le_nat(final(b)@, at as int, 4) == v,
        le_u32(final(b)@, at as int) == v,
{
    let len: usize = b.len();
    b[at] = (v % 0x100) as u8;
    b[at + 1] = (v / 0x100 % 0x100) as u8;
    b[at + 2] = (v / 0x1_0000 % 0x100) as u8;
    b[at + 3] = (v / 0x100_0000) as u8;
    proof {
        reveal_with_fuel(le_nat, 5);
    }
}

/// Eight bytes spell what their two halves spell, the second half counting
/// from two to the power 32.
pub proof fn lemma_le_nat_halves(b: Seq<u8>, at: int)
    ensures
        le_nat(b, at, 8) == le_nat(b, at, 4) + 0x1_0000_0000 * le_nat(b, at + 4, 4),
{
    reveal_with_fuel(le_nat, 9);
}

/// Writes the unsigned 64-bit number `v` at `at`.
pub fn write_u64(b: &mut Vec<u8>, at: usize, v: u64)
    requires
        at + 8 <= old(b)@.len(),
    ensures
        same_but(old(b)@, final(b)@, at as int, 8),
        le_nat(final(b)@, at as int, 8) == v,
        le_u64(final(b)@, at as int) == v,
{
    let len: usize = b.len();
    let low: u32 = (v % 0x1_0000_0000) as u32;
    let high: u32 = (v / 0x1_0000_0000) as u32;
    write_u32(b, at, low);
    let ghost mid = b@;
    write_u32(b, at + 4, high);
    proof {
        lemma_le_nat_same(mid, b@, at as int, 4);
        lemma_le_nat_halves(b@, at as int);
    }
}

/// Writes the signed 32-bit number `v` at `at`, in two's complement.
pub fn write_i32(b: &mut Vec<u8>, at: usize, v: i32)
    requires
        at + 4 <= old(b)@.len(),
    ensures
        same_but(old(b)@, final(b)@, at as int, 4),
        le_i32(final(b)@, at as int) == v,
{
    let u: u32 = if v >= 0 {
        v as u32
    } else {
        ((v + 0x4000_0000 + 0x4000_0000) as u32) + 0x8000_0000
    };
    write_u32(b, at, u);
}

/// Writes the signed 64-bit number `v` at `at`, in two's complement.
pub fn write_i64(b: &mut Vec<u8>, at: usize, v: i64)
    requires
        at + 8 <= old(b)@.len(),
    ensures
        same_but(old(b)@, final(b)@, at as int, 8),
        le_i64(final(b)@, at as int) == v,
{
    let u: u64 = if v >= 0 {
        v as u64
    } else {
        ((v + 0x4000_0000_0000_0000 + 0x4000_0000_0000_0000) as u64) + 0x8000_0000_0000_0000
    };
    write_u64(b, at, u);
}

} // verus!
