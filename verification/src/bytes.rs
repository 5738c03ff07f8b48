//! Numbers as bytes, least significant byte first: the byte order of the
//! hosts that these hypervisors run on, and of the accesses of their guests.

use vstd::prelude::*;

verus! {

/// 256 to the power `n`: how many values `n` bytes can hold.
pub open spec fn pow256(n: nat) -> nat
    decreases n,
{
    if n == 0 {
        1
    } else {
        256 * pow256((n - 1) as nat)
    }
}

/// The number that `bytes` spell in base 256, least significant byte first.
pub open spec fn le_value(bytes: Seq<u8>) -> nat
    decreases bytes.len(),
{
    if bytes.len() == 0 {
        0
    } else {
        bytes[0] as nat + 256 * le_value(bytes.drop_first())
    }
}

/// The `len` lowest digits of `value` in base 256, least significant first.
pub open spec fn le_bytes(value: nat, len: nat) -> Seq<u8> {
    Seq::new(len, |i: int| ((value / pow256(i as nat)) % 256) as u8)
}

/// The powers of 256 up to the eighth, which is two to the power 64.
pub proof fn lemma_pow256_values()
    ensures
        pow256(0) == 1,
        pow256(1) == 0x100,
        pow256(2) == 0x1_0000,
        pow256(3) == 0x100_0000,
        pow256(4) == 0x1_0000_0000,
        pow256(5) == 0x100_0000_0000,
        pow256(6) == 0x1_0000_0000_0000,
        pow256(7) == 0x100_0000_0000_0000,
        pow256(8) == 0x1_0000_0000_0000_0000,
{
    reveal_with_fuel(pow256, 10);
}

/// A sequence of bytes spells a number below 256 to the power of its length.
pub proof fn lemma_le_value_bound(bytes: Seq<u8>)
    ensures
        le_value(bytes) < pow256(bytes.len()),
    decreases bytes.len(),
{
    if bytes.len() > 0 {
        lemma_le_value_bound(bytes.drop_first());
    }
}

/// Dropping the lowest byte of a number drops the first of its bytes.
proof fn lemma_le_bytes_tail(value: nat, len: nat)
    requires
        len > 0,
    ensures
        le_bytes(value, len)[0] == (value % 256) as u8,
        le_bytes(value, len).drop_first() == le_bytes(value / 256, (len - 1) as nat),
{
    assert(pow256(0) == 1);
    assert(le_bytes(value, len)[0] == ((value / pow256(0)) % 256) as u8);
    assert forall|i: int| 0 <= i < len - 1 implies le_bytes(value, len).drop_first()[i] == le_bytes(
        value / 256,
        (len - 1) as nat,
    )[i] by {
        lemma_pow256_positive(i as nat);
        vstd::arithmetic::div_mod::lemma_div_denominator(value as int, 256, pow256(i as nat) as int);
    }
}

/// Every power of 256 is positive.
pub proof fn lemma_pow256_positive(n: nat)
    ensures
        pow256(n) > 0,
    decreases n,
{
    if n > 0 {
        lemma_pow256_positive((n - 1) as nat);
    }
}

/// The lowest `len` bytes of a number spell what is left of it when it is
/// divided by 256 to the power `len`: storing cuts a value to the width of
/// the access, and to nothing else.
pub proof fn lemma_le_value_of_le_bytes(value: nat, len: nat)
    ensures
        le_value(le_bytes(value, len)) == value % pow256(len),
    decreases len,
{
    if len > 0 {
        let rest = (len - 1) as nat;
        lemma_le_bytes_tail(value, len);
        lemma_le_value_of_le_bytes(value / 256, rest);
        lemma_pow256_positive(rest);
        vstd::arithmetic::div_mod::lemma_mod_breakdown(value as int, 256, pow256(rest) as int);
    }
}

/// The bytes of the number that `bytes` spell are `bytes`: what a load reads
/// is all that the bytes hold.
pub proof fn lemma_le_bytes_of_le_value(bytes: Seq<u8>)
    ensures
        le_bytes(le_value(bytes), bytes.len()) == bytes,
    decreases bytes.len(),
{
    if bytes.len() > 0 {
        let value = le_value(bytes);
        let rest = bytes.drop_first();
        lemma_le_bytes_of_le_value(rest);
        lemma_le_bytes_tail(value, bytes.len());
        assert(value % 256 == bytes[0] as nat && value / 256 == le_value(rest)) by {
            vstd::arithmetic::div_mod::lemma_fundamental_div_mod_converse(
                value as int,
                256,
                le_value(rest) as int,
                bytes[0] as int,
            );
        }
        let back = le_bytes(value, bytes.len());
        assert forall|i: int| 0 <= i < bytes.len() implies back[i] == bytes[i] by {
            if i > 0 {
                assert(bytes[i] == rest[i - 1]);
            }
        }
    }
}

/// The bytes of `value`, least significant first, as many as `len`.
pub fn store_bytes(value: u64, len: usize) -> (data: Vec<u8>)
    requires
        len <= 8,
    ensures
        data@ == le_bytes(value as nat, len as nat),
{
    let mut data: Vec<u8> = Vec::with_capacity(len);
    let mut rest: u64 = value;
    let mut i: usize = 0;
    proof {
        lemma_pow256_values();
    }
    while i < len
        invariant
            i <= len <= 8,
            data@.len() == i,
            rest as nat == (value as nat) / pow256(i as nat),
            forall|j: int| 0 <= j < i ==> data@[j] == (((value as nat) / pow256(j as nat)) % 256) as u8,
        decreases len - i,
    {
        proof {
            lemma_pow256_values();
            vstd::arithmetic::div_mod::lemma_div_denominator(value as int, pow256(i as nat) as int, 256);
        }
        data.push((rest % 256) as u8);
        rest = rest / 256;
        i += 1;
    }
    data
}

/// The number that `data` spells, least significant byte first.
pub fn load_value(data: &[u8]) -> (value: u64)
    requires
        data@.len() <= 8,
    ensures
        value == le_value(data@),
{
    let len = data.len();
    let mut value: u64 = 0;
    let mut i: usize = len;
    while i > 0
        invariant
            i <= len <= 8,
            len == data@.len(),
            value == le_value(data@.subrange(i as int, len as int)),
        decreases i,
    {
        proof {
            let tail = data@.subrange(i as int, len as int);
            let next = data@.subrange(i - 1, len as int);
            assert(next.drop_first() =~= tail);
            lemma_le_value_bound(tail);
            lemma_pow256_values();
            assert(pow256(tail.len()) <= pow256(7)) by {
                reveal_with_fuel(pow256, 10);
            }
        }
        i -= 1;
        value = value * 256 + data[i] as u64;
    }
    assert(data@.subrange(0, len as int) =~= data@);
    value
}

/// 256 to the power `n`, for the powers that fit 64 bits.
pub fn power_of_256(n: usize) -> (limit: u64)
    requires
        n < 8,
    ensures
        limit == pow256(n as nat),
{
    let mut limit: u64 = 1;
    let mut i: usize = 0;
    while i < n
        invariant
            i <= n < 8,
            limit == pow256(i as nat),
        decreases n - i,
    {
        proof {
            lemma_pow256_values();
            assert(pow256(i as nat) <= pow256(6)) by {
                reveal_with_fuel(pow256, 10);
            }
        }
        limit = limit * 256;
        i += 1;
    }
    limit
}

} // verus!
