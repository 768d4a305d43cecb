//! The SCALE layout of a department action's call data, and its decoder.
//!
//! A department call is one variant byte followed by the variant's fields:
//! `0` spends (`recipient: u64`, `amount: u128`, little-endian), `1` sets a
//! policy (two compact-length-prefixed byte strings of at most 64 and 256
//! bytes), `2` does nothing. Bytes after the call are ignored.
use vstd::prelude::*;

use crate::types::{AccountId, Balance, DepartmentCall};

verus! {

/// Longest policy key.
pub const MAX_POLICY_KEY: usize = 64;

/// Longest policy value.
pub const MAX_POLICY_VALUE: usize = 256;

/// `256` to the power `n`.
pub open spec fn pow256(n: nat) -> nat
    decreases n,
{
    if n == 0 {
        1
    } else {
        256 * pow256((n - 1) as nat)
    }
}

/// The number whose little-endian bytes are `b`.
pub open spec fn le_value(b: Seq<u8>) -> nat
    decreases b.len(),
{
    if b.len() == 0 {
        0
    } else {
        b[0] as nat + 256 * le_value(b.drop_first())
    }
}

/// A SCALE compact `u32` at the start of `b`: its value and width, where
/// `b` starts with one in canonical form.
pub open spec fn compact_prefix(b: Seq<u8>) -> Option<(nat, nat)> {
    if b.len() == 0 {
        None
    } else if b[0] % 4 == 0 {
        Some(((b[0] / 4) as nat, 1))
    } else if b[0] % 4 == 1 {
        if b.len() < 2 {
            None
        } else {
            let x = le_value(b.subrange(0, 2)) / 4;
            if 0x3f < x && x <= 0x3fff {
                Some((x, 2))
            } else {
                None
            }
        }
    } else if b[0] % 4 == 2 {
        if b.len() < 4 {
            None
        } else {
            let x = le_value(b.subrange(0, 4)) / 4;
            if 0x3fff < x && x <= 0x3fff_ffff {
                Some((x, 4))
            } else {
                None
            }
        }
    } else if b[0] / 4 == 0 && b.len() >= 5 {
        let x = le_value(b.subrange(1, 5));
        if x > 0x3fff_ffff {
            Some((x, 5))
        } else {
            None
        }
    } else {
        None
    }
}

/// A length-prefixed byte string of at most `max` bytes at the start of
/// `b`: its bytes and the number of bytes it takes up.
pub open spec fn bounded_bytes(b: Seq<u8>, max: nat) -> Option<(Seq<u8>, nat)> {
    match compact_prefix(b) {
        Some((len, w)) => {
            if len > max || w + len > b.len() {
                None
            } else {
                Some((b.subrange(w as int, (w + len) as int), w + len))
            }
        },
        None => None,
    }
}

/// The variant that `b` decodes to, if it decodes.
pub open spec fn call_variant(b: Seq<u8>) -> Option<u8> {
    if b.len() == 0 {
        None
    } else if b[0] == 0 {
        if b.len() >= 25 {
            Some(0)
        } else {
            None
        }
    } else if b[0] == 1 {
        match bounded_bytes(b.skip(1), MAX_POLICY_KEY as nat) {
            Some((_k, c)) => match bounded_bytes(b.skip(1 + c as int), MAX_POLICY_VALUE as nat) {
                Some(_) => Some(1),
                None => None,
            },
            None => None,
        }
    } else if b[0] == 2 {
        Some(2)
    } else {
        None
    }
}

/// The recipient of a spend call.
pub open spec fn spend_recipient(b: Seq<u8>) -> AccountId {
    le_value(b.subrange(1, 9)) as u64
}

/// The amount of a spend call.
pub open spec fn spend_amount(b: Seq<u8>) -> Balance {
    le_value(b.subrange(9, 25)) as u128
}

/// The key of a policy call.
pub open spec fn policy_key(b: Seq<u8>) -> Seq<u8> {
    bounded_bytes(b.skip(1), MAX_POLICY_KEY as nat).unwrap().0
}

/// The value of a policy call.
pub open spec fn policy_value(b: Seq<u8>) -> Seq<u8> {
    let c = bounded_bytes(b.skip(1), MAX_POLICY_KEY as nat).unwrap().1;
    bounded_bytes(b.skip(1 + c as int), MAX_POLICY_VALUE as nat).unwrap().0
}

/// What `b` decodes to, as a department call.
pub open spec fn decodes_to(b: Seq<u8>, c: DepartmentCall) -> bool {
    match c {
        DepartmentCall::SpendBudget { recipient, amount } => call_variant(b) == Some(0u8) && recipient
            == spend_recipient(b) && amount == spend_amount(b),
        DepartmentCall::UpdatePolicy { policy_key: k, policy_value: v } => call_variant(b) == Some(1u8) && k@
            == policy_key(b) && v@ == policy_value(b),
        DepartmentCall::NoOp => call_variant(b) == Some(2u8),
    }
}

proof fn lemma_pow256_mono(a: nat, b: nat)
    requires
        a <= b,
    ensures
        pow256(a) <= pow256(b),
    decreases b,
{
    if a < b {
        lemma_pow256_mono(a, (b - 1) as nat);
    }
}

proof fn lemma_le_value_bound(b: Seq<u8>)
    ensures
        le_value(b) < pow256(b.len()),
    decreases b.len(),
{
    if b.len() > 0 {
        lemma_le_value_bound(b.drop_first());
    }
}

/// The little-endian number in `b[start..start + n]`, for `n` up to 16.
fn read_le(b: &Vec<u8>, start: usize, n: usize) -> (v: u128)
    requires
        start + n <= b@.len(),
        n <= 16,
    ensures
        v == le_value(b@.subrange(start as int, start + n)),
        v < pow256(n as nat),
{
    proof {
        reveal_with_fuel(pow256, 17);
        lemma_pow256_mono(n as nat, 16);
    }
    let mut v: u128 = 0;
    let mut i: usize = n;
    while i > 0
        invariant
            i <= n,
            n <= 16,
            start + n <= b@.len(),
            b@.len() == b.len(),
            v == le_value(b@.subrange(start + i, start + n)),
            v < pow256((n - i) as nat),
            pow256(n as nat) <= pow256(16),
            pow256(16) == 0x1_0000_0000_0000_0000_0000_0000_0000_0000,
        decreases i,
    {
        let ghost tail = b@.subrange(start + i, start + n);
        let ghost whole = b@.subrange(start + i - 1, start + n);
        proof {
            assert(whole.drop_first() =~= tail);
            lemma_pow256_mono((n - i + 1) as nat, n as nat);
        }
        let byte = b[start + i - 1];
        v = byte as u128 + 256 * v;
        i = i - 1;
    }
    v
}

/// The length-prefixed byte string of at most `max` bytes that starts at
/// `start`, with the position just past it.
fn read_bounded(b: &Vec<u8>, start: usize, max: usize) -> (r: Option<(Vec<u8>, usize)>)
    requires
        start <= b@.len(),
        max <= MAX_POLICY_VALUE,
    ensures
        match bounded_bytes(b@.skip(start as int), max as nat) {
            Some((s, c)) => r is Some && r.unwrap().0@ == s && r.unwrap().1 == start + c,
            None => r is None,
        },
{
    let ghost rest = b@.skip(start as int);
    if start >= b.len() {
        return None;
    }
    let p = b[start];
    let len: usize;
    let w: usize;
    if p % 4 == 0 {
        len = (p / 4) as usize;
        w = 1;
    } else if p % 4 == 1 {
        if b.len() - start < 2 {
            return None;
        }
        let x = read_le(b, start, 2) / 4;
        proof {
            assert(rest.subrange(0, 2) =~= b@.subrange(start as int, start + 2));
            reveal_with_fuel(pow256, 3);
        }
        if x <= 0x3f {
            return None;
        }
        len = x as usize;
        w = 2;
    } else {
        proof {
            if p % 4 == 2 {
                if rest.len() >= 4 {
                    assert(rest.subrange(0, 4) == rest.subrange(0, 4));
                }
            }
        }
        return None;
    }
    if len > max {
        return None;
    }
    if w + len > b.len() - start {
        return None;
    }
    let base = start + w;
    let mut out: Vec<u8> = Vec::new();
    let mut i: usize = 0;
    while i < len
        invariant
            i <= len,
            base + len <= b@.len(),
            b@.len() == b.len(),
            len <= MAX_POLICY_VALUE,
            out@ == b@.subrange(base as int, base + i),
        decreases len - i,
    {
        out.push(b[base + i]);
        proof {
            assert(b@.subrange(base as int, base + i + 1) =~= b@.subrange(base as int, base + i).push(b@[base + i]));
        }
        i = i + 1;
    }
    proof {
        assert(rest.subrange(w as int, (w + len) as int) =~= b@.subrange(base as int, base + len));
    }
    Some((out, start + w + len))
}

/// Decodes a department call from the start of `b`; `None` where the bytes
/// are no valid call.
pub fn decode_department_call(b: &Vec<u8>) -> (r: Option<DepartmentCall>)
    ensures
        r is Some <==> call_variant(b@) is Some,
        r is Some ==> decodes_to(b@, r.unwrap()),
{
    if b.len() == 0 {
        return None;
    }
    let tag = b[0];
    if tag == 0 {
        if b.len() < 25 {
            return None;
        }
        let recipient = read_le(b, 1, 8);
        let amount = read_le(b, 9, 16);
        proof {
            reveal_with_fuel(pow256, 9);
        }
        Some(DepartmentCall::SpendBudget { recipient: recipient as u64, amount })
    } else if tag == 1 {
        let (policy_key, after_key) = match read_bounded(b, 1, MAX_POLICY_KEY) {
            Some(x) => x,
            None => return None,
        };
        proof {
            let c = bounded_bytes(b@.skip(1), MAX_POLICY_KEY as nat).unwrap().1;
            assert(after_key == 1 + c);
            assert(after_key <= b@.len());
        }
        let (policy_value, _end) = match read_bounded(b, after_key, MAX_POLICY_VALUE) {
            Some(x) => x,
            None => return None,
        };
        Some(DepartmentCall::UpdatePolicy { policy_key, policy_value })
    } else if tag == 2 {
        Some(DepartmentCall::NoOp)
    } else {
        None
    }
}

} // verus!
