//! The order in which the runtime walks a storage map: by the bytes of each
//! entry's `Blake2_128Concat` key (the 16-byte digest of the encoded key,
//! then the encoded key), smallest first.
use vstd::prelude::*;

use crate::call_data::pow256;
use crate::hashing::{blake2_128_concat, blake2_128_digest, encode_account, encode_proposal_id, le_bytes, lemma_le_bytes_len};
use crate::laws::lemma_le_roundtrip;
use crate::types::AccountId;
use crate::vec_map::VecMap;

verus! {

/// `a` comes before `b` in lexicographic byte order.
pub open spec fn bytes_lt(a: Seq<u8>, b: Seq<u8>) -> bool
    decreases a.len(),
{
    if a.len() == 0 {
        b.len() > 0
    } else if b.len() == 0 {
        false
    } else if a[0] != b[0] {
        a[0] < b[0]
    } else {
        bytes_lt(a.skip(1), b.skip(1))
    }
}

/// No byte string comes before itself.
pub proof fn lemma_bytes_lt_irreflexive(a: Seq<u8>)
    ensures
        !bytes_lt(a, a),
    decreases a.len(),
{
    if a.len() > 0 {
        lemma_bytes_lt_irreflexive(a.skip(1));
    }
}

/// Byte order is transitive.
pub proof fn lemma_bytes_lt_transitive(a: Seq<u8>, b: Seq<u8>, c: Seq<u8>)
    requires
        bytes_lt(a, b),
        bytes_lt(b, c),
    ensures
        bytes_lt(a, c),
    decreases a.len(),
{
    if a.len() > 0 && b.len() > 0 && c.len() > 0 && a[0] == b[0] && b[0] == c[0] {
        lemma_bytes_lt_transitive(a.skip(1), b.skip(1), c.skip(1));
    }
}

/// Of two different byte strings, one comes before the other.
pub proof fn lemma_bytes_lt_total(a: Seq<u8>, b: Seq<u8>)
    requires
        a != b,
    ensures
        bytes_lt(a, b) || bytes_lt(b, a),
    decreases a.len(),
{
    if a.len() == 0 {
        if b.len() == 0 {
            assert(a =~= b);
        }
    } else if b.len() > 0 && a[0] == b[0] {
        if a.skip(1) == b.skip(1) {
            assert(a =~= seq![a[0]] + a.skip(1));
            assert(b =~= seq![b[0]] + b.skip(1));
        }
        lemma_bytes_lt_total(a.skip(1), b.skip(1));
    }
}

/// Comparing two strings with prefixes of one length compares the prefixes,
/// then the rest.
pub proof fn lemma_bytes_lt_concat(d1: Seq<u8>, e1: Seq<u8>, d2: Seq<u8>, e2: Seq<u8>)
    requires
        d1.len() == d2.len(),
    ensures
        bytes_lt(d1 + e1, d2 + e2) == (bytes_lt(d1, d2) || (d1 == d2 && bytes_lt(e1, e2))),
    decreases d1.len(),
{
    if d1.len() == 0 {
        assert(d1 + e1 =~= e1);
        assert(d2 + e2 =~= e2);
        assert(d1 =~= d2);
    } else {
        let x = d1 + e1;
        let y = d2 + e2;
        assert(x[0] == d1[0]);
        assert(y[0] == d2[0]);
        assert(x.skip(1) =~= d1.skip(1) + e1);
        assert(y.skip(1) =~= d2.skip(1) + e2);
        if d1[0] == d2[0] {
            lemma_bytes_lt_concat(d1.skip(1), e1, d2.skip(1), e2);
            if d1.skip(1) == d2.skip(1) {
                assert(d1 =~= seq![d1[0]] + d1.skip(1));
                assert(d2 =~= seq![d2[0]] + d2.skip(1));
            }
        } else {
            assert(d1 != d2);
        }
    }
}

/// `a` comes before `b` when their keys are compared: first the digest of
/// the encoding `enc`, then the encoding itself.
pub open spec fn key_before<T>(enc: spec_fn(T) -> Seq<u8>, a: T, b: T) -> bool {
    bytes_lt(blake2_128_digest(enc(a)), blake2_128_digest(enc(b))) || (blake2_128_digest(enc(a))
        == blake2_128_digest(enc(b)) && bytes_lt(enc(a), enc(b)))
}

/// Whether `enc` tells every two values apart.
pub open spec fn injective<T>(enc: spec_fn(T) -> Seq<u8>) -> bool {
    forall|a: T, b: T| #[trigger] enc(a) == #[trigger] enc(b) ==> a == b
}

/// Key order is a strict total order where the encoding is injective.
pub proof fn lemma_key_before_order<T>(enc: spec_fn(T) -> Seq<u8>, a: T, b: T, c: T)
    requires
        injective(enc),
    ensures
        !key_before(enc, a, a),
        key_before(enc, a, b) ==> !key_before(enc, b, a),
        key_before(enc, a, b) && key_before(enc, b, c) ==> key_before(enc, a, c),
        a != b ==> key_before(enc, a, b) || key_before(enc, b, a),
{
    let (da, db, dc) = (blake2_128_digest(enc(a)), blake2_128_digest(enc(b)), blake2_128_digest(enc(c)));
    lemma_bytes_lt_irreflexive(da);
    lemma_bytes_lt_irreflexive(db);
    lemma_bytes_lt_irreflexive(enc(a));
    lemma_bytes_lt_irreflexive(enc(b));
    if key_before(enc, a, b) && key_before(enc, b, a) {
        if bytes_lt(da, db) && bytes_lt(db, da) {
            lemma_bytes_lt_transitive(da, db, da);
        }
        if bytes_lt(enc(a), enc(b)) && bytes_lt(enc(b), enc(a)) {
            lemma_bytes_lt_transitive(enc(a), enc(b), enc(a));
        }
    }
    if key_before(enc, a, b) && key_before(enc, b, c) {
        if bytes_lt(da, db) && bytes_lt(db, dc) {
            lemma_bytes_lt_transitive(da, db, dc);
        }
        if bytes_lt(enc(a), enc(b)) && bytes_lt(enc(b), enc(c)) {
            lemma_bytes_lt_transitive(enc(a), enc(b), enc(c));
        }
    }
    if a != b {
        assert(enc(a) != enc(b));
        if da != db {
            lemma_bytes_lt_total(da, db);
        } else {
            lemma_bytes_lt_total(enc(a), enc(b));
        }
    }
}

/// The first of `s` in key order: the one that comes before all others.
pub open spec fn first_in<T>(s: Set<T>, enc: spec_fn(T) -> Seq<u8>) -> T {
    choose|m: T| s.contains(m) && forall|x: T| s.contains(x) && x != m ==> #[trigger] key_before(enc, m, x)
}

/// The members of `s` in increasing key order.
#[verifier::opaque]
pub open spec fn in_key_order<T>(s: Set<T>, enc: spec_fn(T) -> Seq<u8>) -> Seq<T>
    decreases s.len(),
    when s.finite()
{
    let m = first_in(s, enc);
    if s.len() == 0 || !s.contains(m) {
        Seq::empty()
    } else {
        seq![m] + in_key_order(s.remove(m), enc)
    }
}

/// The little-endian encoding of an account.
pub open spec fn account_encoding() -> spec_fn(AccountId) -> Seq<u8> {
    |a: AccountId| le_bytes(a as nat, 8)
}

/// The little-endian encoding of a proposal id.
pub open spec fn proposal_encoding() -> spec_fn(u32) -> Seq<u8> {
    |id: u32| le_bytes(id as nat, 4)
}

/// Accounts in the order the runtime walks a map keyed by them.
pub open spec fn accounts_in_storage_order(s: Set<AccountId>) -> Seq<AccountId> {
    in_key_order(s, account_encoding())
}

/// Proposal ids in the order the runtime walks a map keyed by them.
pub open spec fn proposals_in_storage_order(s: Set<u32>) -> Seq<u32> {
    in_key_order(s, proposal_encoding())
}

/// Distinct accounts have distinct encodings.
pub proof fn lemma_account_encoding_injective()
    ensures
        injective(account_encoding()),
{
    reveal_with_fuel(pow256, 9);
    assert forall|a: AccountId, b: AccountId| #[trigger] account_encoding()(a) == #[trigger] account_encoding()(
        b,
    ) implies a == b by {
        lemma_le_roundtrip(a as nat, 8);
        lemma_le_roundtrip(b as nat, 8);
    }
}

/// Distinct proposal ids have distinct encodings.
pub proof fn lemma_proposal_encoding_injective()
    ensures
        injective(proposal_encoding()),
{
    reveal_with_fuel(pow256, 5);
    assert forall|a: u32, b: u32| #[trigger] proposal_encoding()(a) == #[trigger] proposal_encoding()(b) implies a
        == b by {
        lemma_le_roundtrip(a as nat, 4);
        lemma_le_roundtrip(b as nat, 4);
    }
}

/// A finite set in key order lists each member once, and nothing else.
pub proof fn lemma_in_key_order<T>(s: Set<T>, enc: spec_fn(T) -> Seq<u8>)
    requires
        s.finite(),
        injective(enc),
    ensures
        in_key_order(s, enc).len() == s.len(),
        in_key_order(s, enc).no_duplicates(),
        forall|x: T| #[trigger] in_key_order(s, enc).contains(x) <==> s.contains(x),
    decreases s.len(),
{
    reveal(in_key_order);
    if s.len() > 0 {
        lemma_first_in(s, enc);
        let m = first_in(s, enc);
        let rest = s.remove(m);
        lemma_in_key_order(rest, enc);
        let r = in_key_order(s, enc);
        let rr = in_key_order(rest, enc);
        assert(r =~= seq![m] + rr);
        assert forall|x: T| #[trigger] r.contains(x) <==> s.contains(x) by {
            if r.contains(x) && x != m {
                let i = choose|i: int| 0 <= i < r.len() && r[i] == x;
                assert(rr[i - 1] == x);
                assert(rr.contains(x));
            }
            if s.contains(x) {
                if x == m {
                    assert(r[0] == m);
                } else {
                    assert(rest.contains(x));
                    assert(rr.contains(x));
                    let i = choose|i: int| 0 <= i < rr.len() && rr[i] == x;
                    assert(r[i + 1] == x);
                }
            }
        }
        assert forall|i: int, j: int| 0 <= i < r.len() && 0 <= j < r.len() && i != j implies r[i] != r[j] by {
            if i > 0 && j > 0 {
                assert(r[i] == rr[i - 1] && r[j] == rr[j - 1]);
            } else if i == 0 {
                assert(rr.contains(r[j]));
            } else {
                assert(rr.contains(r[i]));
            }
        }
    } else {
        assert(in_key_order(s, enc) =~= Seq::<T>::empty());
    }
}

/// A non-empty finite set has a first member in key order.
pub proof fn lemma_first_in<T>(s: Set<T>, enc: spec_fn(T) -> Seq<u8>)
    requires
        s.finite(),
        s.len() > 0,
        injective(enc),
    ensures
        s.contains(first_in(s, enc)),
        forall|x: T| s.contains(x) && x != first_in(s, enc) ==> #[trigger] key_before(enc, first_in(s, enc), x),
    decreases s.len(),
{
    let a = s.choose();
    assert(s.contains(a));
    if s.len() == 1 {
        assert forall|x: T| s.contains(x) && x != a implies #[trigger] key_before(enc, a, x) by {
            assert(s.remove(a).len() == 0);
            assert(s.remove(a).contains(x));
        }
    } else {
        let rest = s.remove(a);
        lemma_first_in(rest, enc);
        let m = first_in(rest, enc);
        lemma_key_before_order(enc, a, m, a);
        if key_before(enc, a, m) {
            assert forall|x: T| s.contains(x) && x != a implies #[trigger] key_before(enc, a, x) by {
                if x != m {
                    assert(rest.contains(x));
                    lemma_key_before_order(enc, a, m, x);
                }
            }
        } else {
            assert forall|x: T| s.contains(x) && x != m implies #[trigger] key_before(enc, m, x) by {
                if x == a {
                    lemma_key_before_order(enc, m, a, x);
                } else {
                    assert(rest.contains(x));
                }
            }
        }
    }
}

/// A member that comes before all others is the first.
pub proof fn lemma_first_unique<T>(s: Set<T>, enc: spec_fn(T) -> Seq<u8>, m: T)
    requires
        s.finite(),
        injective(enc),
        s.contains(m),
        forall|x: T| s.contains(x) && x != m ==> #[trigger] key_before(enc, m, x),
    ensures
        first_in(s, enc) == m,
{
    lemma_first_in(s, enc);
    let f = first_in(s, enc);
    if f != m {
        lemma_key_before_order(enc, f, m, f);
    }
}

/// Whether a key is a digest of 16 bytes followed by an encoding.
pub open spec fn is_key_of<T>(k: Seq<u8>, enc: spec_fn(T) -> Seq<u8>, x: T) -> bool {
    &&& k == blake2_128_digest(enc(x)) + enc(x)
    &&& blake2_128_digest(enc(x)).len() == 16
}

/// Whether `a` comes before `b` in byte order.
fn bytes_less(a: &Vec<u8>, b: &Vec<u8>) -> (r: bool)
    ensures
        r == bytes_lt(a@, b@),
{
    let mut i: usize = 0;
    assert(a@.skip(0) =~= a@);
    assert(b@.skip(0) =~= b@);
    while i < a.len() && i < b.len()
        invariant
            i <= a.len(),
            i <= b.len(),
            bytes_lt(a@, b@) == bytes_lt(a@.skip(i as int), b@.skip(i as int)),
        decreases a.len() - i,
    {
        if a[i] != b[i] {
            return a[i] < b[i];
        }
        proof {
            assert(a@.skip(i as int).skip(1) =~= a@.skip(i + 1));
            assert(b@.skip(i as int).skip(1) =~= b@.skip(i + 1));
        }
        i = i + 1;
    }
    i == a.len() && i < b.len()
}

/// The position of the member of `ids` that comes first in key order.
fn first_position<T: Copy>(ids: &Vec<T>, keys: &Vec<Vec<u8>>, Ghost(enc): Ghost<spec_fn(T) -> Seq<u8>>) -> (m:
    usize)
    requires
        ids.len() > 0,
        ids.len() == keys.len(),
        ids@.no_duplicates(),
        injective(enc),
        forall|i: int| 0 <= i < ids.len() ==> is_key_of(#[trigger] keys@[i]@, enc, ids@[i]),
    ensures
        m < ids.len(),
        forall|j: int| 0 <= j < ids.len() && j != m ==> #[trigger] key_before(enc, ids@[m as int], ids@[j]),
{
    let mut best: usize = 0;
    let mut i: usize = 1;
    while i < ids.len()
        invariant
            1 <= i <= ids.len(),
            ids.len() == keys.len(),
            best < i,
            ids@.no_duplicates(),
            injective(enc),
            forall|x: int| 0 <= x < ids.len() ==> is_key_of(#[trigger] keys@[x]@, enc, ids@[x]),
            forall|j: int| 0 <= j < i && j != best ==> #[trigger] key_before(enc, ids@[best as int], ids@[j]),
        decreases ids.len() - i,
    {
        let ghost (a, b) = (ids@[i as int], ids@[best as int]);
        proof {
            assert(is_key_of(keys@[i as int]@, enc, a));
            assert(is_key_of(keys@[best as int]@, enc, b));
            lemma_bytes_lt_concat(blake2_128_digest(enc(a)), enc(a), blake2_128_digest(enc(b)), enc(b));
            lemma_bytes_lt_concat(blake2_128_digest(enc(b)), enc(b), blake2_128_digest(enc(a)), enc(a));
            assert(a != b);
            lemma_key_before_order(enc, a, b, a);
        }
        if bytes_less(&keys[i], &keys[best]) {
            proof {
                assert forall|j: int| 0 <= j < i + 1 && j != i implies #[trigger] key_before(enc, a, ids@[j]) by {
                    if j != best {
                        lemma_key_before_order(enc, a, b, ids@[j]);
                    }
                }
            }
            best = i;
        }
        i = i + 1;
    }
    best
}

/// The first `limit` of `ids` in key order; `keys` holds their keys.
fn first_by_keys<T: Copy>(ids: Vec<T>, keys: Vec<Vec<u8>>, limit: usize, Ghost(enc): Ghost<spec_fn(T) -> Seq<u8>>) -> (r:
    Vec<T>)
    requires
        ids.len() == keys.len(),
        ids@.no_duplicates(),
        injective(enc),
        forall|i: int| 0 <= i < ids.len() ==> is_key_of(#[trigger] keys@[i]@, enc, ids@[i]),
    ensures
        r@ == in_key_order(ids@.to_set(), enc).take(
            if ids.len() < limit { ids.len() as int } else { limit as int },
        ),
{
    let ghost full = in_key_order(ids@.to_set(), enc);
    let n = ids.len();
    let k = if n < limit { n } else { limit };
    let mut rest_ids = ids;
    let mut rest_keys = keys;
    let mut out: Vec<T> = Vec::new();
    proof {
        rest_ids@.unique_seq_to_set();
        lemma_in_key_order(rest_ids@.to_set(), enc);
    }
    while out.len() < k
        invariant
            k <= n,
            out.len() <= k,
            rest_ids.len() == rest_keys.len(),
            rest_ids.len() + out.len() == n,
            full.len() == n,
            rest_ids@.no_duplicates(),
            injective(enc),
            forall|i: int| 0 <= i < rest_ids.len() ==> is_key_of(#[trigger] rest_keys@[i]@, enc, rest_ids@[i]),
            out@ + in_key_order(rest_ids@.to_set(), enc) == full,
        decreases k - out.len(),
    {
        let m = first_position(&rest_ids, &rest_keys, Ghost(enc));
        let ghost old_ids = rest_ids@;
        let ghost x = old_ids[m as int];
        let ghost s = old_ids.to_set();
        proof {
            assert(s.contains(x));
            assert forall|y: T| s.contains(y) && y != x implies #[trigger] key_before(enc, x, y) by {
                let j = choose|j: int| 0 <= j < old_ids.len() && old_ids[j] == y;
                assert(j != m);
            }
            lemma_first_unique(s, enc, x);
            assert(old_ids.remove(m as int).to_set() =~= s.remove(x)) by {
                assert forall|y: T| old_ids.remove(m as int).to_set().contains(y) <==> s.remove(x).contains(y) by {
                    if old_ids.remove(m as int).contains(y) {
                        let j = choose|j: int| 0 <= j < old_ids.len() - 1 && old_ids.remove(m as int)[j] == y;
                        if j < m {
                            assert(old_ids[j] == y);
                        } else {
                            assert(old_ids[j + 1] == y);
                        }
                    }
                    if s.remove(x).contains(y) {
                        let j = choose|j: int| 0 <= j < old_ids.len() && old_ids[j] == y;
                        if j < m {
                            assert(old_ids.remove(m as int)[j] == y);
                        } else {
                            assert(old_ids.remove(m as int)[j - 1] == y);
                        }
                    }
                }
            }
            assert(s.len() > 0);
            old_ids.unique_seq_to_set();
        }
        let id = rest_ids.remove(m);
        rest_keys.remove(m);
        let ghost old_out = out@;
        out.push(id);
        proof {
            assert(in_key_order(s, enc) == seq![x] + in_key_order(s.remove(x), enc)) by {
                reveal(in_key_order);
            }
            assert(out@ + in_key_order(rest_ids@.to_set(), enc) =~= old_out + in_key_order(s, enc));
            assert forall|i: int, j: int| 0 <= i < rest_ids@.len() && 0 <= j < rest_ids@.len() && i != j implies rest_ids@[i]
                != rest_ids@[j] by {
                let ii = if i < m { i } else { i + 1 };
                let jj = if j < m { j } else { j + 1 };
                assert(rest_ids@[i] == old_ids[ii] && rest_ids@[j] == old_ids[jj]);
            }
            assert forall|i: int| 0 <= i < rest_ids.len() implies is_key_of(
                #[trigger] rest_keys@[i]@,
                enc,
                rest_ids@[i],
            ) by {
                if i >= m {
                    assert(rest_ids@[i] == old_ids[i + 1]);
                }
            }
        }
    }
    assert(out@ =~= full.take(k as int));
    out
}

/// The storage key parts of the given accounts.
fn account_keys(accounts: &Vec<AccountId>) -> (r: Vec<Vec<u8>>)
    ensures
        r.len() == accounts.len(),
        forall|i: int| 0 <= i < accounts.len() ==> is_key_of(#[trigger] r@[i]@, account_encoding(), accounts@[i]),
{
    let mut r: Vec<Vec<u8>> = Vec::new();
    let mut i: usize = 0;
    while i < accounts.len()
        invariant
            i <= accounts.len(),
            r.len() == i,
            forall|j: int| 0 <= j < i ==> is_key_of(#[trigger] r@[j]@, account_encoding(), accounts@[j]),
        decreases accounts.len() - i,
    {
        let enc = encode_account(accounts[i]);
        let k = blake2_128_concat(enc.as_slice());
        proof {
            lemma_le_bytes_len(accounts@[i as int] as nat, 8);
        }
        r.push(k);
        i = i + 1;
    }
    r
}

/// The storage key parts of the given proposal ids.
fn proposal_keys(ids: &Vec<u32>) -> (r: Vec<Vec<u8>>)
    ensures
        r.len() == ids.len(),
        forall|i: int| 0 <= i < ids.len() ==> is_key_of(#[trigger] r@[i]@, proposal_encoding(), ids@[i]),
{
    let mut r: Vec<Vec<u8>> = Vec::new();
    let mut i: usize = 0;
    while i < ids.len()
        invariant
            i <= ids.len(),
            r.len() == i,
            forall|j: int| 0 <= j < i ==> is_key_of(#[trigger] r@[j]@, proposal_encoding(), ids@[j]),
        decreases ids.len() - i,
    {
        let enc = encode_proposal_id(ids[i]);
        let k = blake2_128_concat(enc.as_slice());
        proof {
            lemma_le_bytes_len(ids@[i as int] as nat, 4);
        }
        r.push(k);
        i = i + 1;
    }
    r
}

/// The first `limit` of the accounts in the order the runtime walks a map
/// keyed by them.
pub fn first_accounts_in_storage_order(accounts: &Vec<AccountId>, limit: usize) -> (r: Vec<AccountId>)
    requires
        accounts@.no_duplicates(),
    ensures
        r@ == accounts_in_storage_order(accounts@.to_set()).take(
            if accounts.len() < limit { accounts.len() as int } else { limit as int },
        ),
{
    proof {
        lemma_account_encoding_injective();
    }
    let keys = account_keys(accounts);
    let ids = crate::vec_map::copy_vec(accounts);
    first_by_keys(ids, keys, limit, Ghost(account_encoding()))
}

/// The first `limit` of the proposal ids in the order the runtime walks a
/// map keyed by them.
pub fn first_proposals_in_storage_order(ids: &Vec<u32>, limit: usize) -> (r: Vec<u32>)
    requires
        ids@.no_duplicates(),
    ensures
        r@ == proposals_in_storage_order(ids@.to_set()).take(
            if ids.len() < limit { ids.len() as int } else { limit as int },
        ),
{
    proof {
        lemma_proposal_encoding_injective();
    }
    let keys = proposal_keys(ids);
    let copy = crate::vec_map::copy_vec(ids);
    first_by_keys(copy, keys, limit, Ghost(proposal_encoding()))
}

/// The keys of a map keyed by accounts, in the map's order.
pub(crate) fn account_keys_of<V>(m: &VecMap<AccountId, V>) -> (r: Vec<AccountId>)
    ensures
        r@ == m.key_seq(),
        r@.no_duplicates(),
        r@.to_set() == m@.dom(),
        m@.dom().finite(),
        r@.len() == m@.dom().len(),
{
    proof {
        use_type_invariant(m);
        m.lemma_keys();
        assert(m.key_seq().to_set() =~= m@.dom());
    }
    let n = m.len();
    let mut r: Vec<AccountId> = Vec::new();
    let mut i: usize = 0;
    while i < n
        invariant
            i <= n,
            n == m.key_seq().len(),
            r@ == m.key_seq().take(i as int),
        decreases n - i,
    {
        r.push(*m.key_at(i));
        i = i + 1;
        assert(r@ =~= m.key_seq().take(i as int));
    }
    assert(r@ =~= m.key_seq());
    r
}

/// The keys of a map keyed by proposal ids, in the map's order.
pub(crate) fn proposal_ids_of<V>(m: &VecMap<u32, V>) -> (r: Vec<u32>)
    ensures
        r@ == m.key_seq(),
        r@.no_duplicates(),
        r@.to_set() == m@.dom(),
        m@.dom().finite(),
        r@.len() == m@.dom().len(),
{
    proof {
        use_type_invariant(m);
        m.lemma_keys();
        assert(m.key_seq().to_set() =~= m@.dom());
    }
    let n = m.len();
    let mut r: Vec<u32> = Vec::new();
    let mut i: usize = 0;
    while i < n
        invariant
            i <= n,
            n == m.key_seq().len(),
            r@ == m.key_seq().take(i as int),
        decreases n - i,
    {
        r.push(*m.key_at(i));
        i = i + 1;
        assert(r@ =~= m.key_seq().take(i as int));
    }
    assert(r@ =~= m.key_seq());
    r
}

} // verus!
