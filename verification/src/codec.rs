//! Little-endian byte encodings for the fixed-width integers the indexes
//! store in their segments, together with the round-trip lemmas the index
//! invariants rest on.

use vstd::prelude::*;

verus! {

/// The `count` little-endian bytes of the non-negative integer `n`.
pub open spec fn le_bytes(n: int, count: nat) -> Seq<u8>
    decreases count,
{
    if count == 0 {
        Seq::empty()
    } else {
        seq![(n % 256) as u8] + le_bytes(n / 256, (count - 1) as nat)
    }
}

/// The integer a little-endian byte string denotes.
pub open spec fn le_value(s: Seq<u8>) -> int
    decreases s.len(),
{
    if s.len() == 0 {
        0
    } else {
        s[0] + 256 * le_value(s.drop_first())
    }
}

/// 256 raised to `count`.
pub open spec fn pow256(count: nat) -> int
    decreases count,
{
    if count == 0 {
        1
    } else {
        256 * pow256((count - 1) as nat)
    }
}

pub proof fn lemma_le_bytes_len(n: int, count: nat)
    ensures
        le_bytes(n, count).len() == count,
    decreases count,
{
    if count == 0 {
    } else {
        lemma_le_bytes_len(n / 256, (count - 1) as nat);
    }
}

/// Reading back the little-endian bytes of `n` yields `n` again.
pub proof fn lemma_le_roundtrip(n: int, count: nat)
    requires
        0 <= n < pow256(count),
    ensures
        le_bytes(n, count).len() == count,
        le_value(le_bytes(n, count)) == n,
    decreases count,
{
    lemma_le_bytes_len(n, count);
    if count == 0 {
    } else {
        assert(0 <= n / 256 && n / 256 < pow256((count - 1) as nat)) by (nonlinear_arith)
            requires
                0 <= n,
                n < 256 * pow256((count - 1) as nat),
        {
        }
        lemma_le_roundtrip(n / 256, (count - 1) as nat);
        assert(le_bytes(n, count).drop_first() =~= le_bytes(n / 256, (count - 1) as nat));
        assert(n % 256 + 256 * (n / 256) == n) by (nonlinear_arith);
    }
}

/// Appends the eight little-endian bytes of `n`.
pub fn append_u64_le(out: &mut Vec<u8>, n: u64)
    ensures
        final(out)@ == old(out)@ + le_bytes(n as int, 8),
{
    let m0: u64 = n;
    let m1: u64 = m0 / 256;
    let m2: u64 = m1 / 256;
    let m3: u64 = m2 / 256;
    let m4: u64 = m3 / 256;
    let m5: u64 = m4 / 256;
    let m6: u64 = m5 / 256;
    let m7: u64 = m6 / 256;
    out.push((m0 % 256) as u8);
    out.push((m1 % 256) as u8);
    out.push((m2 % 256) as u8);
    out.push((m3 % 256) as u8);
    out.push((m4 % 256) as u8);
    out.push((m5 % 256) as u8);
    out.push((m6 % 256) as u8);
    out.push((m7 % 256) as u8);
    proof {
        reveal_with_fuel(le_bytes, 9);
        assert(out@ =~= old(out)@ + le_bytes(n as int, 8));
    }
}

/// Appends the four little-endian bytes of `n`.
pub fn append_u32_le(out: &mut Vec<u8>, n: u32)
    ensures
        final(out)@ == old(out)@ + le_bytes(n as int, 4),
{
    let m0: u32 = n;
    let m1: u32 = m0 / 256;
    let m2: u32 = m1 / 256;
    let m3: u32 = m2 / 256;
    out.push((m0 % 256) as u8);
    out.push((m1 % 256) as u8);
    out.push((m2 % 256) as u8);
    out.push((m3 % 256) as u8);
    proof {
        reveal_with_fuel(le_bytes, 5);
        assert(out@ =~= old(out)@ + le_bytes(n as int, 4));
    }
}

/// Reads the eight little-endian bytes starting at `start` back into a word.
pub fn read_u64_le(bytes: &Vec<u8>, start: usize) -> (n: u64)
    requires
        start + 8 <= bytes@.len(),
    ensures
        n as int == le_value(bytes@.subrange(start as int, start as int + 8)),
{
    let len = bytes.len();
    proof {
        assert(start + 8 <= len);
    }
    let b0: u64 = bytes[start] as u64;
    let b1: u64 = bytes[start + 1] as u64;
    let b2: u64 = bytes[start + 2] as u64;
    let b3: u64 = bytes[start + 3] as u64;
    let b4: u64 = bytes[start + 4] as u64;
    let b5: u64 = bytes[start + 5] as u64;
    let b6: u64 = bytes[start + 6] as u64;
    let b7: u64 = bytes[start + 7] as u64;
    let n: u64 = b0 + 256 * (b1 + 256 * (b2 + 256 * (b3 + 256 * (b4 + 256 * (b5 + 256 * (b6
        + 256 * b7))))));
    proof {
        reveal_with_fuel(le_value, 9);
        let s = bytes@.subrange(start as int, start as int + 8);
        let s1 = s.drop_first();
        let s2 = s1.drop_first();
        let s3 = s2.drop_first();
        let s4 = s3.drop_first();
        let s5 = s4.drop_first();
        let s6 = s5.drop_first();
        let s7 = s6.drop_first();
        assert(s7.drop_first() =~= Seq::<u8>::empty());
        assert(s[0] == b0 && s1[0] == b1 && s2[0] == b2 && s3[0] == b3 && s4[0] == b4 && s5[0]
            == b5 && s6[0] == b6 && s7[0] == b7);
    }
    n
}

/// Compares two byte strings for equality.
pub fn bytes_eq(a: &Vec<u8>, b: &Vec<u8>) -> (r: bool)
    ensures
        r == (a@ == b@),
{
    if a.len() != b.len() {
        return false;
    }
    let mut i: usize = 0;
    while i < a.len()
        invariant
            i <= a@.len(),
            a@.len() == b@.len(),
            forall|j: int| 0 <= j < i ==> a@[j] == b@[j],
        decreases a@.len() - i,
    {
        if a[i] != b[i] {
            return false;
        }
        i = i + 1;
    }
    proof {
        assert(a@ =~= b@);
    }
    true
}

/// The concatenated little-endian encodings of a sequence of 64-bit ids.
pub open spec fn encode_ids(ids: Seq<u64>) -> Seq<u8>
    decreases ids.len(),
{
    if ids.len() == 0 {
        Seq::empty()
    } else {
        le_bytes(ids[0] as int, 8) + encode_ids(ids.drop_first())
    }
}

/// The ids an eight-byte-aligned byte string encodes.
pub open spec fn decode_ids(s: Seq<u8>) -> Seq<u64>
    decreases s.len(),
{
    if s.len() < 8 {
        Seq::empty()
    } else {
        seq![le_value(s.subrange(0, 8)) as u64] + decode_ids(s.subrange(8, s.len() as int))
    }
}

pub proof fn lemma_pow256_8()
    ensures
        pow256(8) == 0x1_0000_0000_0000_0000,
{
    reveal_with_fuel(pow256, 9);
}

/// Encoding a sequence of ids and decoding it back is the identity.
pub proof fn lemma_ids_roundtrip(ids: Seq<u64>)
    ensures
        encode_ids(ids).len() == 8 * ids.len(),
        decode_ids(encode_ids(ids)) == ids,
    decreases ids.len(),
{
    if ids.len() == 0 {
        assert(decode_ids(encode_ids(ids)) =~= ids);
    } else {
        lemma_pow256_8();
        lemma_le_roundtrip(ids[0] as int, 8);
        lemma_ids_roundtrip(ids.drop_first());
        let s = encode_ids(ids);
        assert(s.subrange(0, 8) =~= le_bytes(ids[0] as int, 8));
        assert(s.subrange(8, s.len() as int) =~= encode_ids(ids.drop_first()));
        assert(decode_ids(s) =~= ids);
    }
}

/// Encodes a list of ids as its concatenated eight-byte words.
pub fn encode_id_vec(ids: &Vec<u64>) -> (bytes: Vec<u8>)
    ensures
        bytes@ == encode_ids(ids@),
        decode_ids(bytes@) == ids@,
        bytes@.len() == 8 * ids@.len(),
{
    let mut bytes: Vec<u8> = Vec::new();
    let mut i: usize = 0;
    proof {
        assert(ids@.subrange(0, ids@.len() as int) =~= ids@);
    }
    while i < ids.len()
        invariant
            i <= ids@.len(),
            bytes@ + encode_ids(ids@.subrange(i as int, ids@.len() as int)) == encode_ids(ids@),
            bytes@.len() == 8 * i,
        decreases ids@.len() - i,
    {
        proof {
            lemma_le_bytes_len(ids@[i as int] as int, 8);
            let rest = ids@.subrange(i as int, ids@.len() as int);
            assert(rest[0] == ids@[i as int]);
            assert(rest.drop_first() =~= ids@.subrange(i as int + 1, ids@.len() as int));
        }
        append_u64_le(&mut bytes, ids[i]);
        i = i + 1;
    }
    proof {
        assert(ids@.subrange(ids@.len() as int, ids@.len() as int) =~= Seq::<u64>::empty());
        assert(bytes@ + Seq::<u8>::empty() =~= bytes@);
        lemma_ids_roundtrip(ids@);
    }
    bytes
}

/// Decodes a list of ids from its concatenated eight-byte words.
pub fn decode_id_vec(bytes: &Vec<u8>) -> (ids: Vec<u64>)
    requires
        bytes@.len() % 8 == 0,
    ensures
        ids@ == decode_ids(bytes@),
{
    let mut ids: Vec<u64> = Vec::new();
    let mut i: usize = 0;
    proof {
        assert(bytes@.subrange(0, bytes@.len() as int) =~= bytes@);
    }
    while i < bytes.len()
        invariant
            i <= bytes@.len(),
            i % 8 == 0,
            bytes@.len() % 8 == 0,
            ids@ + decode_ids(bytes@.subrange(i as int, bytes@.len() as int)) == decode_ids(
                bytes@,
            ),
        decreases bytes@.len() - i,
    {
        proof {
            let rest = bytes@.subrange(i as int, bytes@.len() as int);
            assert(rest.len() >= 8);
            assert(rest.subrange(0, 8) =~= bytes@.subrange(i as int, i as int + 8));
            assert(rest.subrange(8, rest.len() as int) =~= bytes@.subrange(
                i as int + 8,
                bytes@.len() as int,
            ));
        }
        let id = read_u64_le(bytes, i);
        ids.push(id);
        i = i + 8;
    }
    proof {
        assert(bytes@.subrange(bytes@.len() as int, bytes@.len() as int) =~= Seq::<u8>::empty());
        assert(ids@ + Seq::<u64>::empty() =~= ids@);
    }
    ids
}

/// The members of `a` that do not occur in `b`, in order.
pub open spec fn seq_diff<T>(a: Seq<T>, b: Seq<T>) -> Seq<T>
    decreases a.len(),
{
    if a.len() == 0 {
        Seq::empty()
    } else {
        (if b.contains(a[0]) {
            Seq::empty()
        } else {
            seq![a[0]]
        }) + seq_diff(a.drop_first(), b)
    }
}

/// No member occurs twice.
pub open spec fn unique_ids<T>(s: Seq<T>) -> bool {
    forall|i: int, j: int| 0 <= i < j < s.len() ==> s[i] != s[j]
}

/// Whether the list holds the id.
pub fn contains_u64(v: &Vec<u64>, x: u64) -> (r: bool)
    ensures
        r == v@.contains(x),
{
    let mut i: usize = 0;
    while i < v.len()
        invariant
            i <= v@.len(),
            forall|j: int| 0 <= j < i ==> v@[j] != x,
        decreases v@.len() - i,
    {
        if v[i] == x {
            return true;
        }
        i = i + 1;
    }
    false
}

/// The list with the first occurrence of `x` dropped.
pub open spec fn remove_first<T>(s: Seq<T>, x: T) -> Seq<T>
    decreases s.len(),
{
    if s.len() == 0 {
        s
    } else if s[0] == x {
        s.drop_first()
    } else {
        seq![s[0]] + remove_first(s.drop_first(), x)
    }
}

pub proof fn lemma_remove_first_at<T>(s: Seq<T>, x: T, i: int)
    requires
        0 <= i < s.len(),
        s[i] == x,
        forall|j: int| 0 <= j < i ==> s[j] != x,
    ensures
        remove_first(s, x) == s.subrange(0, i) + s.subrange(i + 1, s.len() as int),
    decreases i,
{
    if i == 0 {
        assert(remove_first(s, x) =~= s.subrange(0, 0) + s.subrange(1, s.len() as int));
    } else {
        let rest = s.drop_first();
        lemma_remove_first_at(rest, x, i - 1);
        assert(rest.subrange(0, i - 1) =~= s.subrange(1, i));
        assert(rest.subrange(i, rest.len() as int) =~= s.subrange(i + 1, s.len() as int));
        assert(remove_first(s, x) =~= s.subrange(0, i) + s.subrange(i + 1, s.len() as int));
    }
}

/// Dropping the first occurrence of `x` from a duplicate-free list removes
/// `x` entirely, keeps every other id, and keeps the list duplicate-free.
pub proof fn lemma_remove_first_unique<T>(s: Seq<T>, x: T)
    requires
        unique_ids(s),
        s.contains(x),
    ensures
        unique_ids(remove_first(s, x)),
        !remove_first(s, x).contains(x),
        forall|y: T| y != x ==> remove_first(s, x).contains(y) == s.contains(y),
        remove_first(s, x).len() == s.len() - 1,
    decreases s.len(),
{
    let r = remove_first(s, x);
    if s[0] == x {
        assert(r =~= s.drop_first());
        assert forall|y: T| y != x implies r.contains(y) == s.contains(y) by {
            if s.contains(y) {
                let k = choose|k: int| 0 <= k < s.len() && s[k] == y;
                assert(r[k - 1] == y);
            }
            if r.contains(y) {
                let k = choose|k: int| 0 <= k < r.len() && r[k] == y;
                assert(s[k + 1] == y);
            }
        }
        assert(!r.contains(x)) by {
            if r.contains(x) {
                let k = choose|k: int| 0 <= k < r.len() && r[k] == x;
                assert(s[k + 1] == x && s[0] == x);
            }
        }
    } else {
        let rest = s.drop_first();
        assert(rest.contains(x)) by {
            let k = choose|k: int| 0 <= k < s.len() && s[k] == x;
            assert(rest[k - 1] == x);
        }
        assert(unique_ids(rest)) by {
            assert(forall|i: int, j: int|
                0 <= i < j < rest.len() ==> rest[i] == s[i + 1] && rest[j] == s[j + 1]);
        }
        lemma_remove_first_unique(rest, x);
        let rr = remove_first(rest, x);
        assert(r =~= seq![s[0]] + rr);
        assert(!s.drop_first().contains(s[0])) by {
            if rest.contains(s[0]) {
                let k = choose|k: int| 0 <= k < rest.len() && rest[k] == s[0];
                assert(s[k + 1] == s[0]);
            }
        }
        assert forall|y: T| y != x implies r.contains(y) == s.contains(y) by {
            if r.contains(y) {
                let k = choose|k: int| 0 <= k < r.len() && r[k] == y;
                if k == 0 {
                    assert(s[0] == y);
                } else {
                    assert(rr[k - 1] == y);
                    assert(rest.contains(y));
                    let k2 = choose|k2: int| 0 <= k2 < rest.len() && rest[k2] == y;
                    assert(s[k2 + 1] == y);
                }
            }
            if s.contains(y) {
                let k = choose|k: int| 0 <= k < s.len() && s[k] == y;
                if k == 0 {
                    assert(r[0] == y);
                } else {
                    assert(rest[k - 1] == y);
                    assert(rest.contains(y));
                    assert(rr.contains(y));
                    let k2 = choose|k2: int| 0 <= k2 < rr.len() && rr[k2] == y;
                    assert(r[k2 + 1] == y);
                }
            }
        }
        assert(!r.contains(x)) by {
            if r.contains(x) {
                let k = choose|k: int| 0 <= k < r.len() && r[k] == x;
                if k == 0 {
                    assert(s[0] == x);
                } else {
                    assert(rr[k - 1] == x);
                }
            }
        }
        assert(unique_ids(r)) by {
            assert forall|i: int, j: int| 0 <= i < j < r.len() implies r[i] != r[j] by {
                if i == 0 {
                    assert(r[j] == rr[j - 1]);
                    assert(rr.contains(rr[j - 1]));
                    assert(rest.contains(rr[j - 1]) || rr[j - 1] == x);
                    assert(!rest.contains(s[0]));
                } else {
                    assert(r[i] == rr[i - 1] && r[j] == rr[j - 1]);
                }
            }
        }
    }
}

/// Removing a freshly appended id restores the original list.
pub proof fn lemma_remove_first_push<T>(s: Seq<T>, x: T)
    requires
        !s.contains(x),
    ensures
        remove_first(s.push(x), x) == s,
    decreases s.len(),
{
    if s.len() == 0 {
        assert(s.push(x)[0] == x);
        assert(remove_first(s.push(x), x) =~= s);
    } else {
        assert(s.push(x)[0] == s[0]);
        assert(s[0] != x);
        assert(!s.drop_first().contains(x)) by {
            if s.drop_first().contains(x) {
                let k = choose|k: int| 0 <= k < s.drop_first().len() && s.drop_first()[k] == x;
                assert(s[k + 1] == x);
            }
        }
        assert(s.push(x).drop_first() =~= s.drop_first().push(x));
        lemma_remove_first_push(s.drop_first(), x);
        assert(remove_first(s.push(x), x) =~= s);
    }
}

/// Drops the first occurrence of `x`, reporting whether one was found.
pub fn remove_first_u64(v: &mut Vec<u64>, x: u64) -> (removed: bool)
    ensures
        final(v)@ == remove_first(old(v)@, x),
        removed == old(v)@.contains(x),
{
    let mut i: usize = 0;
    while i < v.len()
        invariant
            i <= v@.len(),
            v@ == old(v)@,
            forall|j: int| 0 <= j < i ==> v@[j] != x,
        decreases v@.len() - i,
    {
        if v[i] == x {
            v.remove(i);
            proof {
                lemma_remove_first_at(old(v)@, x, i as int);
                assert(v@ =~= old(v)@.subrange(0, i as int) + old(v)@.subrange(
                    i as int + 1,
                    old(v)@.len() as int,
                ));
            }
            return true;
        }
        i = i + 1;
    }
    proof {
        assert(forall|j: int| 0 <= j < v@.len() ==> v@[j] != x);
        lemma_remove_first_absent(v@, x);
    }
    false
}

/// Removing an id that is not in the list changes nothing.
pub proof fn lemma_remove_first_absent<T>(s: Seq<T>, x: T)
    requires
        !s.contains(x),
    ensures
        remove_first(s, x) == s,
    decreases s.len(),
{
    if s.len() == 0 {
    } else {
        assert(s[0] != x);
        assert(!s.drop_first().contains(x)) by {
            if s.drop_first().contains(x) {
                let k = choose|k: int| 0 <= k < s.drop_first().len() && s.drop_first()[k] == x;
                assert(s[k + 1] == x);
            }
        }
        lemma_remove_first_absent(s.drop_first(), x);
        assert(remove_first(s, x) =~= s);
    }
}

} // verus!
