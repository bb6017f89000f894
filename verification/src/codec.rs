//! Little-endian byte encodings and the length-encoded integer / string
//! codecs that the wire protocol uses everywhere.

use vstd::prelude::*;

verus! {

/// 256^k, the number of values a k-byte little-endian field can hold.
pub open spec fn pow256(k: nat) -> nat
    decreases k,
{
    if k == 0 {
        1
    } else {
        256 * pow256((k - 1) as nat)
    }
}

/// The k-byte little-endian encoding of n (mod 256^k).
pub open spec fn le_bytes(n: nat, k: nat) -> Seq<u8>
    decreases k,
{
    if k == 0 {
        Seq::empty()
    } else {
        seq![(n % 256) as u8] + le_bytes(n / 256, (k - 1) as nat)
    }
}

/// The value of a little-endian byte string.
pub open spec fn from_le(s: Seq<u8>) -> nat
    decreases s.len(),
{
    if s.len() == 0 {
        0
    } else {
        (s[0] + 256 * from_le(s.drop_first())) as nat
    }
}

pub proof fn lemma_le_bytes_len(n: nat, k: nat)
    ensures
        le_bytes(n, k).len() == k,
    decreases k,
{
    if k > 0 {
        lemma_le_bytes_len(n / 256, (k - 1) as nat);
    }
}

/// Decoding inverts encoding whenever the value fits in the field.
pub proof fn lemma_from_le_le_bytes(n: nat, k: nat)
    requires
        n < pow256(k),
    ensures
        from_le(le_bytes(n, k)) == n,
    decreases k,
{
    if k > 0 {
        let s = le_bytes(n, k);
        assert(s.drop_first() =~= le_bytes(n / 256, (k - 1) as nat));
        assert(n / 256 < pow256((k - 1) as nat)) by {
            assert(n < 256 * pow256((k - 1) as nat));
        };
        lemma_from_le_le_bytes(n / 256, (k - 1) as nat);
        assert(n % 256 + 256 * (n / 256) == n) by {
            vstd::arithmetic::div_mod::lemma_fundamental_div_mod(n as int, 256);
        };
    }
}

/// The 2-byte little-endian encoding written out.
pub proof fn lemma_le_bytes_2(l: nat)
    ensures
        le_bytes(l, 2) =~= seq![(l % 256) as u8, ((l / 256) % 256) as u8],
{
    assert(le_bytes((l / 256) / 256, 0) =~= Seq::<u8>::empty());
    assert(le_bytes(l / 256, 1) =~= seq![((l / 256) % 256) as u8] + le_bytes((l / 256) / 256, 0));
    assert(le_bytes(l, 2) =~= seq![(l % 256) as u8] + le_bytes(l / 256, 1));
}

/// The 3-byte little-endian encoding written out.
pub proof fn lemma_le_bytes_3(l: nat)
    ensures
        le_bytes(l, 3) =~= seq![
            (l % 256) as u8,
            ((l / 256) % 256) as u8,
            (((l / 256) / 256) % 256) as u8,
        ],
{
    lemma_le_bytes_2(l / 256);
    assert(le_bytes(l, 3) =~= seq![(l % 256) as u8] + le_bytes(l / 256, 2));
}

/// The value of a 2-byte little-endian field, written out.
pub proof fn lemma_from_le_2(s: Seq<u8>)
    requires
        s.len() == 2,
    ensures
        from_le(s) == s[0] + 256 * s[1],
{
    let s1 = s.drop_first();
    let s2 = s1.drop_first();
    assert(s2 =~= Seq::<u8>::empty());
    assert(from_le(s2) == 0);
    assert(from_le(s1) == s1[0] + 256 * from_le(s2));
    assert(s1[0] == s[1]);
}

/// The value of a 3-byte little-endian field, written out.
pub proof fn lemma_from_le_3(s: Seq<u8>)
    requires
        s.len() == 3,
    ensures
        from_le(s) == s[0] + 256 * s[1] + 65536 * s[2],
{
    let s1 = s.drop_first();
    lemma_from_le_2(s1);
    assert(s1[0] == s[1] && s1[1] == s[2]);
}

/// The length-encoded integer: 1 byte below 251, otherwise a marker byte
/// 0xfc / 0xfd / 0xfe followed by 2, 3 or 8 little-endian bytes.
pub open spec fn lenenc_int(n: u64) -> Seq<u8> {
    if n < 251 {
        seq![n as u8]
    } else if n < 0x10000 {
        seq![0xfcu8] + le_bytes(n as nat, 2)
    } else if n < 0x1000000 {
        seq![0xfdu8] + le_bytes(n as nat, 3)
    } else {
        seq![0xfeu8] + le_bytes(n as nat, 8)
    }
}

/// The size in bytes of the length-encoded form of n: 1, 3, 4 or 9.
pub open spec fn lenenc_size(n: u64) -> nat {
    if n < 251 {
        1
    } else if n < 0x10000 {
        3
    } else if n < 0x1000000 {
        4
    } else {
        9
    }
}

/// A length-encoded string: the length as a length-encoded integer, then the
/// raw bytes.
pub open spec fn lenenc_str(s: Seq<u8>) -> Seq<u8> {
    lenenc_int(s.len() as u64) + s
}

pub proof fn lemma_lenenc_len(n: u64)
    ensures
        lenenc_int(n).len() == lenenc_size(n),
{
    if n < 251 {
    } else if n < 0x10000 {
        lemma_le_bytes_len(n as nat, 2);
    } else if n < 0x1000000 {
        lemma_le_bytes_len(n as nat, 3);
    } else {
        lemma_le_bytes_len(n as nat, 8);
    }
}

/// Result of decoding a length-encoded integer at the head of a byte string:
/// the value and the number of bytes it occupied, or None when the bytes are
/// too short or start with a byte that heads no length-encoded integer.
pub open spec fn spec_read_lenenc(data: Seq<u8>) -> Option<(u64, nat)> {
    if data.len() == 0 {
        None
    } else if data[0] < 251 {
        Some((data[0] as u64, 1))
    } else if data[0] == 0xfc {
        if data.len() >= 3 {
            Some((from_le(data.subrange(1, 3)) as u64, 3))
        } else {
            None
        }
    } else if data[0] == 0xfd {
        if data.len() >= 4 {
            Some((from_le(data.subrange(1, 4)) as u64, 4))
        } else {
            None
        }
    } else if data[0] == 0xfe {
        if data.len() >= 9 {
            Some((from_le(data.subrange(1, 9)) as u64, 9))
        } else {
            None
        }
    } else {
        None
    }
}

/// Appends the k-byte little-endian encoding of n.
pub fn write_le(out: &mut Vec<u8>, n: u64, k: usize)
    requires
        k <= 8,
        old(out)@.len() + k <= usize::MAX,
    ensures
        final(out)@ == old(out)@ + le_bytes(n as nat, k as nat),
{
    let mut v: u64 = n;
    let mut i: usize = 0;
    while i < k
        invariant
            i <= k,
            k <= 8,
            old(out)@.len() + k <= usize::MAX,
            out@.len() == old(out)@.len() + i,
            old(out)@ + le_bytes(n as nat, k as nat) == out@ + le_bytes(
                v as nat,
                (k - i) as nat,
            ),
        decreases k - i,
    {
        proof {
            assert(le_bytes(v as nat, (k - i) as nat) == seq![(v as nat % 256) as u8] + le_bytes(
                v as nat / 256,
                (k - i - 1) as nat,
            ));
        }
        out.push((v % 256) as u8);
        v = v / 256;
        i = i + 1;
        proof {
            assert(old(out)@ + le_bytes(n as nat, k as nat) =~= out@ + le_bytes(
                v as nat,
                (k - i) as nat,
            ));
        }
    }
    proof {
        assert(le_bytes(v as nat, 0) =~= Seq::<u8>::empty());
        assert(final(out)@ =~= old(out)@ + le_bytes(n as nat, k as nat));
    }
}

/// Appends the length-encoded form of value.
pub fn write_len_int(out: &mut Vec<u8>, value: u64)
    requires
        old(out)@.len() + 9 <= usize::MAX,
    ensures
        final(out)@ == old(out)@ + lenenc_int(value),
{
    if value < 251 {
        out.push(value as u8);
        proof {
            assert(final(out)@ =~= old(out)@ + lenenc_int(value));
        }
    } else if value < 0x10000 {
        out.push(0xfc);
        write_le(out, value, 2);
        proof {
            assert(final(out)@ =~= old(out)@ + lenenc_int(value));
        }
    } else if value < 0x1000000 {
        out.push(0xfd);
        write_le(out, value, 3);
        proof {
            assert(final(out)@ =~= old(out)@ + lenenc_int(value));
        }
    } else {
        out.push(0xfe);
        write_le(out, value, 8);
        proof {
            assert(final(out)@ =~= old(out)@ + lenenc_int(value));
        }
    }
}

/// Appends the length-encoded form of a byte string.
pub fn write_len_str(out: &mut Vec<u8>, s: &[u8])
    requires
        old(out)@.len() + 9 + s@.len() <= usize::MAX,
    ensures
        final(out)@ == old(out)@ + lenenc_str(s@),
{
    write_len_int(out, s.len() as u64);
    out.extend_from_slice(s);
    proof {
        assert(final(out)@ =~= old(out)@ + lenenc_str(s@));
    }
}

/// The size in bytes that the length-encoded form of n occupies.
pub fn len_enc_int_size(n: u64) -> (r: usize)
    ensures
        r == lenenc_size(n),
{
    if n < 251 {
        1
    } else if n < 0x10000 {
        3
    } else if n < 0x1000000 {
        4
    } else {
        9
    }
}

/// The size in bytes of the length-encoded form of a byte string.
pub fn len_enc_str_size(v: &[u8]) -> (r: usize)
    requires
        v@.len() + 9 <= usize::MAX,
    ensures
        r == lenenc_size(v@.len() as u64) + v@.len(),
{
    len_enc_int_size(v.len() as u64) + v.len()
}

/// Reads the k-byte little-endian value at the head of data.
fn read_le(data: &[u8], k: usize) -> (r: u64)
    requires
        1 <= k <= 8,
        data@.len() >= k,
    ensures
        r == from_le(data@.subrange(0, k as int)) % 0x10000000000000000,
        k < 8 ==> r == from_le(data@.subrange(0, k as int)),
{
    let mut acc: u64 = 0;
    let mut i: usize = k;
    while i > 0
        invariant
            i <= k,
            k <= 8,
            data@.len() >= k,
            acc < pow256((k - i) as nat),
            acc == from_le(data@.subrange(i as int, k as int)),
        decreases i,
    {
        proof {
            assert(data@.subrange(i - 1, k as int).drop_first() =~= data@.subrange(i as int, k as int));
            lemma_pow256_values();
            lemma_pow256_le((k - i) as nat, 7);
        }
        acc = acc * 256 + (data[i - 1] as u64);
        i = i - 1;
        proof {
            assert(acc == from_le(data@.subrange(i as int, k as int)));
            lemma_from_le_bound(data@.subrange(i as int, k as int));
            lemma_le_of_subrange_len(data@, i as int, k as int);
        }
    }
    proof {
        lemma_pow256_values();
        lemma_pow256_le(k as nat, 8);
    }
    acc
}

proof fn lemma_le_of_subrange_len(s: Seq<u8>, a: int, b: int)
    requires
        0 <= a <= b <= s.len(),
    ensures
        from_le(s.subrange(a, b)) < pow256((b - a) as nat),
{
    lemma_from_le_bound(s.subrange(a, b));
}

pub proof fn lemma_from_le_bound(s: Seq<u8>)
    ensures
        from_le(s) < pow256(s.len()),
    decreases s.len(),
{
    if s.len() > 0 {
        lemma_from_le_bound(s.drop_first());
    }
}

/// The concrete powers of 256 that the codec's field widths use.
pub proof fn lemma_pow256_values()
    ensures
        pow256(2) == 0x10000,
        pow256(3) == 0x1000000,
        pow256(4) == 0x100000000,
        pow256(7) == 0x100000000000000,
        pow256(8) == 0x10000000000000000,
{
    assert(pow256(0) == 1);
    assert(pow256(1) == 256);
    assert(pow256(2) == 0x10000);
    assert(pow256(3) == 0x1000000);
    assert(pow256(4) == 0x100000000);
    assert(pow256(5) == 0x10000000000);
    assert(pow256(6) == 0x1000000000000);
    assert(pow256(7) == 0x100000000000000);
    assert(pow256(8) == 0x10000000000000000);
}

pub proof fn lemma_pow256_le(a: nat, b: nat)
    requires
        a <= b,
    ensures
        pow256(a) <= pow256(b),
    decreases b,
{
    if a < b {
        lemma_pow256_le(a, (b - 1) as nat);
    }
}

/// Decodes the length-encoded integer at position pos of data, returning the
/// value and the position just past it.
pub fn read_len_int(data: &[u8], pos: usize) -> (r: Option<(u64, usize)>)
    requires
        pos <= data@.len(),
    ensures
        match spec_read_lenenc(data@.skip(pos as int)) {
            Some((v, used)) => r == Some((v, (pos + used) as usize)),
            None => r == None::<(u64, usize)>,
        },
{
    let n = data.len();
    if pos >= n {
        return None;
    }
    let head = data[pos];
    let ghost rest = data@.skip(pos as int);
    if head < 251 {
        Some((head as u64, pos + 1))
    } else if head == 0xfc {
        if n - pos >= 3 {
            let v = read_le_at(data, pos + 1, 2);
            proof {
                assert(rest.subrange(1, 3) =~= data@.subrange(pos + 1, pos + 3));
            }
            Some((v, pos + 3))
        } else {
            None
        }
    } else if head == 0xfd {
        if n - pos >= 4 {
            let v = read_le_at(data, pos + 1, 3);
            proof {
                assert(rest.subrange(1, 4) =~= data@.subrange(pos + 1, pos + 4));
            }
            Some((v, pos + 4))
        } else {
            None
        }
    } else if head == 0xfe {
        if n - pos >= 9 {
            let v = read_le_at(data, pos + 1, 8);
            proof {
                assert(rest.subrange(1, 9) =~= data@.subrange(pos + 1, pos + 9));
                lemma_from_le_bound(data@.subrange(pos + 1, pos + 9));
                lemma_pow256_values();
            }
            Some((v, pos + 9))
        } else {
            None
        }
    } else {
        None
    }
}

/// Reads the k-byte little-endian value at position pos of data.
pub fn read_le_at(data: &[u8], pos: usize, k: usize) -> (r: u64)
    requires
        1 <= k <= 8,
        pos + k <= data@.len(),
    ensures
        r == from_le(data@.subrange(pos as int, pos + k)) % 0x10000000000000000,
        k < 8 ==> r == from_le(data@.subrange(pos as int, pos + k)),
{
    let n = data.len();
    let sub = &data[pos..pos + k];
    let r = read_le(sub, k);
    proof {
        assert(sub@.subrange(0, k as int) =~= data@.subrange(pos as int, pos + k));
    }
    r
}

/// Round trip: decoding the length-encoded form of any value yields the value
/// back, and the encoded length is lenenc_size of the value.
pub proof fn lemma_lenenc_round_trip(n: u64)
    ensures
        spec_read_lenenc(lenenc_int(n)) == Some((n, lenenc_size(n))),
        lenenc_int(n).len() == lenenc_size(n),
{
    lemma_lenenc_len(n);
    if n < 251 {
    } else if n < 0x10000 {
        let e = lenenc_int(n);
        lemma_le_bytes_len(n as nat, 2);
        assert(e.subrange(1, 3) =~= le_bytes(n as nat, 2));
        lemma_pow256_values();
        lemma_from_le_le_bytes(n as nat, 2);
    } else if n < 0x1000000 {
        let e = lenenc_int(n);
        lemma_le_bytes_len(n as nat, 3);
        assert(e.subrange(1, 4) =~= le_bytes(n as nat, 3));
        lemma_pow256_values();
        lemma_from_le_le_bytes(n as nat, 3);
    } else {
        let e = lenenc_int(n);
        lemma_le_bytes_len(n as nat, 8);
        assert(e.subrange(1, 9) =~= le_bytes(n as nat, 8));
        lemma_pow256_values();
        lemma_from_le_le_bytes(n as nat, 8);
    }
}


/// The position of the first zero byte, if any.
pub open spec fn first_zero(s: Seq<u8>) -> Option<nat>
    decreases s.len(),
{
    if s.len() == 0 {
        None
    } else if s[0] == 0 {
        Some(0)
    } else {
        match first_zero(s.drop_first()) {
            Some(i) => Some((i + 1) as nat),
            None => None,
        }
    }
}

/// The token a NUL-terminated read yields: the bytes before the first zero;
/// with no zero in sight, everything but the last byte, as the reader strips
/// one trailing byte whatever it is (nothing, when there are no bytes).
pub open spec fn until_zero_token(s: Seq<u8>) -> Seq<u8> {
    match first_zero(s) {
        Some(i) => s.take(i as int),
        None => if s.len() == 0 {
            s
        } else {
            s.take(s.len() - 1)
        },
    }
}

/// How many bytes a NUL-terminated read consumes: through the first zero, or
/// everything.
pub open spec fn until_zero_used(s: Seq<u8>) -> nat {
    match first_zero(s) {
        Some(i) => (i + 1) as nat,
        None => s.len(),
    }
}

/// Looking for the first zero past a zero-free prefix finds it in the rest.
pub proof fn lemma_first_zero_skip(s: Seq<u8>, i: nat)
    requires
        i <= s.len(),
        forall|j: int| 0 <= j < i ==> s[j] != 0,
    ensures
        first_zero(s) == match first_zero(s.skip(i as int)) {
            Some(k) => Some((i + k) as nat),
            None => None::<nat>,
        },
    decreases i,
{
    if i == 0 {
        assert(s.skip(0) =~= s);
    } else {
        assert(s.len() > 0 && s[0] != 0);
        let t = s.drop_first();
        assert(t.skip((i - 1) as int) =~= s.skip(i as int));
        lemma_first_zero_skip(t, (i - 1) as nat);
    }
}

/// Reads a NUL-terminated token at position pos: the bytes before the first
/// zero, consuming the zero too; with no zero, everything but the last byte.
/// Returns the token and the position just past what was consumed.
pub fn read_until_zero(data: &[u8], pos: usize) -> (r: (Vec<u8>, usize))
    requires
        pos <= data@.len(),
    ensures
        r.0@ == until_zero_token(data@.skip(pos as int)),
        r.1 == pos + until_zero_used(data@.skip(pos as int)),
        pos <= r.1 <= data@.len(),
{
    let ghost rest = data@.skip(pos as int);
    let n = data.len();
    let mut k: usize = pos;
    while k < n && data[k] != 0
        invariant
            pos <= k <= n,
            n == data@.len(),
            forall|j: int| pos <= j < k ==> data@[j] != 0,
        decreases n - k,
    {
        k = k + 1;
    }
    proof {
        assert(forall|j: int| 0 <= j < k - pos ==> rest[j] != 0);
        lemma_first_zero_skip(rest, (k - pos) as nat);
    }
    if k < n {
        proof {
            assert(rest.skip((k - pos) as int)[0] == 0);
            assert(first_zero(rest) == Some((k - pos) as nat));
        }
        let token = vstd::slice::slice_to_vec(&data[pos..k]);
        proof {
            assert(token@ =~= rest.take((k - pos) as int));
        }
        (token, k + 1)
    } else {
        proof {
            assert(rest.skip((k - pos) as int) =~= Seq::<u8>::empty());
            assert(first_zero(rest) is None);
        }
        if n == pos {
            let token: Vec<u8> = Vec::new();
            proof {
                assert(token@ =~= until_zero_token(rest));
            }
            (token, pos)
        } else {
            let token = vstd::slice::slice_to_vec(&data[pos..n - 1]);
            proof {
                assert(token@ =~= rest.take(rest.len() - 1));
            }
            (token, n)
        }
    }
}


/// A NUL-terminated read over a zero-free token followed by its NUL yields
/// exactly the token and consumes through the NUL.
pub proof fn lemma_until_zero_of(a: Seq<u8>, rest: Seq<u8>)
    requires
        forall|i: int| 0 <= i < a.len() ==> a[i] != 0,
    ensures
        until_zero_token(a + seq![0u8] + rest) == a,
        until_zero_used(a + seq![0u8] + rest) == a.len() + 1,
{
    let s = a + seq![0u8] + rest;
    assert(forall|j: int| 0 <= j < a.len() ==> s[j] != 0);
    lemma_first_zero_skip(s, a.len());
    assert(s.skip(a.len() as int)[0] == 0);
    assert(first_zero(s.skip(a.len() as int)) == Some(0nat));
    assert(first_zero(s) == Some(a.len()));
    assert(s.take(a.len() as int) =~= a);
}

} // verus!
