//! The bounded wire codec: variable-length integers, length-prefixed
//! UTF-8 strings and counted lists of strings.
use vstd::prelude::*;
use vstd::utf8::*;

use crate::error::ProcessManagerError;

verus! {

broadcast use {encode_utf8_valid_utf8, encode_utf8_decode_utf8};

/// Capacity of the buffer that carries one encoded request.
pub const REQUEST_DATA_SIZE: usize = 128;

/// Capacity of the buffer that carries one encoded reply.
pub const RAW_BUNDLE_ID_DATA_SIZE: usize = 100;

/// Bundle-id capacity a caller may reserve before the list grows.
pub const DEFAULT_BUNDLE_ID_CAPACITY: usize = 64;

/// Ordered list of bundle ids, in the order the manager reports them.
pub type BundleIdArray = Vec<String>;

/// The reply buffer as the transport fills it.
pub type RawBundleIdData = [u8; RAW_BUNDLE_ID_DATA_SIZE];

/// Most bytes a variable-length integer may take.
pub const VARINT_MAX_LEN: usize = 10;

/// LEB128 form of `n`: seven bits per byte, low bits first, the high bit
/// set on every byte but the last.
pub open spec fn varint(n: nat) -> Seq<u8>
    decreases n,
{
    if n < 128 {
        seq![n as u8]
    } else {
        seq![(n % 128 + 128) as u8] + varint(n / 128)
    }
}

/// A string on the wire: its UTF-8 length, then its UTF-8 bytes.
pub open spec fn enc_str(s: Seq<char>) -> Seq<u8> {
    varint(encode_utf8(s).len()) + encode_utf8(s)
}

/// The strings of `ids` one after the other.
pub open spec fn enc_items(ids: Seq<Seq<char>>) -> Seq<u8>
    decreases ids.len(),
{
    if ids.len() == 0 {
        Seq::empty()
    } else {
        enc_str(ids[0]) + enc_items(ids.drop_first())
    }
}

/// A list of strings on the wire: its count, then each string.
pub open spec fn enc_list(ids: Seq<Seq<char>>) -> Seq<u8> {
    varint(ids.len()) + enc_items(ids)
}

/// Upper bound (exclusive) of a value read from at most `k` bytes; the
/// last of ten bytes may only hold the top bit of a 64-bit value.
pub open spec fn varint_bound(k: nat) -> nat
    decreases k,
{
    if k <= 1 {
        2
    } else {
        128 * varint_bound((k - 1) as nat)
    }
}

/// Reads a variable-length integer from the front of `b`, using at most
/// `k` bytes: the value and the number of bytes it took.
pub open spec fn parse_varint_within(b: Seq<u8>, k: nat) -> Option<(nat, nat)>
    decreases k,
{
    if k == 0 || b.len() == 0 {
        None
    } else if b[0] < 128 {
        if k == 1 && b[0] > 1 {
            None
        } else {
            Some((b[0] as nat, 1))
        }
    } else {
        match parse_varint_within(b.drop_first(), (k - 1) as nat) {
            Some((v, n)) => Some((((b[0] - 128) + 128 * v) as nat, n + 1)),
            None => None,
        }
    }
}

/// Reads a 64-bit variable-length integer from the front of `b`.
pub open spec fn parse_varint(b: Seq<u8>) -> Option<(nat, nat)> {
    parse_varint_within(b, VARINT_MAX_LEN as nat)
}

/// Reads a string from the front of `b`: the string and the bytes it took.
pub open spec fn parse_str(b: Seq<u8>) -> Option<(Seq<char>, nat)> {
    match parse_varint(b) {
        Some((len, n)) => {
            if n + len <= b.len() && valid_utf8(b.subrange(n as int, (n + len) as int)) {
                Some((decode_utf8(b.subrange(n as int, (n + len) as int)), n + len))
            } else {
                None
            }
        },
        None => None,
    }
}

/// Reads `count` strings from the front of `b`.
pub open spec fn parse_items(b: Seq<u8>, count: nat) -> Option<(Seq<Seq<char>>, nat)>
    decreases count,
{
    if count == 0 {
        Some((Seq::empty(), 0))
    } else {
        match parse_str(b) {
            Some((s, n)) => match parse_items(b.skip(n as int), (count - 1) as nat) {
                Some((rest, m)) => Some((seq![s] + rest, n + m)),
                None => None,
            },
            None => None,
        }
    }
}

/// Reads a counted list of strings from the front of `b`; what follows
/// it is ignored.
pub open spec fn parse_list(b: Seq<u8>) -> Option<Seq<Seq<char>>> {
    match parse_varint(b) {
        Some((count, n)) => match parse_items(b.skip(n as int), count) {
            Some((ids, _)) => Some(ids),
            None => None,
        },
        None => None,
    }
}

proof fn lemma_varint_bound_grows(k: nat)
    requires
        1 <= k,
    ensures
        varint_bound(k) <= varint_bound(k + 1),
        varint_bound(k) >= 2,
    decreases k,
{
    if k > 1 {
        lemma_varint_bound_grows((k - 1) as nat);
    }
}

proof fn lemma_varint_bound_le_max(k: nat)
    requires
        1 <= k <= VARINT_MAX_LEN,
    ensures
        varint_bound(k) <= varint_bound(VARINT_MAX_LEN as nat),
    decreases VARINT_MAX_LEN - k,
{
    if k < VARINT_MAX_LEN {
        lemma_varint_bound_grows(k);
        lemma_varint_bound_le_max(k + 1);
    }
}

proof fn lemma_varint_bound_max()
    ensures
        varint_bound(VARINT_MAX_LEN as nat) == 0x1_0000_0000_0000_0000,
{
    reveal_with_fuel(varint_bound, 11);
}

/// A value read from at most `k` bytes stays under `varint_bound(k)` and
/// takes between one and `k` bytes.
proof fn lemma_parse_varint_within_bound(b: Seq<u8>, k: nat)
    requires
        parse_varint_within(b, k) is Some,
    ensures
        parse_varint_within(b, k).unwrap().0 < varint_bound(k),
        1 <= parse_varint_within(b, k).unwrap().1 <= k,
        parse_varint_within(b, k).unwrap().1 <= b.len(),
    decreases k,
{
    if b[0] < 128 {
        if k > 1 {
            lemma_varint_bound_grows(1);
            lemma_varint_bound_grows((k - 1) as nat);
            assert(varint_bound(k) >= 128 * 2);
        }
    } else {
        lemma_parse_varint_within_bound(b.drop_first(), (k - 1) as nat);
        let v = parse_varint_within(b.drop_first(), (k - 1) as nat).unwrap().0;
        assert(v < varint_bound((k - 1) as nat));
        assert((b[0] - 128) + 128 * v < 128 * varint_bound((k - 1) as nat)) by (nonlinear_arith)
            requires
                b[0] - 128 < 128,
                v < varint_bound((k - 1) as nat),
        ;
    }
}

/// `varint(n)` takes between one and ten bytes for a 64-bit `n`.
pub proof fn lemma_varint_len(n: nat)
    ensures
        1 <= varint(n).len(),
        n < 128 ==> varint(n).len() == 1,
    decreases n,
{
    if n >= 128 {
        lemma_varint_len(n / 128);
    }
}

/// Reading back `varint(n)` gives `n` and its length, whatever follows.
proof fn lemma_varint_round_trip_within(n: nat, rest: Seq<u8>, k: nat)
    requires
        1 <= k,
        n < varint_bound(k),
    ensures
        parse_varint_within(varint(n) + rest, k) == Some((n, varint(n).len())),
    decreases n,
{
    let b = varint(n) + rest;
    if n < 128 {
        assert(b[0] == n as u8);
        if k == 1 {
            assert(n < 2);
        }
    } else {
        if k == 1 {
            assert(false);
        }
        assert(n / 128 < varint_bound((k - 1) as nat)) by (nonlinear_arith)
            requires
                n < varint_bound(k),
                varint_bound(k) == 128 * varint_bound((k - 1) as nat),
        ;
        lemma_varint_round_trip_within(n / 128, rest, (k - 1) as nat);
        assert(b.drop_first() =~= varint(n / 128) + rest);
        assert(b[0] == (n % 128 + 128) as u8);
    }
}

pub proof fn lemma_varint_round_trip(n: nat, rest: Seq<u8>)
    requires
        n < 0x1_0000_0000_0000_0000,
    ensures
        parse_varint(varint(n) + rest) == Some((n, varint(n).len())),
{
    lemma_varint_bound_max();
    lemma_varint_round_trip_within(n, rest, VARINT_MAX_LEN as nat);
}

proof fn lemma_str_round_trip(s: Seq<char>, rest: Seq<u8>)
    requires
        encode_utf8(s).len() < 0x1_0000_0000_0000_0000,
    ensures
        parse_str(enc_str(s) + rest) == Some((s, enc_str(s).len())),
{
    let bytes = encode_utf8(s);
    let len = bytes.len();
    let b = enc_str(s) + rest;
    assert(b =~= varint(len) + (bytes + rest));
    lemma_varint_round_trip(len, bytes + rest);
    let n = varint(len).len();
    assert(b.subrange(n as int, (n + len) as int) =~= bytes);
}

/// The encoded list is as long as its count prefix and strings together,
/// and each string fits in it.
proof fn lemma_enc_items_len(ids: Seq<Seq<char>>)
    ensures
        enc_items(ids).len() >= ids.len(),
        forall|i: int| 0 <= i < ids.len() ==> encode_utf8(#[trigger] ids[i]).len() < enc_items(ids).len(),
    decreases ids.len(),
{
    if ids.len() > 0 {
        lemma_enc_items_len(ids.drop_first());
        lemma_varint_len(encode_utf8(ids[0]).len());
        assert forall|i: int| 0 <= i < ids.len() implies encode_utf8(#[trigger] ids[i]).len() < enc_items(ids).len() by {
            if i > 0 {
                assert(ids[i] == ids.drop_first()[i - 1]);
            }
        }
    }
}

proof fn lemma_items_round_trip(ids: Seq<Seq<char>>, rest: Seq<u8>)
    requires
        enc_items(ids).len() < 0x1_0000_0000_0000_0000,
    ensures
        parse_items(enc_items(ids) + rest, ids.len()) == Some((ids, enc_items(ids).len())),
    decreases ids.len(),
{
    if ids.len() > 0 {
        lemma_enc_items_len(ids);
        let tail = ids.drop_first();
        let b = enc_items(ids) + rest;
        assert(b =~= enc_str(ids[0]) + (enc_items(tail) + rest));
        lemma_str_round_trip(ids[0], enc_items(tail) + rest);
        let n = enc_str(ids[0]).len();
        assert(b.skip(n as int) =~= enc_items(tail) + rest);
        lemma_items_round_trip(tail, rest);
        assert(seq![ids[0]] + tail =~= ids);
    }
}

/// Decoding an encoded list of strings gives the list back, in order,
/// whatever bytes follow it in the buffer.
pub proof fn lemma_list_round_trip(ids: Seq<Seq<char>>, rest: Seq<u8>)
    requires
        enc_list(ids).len() < 0x1_0000_0000_0000_0000,
    ensures
        parse_list(enc_list(ids) + rest) == Some(ids),
{
    lemma_enc_items_len(ids);
    let b = enc_list(ids) + rest;
    assert(b =~= varint(ids.len()) + (enc_items(ids) + rest));
    lemma_varint_round_trip(ids.len(), enc_items(ids) + rest);
    let n = varint(ids.len()).len();
    assert(b.skip(n as int) =~= enc_items(ids) + rest);
    lemma_items_round_trip(ids, rest);
}

/// A list read from a reply: the reply must fit the reply buffer and
/// start with a well-formed list.
pub open spec fn reply_list(b: Seq<u8>) -> Option<Seq<Seq<char>>> {
    if b.len() > RAW_BUNDLE_ID_DATA_SIZE {
        None
    } else {
        parse_list(b)
    }
}

/// A string read from a reply: the reply must fit the reply buffer and
/// start with a well-formed string.
pub open spec fn reply_str(b: Seq<u8>) -> Option<Seq<char>> {
    if b.len() > RAW_BUNDLE_ID_DATA_SIZE {
        None
    } else {
        match parse_str(b) {
            Some((s, _)) => Some(s),
            None => None,
        }
    }
}

/// A value read takes at least as many bytes as its own encoding.
proof fn lemma_parse_varint_within_size(b: Seq<u8>, k: nat)
    requires
        parse_varint_within(b, k) is Some,
    ensures
        varint(parse_varint_within(b, k).unwrap().0).len() <= parse_varint_within(b, k).unwrap().1,
    decreases k,
{
    if b[0] >= 128 {
        let (v1, n1) = parse_varint_within(b.drop_first(), (k - 1) as nat).unwrap();
        lemma_parse_varint_within_size(b.drop_first(), (k - 1) as nat);
        let low = (b[0] - 128) as nat;
        let v = low + 128 * v1;
        if v >= 128 {
            assert(v / 128 == v1 && v % 128 == low) by (nonlinear_arith)
                requires
                    v == low + 128 * v1,
                    low < 128,
            ;
        }
    }
}

proof fn lemma_parse_str_size(b: Seq<u8>)
    requires
        parse_str(b) is Some,
    ensures
        enc_str(parse_str(b).unwrap().0).len() <= parse_str(b).unwrap().1 <= b.len(),
{
    let (len, m) = parse_varint(b).unwrap();
    lemma_parse_varint_within_size(b, VARINT_MAX_LEN as nat);
    let sub = b.subrange(m as int, (m + len) as int);
    decode_utf8_encode_utf8(sub);
}

proof fn lemma_parse_items_size(b: Seq<u8>, count: nat)
    requires
        parse_items(b, count) is Some,
    ensures
        enc_items(parse_items(b, count).unwrap().0).len() <= parse_items(b, count).unwrap().1
            <= b.len(),
        parse_items(b, count).unwrap().0.len() == count,
    decreases count,
{
    if count > 0 {
        let (s, n) = parse_str(b).unwrap();
        lemma_parse_str_size(b);
        let (rest, m) = parse_items(b.skip(n as int), (count - 1) as nat).unwrap();
        lemma_parse_items_size(b.skip(n as int), (count - 1) as nat);
        let ids = seq![s] + rest;
        assert(ids[0] == s);
        assert(ids.drop_first() =~= rest);
    }
}

/// Whatever list a buffer holds, its own encoding is no longer than the
/// buffer.
pub proof fn lemma_parse_list_size(b: Seq<u8>)
    requires
        parse_list(b) is Some,
    ensures
        enc_list(parse_list(b).unwrap()).len() <= b.len(),
{
    let (count, n) = parse_varint(b).unwrap();
    lemma_parse_varint_within_size(b, VARINT_MAX_LEN as nat);
    lemma_parse_varint_within_bound(b, VARINT_MAX_LEN as nat);
    lemma_parse_items_size(b.skip(n as int), count);
}

/// Whatever string a buffer starts with, its own encoding is no longer
/// than the buffer.
pub proof fn lemma_parse_str_fits(b: Seq<u8>)
    requires
        parse_str(b) is Some,
    ensures
        enc_str(parse_str(b).unwrap().0).len() <= b.len(),
{
    lemma_parse_str_size(b);
}

proof fn lemma_varint_len_within(n: nat, k: nat)
    requires
        1 <= k,
        n < varint_bound(k),
    ensures
        varint(n).len() <= k,
    decreases n,
{
    if n >= 128 {
        if k == 1 {
            assert(false);
        }
        assert(n / 128 < varint_bound((k - 1) as nat)) by (nonlinear_arith)
            requires
                n < varint_bound(k),
                varint_bound(k) == 128 * varint_bound((k - 1) as nat),
        ;
        lemma_varint_len_within(n / 128, (k - 1) as nat);
    }
}

proof fn lemma_enc_items_append(a: Seq<Seq<char>>, b: Seq<Seq<char>>)
    ensures
        enc_items(a + b) == enc_items(a) + enc_items(b),
    decreases a.len(),
{
    if a.len() == 0 {
        assert(a + b =~= b);
        assert(enc_items(a) + enc_items(b) =~= enc_items(b));
    } else {
        lemma_enc_items_append(a.drop_first(), b);
        assert((a + b).drop_first() =~= a.drop_first() + b);
        assert((a + b)[0] == a[0]);
        assert(enc_items(a + b) =~= enc_str(a[0]) + (enc_items(a.drop_first()) + enc_items(b)));
    }
}

proof fn lemma_enc_items_split(ids: Seq<Seq<char>>, i: int)
    requires
        0 <= i < ids.len(),
    ensures
        enc_items(ids.take(i + 1)) == enc_items(ids.take(i)) + enc_str(ids[i]),
        enc_items(ids) == enc_items(ids.take(i)) + enc_str(ids[i]) + enc_items(ids.skip(i + 1)),
{
    let one = seq![ids[i]];
    assert(one.drop_first() =~= Seq::<Seq<char>>::empty());
    assert(one[0] == ids[i]);
    assert(enc_items(one.drop_first()) == Seq::<u8>::empty());
    assert(enc_items(one) =~= enc_str(ids[i]));
    assert(ids.take(i + 1) =~= ids.take(i) + one);
    lemma_enc_items_append(ids.take(i), one);
    assert(ids =~= ids.take(i + 1) + ids.skip(i + 1));
    lemma_enc_items_append(ids.take(i + 1), ids.skip(i + 1));
}

/// Number of bytes `varint(n)` takes.
pub fn varint_size(n: u64) -> (r: usize)
    ensures
        r == varint(n as nat).len(),
        1 <= r <= VARINT_MAX_LEN,
{
    proof {
        lemma_varint_bound_max();
        lemma_varint_len_within(n as nat, VARINT_MAX_LEN as nat);
    }
    let mut v: u64 = n;
    let mut size: usize = 1;
    while v >= 128
        invariant
            1 <= size,
            size - 1 + varint(v as nat).len() == varint(n as nat).len(),
            varint(n as nat).len() <= VARINT_MAX_LEN,
        decreases v,
    {
        proof {
            lemma_varint_len((v / 128) as nat);
        }
        v = v / 128;
        size = size + 1;
    }
    size
}

/// Appends `varint(n)` to `out` when the result stays within `capacity`;
/// leaves `out` as it was otherwise.
pub fn push_varint(out: &mut Vec<u8>, n: u64, capacity: usize) -> (ok: bool)
    ensures
        ok <==> old(out)@.len() + varint(n as nat).len() <= capacity,
        ok ==> final(out)@ == old(out)@ + varint(n as nat),
        !ok ==> final(out)@ == old(out)@,
{
    let size = varint_size(n);
    if size > capacity || out.len() > capacity - size {
        return false;
    }
    let mut v: u64 = n;
    while v >= 128
        invariant
            old(out)@ + varint(n as nat) == out@ + varint(v as nat),
        decreases v,
    {
        let ghost prev = out@;
        out.push((v % 128 + 128) as u8);
        assert(varint(v as nat) == seq![(v % 128 + 128) as u8] + varint((v / 128) as nat));
        assert(prev + varint(v as nat) =~= out@ + varint((v / 128) as nat));
        v = v / 128;
    }
    let ghost prev = out@;
    out.push(v as u8);
    assert(out@ =~= prev + varint(v as nat));
    true
}

/// Appends all of `bytes` to `out`.
fn push_bytes(out: &mut Vec<u8>, bytes: &[u8])
    ensures
        final(out)@ == old(out)@ + bytes@,
{
    let mut i: usize = 0;
    while i < bytes.len()
        invariant
            i <= bytes@.len(),
            out@ == old(out)@ + bytes@.take(i as int),
        decreases bytes@.len() - i,
    {
        out.push(bytes[i]);
        assert(bytes@.take(i + 1) =~= bytes@.take(i as int).push(bytes@[i as int]));
        i = i + 1;
    }
    assert(bytes@.take(i as int) =~= bytes@);
}

/// Appends `enc_str(s)` to `out` when the result stays within
/// `capacity`; leaves `out` as it was otherwise.
pub fn push_str(out: &mut Vec<u8>, s: &str, capacity: usize) -> (ok: bool)
    ensures
        ok <==> old(out)@.len() + enc_str(s@).len() <= capacity,
        ok ==> final(out)@ == old(out)@ + enc_str(s@),
        !ok ==> final(out)@ == old(out)@,
{
    let bytes = s.as_bytes();
    let len = bytes.len();
    let size = varint_size(len as u64);
    if size > capacity || len > capacity - size || out.len() > capacity - size - len {
        return false;
    }
    let ghost start = out@;
    let fits = push_varint(out, len as u64, capacity);
    assert(fits);
    push_bytes(out, bytes);
    assert(out@ =~= start + enc_str(s@));
    true
}

/// Encodes a list of bundle ids for the reply buffer. Fails with
/// `SerializeError`, and writes nothing, when the encoded list would not
/// fit in `RAW_BUNDLE_ID_DATA_SIZE` bytes.
pub fn encode_bundle_ids(ids: &Vec<String>) -> (r: Result<Vec<u8>, ProcessManagerError>)
    ensures
        enc_list(ids.deep_view()).len() <= RAW_BUNDLE_ID_DATA_SIZE ==> (r matches Ok(b) && b@
            == enc_list(ids.deep_view())),
        enc_list(ids.deep_view()).len() > RAW_BUNDLE_ID_DATA_SIZE ==> r == Err::<Vec<u8>, _>(
            ProcessManagerError::SerializeError,
        ),
{
    let ghost items = ids.deep_view();
    let mut out: Vec<u8> = Vec::new();
    if !push_varint(&mut out, ids.len() as u64, RAW_BUNDLE_ID_DATA_SIZE) {
        proof {
            lemma_enc_items_len(items);
        }
        return Err(ProcessManagerError::SerializeError);
    }
    let mut i: usize = 0;
    while i < ids.len()
        invariant
            items == ids.deep_view(),
            items.len() == ids@.len(),
            i <= ids@.len(),
            out@ == varint(ids@.len() as nat) + enc_items(items.take(i as int)),
            out@.len() <= RAW_BUNDLE_ID_DATA_SIZE,
        decreases ids@.len() - i,
    {
        proof {
            lemma_enc_items_split(items, i as int);
        }
        assert(items[i as int] == ids@[i as int]@);
        let ghost prev = out@;
        if !push_str(&mut out, ids[i].as_str(), RAW_BUNDLE_ID_DATA_SIZE) {
            assert(enc_list(items) =~= prev + enc_str(items[i as int]) + enc_items(
                items.skip(i + 1),
            ));
            return Err(ProcessManagerError::SerializeError);
        }
        assert(out@ =~= varint(ids@.len() as nat) + enc_items(items.take(i + 1)));
        i = i + 1;
    }
    assert(items.take(i as int) =~= items);
    Ok(out)
}

/// Reads a variable-length integer of at most `k` bytes from `b` at `pos`.
fn take_varint(b: &[u8], pos: usize, k: usize) -> (r: Option<(u64, usize)>)
    requires
        pos <= b@.len(),
        k <= VARINT_MAX_LEN,
    ensures
        r is Some <==> parse_varint_within(b@.skip(pos as int), k as nat) is Some,
        r matches Some((v, n)) ==> parse_varint_within(b@.skip(pos as int), k as nat) == Some(
            (v as nat, n as nat),
        ),
    decreases k,
{
    if k == 0 || pos >= b.len() {
        return None;
    }
    let byte = b[pos];
    assert(b@.skip(pos as int)[0] == byte);
    if byte < 128 {
        if k == 1 && byte > 1 {
            None
        } else {
            Some((byte as u64, 1))
        }
    } else {
        assert(b@.skip(pos as int).drop_first() =~= b@.skip(pos + 1));
        match take_varint(b, pos + 1, k - 1) {
            Some((v, n)) => {
                proof {
                    lemma_parse_varint_within_bound(b@.skip(pos + 1), (k - 1) as nat);
                    lemma_varint_bound_le_max(k as nat);
                    lemma_varint_bound_max();
                    assert((byte - 128) + 128 * v < 128 * varint_bound((k - 1) as nat))
                        by (nonlinear_arith)
                        requires
                            byte - 128 < 128,
                            v < varint_bound((k - 1) as nat),
                    ;
                }
                Some(((byte - 128) as u64 + 128 * v, n + 1))
            },
            None => None,
        }
    }
}

/// Copies `b[start..end]` into a new vector.
fn copy_range(b: &[u8], start: usize, end: usize) -> (r: Vec<u8>)
    requires
        start <= end <= b@.len(),
    ensures
        r@ == b@.subrange(start as int, end as int),
{
    let mut out: Vec<u8> = Vec::new();
    let mut i: usize = start;
    while i < end
        invariant
            start <= i <= end,
            end <= b@.len(),
            out@ == b@.subrange(start as int, i as int),
        decreases end - i,
    {
        out.push(b[i]);
        assert(b@.subrange(start as int, i + 1) =~= b@.subrange(start as int, i as int).push(
            b@[i as int],
        ));
        i = i + 1;
    }
    out
}

/// Relies on `String::from_utf8`: it accepts exactly the well-formed
/// UTF-8 byte sequences and then holds the characters they encode.
#[verifier::external_body]
fn string_from_utf8(bytes: Vec<u8>) -> (r: Option<String>)
    ensures
        r is Some <==> valid_utf8(bytes@),
        r matches Some(s) ==> s@ == decode_utf8(bytes@),
{
    match String::from_utf8(bytes) {
        Ok(s) => Some(s),
        Err(_) => None,
    }
}

/// Reads a length-prefixed string from `b` at `pos`: the string and the
/// number of bytes it took.
pub fn decode_str(b: &[u8], pos: usize) -> (r: Option<(String, usize)>)
    requires
        pos <= b@.len(),
    ensures
        r is Some <==> parse_str(b@.skip(pos as int)) is Some,
        r matches Some((s, n)) ==> parse_str(b@.skip(pos as int)) == Some((s@, n as nat)),
{
    let ghost rest = b@.skip(pos as int);
    let total = b.len();
    match take_varint(b, pos, VARINT_MAX_LEN) {
        None => None,
        Some((len, n)) => {
            proof {
                lemma_parse_varint_within_bound(rest, VARINT_MAX_LEN as nat);
                assert(rest.len() == b@.len() - pos);
                assert(n <= rest.len());
            }
            let start = pos + n;
            if len > (total - start) as u64 {
                return None;
            }
            let end = start + len as usize;
            let bytes = copy_range(b, start, end);
            assert(rest.subrange(n as int, n + len) =~= b@.subrange(start as int, end as int));
            match string_from_utf8(bytes) {
                Some(s) => Some((s, n + len as usize)),
                None => None,
            }
        },
    }
}

/// Decodes a list of bundle ids from the front of a reply buffer; bytes
/// after the list are ignored. Fails with `DeserializeError` exactly when
/// the buffer is longer than `RAW_BUNDLE_ID_DATA_SIZE` or does not start
/// with a well-formed list, so a decoded list always fits the buffer.
pub fn decode_bundle_ids(b: &[u8]) -> (r: Result<Vec<String>, ProcessManagerError>)
    ensures
        reply_list(b@) matches Some(ids) ==> (r matches Ok(v) && v.deep_view() == ids),
        reply_list(b@) is None ==> r == Err::<Vec<String>, _>(
            ProcessManagerError::DeserializeError,
        ),
        r matches Ok(v) ==> enc_list(v.deep_view()).len() <= RAW_BUNDLE_ID_DATA_SIZE,
{
    if b.len() > RAW_BUNDLE_ID_DATA_SIZE {
        return Err(ProcessManagerError::DeserializeError);
    }
    assert(b@.skip(0) =~= b@);
    let (count, n) = match take_varint(b, 0, VARINT_MAX_LEN) {
        Some(x) => x,
        None => {
            return Err(ProcessManagerError::DeserializeError);
        },
    };
    proof {
        lemma_parse_varint_within_bound(b@, VARINT_MAX_LEN as nat);
    }
    let total = b.len();
    let mut ids: Vec<String> = Vec::new();
    let mut pos: usize = n;
    let mut i: u64 = 0;
    assert(ids.deep_view() =~= Seq::<Seq<char>>::empty());
    while i < count
        invariant
            total == b@.len(),
            pos <= b@.len(),
            i <= count,
            parse_list(b@) == match parse_items(b@.skip(pos as int), (count - i) as nat) {
                Some((rest, _)) => Some(ids.deep_view() + rest),
                None => None::<Seq<Seq<char>>>,
            },
        decreases count - i,
    {
        let ghost here = b@.skip(pos as int);
        match decode_str(b, pos) {
            None => {
                return Err(ProcessManagerError::DeserializeError);
            },
            Some((s, m)) => {
                let ghost before = ids.deep_view();
                assert(m <= here.len()) by {
                    let (len, k) = parse_varint(here).unwrap();
                    assert(k + len <= here.len());
                }
                assert(here.skip(m as int) =~= b@.skip(pos + m));
                ids.push(s);
                assert(ids.deep_view() =~= before.push(s@));
                proof {
                    match parse_items(b@.skip(pos + m), (count - i - 1) as nat) {
                        Some((rest, _)) => {
                            assert(before + (seq![s@] + rest) =~= ids.deep_view() + rest);
                        },
                        None => {},
                    }
                }
                pos = pos + m;
                i = i + 1;
            },
        }
    }
    assert(ids.deep_view() + Seq::<Seq<char>>::empty() =~= ids.deep_view());
    proof {
        lemma_parse_list_size(b@);
    }
    Ok(ids)
}

/// Appends all of `bytes` to `out` when the result stays within
/// `capacity`; leaves `out` as it was otherwise.
pub fn push_slice(out: &mut Vec<u8>, bytes: &[u8], capacity: usize) -> (ok: bool)
    ensures
        ok <==> old(out)@.len() + bytes@.len() <= capacity,
        ok ==> final(out)@ == old(out)@ + bytes@,
        !ok ==> final(out)@ == old(out)@,
{
    if bytes.len() > capacity || out.len() > capacity - bytes.len() {
        return false;
    }
    push_bytes(out, bytes);
    true
}

} // verus!
