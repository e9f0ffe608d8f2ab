use vstd::bytes::{
    lemma_auto_spec_u32_to_from_le_bytes, lemma_auto_spec_u64_to_from_le_bytes,
    spec_u32_from_le_bytes, spec_u32_to_le_bytes, spec_u64_from_le_bytes, spec_u64_to_le_bytes,
    u32_from_le_bytes, u32_to_le_bytes, u64_from_le_bytes, u64_to_le_bytes,
};
use vstd::prelude::*;
use vstd::array::array_as_slice;
use vstd::slice::slice_subrange;
use vstd::utf8::{decode_utf8, encode_utf8, valid_utf8};
use crate::state::{
    BatchAccount, BatchView, EntryView, OwnershipRecord, Pubkey, id_bytes, history_view, capacity_for,
    ENTRY_WIDTH,
};

verus! {

broadcast use vstd::utf8::group_utf8_lib;

/// Four little-endian bytes of a count or a length.
pub open spec fn u32_le(n: nat) -> Seq<u8> {
    spec_u32_to_le_bytes(n as u32)
}

/// Eight little-endian bytes of a signed timestamp.
pub open spec fn i64_le(v: i64) -> Seq<u8> {
    spec_u64_to_le_bytes(#[verifier::truncate] (v as u64))
}

/// The count or length read from the four bytes at `p`.
pub open spec fn u32_at(s: Seq<u8>, p: int) -> nat {
    spec_u32_from_le_bytes(s.subrange(p, p + 4)) as nat
}

/// The timestamp read from the eight bytes at `p`.
pub open spec fn i64_at(s: Seq<u8>, p: int) -> i64 {
    #[verifier::truncate] (spec_u64_from_le_bytes(s.subrange(p, p + 8)) as i64)
}

/// One custody entry: owner key, then timestamp.
pub open spec fn encode_entry(e: EntryView) -> Seq<u8> {
    e.owner + i64_le(e.timestamp)
}

/// The custody entry stored at `p`.
pub open spec fn entry_at(s: Seq<u8>, p: int) -> EntryView {
    EntryView { owner: s.subrange(p, p + 32), timestamp: i64_at(s, p + 32) }
}

/// The entries of a history, one after another, without their count.
pub open spec fn encode_history(h: Seq<EntryView>) -> Seq<u8>
    decreases h.len(),
{
    if h.len() == 0 {
        Seq::empty()
    } else {
        encode_history(h.drop_last()) + encode_entry(h.last())
    }
}

/// The byte of a boolean flag.
pub open spec fn flag_byte(b: bool) -> u8 {
    if b {
        1
    } else {
        0
    }
}

/// The stored layout of a record: length-prefixed identifier, manufacturer,
/// current owner, creation time, counted history, active flag.
pub open spec fn encode_record(r: BatchView) -> Seq<u8> {
    u32_le(id_bytes(r.batch_id).len()) + id_bytes(r.batch_id) + r.manufacturer + r.current_owner
        + i64_le(r.created_at) + u32_le(r.ownership_history.len()) + encode_history(
        r.ownership_history,
    ) + seq![flag_byte(r.is_active)]
}

/// Records that the layout can hold: keys of 32 bytes, lengths that fit
/// their four-byte prefixes.
pub open spec fn encodable(r: BatchView) -> bool {
    &&& id_bytes(r.batch_id).len() <= u32::MAX
    &&& r.manufacturer.len() == 32
    &&& r.current_owner.len() == 32
    &&& r.ownership_history.len() <= u32::MAX
    &&& forall|i: int|
        0 <= i < r.ownership_history.len() ==> #[trigger] r.ownership_history[i].owner.len() == 32
}

/// Number of bytes that `encode_record(r)` takes.
pub open spec fn encoded_len(r: BatchView) -> nat {
    (4 + id_bytes(r.batch_id).len() + 32 + 32 + 8 + 4 + ENTRY_WIDTH * r.ownership_history.len()
        + 1) as nat
}

/// The record at the start of `s`, if its leading bytes hold one; bytes after
/// the record are ignored.
pub open spec fn parse_record(s: Seq<u8>) -> Option<BatchView> {
    if s.len() < 4 {
        None
    } else {
        let p: int = 4 + u32_at(s, 0) as int;
        if s.len() < p + 76 {
            None
        } else if !valid_utf8(s.subrange(4, p)) {
            None
        } else {
            let n: int = u32_at(s, p + 72) as int;
            let hp: int = p + 76;
            if s.len() < hp + ENTRY_WIDTH * n + 1 {
                None
            } else if s[hp + ENTRY_WIDTH * n] > 1 {
                None
            } else {
                Some(
                    BatchView {
                        batch_id: decode_utf8(s.subrange(4, p)),
                        manufacturer: s.subrange(p, p + 32),
                        current_owner: s.subrange(p + 32, p + 64),
                        created_at: i64_at(s, p + 64),
                        ownership_history: Seq::new(n as nat, |i: int| entry_at(s, hp + ENTRY_WIDTH * i)),
                        is_active: s[hp + ENTRY_WIDTH * n] == 1,
                    },
                )
            }
        }
    }
}

proof fn lemma_i64_round_trip(v: i64)
    ensures
        i64_le(v).len() == 8,
        #[verifier::truncate] (spec_u64_from_le_bytes(i64_le(v)) as i64) == v,
{
    lemma_auto_spec_u64_to_from_le_bytes();
    assert((#[verifier::truncate] ((#[verifier::truncate] (v as u64)) as i64)) == v) by (bit_vector);
}

proof fn lemma_history_layout(h: Seq<EntryView>)
    requires
        forall|i: int| 0 <= i < h.len() ==> #[trigger] h[i].owner.len() == 32,
    ensures
        encode_history(h).len() == ENTRY_WIDTH * h.len(),
        forall|i: int|
            0 <= i < h.len() ==> encode_history(h).subrange(
                ENTRY_WIDTH * i,
                ENTRY_WIDTH * i + ENTRY_WIDTH,
            ) == encode_entry(#[trigger] h[i]),
    decreases h.len(),
{
    if h.len() > 0 {
        let init = h.drop_last();
        assert forall|i: int| 0 <= i < init.len() implies #[trigger] init[i].owner.len() == 32 by {
            assert(init[i] == h[i]);
        }
        lemma_history_layout(init);
        lemma_i64_round_trip(h.last().timestamp);
        let e = encode_history(h);
        assert forall|i: int| 0 <= i < h.len() implies e.subrange(
            ENTRY_WIDTH * i,
            ENTRY_WIDTH * i + ENTRY_WIDTH,
        ) == encode_entry(#[trigger] h[i]) by {
            if i < init.len() {
                assert(init[i] == h[i]);
                assert(e.subrange(ENTRY_WIDTH * i, ENTRY_WIDTH * i + ENTRY_WIDTH) =~= encode_history(
                    init,
                ).subrange(ENTRY_WIDTH * i, ENTRY_WIDTH * i + ENTRY_WIDTH));
            } else {
                assert(e.subrange(ENTRY_WIDTH * i, ENTRY_WIDTH * i + ENTRY_WIDTH) =~= encode_entry(
                    h.last(),
                ));
            }
        }
    }
}

/// Decoding what was encoded gives back the record, whatever bytes follow it.
pub proof fn lemma_decode_encode(r: BatchView, rest: Seq<u8>)
    requires
        encodable(r),
    ensures
        encode_record(r).len() == encoded_len(r),
        parse_record(encode_record(r) + rest) == Some(r),
{
    lemma_auto_spec_u32_to_from_le_bytes();
    lemma_i64_round_trip(r.created_at);
    lemma_history_layout(r.ownership_history);
    let b = id_bytes(r.batch_id);
    let h = r.ownership_history;
    let hist = encode_history(h);
    let s = encode_record(r) + rest;
    let p: int = 4 + b.len() as int;
    let n: int = h.len() as int;
    let hp: int = p + 76;
    assert(s.subrange(0, 4) =~= u32_le(b.len()));
    assert(u32_at(s, 0) == b.len());
    assert(s.subrange(4, p) =~= b);
    assert(s.subrange(p, p + 32) =~= r.manufacturer);
    assert(s.subrange(p + 32, p + 64) =~= r.current_owner);
    assert(s.subrange(p + 64, p + 72) =~= i64_le(r.created_at));
    assert(s.subrange(p + 72, p + 76) =~= u32_le(h.len()));
    assert(u32_at(s, p + 72) == n);
    assert(s.subrange(hp, hp + ENTRY_WIDTH * n) =~= hist);
    assert(s[hp + ENTRY_WIDTH * n] == flag_byte(r.is_active));
    let parsed = Seq::new(h.len(), |i: int| entry_at(s, hp + ENTRY_WIDTH * i));
    assert forall|i: int| 0 <= i < n implies parsed[i] == h[i] by {
        let q = hp + ENTRY_WIDTH * i;
        assert(s.subrange(q, q + ENTRY_WIDTH) =~= hist.subrange(
            ENTRY_WIDTH * i,
            ENTRY_WIDTH * i + ENTRY_WIDTH,
        ));
        lemma_i64_round_trip(h[i].timestamp);
        let ent = s.subrange(q, q + ENTRY_WIDTH);
        assert(ent == encode_entry(h[i]));
        assert(h[i].owner.len() == 32);
        assert(s.subrange(q, q + 32) =~= ent.subrange(0, 32));
        assert(s.subrange(q + 32, q + 40) =~= ent.subrange(32, 40));
        assert(ent.subrange(0, 32) =~= h[i].owner);
        assert(ent.subrange(32, 40) =~= i64_le(h[i].timestamp));
    }
    assert(parsed =~= h);
}

/// A well-formed record never takes more room than the slot reserved for its
/// identifier.
pub proof fn lemma_record_fits(r: BatchView)
    requires
        r.wf(),
    ensures
        encodable(r),
        encode_record(r).len() <= capacity_for(id_bytes(r.batch_id).len()),
{
    lemma_decode_encode(r, Seq::empty());
}

/// Every record that can be read from a slot can be written back.
pub proof fn lemma_parsed_encodable(s: Seq<u8>)
    requires
        parse_record(s) is Some,
    ensures
        encodable(parse_record(s)->Some_0),
{
    let p: int = 4 + u32_at(s, 0) as int;
    assert(id_bytes(parse_record(s)->Some_0.batch_id) == s.subrange(4, p));
}

/// Relies on `String::from_utf8`: it accepts exactly the byte strings that are
/// valid UTF-8, and the string it returns holds the characters they encode.
#[verifier::external_body]
pub(crate) fn utf8_string(bytes: Vec<u8>) -> (r: Option<String>)
    ensures
        r is Some <==> valid_utf8(bytes@),
        r matches Some(s) ==> s@ == decode_utf8(bytes@),
{
    String::from_utf8(bytes).ok()
}

pub(crate) fn push_all(out: &mut Vec<u8>, b: &[u8])
    ensures
        final(out)@ == old(out)@ + b@,
{
    let ghost start = out@;
    let mut i: usize = 0;
    while i < b.len()
        invariant
            0 <= i <= b@.len(),
            out@ == start + b@.subrange(0, i as int),
        decreases b@.len() - i,
    {
        out.push(b[i]);
        i = i + 1;
        assert(out@ =~= start + b@.subrange(0, i as int));
    }
    assert(b@.subrange(0, i as int) =~= b@);
}

fn push_i64(out: &mut Vec<u8>, v: i64)
    ensures
        final(out)@ == old(out)@ + i64_le(v),
{
    let bytes = u64_to_le_bytes(#[verifier::truncate] (v as u64));
    push_all(out, bytes.as_slice());
}

/// The stored layout of a record.
pub fn encode_batch(r: &BatchAccount) -> (out: Vec<u8>)
    requires
        encodable(r@),
    ensures
        out@ == encode_record(r@),
{
    let ghost rv = r@;
    let ghost hv = rv.ownership_history;
    let id: &[u8] = r.batch_id.as_str().as_bytes();
    let mut out: Vec<u8> = Vec::new();
    let len_bytes = u32_to_le_bytes(id.len() as u32);
    push_all(&mut out, len_bytes.as_slice());
    push_all(&mut out, id);
    push_all(&mut out, array_as_slice(&r.manufacturer.0));
    push_all(&mut out, array_as_slice(&r.current_owner.0));
    push_i64(&mut out, r.created_at);
    let count_bytes = u32_to_le_bytes(r.ownership_history.len() as u32);
    push_all(&mut out, count_bytes.as_slice());
    let ghost head = out@;
    let mut i: usize = 0;
    while i < r.ownership_history.len()
        invariant
            0 <= i <= hv.len(),
            hv == history_view(r.ownership_history@),
            out@ == head + encode_history(hv.take(i as int)),
        decreases hv.len() - i,
    {
        let e = r.ownership_history[i];
        push_all(&mut out, array_as_slice(&e.owner.0));
        push_i64(&mut out, e.timestamp);
        assert(hv.take(i + 1).drop_last() =~= hv.take(i as int));
        i = i + 1;
    }
    assert(hv.take(i as int) =~= hv);
    out.push(if r.is_active { 1u8 } else { 0u8 });
    out
}

pub(crate) fn copy_range(data: &[u8], from: usize, to: usize) -> (r: Vec<u8>)
    requires
        from <= to <= data@.len(),
    ensures
        r@ == data@.subrange(from as int, to as int),
{
    let mut r: Vec<u8> = Vec::new();
    push_all(&mut r, slice_subrange(data, from, to));
    r
}

pub(crate) fn key_at(data: &[u8], p: usize) -> (k: Pubkey)
    requires
        p + 32 <= data@.len(),
    ensures
        k@ == data@.subrange(p as int, p + 32),
{
    let len = data.len();
    let mut bytes: [u8; 32] = [0u8; 32];
    let mut i: usize = 0;
    while i < 32
        invariant
            0 <= i <= 32,
            len == data@.len(),
            p + 32 <= data@.len(),
            bytes@.len() == 32,
            forall|j: int| 0 <= j < i ==> bytes@[j] == data@[p + j],
        decreases 32 - i,
    {
        bytes.set(i, data[p + i]);
        i = i + 1;
    }
    assert(bytes@ =~= data@.subrange(p as int, p + 32));
    Pubkey(bytes)
}

pub(crate) fn u32_read(data: &[u8], p: usize) -> (n: u32)
    requires
        p + 4 <= data@.len(),
    ensures
        n as nat == u32_at(data@, p as int),
{
    // `data.len()` is a usize, so `p + 4` is one too.
    let _ = data.len();
    u32_from_le_bytes(slice_subrange(data, p, p + 4))
}

fn i64_read(data: &[u8], p: usize) -> (v: i64)
    requires
        p + 8 <= data@.len(),
    ensures
        v == i64_at(data@, p as int),
{
    // `data.len()` is a usize, so `p + 8` is one too.
    let _ = data.len();
    let bits = u64_from_le_bytes(slice_subrange(data, p, p + 8));
    #[verifier::truncate] (bits as i64)
}

/// The record held at the start of `data`, or `None` where its leading
/// bytes hold none.
pub fn decode_batch(data: &[u8]) -> (r: Option<BatchAccount>)
    ensures
        match r {
            Some(b) => parse_record(data@) == Some(b@),
            None => parse_record(data@) is None,
        },
{
    let len = data.len();
    if len < 4 {
        return None;
    }
    let n = u32_read(data, 0) as usize;
    if n > len - 4 || len - 4 - n < 76 {
        return None;
    }
    let p = 4 + n;
    let id = match utf8_string(copy_range(data, 4, p)) {
        Some(s) => s,
        None => {
            return None;
        },
    };
    let manufacturer = key_at(data, p);
    let current_owner = key_at(data, p + 32);
    let created_at = i64_read(data, p + 64);
    let hn = u32_read(data, p + 72) as usize;
    let hp = p + 76;
    if (hp as u128) + 40 * (hn as u128) + 1 > len as u128 {
        return None;
    }
    let ghost s = data@;
    let mut history: Vec<OwnershipRecord> = Vec::new();
    let mut i: usize = 0;
    while i < hn
        invariant
            0 <= i <= hn,
            s == data@,
            len == s.len(),
            hp + ENTRY_WIDTH * hn + 1 <= s.len(),
            history@.len() == i,
            forall|j: int|
                0 <= j < i ==> (#[trigger] history@[j])@ == entry_at(s, hp + ENTRY_WIDTH * j),
        decreases hn - i,
    {
        let q = hp + 40 * i;
        let owner = key_at(data, q);
        let timestamp = i64_read(data, q + 32);
        history.push(OwnershipRecord { owner, timestamp });
        i = i + 1;
    }
    let flag = data[hp + 40 * hn];
    if flag > 1 {
        return None;
    }
    let r = BatchAccount {
        batch_id: id,
        manufacturer,
        current_owner,
        created_at,
        ownership_history: history,
        is_active: flag == 1,
    };
    assert(history_view(r.ownership_history@) =~= Seq::new(
        hn as nat,
        |j: int| entry_at(s, hp + ENTRY_WIDTH * j),
    ));
    Some(r)
}

} // verus!
