//! The stable byte encoding of a task record.
//!
//! A record is laid out as a 59-byte fixed header followed by the three
//! free-text fields.  The header opens with a format tag and a layout
//! version, so a stored blob says what it is and later layouts can be told
//! apart from this one:
//!
//! ```text
//! [0]      format tag       FORMAT_TAG
//! [1]      layout version   FORMAT_VERSION
//! [2..10)  id               little-endian u64
//! [10..18) duration         little-endian u64
//! [18]     is_active        0 or 1
//! [19..27) created_at       little-endian u64
//! [27..35) updated_at       little-endian u64
//! [35..43) owner length     little-endian u64
//! [43..51) assignee length  little-endian u64
//! [51..59) description len  little-endian u64
//! [59..)   owner bytes, assignee bytes, description bytes
//! ```
//!
//! Every legal record encodes to at most [`MAX_VALUE_SIZE`] bytes; the
//! storage layer checks that bound before each write.  Decoding rejects any
//! byte string that is not exactly the encoding of a legal record.

use vstd::prelude::*;

use crate::record::{TodoItem, TodoModel, MAX_FIELD_LEN};

verus! {

/// Largest serialized record the durable table accepts.
pub const MAX_VALUE_SIZE: usize = 500;

/// Number of bytes in the fixed header of an encoded record.
pub const HEADER_LEN: usize = 59;

/// First byte of every encoded record: marks the blob as a task record.
pub const FORMAT_TAG: u8 = 0x54;

/// Second byte of every encoded record: the layout version this module
/// writes and reads.
pub const FORMAT_VERSION: u8 = 1;

/// The eight bytes of `v` in little-endian order.
pub open spec fn u64_le_bytes(v: u64) -> Seq<u8> {
    seq![
        (v & 0xff) as u8,
        ((v >> 8) & 0xff) as u8,
        ((v >> 16) & 0xff) as u8,
        ((v >> 24) & 0xff) as u8,
        ((v >> 32) & 0xff) as u8,
        ((v >> 40) & 0xff) as u8,
        ((v >> 48) & 0xff) as u8,
        ((v >> 56) & 0xff) as u8,
    ]
}

/// The u64 held little-endian in `b[i .. i + 8]`.
pub open spec fn read_u64_le(b: Seq<u8>, i: int) -> u64 {
    (b[i] as u64)
    | ((b[i + 1] as u64) << 8)
    | ((b[i + 2] as u64) << 16)
    | ((b[i + 3] as u64) << 24)
    | ((b[i + 4] as u64) << 32)
    | ((b[i + 5] as u64) << 40)
    | ((b[i + 6] as u64) << 48)
    | ((b[i + 7] as u64) << 56)
}

/// The fixed header of a record's encoding.
pub open spec fn spec_header(m: TodoModel) -> Seq<u8> {
    seq![FORMAT_TAG, FORMAT_VERSION] + u64_le_bytes(m.id) + u64_le_bytes(m.duration)
        + seq![if m.is_active { 1u8 } else { 0u8 }]
        + u64_le_bytes(m.created_at) + u64_le_bytes(m.updated_at)
        + u64_le_bytes(m.owner.len() as u64) + u64_le_bytes(m.assignee.len() as u64)
        + u64_le_bytes(m.description.len() as u64)
}

/// The full encoding of a record.
pub open spec fn spec_encode(m: TodoModel) -> Seq<u8> {
    spec_header(m) + m.owner + m.assignee + m.description
}

/// The record a byte string holds, or `None` where the bytes are not the
/// encoding of a legal record.
pub open spec fn spec_decode(b: Seq<u8>) -> Option<TodoModel> {
    if b.len() < HEADER_LEN {
        None
    } else {
        let id = read_u64_le(b, 2);
        let duration = read_u64_le(b, 10);
        let flag = b[18];
        let created_at = read_u64_le(b, 19);
        let updated_at = read_u64_le(b, 27);
        let ol = read_u64_le(b, 35);
        let al = read_u64_le(b, 43);
        let dl = read_u64_le(b, 51);
        if b[0] != FORMAT_TAG || b[1] != FORMAT_VERSION
            || flag > 1 || ol > MAX_FIELD_LEN as u64 || al > MAX_FIELD_LEN as u64
            || dl > MAX_FIELD_LEN as u64 || b.len() != HEADER_LEN + ol + al + dl {
            None
        } else {
            Some(TodoModel {
                owner: b.subrange(HEADER_LEN as int, HEADER_LEN + ol),
                id,
                assignee: b.subrange(HEADER_LEN + ol, HEADER_LEN + ol + al),
                description: b.subrange(HEADER_LEN + ol + al, HEADER_LEN + ol + al + dl),
                duration,
                is_active: flag == 1,
                updated_at,
                created_at,
            })
        }
    }
}

/// Appends the little-endian bytes of `v`.
pub fn push_u64_le(out: &mut Vec<u8>, v: u64)
    ensures
        final(out)@ == old(out)@ + u64_le_bytes(v),
{
    proof {
        assert(v & 0xff <= 0xff && (v >> 8) & 0xff <= 0xff && (v >> 16) & 0xff <= 0xff
            && (v >> 24) & 0xff <= 0xff && (v >> 32) & 0xff <= 0xff && (v >> 40) & 0xff <= 0xff
            && (v >> 48) & 0xff <= 0xff && (v >> 56) & 0xff <= 0xff) by (bit_vector);
    }
    out.push((v & 0xff) as u8);
    out.push(((v >> 8) & 0xff) as u8);
    out.push(((v >> 16) & 0xff) as u8);
    out.push(((v >> 24) & 0xff) as u8);
    out.push(((v >> 32) & 0xff) as u8);
    out.push(((v >> 40) & 0xff) as u8);
    out.push(((v >> 48) & 0xff) as u8);
    out.push(((v >> 56) & 0xff) as u8);
    proof {
        assert(out@ =~= old(out)@ + u64_le_bytes(v));
    }
}

/// Appends a copy of `src`.
pub fn push_bytes(out: &mut Vec<u8>, src: &Vec<u8>)
    ensures
        final(out)@ == old(out)@ + src@,
{
    let mut i: usize = 0;
    while i < src.len()
        invariant
            i <= src@.len(),
            out@ == old(out)@ + src@.subrange(0, i as int),
        decreases src@.len() - i,
    {
        out.push(src[i]);
        proof {
            assert(out@ =~= old(out)@ + src@.subrange(0, i + 1));
        }
        i = i + 1;
    }
    proof {
        assert(src@.subrange(0, src@.len() as int) =~= src@);
    }
}

/// Reads the u64 held little-endian at offset `i`.
pub fn read_u64_at(b: &Vec<u8>, i: usize) -> (r: u64)
    requires
        i + 8 <= b@.len(),
    ensures
        r == read_u64_le(b@, i as int),
{
    let _n: usize = b.len();
    (b[i] as u64)
    | ((b[i + 1] as u64) << 8)
    | ((b[i + 2] as u64) << 16)
    | ((b[i + 3] as u64) << 24)
    | ((b[i + 4] as u64) << 32)
    | ((b[i + 5] as u64) << 40)
    | ((b[i + 6] as u64) << 48)
    | ((b[i + 7] as u64) << 56)
}

/// Copies `len` bytes starting at `start`.
pub fn copy_range(b: &Vec<u8>, start: usize, len: usize) -> (r: Vec<u8>)
    requires
        start + len <= b@.len(),
    ensures
        r@ == b@.subrange(start as int, start + len),
{
    let n: usize = b.len();
    let mut out: Vec<u8> = Vec::new();
    let mut i: usize = 0;
    while i < len
        invariant
            i <= len,
            start + len <= n == b@.len(),
            out@ == b@.subrange(start as int, start + i),
        decreases len - i,
    {
        out.push(b[start + i]);
        proof {
            assert(out@ =~= b@.subrange(start as int, start + i + 1));
        }
        i = i + 1;
    }
    out
}

/// Serializes a record.  The encoding of every legal record fits the
/// storage bound.
pub fn encode_item(item: &TodoItem) -> (b: Vec<u8>)
    ensures
        b@ == spec_encode(item@),
        b@.len() == HEADER_LEN + item@.owner.len() + item@.assignee.len()
            + item@.description.len(),
{
    let mut out: Vec<u8> = Vec::new();
    out.push(FORMAT_TAG);
    out.push(FORMAT_VERSION);
    push_u64_le(&mut out, item.id);
    push_u64_le(&mut out, item.duration);
    out.push(if item.is_active { 1 } else { 0 });
    push_u64_le(&mut out, item.created_at);
    push_u64_le(&mut out, item.updated_at);
    push_u64_le(&mut out, item.owner.len() as u64);
    push_u64_le(&mut out, item.assignee.len() as u64);
    push_u64_le(&mut out, item.description.len() as u64);
    push_bytes(&mut out, &item.owner);
    push_bytes(&mut out, &item.assignee);
    push_bytes(&mut out, &item.description);
    proof {
        assert(out@ =~= spec_encode(item@));
    }
    out
}

/// Serializes a record and enforces the storage layer's maximum value size
/// before anything is written: an oversized record is refused, never
/// truncated.
pub fn encode_checked(item: &TodoItem) -> (r: Option<Vec<u8>>)
    ensures
        match r {
            Some(b) => b@ == spec_encode(item@) && b@.len() <= MAX_VALUE_SIZE,
            None => spec_encode(item@).len() > MAX_VALUE_SIZE,
        },
{
    let bytes = encode_item(item);
    if bytes.len() > MAX_VALUE_SIZE {
        None
    } else {
        Some(bytes)
    }
}

/// Deserializes a record, refusing any byte string that is not exactly the
/// encoding of a legal record.
pub fn decode_item(b: &Vec<u8>) -> (r: Option<TodoItem>)
    ensures
        match r {
            Some(item) => spec_decode(b@) == Some(item@),
            None => spec_decode(b@) is None,
        },
{
    if b.len() < HEADER_LEN {
        return None;
    }
    if b[0] != FORMAT_TAG || b[1] != FORMAT_VERSION {
        return None;
    }
    let id = read_u64_at(b, 2);
    let duration = read_u64_at(b, 10);
    let flag = b[18];
    let created_at = read_u64_at(b, 19);
    let updated_at = read_u64_at(b, 27);
    let ol = read_u64_at(b, 35);
    let al = read_u64_at(b, 43);
    let dl = read_u64_at(b, 51);
    if flag > 1 || ol > MAX_FIELD_LEN as u64 || al > MAX_FIELD_LEN as u64
        || dl > MAX_FIELD_LEN as u64 {
        return None;
    }
    let total: u64 = HEADER_LEN as u64 + ol + al + dl;
    if b.len() as u64 != total {
        return None;
    }
    let olu = ol as usize;
    let alu = al as usize;
    let dlu = dl as usize;
    let owner = copy_range(b, HEADER_LEN, olu);
    let assignee = copy_range(b, HEADER_LEN + olu, alu);
    let description = copy_range(b, HEADER_LEN + olu + alu, dlu);
    Some(TodoItem {
        owner,
        id,
        assignee,
        description,
        duration,
        is_active: flag == 1,
        updated_at,
        created_at,
    })
}

/// Every legal record's encoding decodes back to the same record.
#[verifier::rlimit(60)]
pub proof fn lemma_decode_encode(m: TodoModel)
    requires
        m.owner.len() <= MAX_FIELD_LEN,
        m.assignee.len() <= MAX_FIELD_LEN,
        m.description.len() <= MAX_FIELD_LEN,
    ensures
        spec_decode(spec_encode(m)) == Some(m),
{
    let e = spec_encode(m);
    assert(e.len() == HEADER_LEN + m.owner.len() + m.assignee.len() + m.description.len());
    assert(e[0] == FORMAT_TAG && e[1] == FORMAT_VERSION);
    assert(e.subrange(2, 10) =~= u64_le_bytes(m.id));
    assert(e.subrange(10, 18) =~= u64_le_bytes(m.duration));
    assert(e[18] == if m.is_active { 1u8 } else { 0u8 });
    assert(e.subrange(19, 27) =~= u64_le_bytes(m.created_at));
    assert(e.subrange(27, 35) =~= u64_le_bytes(m.updated_at));
    assert(e.subrange(35, 43) =~= u64_le_bytes(m.owner.len() as u64));
    assert(e.subrange(43, 51) =~= u64_le_bytes(m.assignee.len() as u64));
    assert(e.subrange(51, 59) =~= u64_le_bytes(m.description.len() as u64));
    lemma_read_u64_le_round_trip(e, 2, m.id);
    lemma_read_u64_le_round_trip(e, 10, m.duration);
    lemma_read_u64_le_round_trip(e, 19, m.created_at);
    lemma_read_u64_le_round_trip(e, 27, m.updated_at);
    lemma_read_u64_le_round_trip(e, 35, m.owner.len() as u64);
    lemma_read_u64_le_round_trip(e, 43, m.assignee.len() as u64);
    lemma_read_u64_le_round_trip(e, 51, m.description.len() as u64);
    let ol = m.owner.len() as int;
    let al = m.assignee.len() as int;
    let dl = m.description.len() as int;
    assert(e.subrange(HEADER_LEN as int, HEADER_LEN + ol) =~= m.owner);
    assert(e.subrange(HEADER_LEN + ol, HEADER_LEN + ol + al) =~= m.assignee);
    assert(e.subrange(HEADER_LEN + ol + al, HEADER_LEN + ol + al + dl) =~= m.description);
}

/// Whatever decodes successfully is a legal record: decoding itself
/// enforces the field caps.
pub proof fn lemma_decode_valid(b: Seq<u8>)
    requires
        spec_decode(b) is Some,
    ensures
        crate::record::valid_model(spec_decode(b)->0),
{
}

/// Reading eight little-endian bytes back gives the value they encode.
proof fn lemma_read_u64_le_round_trip(b: Seq<u8>, i: int, v: u64)
    requires
        0 <= i,
        i + 8 <= b.len(),
        b.subrange(i, i + 8) == u64_le_bytes(v),
    ensures
        read_u64_le(b, i) == v,
{
    assert(b[i] == u64_le_bytes(v)[0]);
    assert(b[i + 1] == u64_le_bytes(v)[1]);
    assert(b[i + 2] == u64_le_bytes(v)[2]);
    assert(b[i + 3] == u64_le_bytes(v)[3]);
    assert(b[i + 4] == u64_le_bytes(v)[4]);
    assert(b[i + 5] == u64_le_bytes(v)[5]);
    assert(b[i + 6] == u64_le_bytes(v)[6]);
    assert(b[i + 7] == u64_le_bytes(v)[7]);
    assert(((v & 0xff) as u8 as u64)
        | ((((v >> 8) & 0xff) as u8 as u64) << 8)
        | ((((v >> 16) & 0xff) as u8 as u64) << 16)
        | ((((v >> 24) & 0xff) as u8 as u64) << 24)
        | ((((v >> 32) & 0xff) as u8 as u64) << 32)
        | ((((v >> 40) & 0xff) as u8 as u64) << 40)
        | ((((v >> 48) & 0xff) as u8 as u64) << 48)
        | ((((v >> 56) & 0xff) as u8 as u64) << 56) == v) by (bit_vector);
}

} // verus!
