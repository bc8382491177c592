//! Binary record codec.
//!
//! Every persisted record is laid out field by field: variable-length
//! byte strings as a 4-byte little-endian length prefix followed by the
//! raw bytes, flags as one byte (0 or 1), identities as 32 raw bytes,
//! counters as 8 little-endian bytes.  Decoding consumes a prefix of
//! the buffer and ignores trailing bytes, so a record read back from an
//! oversized buffer yields exactly the fields that were written; a
//! buffer whose bytes do not form a record prefix decodes to `None` and
//! is treated by every handler as never initialized.

use crate::addr::Address;
use crate::state::{MovieAccountState, MovieComment, MovieCommentCounter, CommentView, CounterView, ReviewView, spec_comment_tag, spec_counter_tag, spec_review_tag, spec_comment_size, spec_counter_size, spec_review_size};

use vstd::bytes::*;
use vstd::prelude::*;
use vstd::slice::{slice_subrange, slice_to_vec};

verus! {

/// A byte string in serialized form: 4-byte little-endian length
/// prefix, then the bytes themselves.
pub open spec fn spec_lp(s: Seq<u8>) -> Seq<u8>
    recommends
        s.len() <= u32::MAX,
{
    spec_u32_to_le_bytes(s.len() as u32) + s
}

/// A flag in serialized form.
pub open spec fn spec_bool_byte(b: bool) -> u8 {
    if b {
        1u8
    } else {
        0u8
    }
}

/// Read a fixed number of raw bytes; yields the value and the rest.
pub open spec fn spec_read_bytes(b: Seq<u8>, n: int) -> Option<(Seq<u8>, Seq<u8>)> {
    if 0 <= n <= b.len() {
        Some((b.subrange(0, n), b.subrange(n, b.len() as int)))
    } else {
        None
    }
}

/// Read a length-prefixed byte string; yields the value and the rest.
pub open spec fn spec_read_lp(b: Seq<u8>) -> Option<(Seq<u8>, Seq<u8>)> {
    if b.len() >= 4 {
        let n = spec_u32_from_le_bytes(b.subrange(0, 4)) as int;
        if 4 + n <= b.len() {
            Some((b.subrange(4, 4 + n), b.subrange(4 + n, b.len() as int)))
        } else {
            None
        }
    } else {
        None
    }
}

/// Read a one-byte flag; any value other than 0 or 1 is malformed.
pub open spec fn spec_read_bool(b: Seq<u8>) -> Option<(bool, Seq<u8>)> {
    if b.len() >= 1 && b[0] <= 1 {
        Some((b[0] == 1, b.subrange(1, b.len() as int)))
    } else {
        None
    }
}

/// Read a single byte; yields the value and the rest.
pub open spec fn spec_read_u8(b: Seq<u8>) -> Option<(u8, Seq<u8>)> {
    if b.len() >= 1 {
        Some((b[0], b.subrange(1, b.len() as int)))
    } else {
        None
    }
}

/// Read an 8-byte little-endian counter; yields the value and the rest.
pub open spec fn spec_read_u64(b: Seq<u8>) -> Option<(u64, Seq<u8>)> {
    if b.len() >= 8 {
        Some((spec_u64_from_le_bytes(b.subrange(0, 8)), b.subrange(8, b.len() as int)))
    } else {
        None
    }
}

proof fn lemma_read_bytes_prefix(s: Seq<u8>, rest: Seq<u8>)
    ensures
        spec_read_bytes(s + rest, s.len() as int) == Some((s, rest)),
{
    let b = s + rest;
    assert(b.subrange(0, s.len() as int) =~= s);
    assert(b.subrange(s.len() as int, b.len() as int) =~= rest);
}

proof fn lemma_read_lp_prefix(s: Seq<u8>, rest: Seq<u8>)
    requires
        s.len() <= u32::MAX,
    ensures
        spec_read_lp(spec_lp(s) + rest) == Some((s, rest)),
{
    lemma_auto_spec_u32_to_from_le_bytes();
    let b = spec_lp(s) + rest;
    assert(b.subrange(0, 4) =~= spec_u32_to_le_bytes(s.len() as u32));
    assert(spec_u32_from_le_bytes(b.subrange(0, 4)) == s.len() as u32);
    assert(b.subrange(4, 4 + s.len() as int) =~= s);
    assert(b.subrange(4 + s.len() as int, b.len() as int) =~= rest);
}

proof fn lemma_read_bool_prefix(x: bool, rest: Seq<u8>)
    ensures
        spec_read_bool(seq![spec_bool_byte(x)] + rest) == Some((x, rest)),
{
    let b = seq![spec_bool_byte(x)] + rest;
    assert(b[0] == spec_bool_byte(x));
    assert(b.subrange(1, b.len() as int) =~= rest);
}

proof fn lemma_read_u8_prefix(x: u8, rest: Seq<u8>)
    ensures
        spec_read_u8(seq![x] + rest) == Some((x, rest)),
{
    let b = seq![x] + rest;
    assert(b[0] == x);
    assert(b.subrange(1, b.len() as int) =~= rest);
}

proof fn lemma_read_u64_prefix(x: u64, rest: Seq<u8>)
    ensures
        spec_read_u64(spec_u64_to_le_bytes(x) + rest) == Some((x, rest)),
{
    lemma_auto_spec_u64_to_from_le_bytes();
    let b = spec_u64_to_le_bytes(x) + rest;
    assert(b.len() >= 8);
    assert(b.subrange(0, 8) =~= spec_u64_to_le_bytes(x));
    assert(b.subrange(8, b.len() as int) =~= rest);
}

/// Append every byte of `data` to `out`.
fn append_bytes(out: &mut Vec<u8>, data: &Vec<u8>)
    ensures
        final(out)@ == old(out)@ + data@,
{
    let mut i: usize = 0;
    while i < data.len()
        invariant
            i <= data.len(),
            out@ == old(out)@ + data@.subrange(0, i as int),
        decreases data.len() - i,
    {
        out.push(data[i]);
        assert(out@ =~= old(out)@ + data@.subrange(0, i + 1));
        i = i + 1;
    }
    assert(out@ =~= old(out)@ + data@);
}

/// Append a byte string in length-prefixed form.
fn write_lp(out: &mut Vec<u8>, data: &Vec<u8>)
    requires
        data@.len() <= u32::MAX,
    ensures
        final(out)@ == old(out)@ + spec_lp(data@),
{
    let mut prefix = u32_to_le_bytes(data.len() as u32);
    out.append(&mut prefix);
    append_bytes(out, data);
    assert(out@ =~= old(out)@ + spec_lp(data@));
}

/// Read a length-prefixed byte string at `pos`; `None` if the buffer
/// ends before the prefix or the announced length overruns it.
pub(crate) fn read_lp(v: &Vec<u8>, pos: usize) -> (r: Option<(Vec<u8>, usize)>)
    requires
        pos <= v@.len(),
    ensures
        ({
            let rem = v@.subrange(pos as int, v@.len() as int);
            match r {
                Some(rp) => {
                    &&& rp.1 <= v@.len()
                    &&& spec_read_lp(rem) == Some(
                        (rp.0@, v@.subrange(rp.1 as int, v@.len() as int)),
                    )
                },
                None => spec_read_lp(rem) is None,
            }
        }),
{
    let ghost rem = v@.subrange(pos as int, v@.len() as int);
    if v.len() - pos < 4 {
        return None;
    }
    let prefix = slice_subrange(v.as_slice(), pos, pos + 4);
    assert(prefix@ =~= rem.subrange(0, 4));
    let n32 = u32_from_le_bytes(prefix);
    let n = n32 as usize;
    if v.len() - (pos + 4) < n {
        return None;
    }
    let value = slice_to_vec(slice_subrange(v.as_slice(), pos + 4, pos + 4 + n));
    assert(value@ =~= rem.subrange(4, 4 + n32 as int));
    assert(v@.subrange((pos + 4 + n) as int, v@.len() as int) =~= rem.subrange(
        4 + n32 as int,
        rem.len() as int,
    ));
    Some((value, pos + 4 + n))
}

/// Read a 32-byte identity at `pos`.
pub(crate) fn read_address(v: &Vec<u8>, pos: usize) -> (r: Option<(Address, usize)>)
    requires
        pos <= v@.len(),
    ensures
        ({
            let rem = v@.subrange(pos as int, v@.len() as int);
            match r {
                Some(rp) => {
                    &&& rp.1 <= v@.len()
                    &&& rp.0.wf()
                    &&& spec_read_bytes(rem, 32) == Some(
                        (rp.0@, v@.subrange(rp.1 as int, v@.len() as int)),
                    )
                },
                None => spec_read_bytes(rem, 32) is None,
            }
        }),
{
    let ghost rem = v@.subrange(pos as int, v@.len() as int);
    if v.len() - pos < 32 {
        return None;
    }
    let value = slice_to_vec(slice_subrange(v.as_slice(), pos, pos + 32));
    assert(value@ =~= rem.subrange(0, 32));
    assert(v@.subrange((pos + 32) as int, v@.len() as int) =~= rem.subrange(
        32,
        rem.len() as int,
    ));
    Some((Address { bytes: value }, pos + 32))
}

/// Read a one-byte flag at `pos`; bytes other than 0 and 1 are malformed.
pub(crate) fn read_bool(v: &Vec<u8>, pos: usize) -> (r: Option<(bool, usize)>)
    requires
        pos <= v@.len(),
    ensures
        ({
            let rem = v@.subrange(pos as int, v@.len() as int);
            match r {
                Some(rp) => {
                    &&& rp.1 <= v@.len()
                    &&& spec_read_bool(rem) == Some(
                        (rp.0, v@.subrange(rp.1 as int, v@.len() as int)),
                    )
                },
                None => spec_read_bool(rem) is None,
            }
        }),
{
    let ghost rem = v@.subrange(pos as int, v@.len() as int);
    if v.len() - pos < 1 {
        return None;
    }
    let byte = v[pos];
    assert(byte == rem[0]);
    if byte > 1 {
        return None;
    }
    assert(v@.subrange((pos + 1) as int, v@.len() as int) =~= rem.subrange(1, rem.len() as int));
    Some((byte == 1, pos + 1))
}

/// Read a single byte at `pos`.
pub(crate) fn read_u8(v: &Vec<u8>, pos: usize) -> (r: Option<(u8, usize)>)
    requires
        pos <= v@.len(),
    ensures
        ({
            let rem = v@.subrange(pos as int, v@.len() as int);
            match r {
                Some(rp) => {
                    &&& rp.1 <= v@.len()
                    &&& spec_read_u8(rem) == Some(
                        (rp.0, v@.subrange(rp.1 as int, v@.len() as int)),
                    )
                },
                None => spec_read_u8(rem) is None,
            }
        }),
{
    let ghost rem = v@.subrange(pos as int, v@.len() as int);
    if v.len() - pos < 1 {
        return None;
    }
    let byte = v[pos];
    assert(byte == rem[0]);
    assert(v@.subrange((pos + 1) as int, v@.len() as int) =~= rem.subrange(1, rem.len() as int));
    Some((byte, pos + 1))
}

/// Read an 8-byte little-endian counter at `pos`.
pub(crate) fn read_u64(v: &Vec<u8>, pos: usize) -> (r: Option<(u64, usize)>)
    requires
        pos <= v@.len(),
    ensures
        ({
            let rem = v@.subrange(pos as int, v@.len() as int);
            match r {
                Some(rp) => {
                    &&& rp.1 <= v@.len()
                    &&& spec_read_u64(rem) == Some(
                        (rp.0, v@.subrange(rp.1 as int, v@.len() as int)),
                    )
                },
                None => spec_read_u64(rem) is None,
            }
        }),
{
    let ghost rem = v@.subrange(pos as int, v@.len() as int);
    if v.len() - pos < 8 {
        return None;
    }
    let chunk = slice_subrange(v.as_slice(), pos, pos + 8);
    assert(chunk@ =~= rem.subrange(0, 8));
    let value = u64_from_le_bytes(chunk);
    assert(v@.subrange((pos + 8) as int, v@.len() as int) =~= rem.subrange(8, rem.len() as int));
    Some((value, pos + 8))
}

/// Which review images the codec can serialize.
pub open spec fn review_encodable(v: ReviewView) -> bool {
    &&& v.discriminator.len() <= u32::MAX
    &&& v.review.len() == 32
    &&& v.title.len() <= u32::MAX
    &&& v.description.len() <= u32::MAX
}

/// Serialized form of a review record.
pub open spec fn spec_encode_review(v: ReviewView) -> Seq<u8>
    recommends
        review_encodable(v),
{
    spec_lp(v.discriminator) + seq![spec_bool_byte(v.is_initialized)] + v.review + seq![
        v.rating,
    ] + spec_lp(v.title) + spec_lp(v.description)
}

/// The review record a buffer holds, if its bytes open with one.
pub open spec fn spec_decode_review(b: Seq<u8>) -> Option<ReviewView> {
    match spec_read_lp(b) {
        None => None,
        Some((discriminator, b1)) => match spec_read_bool(b1) {
            None => None,
            Some((is_initialized, b2)) => match spec_read_bytes(b2, 32) {
                None => None,
                Some((review, b3)) => match spec_read_u8(b3) {
                    None => None,
                    Some((rating, b4)) => match spec_read_lp(b4) {
                        None => None,
                        Some((title, b5)) => match spec_read_lp(b5) {
                            None => None,
                            Some((description, _)) => Some(
                                ReviewView {
                                    discriminator,
                                    is_initialized,
                                    review,
                                    rating,
                                    title,
                                    description,
                                },
                            ),
                        },
                    },
                },
            },
        },
    }
}

/// Which counter images the codec can serialize.
pub open spec fn counter_encodable(v: CounterView) -> bool {
    v.discriminator.len() <= u32::MAX
}

/// Serialized form of a counter record.
pub open spec fn spec_encode_counter(v: CounterView) -> Seq<u8>
    recommends
        counter_encodable(v),
{
    spec_lp(v.discriminator) + seq![spec_bool_byte(v.is_initialized)] + spec_u64_to_le_bytes(
        v.counter,
    )
}

/// The counter record a buffer holds, if its bytes open with one.
pub open spec fn spec_decode_counter(b: Seq<u8>) -> Option<CounterView> {
    match spec_read_lp(b) {
        None => None,
        Some((discriminator, b1)) => match spec_read_bool(b1) {
            None => None,
            Some((is_initialized, b2)) => match spec_read_u64(b2) {
                None => None,
                Some((counter, _)) => Some(CounterView { discriminator, is_initialized, counter }),
            },
        },
    }
}

/// Which comment images the codec can serialize.
pub open spec fn comment_encodable(v: CommentView) -> bool {
    &&& v.discriminator.len() <= u32::MAX
    &&& v.review.len() == 32
    &&& v.commenter.len() == 32
    &&& v.comment.len() <= u32::MAX
}

/// Serialized form of a comment record.
pub open spec fn spec_encode_comment(v: CommentView) -> Seq<u8>
    recommends
        comment_encodable(v),
{
    spec_lp(v.discriminator) + seq![spec_bool_byte(v.is_initialized)] + v.review + v.commenter
        + spec_lp(v.comment) + spec_u64_to_le_bytes(v.count)
}

/// The comment record a buffer holds, if its bytes open with one.
pub open spec fn spec_decode_comment(b: Seq<u8>) -> Option<CommentView> {
    match spec_read_lp(b) {
        None => None,
        Some((discriminator, b1)) => match spec_read_bool(b1) {
            None => None,
            Some((is_initialized, b2)) => match spec_read_bytes(b2, 32) {
                None => None,
                Some((review, b3)) => match spec_read_bytes(b3, 32) {
                    None => None,
                    Some((commenter, b4)) => match spec_read_lp(b4) {
                        None => None,
                        Some((comment, b5)) => match spec_read_u64(b5) {
                            None => None,
                            Some((count, _)) => Some(
                                CommentView {
                                    discriminator,
                                    is_initialized,
                                    review,
                                    commenter,
                                    comment,
                                    count,
                                },
                            ),
                        },
                    },
                },
            },
        },
    }
}

/// Decoding a serialized review yields exactly the record written.
pub proof fn lemma_review_round_trip(v: ReviewView)
    requires
        review_encodable(v),
    ensures
        spec_decode_review(spec_encode_review(v)) == Some(v),
{
    let e = spec_encode_review(v);
    let r1 = seq![spec_bool_byte(v.is_initialized)] + v.review + seq![v.rating] + spec_lp(v.title)
        + spec_lp(v.description);
    assert(e =~= spec_lp(v.discriminator) + r1);
    lemma_read_lp_prefix(v.discriminator, r1);
    let r2 = v.review + seq![v.rating] + spec_lp(v.title) + spec_lp(v.description);
    assert(r1 =~= seq![spec_bool_byte(v.is_initialized)] + r2);
    lemma_read_bool_prefix(v.is_initialized, r2);
    let r3 = seq![v.rating] + spec_lp(v.title) + spec_lp(v.description);
    assert(r2 =~= v.review + r3);
    lemma_read_bytes_prefix(v.review, r3);
    let r4 = spec_lp(v.title) + spec_lp(v.description);
    assert(r3 =~= seq![v.rating] + r4);
    lemma_read_u8_prefix(v.rating, r4);
    let r5 = spec_lp(v.description);
    assert(r4 =~= spec_lp(v.title) + r5);
    lemma_read_lp_prefix(v.title, r5);
    assert(r5 =~= spec_lp(v.description) + Seq::<u8>::empty());
    lemma_read_lp_prefix(v.description, Seq::<u8>::empty());
}

/// Decoding a serialized counter yields exactly the record written.
pub proof fn lemma_counter_round_trip(v: CounterView)
    requires
        counter_encodable(v),
    ensures
        spec_decode_counter(spec_encode_counter(v)) == Some(v),
{
    let e = spec_encode_counter(v);
    let r1 = seq![spec_bool_byte(v.is_initialized)] + spec_u64_to_le_bytes(v.counter);
    assert(e =~= spec_lp(v.discriminator) + r1);
    lemma_read_lp_prefix(v.discriminator, r1);
    let r2 = spec_u64_to_le_bytes(v.counter);
    assert(r1 =~= seq![spec_bool_byte(v.is_initialized)] + r2);
    lemma_read_bool_prefix(v.is_initialized, r2);
    assert(r2 =~= spec_u64_to_le_bytes(v.counter) + Seq::<u8>::empty());
    lemma_read_u64_prefix(v.counter, Seq::<u8>::empty());
}

/// Decoding a serialized comment yields exactly the record written.
pub proof fn lemma_comment_round_trip(v: CommentView)
    requires
        comment_encodable(v),
    ensures
        spec_decode_comment(spec_encode_comment(v)) == Some(v),
{
    let e = spec_encode_comment(v);
    let r1 = seq![spec_bool_byte(v.is_initialized)] + v.review + v.commenter + spec_lp(v.comment)
        + spec_u64_to_le_bytes(v.count);
    assert(e =~= spec_lp(v.discriminator) + r1);
    lemma_read_lp_prefix(v.discriminator, r1);
    let r2 = v.review + v.commenter + spec_lp(v.comment) + spec_u64_to_le_bytes(v.count);
    assert(r1 =~= seq![spec_bool_byte(v.is_initialized)] + r2);
    lemma_read_bool_prefix(v.is_initialized, r2);
    let r3 = v.commenter + spec_lp(v.comment) + spec_u64_to_le_bytes(v.count);
    assert(r2 =~= v.review + r3);
    lemma_read_bytes_prefix(v.review, r3);
    let r4 = spec_lp(v.comment) + spec_u64_to_le_bytes(v.count);
    assert(r3 =~= v.commenter + r4);
    lemma_read_bytes_prefix(v.commenter, r4);
    let r5 = spec_u64_to_le_bytes(v.count);
    assert(r4 =~= spec_lp(v.comment) + r5);
    lemma_read_lp_prefix(v.comment, r5);
    assert(r5 =~= spec_u64_to_le_bytes(v.count) + Seq::<u8>::empty());
    lemma_read_u64_prefix(v.count, Seq::<u8>::empty());
}

/// A serialized review is exactly as long as the size formula says.
pub proof fn lemma_review_encoded_size(v: ReviewView)
    requires
        review_encodable(v),
        v.discriminator == spec_review_tag(),
    ensures
        spec_encode_review(v).len() == spec_review_size(
            v.title.len() as int,
            v.description.len() as int,
        ),
{
    lemma_auto_spec_u32_to_from_le_bytes();
}

/// A serialized counter is exactly 20 bytes.
pub proof fn lemma_counter_encoded_size(v: CounterView)
    requires
        counter_encodable(v),
        v.discriminator == spec_counter_tag(),
    ensures
        spec_encode_counter(v).len() == spec_counter_size(),
{
    lemma_auto_spec_u32_to_from_le_bytes();
    vstd::bytes::lemma_auto_spec_u64_to_from_le_bytes();
}

/// A serialized comment is exactly as long as the size formula says.
pub proof fn lemma_comment_encoded_size(v: CommentView)
    requires
        comment_encodable(v),
        v.discriminator == spec_comment_tag(),
    ensures
        spec_encode_comment(v).len() == spec_comment_size(v.comment.len() as int),
{
    lemma_auto_spec_u32_to_from_le_bytes();
    vstd::bytes::lemma_auto_spec_u64_to_from_le_bytes();
}

/// Serialize a review record.
pub fn encode_review(state: &MovieAccountState) -> (r: Vec<u8>)
    requires
        review_encodable(state@),
    ensures
        r@ == spec_encode_review(state@),
{
    let mut out: Vec<u8> = Vec::new();
    write_lp(&mut out, &state.discriminator);
    out.push(if state.is_initialized { 1u8 } else { 0u8 });
    append_bytes(&mut out, &state.review.bytes);
    out.push(state.rating);
    write_lp(&mut out, &state.title);
    write_lp(&mut out, &state.description);
    proof {
        assert(out@ =~= spec_encode_review(state@));
    }
    out
}

/// Serialize a counter record.
pub fn encode_counter(state: &MovieCommentCounter) -> (r: Vec<u8>)
    requires
        counter_encodable(state@),
    ensures
        r@ == spec_encode_counter(state@),
{
    let mut out: Vec<u8> = Vec::new();
    write_lp(&mut out, &state.discriminator);
    out.push(if state.is_initialized { 1u8 } else { 0u8 });
    let mut tail = u64_to_le_bytes(state.counter);
    out.append(&mut tail);
    proof {
        assert(out@ =~= spec_encode_counter(state@));
    }
    out
}

/// Serialize a comment record.
pub fn encode_comment(state: &MovieComment) -> (r: Vec<u8>)
    requires
        comment_encodable(state@),
    ensures
        r@ == spec_encode_comment(state@),
{
    let mut out: Vec<u8> = Vec::new();
    write_lp(&mut out, &state.discriminator);
    out.push(if state.is_initialized { 1u8 } else { 0u8 });
    append_bytes(&mut out, &state.review.bytes);
    append_bytes(&mut out, &state.commenter.bytes);
    write_lp(&mut out, &state.comment);
    let mut tail = u64_to_le_bytes(state.count);
    out.append(&mut tail);
    proof {
        assert(out@ =~= spec_encode_comment(state@));
    }
    out
}

/// Parse the review record a buffer opens with, ignoring trailing bytes.
pub fn decode_review(v: &Vec<u8>) -> (r: Option<MovieAccountState>)
    ensures
        match r {
            Some(s) => spec_decode_review(v@) == Some(s@) && s.review.wf(),
            None => spec_decode_review(v@) is None,
        },
{
    proof {
        assert(v@.subrange(0, v@.len() as int) =~= v@);
    }
    let (discriminator, p1) = match read_lp(v, 0) {
        Some(x) => x,
        None => { return None; },
    };
    let (is_initialized, p2) = match read_bool(v, p1) {
        Some(x) => x,
        None => { return None; },
    };
    let (review, p3) = match read_address(v, p2) {
        Some(x) => x,
        None => { return None; },
    };
    let (rating, p4) = match read_u8(v, p3) {
        Some(x) => x,
        None => { return None; },
    };
    let (title, p5) = match read_lp(v, p4) {
        Some(x) => x,
        None => { return None; },
    };
    let (description, _p6) = match read_lp(v, p5) {
        Some(x) => x,
        None => { return None; },
    };
    Some(MovieAccountState { discriminator, is_initialized, review, rating, title, description })
}

/// Parse the counter record a buffer opens with, ignoring trailing bytes.
pub fn decode_counter(v: &Vec<u8>) -> (r: Option<MovieCommentCounter>)
    ensures
        match r {
            Some(s) => spec_decode_counter(v@) == Some(s@),
            None => spec_decode_counter(v@) is None,
        },
{
    proof {
        assert(v@.subrange(0, v@.len() as int) =~= v@);
    }
    let (discriminator, p1) = match read_lp(v, 0) {
        Some(x) => x,
        None => { return None; },
    };
    let (is_initialized, p2) = match read_bool(v, p1) {
        Some(x) => x,
        None => { return None; },
    };
    let (counter, _p3) = match read_u64(v, p2) {
        Some(x) => x,
        None => { return None; },
    };
    Some(MovieCommentCounter { discriminator, is_initialized, counter })
}

/// Parse the comment record a buffer opens with, ignoring trailing bytes.
pub fn decode_comment(v: &Vec<u8>) -> (r: Option<MovieComment>)
    ensures
        match r {
            Some(s) => spec_decode_comment(v@) == Some(s@) && s.review.wf() && s.commenter.wf(),
            None => spec_decode_comment(v@) is None,
        },
{
    proof {
        assert(v@.subrange(0, v@.len() as int) =~= v@);
    }
    let (discriminator, p1) = match read_lp(v, 0) {
        Some(x) => x,
        None => { return None; },
    };
    let (is_initialized, p2) = match read_bool(v, p1) {
        Some(x) => x,
        None => { return None; },
    };
    let (review, p3) = match read_address(v, p2) {
        Some(x) => x,
        None => { return None; },
    };
    let (commenter, p4) = match read_address(v, p3) {
        Some(x) => x,
        None => { return None; },
    };
    let (comment, p5) = match read_lp(v, p4) {
        Some(x) => x,
        None => { return None; },
    };
    let (count, _p6) = match read_u64(v, p5) {
        Some(x) => x,
        None => { return None; },
    };
    Some(MovieComment { discriminator, is_initialized, review, commenter, comment, count })
}

/// Any review a buffer decodes to can itself be serialized: its field
/// lengths are bounded by the reads that produced them.
pub proof fn lemma_decoded_review_encodable(b: Seq<u8>)
    ensures
        spec_decode_review(b) matches Some(v) ==> review_encodable(v),
{
}

/// Any counter a buffer decodes to can itself be serialized.
pub proof fn lemma_decoded_counter_encodable(b: Seq<u8>)
    ensures
        spec_decode_counter(b) matches Some(v) ==> counter_encodable(v),
{
}

/// Any comment a buffer decodes to can itself be serialized.
pub proof fn lemma_decoded_comment_encodable(b: Seq<u8>)
    ensures
        spec_decode_comment(b) matches Some(v) ==> comment_encodable(v),
{
}

} // verus!
