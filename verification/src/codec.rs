//! The snapshot format of the service statistics: the one record that
//! crosses the host's suspend/resume boundary. Each status is a tag
//! byte, an `Error` status carrying its message as a length-prefixed
//! UTF-8 run; the four counters follow as little-endian 64-bit words.
//! Decoding is proved to invert encoding exactly, message strings
//! included.

use vstd::prelude::*;
use vstd::bytes::{
    lemma_auto_spec_u64_to_from_le_bytes, spec_u64_from_le_bytes, spec_u64_to_le_bytes,
    u64_from_le_bytes, u64_to_le_bytes,
};
use vstd::slice::{slice_subrange, slice_to_vec};
use vstd::string::StrSliceExecFns;
use vstd::utf8::{decode_utf8, encode_utf8, encode_utf8_decode_utf8, encode_utf8_valid_utf8,
    valid_utf8};
use crate::stats::{CanisterStats, StatsView};
use crate::status::{ModelStatus, StatusView};

verus! {

/// Tag byte of a status without a payload.
pub const TAG_NOT_LOADED: u8 = 0;

/// Tag byte of the `Loading` status.
pub const TAG_LOADING: u8 = 1;

/// Tag byte of the `Ready` status.
pub const TAG_READY: u8 = 2;

/// Tag byte of an `Error` status; a length-prefixed message follows.
pub const TAG_ERROR: u8 = 3;

/// An error message fits the format when its UTF-8 encoding fits the
/// 64-bit length prefix; every message held in memory does.
pub open spec fn status_encodable(s: StatusView) -> bool {
    match s {
        StatusView::Error(m) => encode_utf8(m).len() <= u64::MAX,
        _ => true,
    }
}

/// Both statuses of the record fit the format.
pub open spec fn stats_encodable(v: StatsView) -> bool {
    status_encodable(v.face_detection_model_status) && status_encodable(
        v.face_recognition_model_status,
    )
}

/// The encoding of one status: its tag byte, and for `Error` the
/// length-prefixed UTF-8 bytes of the message.
pub open spec fn spec_encode_status(s: StatusView) -> Seq<u8> {
    match s {
        StatusView::NotLoaded => seq![TAG_NOT_LOADED],
        StatusView::Loading => seq![TAG_LOADING],
        StatusView::Ready => seq![TAG_READY],
        StatusView::Error(m) => seq![TAG_ERROR] + spec_u64_to_le_bytes(
            encode_utf8(m).len() as u64,
        ) + encode_utf8(m),
    }
}

/// The encoding of the whole record: the two statuses, then the four
/// counters as little-endian 64-bit words.
pub open spec fn spec_encode_stats(v: StatsView) -> Seq<u8> {
    spec_encode_status(v.face_detection_model_status) + spec_encode_status(
        v.face_recognition_model_status,
    ) + spec_u64_to_le_bytes(v.total_detections) + spec_u64_to_le_bytes(v.total_recognitions)
        + spec_u64_to_le_bytes(v.model_detection_size) + spec_u64_to_le_bytes(
        v.model_recognition_size,
    )
}

/// Parse one status off the front of `b`: the status and how many bytes
/// it took, or nothing when the bytes do not start with a well-formed
/// status.
pub open spec fn spec_decode_status(b: Seq<u8>) -> Option<(StatusView, int)> {
    if b.len() < 1 {
        None
    } else if b[0] == TAG_NOT_LOADED {
        Some((StatusView::NotLoaded, 1))
    } else if b[0] == TAG_LOADING {
        Some((StatusView::Loading, 1))
    } else if b[0] == TAG_READY {
        Some((StatusView::Ready, 1))
    } else if b[0] == TAG_ERROR {
        if b.len() < 9 {
            None
        } else {
            let n = spec_u64_from_le_bytes(b.subrange(1, 9)) as int;
            if b.len() < 9 + n {
                None
            } else if valid_utf8(b.subrange(9, 9 + n)) {
                Some((StatusView::Error(decode_utf8(b.subrange(9, 9 + n))), 9 + n))
            } else {
                None
            }
        }
    } else {
        None
    }
}

/// Parse a whole record: two statuses followed by exactly four 64-bit
/// words, nothing more.
pub open spec fn spec_decode_stats(b: Seq<u8>) -> Option<StatsView> {
    match spec_decode_status(b) {
        None => None,
        Some((det, n1)) => match spec_decode_status(b.skip(n1)) {
            None => None,
            Some((rec, n2)) => {
                let rest = b.skip(n1).skip(n2);
                if rest.len() == 32 {
                    Some(
                        StatsView {
                            face_detection_model_status: det,
                            face_recognition_model_status: rec,
                            total_detections: spec_u64_from_le_bytes(rest.subrange(0, 8)),
                            total_recognitions: spec_u64_from_le_bytes(rest.subrange(8, 16)),
                            model_detection_size: spec_u64_from_le_bytes(rest.subrange(16, 24)),
                            model_recognition_size: spec_u64_from_le_bytes(rest.subrange(24, 32)),
                        },
                    )
                } else {
                    None
                }
            },
        },
    }
}

/// Relies on `String::from_utf8`: it succeeds exactly on valid UTF-8
/// input and returns the string those bytes encode.
#[verifier::external_body]
fn string_from_utf8(bytes: Vec<u8>) -> (r: Option<String>)
    ensures
        r is Some <==> valid_utf8(bytes@),
        r matches Some(s) ==> s@ == decode_utf8(bytes@),
{
    String::from_utf8(bytes).ok()
}

/// Encode one status, exactly as [`spec_encode_status`] says.
pub fn encode_status(s: &ModelStatus) -> (r: Vec<u8>)
    ensures
        r@ == spec_encode_status(s@),
{
    match s {
        ModelStatus::NotLoaded => {
            let mut out: Vec<u8> = Vec::new();
            out.push(TAG_NOT_LOADED);
            proof {
                assert(out@ =~= spec_encode_status(s@));
            }
            out
        },
        ModelStatus::Loading => {
            let mut out: Vec<u8> = Vec::new();
            out.push(TAG_LOADING);
            proof {
                assert(out@ =~= spec_encode_status(s@));
            }
            out
        },
        ModelStatus::Ready => {
            let mut out: Vec<u8> = Vec::new();
            out.push(TAG_READY);
            proof {
                assert(out@ =~= spec_encode_status(s@));
            }
            out
        },
        ModelStatus::Error(m) => {
            let mut out: Vec<u8> = Vec::new();
            out.push(TAG_ERROR);
            let mb = m.as_str().as_bytes_vec();
            let lb = u64_to_le_bytes(mb.len() as u64);
            out.extend_from_slice(lb.as_slice());
            out.extend_from_slice(mb.as_slice());
            proof {
                assert(out@ =~= spec_encode_status(s@));
            }
            out
        },
    }
}

/// Encode the whole record, exactly as [`spec_encode_stats`] says.
pub fn encode_stats(stats: &CanisterStats) -> (r: Vec<u8>)
    ensures
        r@ == spec_encode_stats(stats@),
{
    let mut out = encode_status(&stats.face_detection_model_status);
    let rec = encode_status(&stats.face_recognition_model_status);
    out.extend_from_slice(rec.as_slice());
    let c1 = u64_to_le_bytes(stats.total_detections);
    out.extend_from_slice(c1.as_slice());
    let c2 = u64_to_le_bytes(stats.total_recognitions);
    out.extend_from_slice(c2.as_slice());
    let c3 = u64_to_le_bytes(stats.model_detection_size);
    out.extend_from_slice(c3.as_slice());
    let c4 = u64_to_le_bytes(stats.model_recognition_size);
    out.extend_from_slice(c4.as_slice());
    proof {
        assert(out@ =~= spec_encode_stats(stats@));
    }
    out
}

/// Parse one status at offset `pos`, exactly as [`spec_decode_status`]
/// says of the bytes from `pos` on.
fn decode_status_at(bytes: &[u8], pos: usize) -> (r: Option<(ModelStatus, usize)>)
    requires
        pos <= bytes@.len(),
    ensures
        match spec_decode_status(bytes@.skip(pos as int)) {
            Some((v, n)) => r matches Some(p) && p.0@ == v && p.1 == n && pos + n
                <= bytes@.len(),
            None => r is None,
        },
{
    let ghost tail = bytes@.skip(pos as int);
    if bytes.len() - pos < 1 {
        return None;
    }
    let tag = bytes[pos];
    proof {
        assert(tail[0] == bytes@[pos as int]);
    }
    if tag == TAG_NOT_LOADED {
        Some((ModelStatus::NotLoaded, 1))
    } else if tag == TAG_LOADING {
        Some((ModelStatus::Loading, 1))
    } else if tag == TAG_READY {
        Some((ModelStatus::Ready, 1))
    } else if tag == TAG_ERROR {
        if bytes.len() - pos < 9 {
            return None;
        }
        let lb = slice_subrange(bytes, pos + 1, pos + 9);
        let n64 = u64_from_le_bytes(lb);
        proof {
            assert(lb@ =~= tail.subrange(1, 9));
        }
        if n64 > (bytes.len() - pos - 9) as u64 {
            return None;
        }
        let n = n64 as usize;
        let mb = slice_to_vec(slice_subrange(bytes, pos + 9, pos + 9 + n));
        proof {
            assert(mb@ =~= tail.subrange(9, 9 + n64 as int));
        }
        match string_from_utf8(mb) {
            Some(msg) => Some((ModelStatus::Error(msg), 9 + n)),
            None => None,
        }
    } else {
        None
    }
}

/// Parse a whole record, exactly as [`spec_decode_stats`] says.
pub fn decode_stats(bytes: &Vec<u8>) -> (r: Option<CanisterStats>)
    ensures
        match spec_decode_stats(bytes@) {
            Some(v) => r matches Some(c) && c@ == v,
            None => r is None,
        },
{
    proof {
        assert(bytes@.skip(0) =~= bytes@);
    }
    let p1 = decode_status_at(bytes.as_slice(), 0);
    let (det, n1) = match p1 {
        Some(p) => p,
        None => { return None; },
    };
    let p2 = decode_status_at(bytes.as_slice(), n1);
    let (rec, n2) = match p2 {
        Some(p) => p,
        None => { return None; },
    };
    proof {
        assert(bytes@.skip(n1 as int).skip(n2 as int) =~= bytes@.skip(n1 + n2 as int));
    }
    if bytes.len() - n1 - n2 != 32 {
        return None;
    }
    let base = n1 + n2;
    let ghost rest = bytes@.skip(n1 as int).skip(n2 as int);
    let w1 = u64_from_le_bytes(slice_subrange(bytes.as_slice(), base, base + 8));
    let w2 = u64_from_le_bytes(slice_subrange(bytes.as_slice(), base + 8, base + 16));
    let w3 = u64_from_le_bytes(slice_subrange(bytes.as_slice(), base + 16, base + 24));
    let w4 = u64_from_le_bytes(slice_subrange(bytes.as_slice(), base + 24, base + 32));
    proof {
        assert(bytes@.subrange(base as int, base + 8) =~= rest.subrange(0, 8));
        assert(bytes@.subrange(base + 8, base + 16) =~= rest.subrange(8, 16));
        assert(bytes@.subrange(base + 16, base + 24) =~= rest.subrange(16, 24));
        assert(bytes@.subrange(base + 24, base + 32) =~= rest.subrange(24, 32));
    }
    Some(
        CanisterStats {
            face_detection_model_status: det,
            face_recognition_model_status: rec,
            total_detections: w1,
            total_recognitions: w2,
            model_detection_size: w3,
            model_recognition_size: w4,
        },
    )
}

/// Parsing a status off an encoded status followed by anything gives
/// back that status and consumes exactly its encoding.
proof fn lemma_decode_status_prefix(s: StatusView, rest: Seq<u8>)
    requires
        status_encodable(s),
    ensures
        spec_decode_status(spec_encode_status(s) + rest) == Some(
            (s, spec_encode_status(s).len() as int),
        ),
{
    lemma_auto_spec_u64_to_from_le_bytes();
    let b = spec_encode_status(s) + rest;
    match s {
        StatusView::NotLoaded => {
            assert(b[0] == TAG_NOT_LOADED);
        },
        StatusView::Loading => {
            assert(b[0] == TAG_LOADING);
        },
        StatusView::Ready => {
            assert(b[0] == TAG_READY);
        },
        StatusView::Error(m) => {
            let mb = encode_utf8(m);
            let lb = spec_u64_to_le_bytes(mb.len() as u64);
            assert(b[0] == TAG_ERROR);
            assert(b.len() == 9 + mb.len() + rest.len());
            assert(b.subrange(1, 9) =~= lb);
            assert(spec_u64_from_le_bytes(b.subrange(1, 9)) == mb.len() as u64);
            assert(b.subrange(9, 9 + mb.len() as int) =~= mb);
            encode_utf8_valid_utf8(m);
            encode_utf8_decode_utf8(m);
        },
    }
}

/// Decoding inverts encoding: a record written by
/// [`spec_encode_stats`] reads back equal in every field, the two
/// counters, the two sizes, and both statuses, an `Error` message
/// string included.
pub proof fn lemma_stats_codec_roundtrip(v: StatsView)
    requires
        stats_encodable(v),
    ensures
        spec_decode_stats(spec_encode_stats(v)) == Some(v),
{
    lemma_auto_spec_u64_to_from_le_bytes();
    let e1 = spec_encode_status(v.face_detection_model_status);
    let e2 = spec_encode_status(v.face_recognition_model_status);
    let c1 = spec_u64_to_le_bytes(v.total_detections);
    let c2 = spec_u64_to_le_bytes(v.total_recognitions);
    let c3 = spec_u64_to_le_bytes(v.model_detection_size);
    let c4 = spec_u64_to_le_bytes(v.model_recognition_size);
    let b = spec_encode_stats(v);
    let r1 = e2 + c1 + c2 + c3 + c4;
    let r2 = c1 + c2 + c3 + c4;
    assert(b =~= e1 + r1);
    lemma_decode_status_prefix(v.face_detection_model_status, r1);
    assert(b.skip(e1.len() as int) =~= r1);
    lemma_decode_status_prefix(v.face_recognition_model_status, r2);
    assert(r1.skip(e2.len() as int) =~= r2);
    assert(r2.len() == 32);
    assert(r2.subrange(0, 8) =~= c1);
    assert(r2.subrange(8, 16) =~= c2);
    assert(r2.subrange(16, 24) =~= c3);
    assert(r2.subrange(24, 32) =~= c4);
    assert(b == e1 + r1);
    assert(spec_decode_status(b) == Some(
        (v.face_detection_model_status, e1.len() as int),
    ));
    assert(r1 == e2 + r2);
    assert(spec_decode_status(b.skip(e1.len() as int)) == Some(
        (v.face_recognition_model_status, e2.len() as int),
    ));
    assert(b.skip(e1.len() as int).skip(e2.len() as int) == r2);
}

} // verus!
