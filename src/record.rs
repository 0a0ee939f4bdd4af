//! Turning drained frames into printable records.
//!
//! A frame is a raw byte sequence that may end in zero padding. It becomes a
//! record only when its bytes are well-formed UTF-8; its trailing NUL
//! characters are then stripped. Frames that are not text are dropped.
use vstd::prelude::*;
use vstd::slice::slice_to_vec;
use vstd::string::*;
use vstd::utf8::{decode_utf8, valid_utf8};

verus! {

/// The sequence `s` with every trailing `pad` element removed.
pub open spec fn trimmed<A>(s: Seq<A>, pad: A) -> Seq<A>
    decreases s.len(),
{
    if s.len() > 0 && s.last() == pad {
        trimmed(s.drop_last(), pad)
    } else {
        s
    }
}

/// The record text carried by a frame, when the frame is text at all.
pub open spec fn record_of(frame: Seq<u8>) -> Option<Seq<char>> {
    if valid_utf8(frame) {
        Some(trimmed(decode_utf8(frame), '\0'))
    } else {
        None
    }
}

/// The records that a run of frames yields, in frame order; frames that are
/// not text contribute nothing.
pub open spec fn records_of(frames: Seq<Seq<u8>>) -> Seq<Seq<char>>
    decreases frames.len(),
{
    if frames.len() == 0 {
        Seq::empty()
    } else {
        let rest = records_of(frames.drop_last());
        match record_of(frames.last()) {
            Some(text) => rest.push(text),
            None => rest,
        }
    }
}

/// Stripping the padding twice strips nothing more than stripping it once.
pub proof fn lemma_trim_idempotent<A>(s: Seq<A>, pad: A)
    ensures
        trimmed(trimmed(s, pad), pad) == trimmed(s, pad),
        trimmed(s, pad).len() == 0 || trimmed(s, pad).last() != pad,
    decreases s.len(),
{
    if s.len() > 0 && s.last() == pad {
        lemma_trim_idempotent(s.drop_last(), pad);
    }
}

/// Frames are decoded in order: the records of two runs of frames, one after
/// the other, are the records of the first run followed by those of the second.
pub proof fn lemma_records_concat(a: Seq<Seq<u8>>, b: Seq<Seq<u8>>)
    ensures
        records_of(a + b) == records_of(a) + records_of(b),
    decreases b.len(),
{
    if b.len() == 0 {
        assert(a + b =~= a);
        assert(records_of(a) + records_of(b) =~= records_of(a));
    } else {
        lemma_records_concat(a, b.drop_last());
        assert((a + b).drop_last() =~= a + b.drop_last());
        assert((a + b).last() == b.last());
        match record_of(b.last()) {
            Some(text) => {
                assert(records_of(a) + records_of(b.drop_last()).push(text)
                    =~= (records_of(a) + records_of(b.drop_last())).push(text));
            },
            None => {},
        }
    }
}

/// A frame that is not text is dropped: appending it to a run of frames
/// yields no further record.
pub proof fn lemma_non_text_dropped(frames: Seq<Seq<u8>>, frame: Seq<u8>)
    requires
        !valid_utf8(frame),
    ensures
        records_of(frames.push(frame)) == records_of(frames),
{
    assert(frames.push(frame).drop_last() =~= frames);
}

/// Relies on `String::from_utf8`: it succeeds exactly on well-formed UTF-8
/// and then holds the characters that the bytes encode.
#[verifier::external_body]
fn utf8_text(bytes: Vec<u8>) -> (r: Option<String>)
    ensures
        r is Some <==> valid_utf8(bytes@),
        r matches Some(s) ==> s@ == decode_utf8(bytes@),
{
    String::from_utf8(bytes).ok()
}

/// Removes the trailing NUL characters of `text`.
pub fn strip_padding(text: &str) -> (r: String)
    ensures
        r@ == trimmed(text@, '\0'),
{
    let n = text.unicode_len();
    let mut k: usize = n;
    assert(text@.subrange(0, n as int) =~= text@);
    loop
        invariant
            k <= n,
            n == text@.len(),
            trimmed(text@.subrange(0, k as int), '\0') == trimmed(text@, '\0'),
        ensures
            k <= n,
            trimmed(text@.subrange(0, k as int), '\0') == trimmed(text@, '\0'),
            k == 0 || text@[k - 1] != '\0',
        decreases k,
    {
        if k == 0 || text.get_char(k - 1) != '\0' {
            break;
        }
        assert(text@.subrange(0, k as int).drop_last() =~= text@.subrange(0, k - 1));
        k = k - 1;
    }
    let ghost kept = text@.subrange(0, k as int);
    assert(k > 0 ==> kept.last() == text@[k - 1]);
    assert(trimmed(kept, '\0') == kept);
    String::from_str(text.substring_char(0, k))
}

/// Decodes one frame: `None` when its bytes are not UTF-8, else its text
/// without trailing NUL characters.
pub fn decode(raw: &[u8]) -> (r: Option<String>)
    ensures
        r is Some <==> valid_utf8(raw@),
        r matches Some(s) ==> Some(s@) == record_of(raw@),
{
    match utf8_text(slice_to_vec(raw)) {
        Some(text) => Some(strip_padding(text.as_str())),
        None => None,
    }
}

/// Decodes a run of frames into the records to forward, keeping frame order
/// and dropping frames that are not text.
pub fn decode_frames(frames: &Vec<Vec<u8>>) -> (r: Vec<String>)
    ensures
        r.deep_view() == records_of(frames.deep_view()),
{
    let mut out: Vec<String> = Vec::new();
    let mut i: usize = 0;
    while i < frames.len()
        invariant
            i <= frames.len(),
            out.deep_view() == records_of(frames.deep_view().subrange(0, i as int)),
        decreases frames.len() - i,
    {
        let ghost seen = frames.deep_view().subrange(0, i as int);
        let ghost next = frames.deep_view().subrange(0, i + 1);
        assert(next.drop_last() =~= seen);
        assert(next.last() == frames[i as int]@);
        match decode(frames[i].as_slice()) {
            Some(text) => {
                out.push(text);
                assert(out.deep_view() =~= records_of(seen).push(text@));
            },
            None => {},
        }
        i = i + 1;
    }
    assert(frames.deep_view().subrange(0, frames.len() as int) =~= frames.deep_view());
    out
}

} // verus!
