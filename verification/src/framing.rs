//! Cutting received bytes into frames.
//!
//! In `ASCII` framing the bytes are split at every `\n` (0x0A), as
//! `<[u8]>::split` does, and each non-empty piece is decoded as UTF-8 text.
//! In `COBS` framing the whole buffer is one COBS-encoded message.
use vstd::prelude::*;
use vstd::utf8::*;

verus! {

/// The byte that separates text lines.
pub const NEWLINE: u8 = 0x0A;

/// The pieces between the newlines of `s`, in order, empty ones included; a
/// buffer with `k` newlines has `k + 1` pieces.
pub open spec fn split_pieces(s: Seq<u8>) -> Seq<Seq<u8>>
    decreases s.len(),
{
    if s.len() == 0 {
        seq![Seq::<u8>::empty()]
    } else {
        let prev = split_pieces(s.drop_last());
        if s.last() == NEWLINE {
            prev.push(Seq::<u8>::empty())
        } else {
            prev.update(prev.len() - 1, prev.last().push(s.last()))
        }
    }
}

/// The pieces put back together, with a newline between each two.
pub open spec fn join_pieces(pieces: Seq<Seq<u8>>) -> Seq<u8>
    decreases pieces.len(),
{
    if pieces.len() <= 1 {
        if pieces.len() == 0 {
            Seq::<u8>::empty()
        } else {
            pieces[0]
        }
    } else {
        join_pieces(pieces.drop_last()) + seq![NEWLINE] + pieces.last()
    }
}

/// The text frames decoded from the first `n` pieces, and the index of the
/// first non-empty piece among them that is not UTF-8, if any.  Frames are
/// `(index of the piece, its characters)`; empty pieces give no frame, and no
/// frame is decoded after a malformed piece.
pub open spec fn ascii_outcome(pieces: Seq<Seq<u8>>, n: int) -> (Seq<(int, Seq<char>)>, Option<int>)
    decreases n,
{
    if n <= 0 {
        (Seq::empty(), None)
    } else {
        let prev = ascii_outcome(pieces, n - 1);
        let piece = pieces[n - 1];
        if prev.1 is Some || piece.len() == 0 {
            prev
        } else if valid_utf8(piece) {
            (prev.0.push((n - 1, decode_utf8(piece))), None)
        } else {
            (prev.0, Some(n - 1))
        }
    }
}

/// What ASCII framing makes of the buffer `s`.
pub open spec fn ascii_frames_of(s: Seq<u8>) -> (Seq<(int, Seq<char>)>, Option<int>) {
    ascii_outcome(split_pieces(s), split_pieces(s).len() as int)
}

/// A buffer always has at least one piece.
pub proof fn lemma_split_pieces_len(s: Seq<u8>)
    ensures
        split_pieces(s).len() >= 1,
    decreases s.len(),
{
    if s.len() > 0 {
        lemma_split_pieces_len(s.drop_last());
    }
}

/// Splitting loses nothing: putting the pieces back together with a newline
/// between each two gives the buffer again.
pub proof fn lemma_split_join(s: Seq<u8>)
    ensures
        join_pieces(split_pieces(s)) == s,
    decreases s.len(),
{
    if s.len() > 0 {
        let s0 = s.drop_last();
        let p = split_pieces(s0);
        lemma_split_join(s0);
        lemma_split_pieces_len(s0);
        let q = split_pieces(s);
        if s.last() == NEWLINE {
            assert(q.drop_last() =~= p);
            assert(s =~= s0 + seq![NEWLINE] + Seq::<u8>::empty());
        } else if p.len() == 1 {
            assert(s =~= s0.push(s.last()));
        } else {
            assert(q.drop_last() =~= p.drop_last());
            let front = join_pieces(p.drop_last()) + seq![NEWLINE];
            assert(s0 == front + p.last());
            assert(s =~= s0.push(s.last()));
            assert(front + p.last().push(s.last()) =~= (front + p.last()).push(s.last()));
        }
    }
}

/// No piece holds a newline.
pub proof fn lemma_pieces_have_no_newline(s: Seq<u8>)
    ensures
        forall|i: int, j: int|
            0 <= i < split_pieces(s).len() && 0 <= j < split_pieces(s)[i].len()
                ==> #[trigger] split_pieces(s)[i][j] != NEWLINE,
    decreases s.len(),
{
    if s.len() > 0 {
        let s0 = s.drop_last();
        lemma_pieces_have_no_newline(s0);
        lemma_split_pieces_len(s0);
        let p = split_pieces(s0);
        let q = split_pieces(s);
        assert forall|i: int, j: int| 0 <= i < q.len() && 0 <= j < q[i].len() implies #[trigger] q[i][j] != NEWLINE by {
            if i < p.len() - 1 {
                assert(q[i] == p[i]);
            } else if i == p.len() - 1 {
                if s.last() == NEWLINE {
                    assert(q[i] == p[i]);
                } else if j < p[i].len() {
                    assert(q[i][j] == p[i][j]);
                }
            }
        }
    }
}

/// The frames of the first `n` pieces are exactly their non-empty UTF-8 pieces
/// before the first malformed one, decoded, in increasing order of index; the
/// malformed index, if any, is that of a non-empty piece that is not UTF-8 and
/// every non-empty piece before it is UTF-8.
pub proof fn lemma_ascii_outcome(pieces: Seq<Seq<u8>>, n: int)
    requires
        0 <= n <= pieces.len(),
    ensures
        ({
            let (frames, bad) = ascii_outcome(pieces, n);
            let stop = match bad {
                Some(k) => k,
                None => n,
            };
            &&& 0 <= stop <= n
            &&& bad matches Some(k) ==> pieces[k].len() > 0 && !valid_utf8(pieces[k])
            &&& forall|i: int|
                0 <= i < frames.len() ==> {
                    let (k, text) = #[trigger] frames[i];
                    &&& 0 <= k < stop
                    &&& pieces[k].len() > 0
                    &&& valid_utf8(pieces[k])
                    &&& text == decode_utf8(pieces[k])
                }
            &&& forall|i: int, j: int| 0 <= i < j < frames.len() ==> #[trigger] frames[i].0 < #[trigger] frames[j].0
            &&& forall|k: int|
                0 <= k < stop && #[trigger] pieces[k].len() > 0 ==> valid_utf8(pieces[k]) && exists|i: int|
                    0 <= i < frames.len() && #[trigger] frames[i].0 == k
        }),
    decreases n,
{
    if n > 0 {
        lemma_ascii_outcome(pieces, n - 1);
        let prev = ascii_outcome(pieces, n - 1);
        let cur = ascii_outcome(pieces, n);
        if prev.1 is None && pieces[n - 1].len() > 0 && valid_utf8(pieces[n - 1]) {
            let frames = cur.0;
            assert(frames.len() == prev.0.len() + 1);
            assert(frames[prev.0.len() as int].0 == n - 1);
            assert forall|k: int|
                0 <= k < n && #[trigger] pieces[k].len() > 0 implies valid_utf8(pieces[k]) && exists|i: int|
                0 <= i < frames.len() && #[trigger] frames[i].0 == k by {
                if k < n - 1 {
                    let i = choose|i: int| 0 <= i < prev.0.len() && #[trigger] prev.0[i].0 == k;
                    assert(frames[i] == prev.0[i]);
                } else {
                    assert(frames[prev.0.len() as int].0 == k);
                }
            }
        }
    }
}

/// The views of a vector of byte vectors.
pub open spec fn pieces_view(v: Seq<Vec<u8>>) -> Seq<Seq<u8>> {
    v.map_values(|p: Vec<u8>| p@)
}

/// Splits `buf` at every newline.
pub fn split_lines(buf: &[u8]) -> (pieces: Vec<Vec<u8>>)
    ensures
        pieces_view(pieces@) == split_pieces(buf@),
{
    let mut pieces: Vec<Vec<u8>> = Vec::new();
    let mut cur: Vec<u8> = Vec::new();
    let mut i: usize = 0;
    assert(buf@.take(0) =~= Seq::<u8>::empty());
    assert(pieces_view(pieces@).push(cur@) =~= split_pieces(buf@.take(0)));
    while i < buf.len()
        invariant
            i <= buf@.len(),
            pieces_view(pieces@).push(cur@) == split_pieces(buf@.take(i as int)),
        decreases buf@.len() - i,
    {
        let b = buf[i];
        let ghost before = buf@.take(i as int);
        let ghost after = buf@.take(i + 1);
        assert(after.drop_last() =~= before);
        assert(after.last() == b);
        proof {
            lemma_split_pieces_len(before);
        }
        if b == NEWLINE {
            let ghost old_view = pieces_view(pieces@);
            let done = cur;
            pieces.push(done);
            cur = Vec::new();
            assert(pieces_view(pieces@) =~= old_view.push(done@));
            assert(pieces_view(pieces@).push(cur@) =~= split_pieces(after));
        } else {
            let ghost old_view = pieces_view(pieces@);
            let ghost old_cur = cur@;
            cur.push(b);
            assert(pieces_view(pieces@).push(cur@) =~= old_view.push(old_cur).update(
                old_view.len() as int,
                old_cur.push(b),
            ));
        }
        i = i + 1;
    }
    assert(buf@.take(buf@.len() as int) =~= buf@);
    let ghost old_view = pieces_view(pieces@);
    let last = cur;
    pieces.push(last);
    assert(pieces_view(pieces@) =~= old_view.push(last@));
    pieces
}

/// A line of text received in `ASCII` framing.
#[derive(Debug)]
pub struct AsciiFrame {
    /// Position of the line among all pieces of the buffer, empty ones counted.
    pub index: usize,
    pub text: String,
}

/// The lines of a buffer in `ASCII` framing.
#[derive(Debug)]
pub struct AsciiReport {
    /// The decoded lines, in order, up to the first malformed one.
    pub frames: Vec<AsciiFrame>,
    /// The index of the first non-empty piece that is not UTF-8, if any.
    pub malformed: Option<usize>,
}

/// The frames of a report as pairs of index and characters.
pub open spec fn frames_view(frames: Seq<AsciiFrame>) -> Seq<(int, Seq<char>)> {
    frames.map_values(|f: AsciiFrame| (f.index as int, f.text@))
}

/// The view of an optional index.
pub open spec fn index_view(i: Option<usize>) -> Option<int> {
    match i {
        Some(k) => Some(k as int),
        None => None,
    }
}

/// Reads `bytes` as UTF-8 with `std::str::from_utf8`.  Its documentation says
/// that it succeeds exactly on valid UTF-8 and that the string it gives is the
/// slice's bytes; the contract says so with vstd's `valid_utf8`.
#[verifier::external_body]
fn utf8_str(bytes: &[u8]) -> (r: Option<&str>)
    ensures
        (r is Some) == valid_utf8(bytes@),
        r matches Some(s) ==> encode_utf8(s@) == bytes@,
{
    std::str::from_utf8(bytes).ok()
}

/// Decodes `bytes` as UTF-8 text, or gives `None` when they are not UTF-8.
pub fn utf8_text(bytes: &[u8]) -> (r: Option<String>)
    ensures
        (r is Some) == valid_utf8(bytes@),
        r matches Some(t) ==> t@ == decode_utf8(bytes@),
{
    match utf8_str(bytes) {
        Some(s) => {
            proof {
                vstd::utf8::encode_utf8_decode_utf8(s@);
            }
            Some(s.to_owned())
        },
        None => None,
    }
}

/// Splits `buf` into lines and decodes them, stopping at the first malformed one.
pub fn decode_ascii_frames(buf: &[u8]) -> (r: AsciiReport)
    ensures
        (frames_view(r.frames@), index_view(r.malformed)) == ascii_frames_of(buf@),
{
    let pieces = split_lines(buf);
    let ghost ps = split_pieces(buf@);
    let mut frames: Vec<AsciiFrame> = Vec::new();
    let mut malformed: Option<usize> = None;
    let mut j: usize = 0;
    assert(frames_view(frames@) =~= Seq::<(int, Seq<char>)>::empty());
    while j < pieces.len()
        invariant
            j <= pieces@.len(),
            pieces_view(pieces@) == ps,
            (frames_view(frames@), index_view(malformed)) == ascii_outcome(ps, j as int),
        decreases pieces@.len() - j,
    {
        assert(pieces@[j as int]@ == ps[j as int]);
        if malformed.is_none() && pieces[j].len() > 0 {
            match utf8_text(pieces[j].as_slice()) {
                Some(text) => {
                    let ghost old_frames = frames_view(frames@);
                    frames.push(AsciiFrame { index: j, text });
                    assert(frames_view(frames@) =~= old_frames.push((j as int, decode_utf8(ps[j as int]))));
                },
                None => {
                    malformed = Some(j);
                },
            }
        }
        j = j + 1;
    }
    AsciiReport { frames, malformed }
}

/// The message that `cobs::decode_vec` decodes from `encoded` (with the usual
/// sentinel 0), or `None` where it reports an error.
pub uninterp spec fn cobs_decoding(encoded: Seq<u8>) -> Option<Seq<u8>>;

/// The view of optional bytes.
pub open spec fn bytes_view(b: Option<Vec<u8>>) -> Option<Seq<u8>> {
    match b {
        Some(v) => Some(v@),
        None => None,
    }
}

/// Decodes a COBS message with `cobs::decode_vec`.  The contract only names
/// the outcome, `cobs_decoding(encoded)`: `Ok` becomes `Some`, the error
/// `None`; it says nothing of what the decoding is.
#[verifier::external_body]
pub(crate) fn cobs_decode_vec(encoded: &[u8]) -> (r: Option<Vec<u8>>)
    ensures
        bytes_view(r) == cobs_decoding(encoded@),
{
    match cobs::decode_vec(encoded) {
        Ok(v) => Some(v),
        Err(()) => None,
    }
}

} // verus!
