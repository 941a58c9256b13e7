//! The serial reader: what it keeps between reads and how it turns the bytes
//! read from the port into frames.  Opening and reading the port, and
//! delivering the frames, is up to the caller.
use vstd::prelude::*;
use vstd::utf8::{decode_utf8, valid_utf8};
use crate::framing::{
    AsciiReport, ascii_frames_of, ascii_outcome, lemma_ascii_outcome, split_pieces, bytes_view, cobs_decode_vec, cobs_decoding, decode_ascii_frames,
    frames_view, index_view,
};
use crate::types::{frameType, serialCtrl, serialSettings};

verus! {

/// The frames found in the received bytes.
#[derive(Debug)]
pub enum FrameReport {
    /// `ASCII` framing: the decoded lines.
    Ascii(AsciiReport),
    /// `COBS` framing: the decoded message, or `None` when it is malformed.
    Cobs(Option<Vec<u8>>),
    /// `CUSTOM` framing: nothing is decoded.
    Custom,
}

/// `r` is what framing `ft` makes of the bytes `buf`.
pub open spec fn report_of(r: FrameReport, ft: frameType, buf: Seq<u8>) -> bool {
    match ft {
        frameType::ASCII => r matches FrameReport::Ascii(a) && (frames_view(a.frames@), index_view(a.malformed))
            == ascii_frames_of(buf),
        frameType::COBS => r matches FrameReport::Cobs(d) && bytes_view(d) == cobs_decoding(buf),
        frameType::CUSTOM => r is Custom,
    }
}

/// Why the port could not tell how many bytes wait.
#[derive(Clone, Copy, Debug, PartialEq, Eq, Structural)]
pub enum PortErrorKind {
    NoDevice,
    InvalidInput,
    Unknown,
    Io,
}

/// What the reader does after asking the port how many bytes wait.
#[derive(Clone, Copy, Debug, PartialEq, Eq, Structural)]
pub enum PollAction {
    /// Read all waiting bytes and frame them.
    ReadAll,
    /// Nothing waits.
    Wait,
    /// Report the error.
    Report(PortErrorKind),
}

/// A serial reader.
#[derive(Debug)]
pub struct serial {
    /// Bytes received and not yet framed.
    pub iBuffer: Vec<u8>,
    /// Scratch space for COBS messages.
    pub cobsBuffer: Vec<u8>,
    pub settings: serialSettings,
    pub fType: frameType,
    /// The session's id.
    pub id: u8,
}

/// In `ASCII` framing the report holds one frame for every non-empty line of
/// `buf` up to the first line that is not UTF-8, in order of position, each
/// with the line's index among the pieces split at newlines and the line's
/// decoded text, and nothing else; `malformed` is the index of that first
/// non-UTF-8 line, if there is one.
pub proof fn lemma_ascii_report(r: FrameReport, buf: Seq<u8>)
    requires
        report_of(r, frameType::ASCII, buf),
    ensures
        r matches FrameReport::Ascii(a) && ({
            let pieces = split_pieces(buf);
            let stop = match a.malformed {
                Some(k) => k as int,
                None => pieces.len() as int,
            };
            &&& 0 <= stop <= pieces.len()
            &&& a.malformed matches Some(k) ==> pieces[k as int].len() > 0 && !valid_utf8(pieces[k as int])
            &&& forall|i: int|
                0 <= i < a.frames@.len() ==> {
                    let f = #[trigger] a.frames@[i];
                    &&& 0 <= f.index < stop
                    &&& pieces[f.index as int].len() > 0
                    &&& valid_utf8(pieces[f.index as int])
                    &&& f.text@ == decode_utf8(pieces[f.index as int])
                }
            &&& forall|i: int, j: int|
                0 <= i < j < a.frames@.len() ==> #[trigger] a.frames@[i].index < #[trigger] a.frames@[j].index
            &&& forall|k: int|
                0 <= k < stop && #[trigger] pieces[k].len() > 0 ==> valid_utf8(pieces[k]) && exists|i: int|
                    0 <= i < a.frames@.len() && #[trigger] a.frames@[i].index == k
        }),
{
    let pieces = split_pieces(buf);
    lemma_ascii_outcome(pieces, pieces.len() as int);
    if let FrameReport::Ascii(a) = r {
        let fv = frames_view(a.frames@);
        let out = ascii_outcome(pieces, pieces.len() as int);
        assert(fv == out.0 && index_view(a.malformed) == out.1);
        assert(fv.len() == a.frames@.len());
        let stop = match a.malformed {
            Some(k) => k as int,
            None => pieces.len() as int,
        };
        assert forall|i: int| 0 <= i < a.frames@.len() implies {
            let f = #[trigger] a.frames@[i];
            &&& 0 <= f.index < stop
            &&& pieces[f.index as int].len() > 0
            &&& valid_utf8(pieces[f.index as int])
            &&& f.text@ == decode_utf8(pieces[f.index as int])
        } by {
            assert(fv[i] == (a.frames@[i].index as int, a.frames@[i].text@));
            let t = out.0[i];
            assert(t == fv[i]);
        }
        assert forall|i: int, j: int|
            0 <= i < j < a.frames@.len() implies #[trigger] a.frames@[i].index < #[trigger] a.frames@[j].index by {
            assert(out.0[i].0 < out.0[j].0);
            assert(fv[i].0 == a.frames@[i].index && fv[j].0 == a.frames@[j].index);
        }
        assert forall|k: int|
            0 <= k < (match a.malformed {
                Some(k) => k as int,
                None => pieces.len() as int,
            }) && #[trigger] pieces[k].len() > 0 implies valid_utf8(pieces[k]) && exists|i: int|
            0 <= i < a.frames@.len() && #[trigger] a.frames@[i].index == k by {
            let i = choose|i: int| 0 <= i < out.0.len() && #[trigger] out.0[i].0 == k;
            assert(a.frames@[i].index == k);
        }
    }
}

/// In `COBS` framing the report is exactly what `cobs::decode_vec` makes of
/// the whole buffer, whatever the message's length: the decoded message when
/// it decodes, `None` when it does not.
pub proof fn lemma_cobs_report(r: FrameReport, buf: Seq<u8>)
    requires
        report_of(r, frameType::COBS, buf),
    ensures
        r matches FrameReport::Cobs(d) && (match cobs_decoding(buf) {
            Some(m) => d matches Some(v) && v@ == m,
            None => d is None,
        }),
{
}

impl serial {
    /// A reader for a session with settings `cfg` and id `id`.
    pub fn new(cfg: serialSettings, id: u8) -> (s: serial)
        ensures
            s.fType == cfg.decoder,
            s.settings == cfg,
            s.id == id,
            s.iBuffer@ == Seq::<u8>::empty(),
            s.cobsBuffer@ == Seq::<u8>::empty(),
    {
        let decoder = cfg.decoder;
        serial {
            iBuffer: Vec::with_capacity(2048),
            cobsBuffer: Vec::with_capacity(2048),
            settings: cfg,
            fType: decoder,
            id,
        }
    }

    /// The frames in the bytes received so far.
    pub fn read_bytes(&self) -> (r: FrameReport)
        ensures
            report_of(r, self.fType, self.iBuffer@),
    {
        match self.fType {
            frameType::ASCII => FrameReport::Ascii(decode_ascii_frames(self.iBuffer.as_slice())),
            frameType::COBS => FrameReport::Cobs(cobs_decode_vec(self.iBuffer.as_slice())),
            frameType::CUSTOM => FrameReport::Custom,
        }
    }

    /// Adds `chunk` to the received bytes, frames them all and empties the buffer.
    pub fn process_chunk(&mut self, chunk: Vec<u8>) -> (r: FrameReport)
        ensures
            report_of(r, old(self).fType, old(self).iBuffer@ + chunk@),
            final(self).iBuffer@ == Seq::<u8>::empty(),
            final(self).cobsBuffer == old(self).cobsBuffer,
            final(self).settings == old(self).settings,
            final(self).fType == old(self).fType,
            final(self).id == old(self).id,
    {
        let mut chunk = chunk;
        self.iBuffer.append(&mut chunk);
        let r = self.read_bytes();
        self.iBuffer.clear();
        r
    }
}

/// What to do with the port's answer to how many bytes wait.
pub fn poll_action(waiting: Result<u32, PortErrorKind>) -> (a: PollAction)
    ensures
        a == (match waiting {
            Ok(n) => if n > 0 {
                PollAction::ReadAll
            } else {
                PollAction::Wait
            },
            Err(kind) => PollAction::Report(kind),
        }),
{
    match waiting {
        Ok(n) => if n > 0 {
            PollAction::ReadAll
        } else {
            PollAction::Wait
        },
        Err(kind) => PollAction::Report(kind),
    }
}

/// Whether a message on the reader's stop channel asks it to stop; `None`
/// stands for an empty channel.
pub fn stop_requested(signal: Option<bool>) -> (stop: bool)
    ensures
        stop == (signal == Some(true)),
{
    match signal {
        Some(b) => b,
        None => false,
    }
}

/// The command a reader sends its manager when it ends.
pub fn exit_notice() -> (c: serialCtrl)
    ensures
        c == serialCtrl::EXIT,
{
    serialCtrl::EXIT
}

/// The label under which a port error is reported.
pub fn port_error_label(kind: PortErrorKind) -> (s: String)
    ensures
        s@ == (match kind {
            PortErrorKind::NoDevice => "NO DEVICE"@,
            PortErrorKind::InvalidInput => "INVALID INPUT"@,
            PortErrorKind::Unknown => "UNKNOWN"@,
            PortErrorKind::Io => "I/O"@,
        }),
{
    match kind {
        PortErrorKind::NoDevice => "NO DEVICE".to_owned(),
        PortErrorKind::InvalidInput => "INVALID INPUT".to_owned(),
        PortErrorKind::Unknown => "UNKNOWN".to_owned(),
        PortErrorKind::Io => "I/O".to_owned(),
    }
}

} // verus!
