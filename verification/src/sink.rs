//! Destinations, and what one write puts on the wire.
//!
//! A sink accepts a byte buffer and must transmit it whole. Stream
//! destinations (a raw socket) additionally get a fixed three-byte
//! terminator after every payload, so a reader can find message boundaries
//! in an unframed byte stream; the other destinations get the payload alone.

use vstd::prelude::*;

verus! {

/// Message terminator for streaming to log servers. Servers must look out
/// for this sequence, which demarcates the end of a particular log message.
pub const MSG_TERMINATOR: [u8; 3] = [254, 253, 255];

/// The kinds of destination a worker can own.
#[derive(Clone, Copy, PartialEq, Eq, Structural)]
pub enum SinkKind {
    /// Standard output; write-all then flush.
    Console,
    /// A regular file; write-all then flush.
    File,
    /// A stream socket; write-all, then the three-byte terminator.
    Server,
    /// A message-oriented connection that frames messages itself.
    WebSock,
}

/// The terminator sequence, as a mathematical value.
pub open spec fn terminator_seq() -> Seq<u8> {
    seq![254u8, 253u8, 255u8]
}

/// The bytes one write of `payload` puts on the wire of a `kind` sink.
pub open spec fn frame_spec(kind: SinkKind, payload: Seq<u8>) -> Seq<u8> {
    if kind == SinkKind::Server {
        payload + terminator_seq()
    } else {
        payload
    }
}

/// Builds the exact bytes one write of `payload` puts on a `kind` sink.
pub fn frame_payload(kind: SinkKind, payload: &Vec<u8>) -> (r: Vec<u8>)
    ensures
        r@ == frame_spec(kind, payload@),
{
    let mut out: Vec<u8> = Vec::new();
    let mut i: usize = 0;
    while i < payload.len()
        invariant
            i <= payload.len(),
            out@ == payload@.subrange(0, i as int),
        decreases payload.len() - i,
    {
        out.push(payload[i]);
        i = i + 1;
    }
    proof {
        assert(out@ == payload@.subrange(0, payload@.len() as int));
        assert(payload@.subrange(0, payload@.len() as int) =~= payload@);
    }
    if matches!(kind, SinkKind::Server) {
        out.push(254);
        out.push(253);
        out.push(255);
        proof {
            assert(out@ =~= payload@ + terminator_seq());
        }
    }
    out
}

/// A destination, modelled by the bytes it has accepted so far.
///
/// The real resource (a file handle, a socket) lives outside this library;
/// this model is what the worker's contracts and the write-ordering laws
/// speak of.
pub struct SinkModel {
    /// Which kind of destination this is.
    pub kind: SinkKind,
    /// Every byte accepted so far, in order.
    pub data: Vec<u8>,
}

impl SinkModel {
    /// A freshly opened destination holding nothing.
    pub fn new(kind: SinkKind) -> (r: SinkModel)
        ensures
            r.kind == kind,
            r.data@ == Seq::<u8>::empty(),
    {
        SinkModel { kind, data: Vec::new() }
    }

    /// A file destination opened over existing contents: in append mode the
    /// old bytes stay, in truncate mode they are discarded.
    pub fn open_file(existing: Vec<u8>, append: bool) -> (r: SinkModel)
        ensures
            r.kind == SinkKind::File,
            append ==> r.data@ == existing@,
            !append ==> r.data@ == Seq::<u8>::empty(),
    {
        SinkModel {
            kind: SinkKind::File,
            data: if append { existing } else { Vec::new() },
        }
    }

    /// One successful write: the framed payload, whole, after everything
    /// already accepted.
    pub fn write(&mut self, payload: &Vec<u8>)
        ensures
            final(self).kind == old(self).kind,
            final(self).data@ == old(self).data@ + frame_spec(old(self).kind, payload@),
    {
        let mut framed = frame_payload(self.kind, payload);
        let mut i: usize = 0;
        let ghost start = self.data@;
        let ghost f = framed@;
        while i < framed.len()
            invariant
                i <= framed.len(),
                framed@ == f,
                self.data@ == start + f.subrange(0, i as int),
                self.kind == old(self).kind,
            decreases framed.len() - i,
        {
            let b = framed[i];
            self.data.push(b);
            i = i + 1;
            proof {
                assert(start + f.subrange(0, i - 1) + seq![f[i - 1]] =~= start + f.subrange(
                    0,
                    i as int,
                ));
            }
        }
        proof {
            assert(f.subrange(0, f.len() as int) =~= f);
        }
    }
}

/// Back-to-back stream writes: two payloads arrive as the first payload,
/// one terminator, the second payload, one terminator — in that order, with
/// nothing interleaved.
pub proof fn lemma_stream_writes_are_framed(p1: Seq<u8>, p2: Seq<u8>)
    ensures
        frame_spec(SinkKind::Server, p1) + frame_spec(SinkKind::Server, p2) == p1
            + terminator_seq() + p2 + terminator_seq(),
{
    assert(frame_spec(SinkKind::Server, p1) + frame_spec(SinkKind::Server, p2) =~= p1
        + terminator_seq() + p2 + terminator_seq());
}

} // verus!
