//! What a save puts on the wire, step by step.
use crate::cartridge::chunk::{ChunkType, ChunkView};
use crate::cartridge::error::Fault;
use crate::cartridge::stream::{lemma_written_twice, StreamError, StreamView};
use vstd::prelude::*;

verus! {

/// What a save puts on the wire: the bytes, and the fault that stopped it,
/// if one did.
pub struct Emitted {
    /// The bytes produced before the fault, or all of them.
    pub bytes: Seq<u8>,
    /// The fault that ended the save early.
    pub fault: Option<Fault>,
}

impl Emitted {
    /// The bytes `bytes`, produced without a fault.
    pub open spec fn of(bytes: Seq<u8>) -> Emitted {
        Emitted { bytes, fault: None }
    }

    /// This emission followed by `next`, which does not happen where this
    /// one has stopped on a fault.
    pub open spec fn followed_by(self, next: Emitted) -> Emitted {
        if self.fault is Some {
            self
        } else {
            Emitted { bytes: self.bytes + next.bytes, fault: next.fault }
        }
    }

    /// What a save of one optional field emits: nothing where the field is
    /// empty, else its chunk, or the fault of a payload that the chunk type
    /// does not admit.
    pub open spec fn field(chunk_type: ChunkType, data: Seq<u8>) -> Emitted {
        let chunk = ChunkView::of(chunk_type, data);
        if data.len() == 0 {
            Emitted::of(Seq::<u8>::empty())
        } else if chunk.fault() is Some {
            Emitted { bytes: Seq::<u8>::empty(), fault: chunk.fault() }
        } else {
            Emitted::of(chunk.image())
        }
    }

    /// What goes wrong with a save of this emission to `stream`: the stream
    /// runs out of room for the bytes, or else the fault of the emission.
    pub open spec fn outcome(self, stream: StreamView) -> Option<Fault> {
        if stream.accepts(self.bytes.len()) {
            self.fault
        } else {
            Some(Fault::Io(StreamError::WriteZero))
        }
    }

    /// Whether `total` is this emission carried on: the same where this one
    /// stopped on a fault, else one that starts with the same bytes.
    pub open spec fn leads_to(self, total: Emitted) -> bool {
        if self.fault is Some {
            total == self
        } else {
            self.bytes.is_prefix_of(total.bytes)
        }
    }
}

/// An emission leads to itself.
pub proof fn lemma_leads_to_itself(total: Emitted)
    ensures
        total.leads_to(total),
{
}

/// Where an emission followed by a piece leads to `total`, the emission
/// alone does.
pub proof fn lemma_leads_to_earlier(before: Emitted, piece: Emitted, total: Emitted)
    requires
        before.followed_by(piece).leads_to(total),
    ensures
        before.leads_to(total),
{
    let after = before.followed_by(piece);
    if before.fault is None {
        assert(before.bytes.is_prefix_of(after.bytes));
        assert(after.bytes.is_prefix_of(total.bytes));
    }
}

/// One step of a save. The stream took all the bytes of `before`; then the
/// bytes of `piece` are written, unless `piece` is a fault. Either the step
/// goes well and the stream has taken all the bytes so far, or the save ends
/// here as the whole emission `total` says.
pub proof fn lemma_save_step(start: StreamView, before: Emitted, piece: Emitted, total: Emitted)
    requires
        before.fault is None,
        start.accepts(before.bytes.len()),
        before.followed_by(piece).leads_to(total),
    ensures
        start.written(before.bytes).written(piece.bytes) == start.written(
            before.followed_by(piece).bytes,
        ),
        piece.outcome(start.written(before.bytes)) is None ==> {
            &&& before.followed_by(piece).fault is None
            &&& start.accepts(before.followed_by(piece).bytes.len())
        },
        piece.outcome(start.written(before.bytes)) is Some ==> {
            &&& start.written(before.followed_by(piece).bytes) == start.written(total.bytes)
            &&& total.outcome(start) == piece.outcome(start.written(before.bytes))
        },
{
    let now = start.written(before.bytes);
    let after = before.followed_by(piece);
    lemma_written_twice(start, before.bytes, piece.bytes);
    if piece.outcome(now) is Some {
        if now.accepts(piece.bytes.len()) {
            assert(total == after);
        } else {
            let rest = total.bytes.skip(after.bytes.len() as int);
            if after.fault is Some {
                assert(total == after);
                assert(rest == Seq::<u8>::empty());
            }
            assert(after.bytes + rest == total.bytes);
            lemma_written_twice(start, after.bytes, rest);
        }
    }
}

} // verus!
