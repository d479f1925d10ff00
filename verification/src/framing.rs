//! Command units of the two transports: one per line on a stream, one per
//! datagram.

use vstd::prelude::*;

verus! {

/// The byte that ends a command unit on a stream.
pub const LINE_END: u8 = 0x0a;

/// The size of the buffer that a datagram is received into: what a datagram
/// holds beyond it is cut off.
pub const DATAGRAM_BUFFER_SIZE: usize = 1024;

/// The length of the first unit of `bytes`: through the first line end, or all
/// of `bytes` where there is none.
pub open spec fn first_unit_len(bytes: Seq<u8>) -> nat
    decreases bytes.len(),
{
    if bytes.len() == 0 {
        0
    } else if bytes.first() == LINE_END {
        1
    } else {
        1 + first_unit_len(bytes.drop_first())
    }
}

/// The units of a whole stream, in order: each line with the byte that ends
/// it, and last what follows the last line end, if anything does.
pub open spec fn units(bytes: Seq<u8>) -> Seq<Seq<u8>>
    decreases bytes.len(),
    via units_decreases
{
    if bytes.len() == 0 {
        Seq::empty()
    } else {
        let n = first_unit_len(bytes) as int;
        seq![bytes.subrange(0, n)] + units(bytes.subrange(n, bytes.len() as int))
    }
}

#[via_fn]
proof fn units_decreases(bytes: Seq<u8>) {
    if bytes.len() > 0 {
        lemma_first_unit(bytes);
    }
}

/// The units in `parts`, one after the other.
pub open spec fn joined(parts: Seq<Seq<u8>>) -> Seq<u8>
    decreases parts.len(),
{
    if parts.len() == 0 {
        Seq::empty()
    } else {
        parts.first() + joined(parts.drop_first())
    }
}

/// The first unit of a stream that is not empty is not empty, lies within the
/// stream, holds no line end before its last byte, and ends with a line end
/// unless it is the whole stream.
pub proof fn lemma_first_unit(bytes: Seq<u8>)
    requires
        bytes.len() > 0,
    ensures
        1 <= first_unit_len(bytes) <= bytes.len(),
        forall|j: int| 0 <= j < first_unit_len(bytes) - 1 ==> bytes[j] != LINE_END,
        first_unit_len(bytes) < bytes.len() ==> bytes[first_unit_len(bytes) - 1] == LINE_END,
        bytes[first_unit_len(bytes) - 1] != LINE_END ==> first_unit_len(bytes) == bytes.len(),
    decreases bytes.len(),
{
    let rest = bytes.drop_first();
    if bytes.first() == LINE_END {
        assert(first_unit_len(bytes) == 1);
    } else if rest.len() == 0 {
        assert(first_unit_len(rest) == 0);
        assert(first_unit_len(bytes) == 1);
    } else {
        lemma_first_unit(rest);
        assert(first_unit_len(bytes) == 1 + first_unit_len(rest));
        assert forall|j: int| 0 <= j < first_unit_len(bytes) - 1 implies bytes[j] != LINE_END by {
            if j > 0 {
                assert(bytes[j] == rest[j - 1]);
            }
        }
        assert(bytes[first_unit_len(bytes) - 1] == rest[first_unit_len(rest) - 1]);
    }
}

/// Nothing is lost, repeated or reordered when a stream is cut into units: the
/// units, one after the other, are the stream.
pub proof fn lemma_units_rebuild_stream(bytes: Seq<u8>)
    ensures
        joined(units(bytes)) == bytes,
    decreases bytes.len(),
{
    if bytes.len() > 0 {
        lemma_first_unit(bytes);
        let n = first_unit_len(bytes) as int;
        let rest = bytes.subrange(n, bytes.len() as int);
        lemma_units_rebuild_stream(rest);
        assert(units(bytes).first() == bytes.subrange(0, n));
        assert(units(bytes).drop_first() =~= units(rest));
        assert(bytes.subrange(0, n) + rest =~= bytes);
    } else {
        assert(joined(units(bytes)) =~= bytes);
    }
}

/// No unit is empty, none holds a line end before its last byte, and each one
/// but the last ends with a line end.
pub proof fn lemma_units_are_lines(bytes: Seq<u8>, i: int)
    requires
        0 <= i < units(bytes).len(),
    ensures
        units(bytes)[i].len() >= 1,
        forall|j: int| 0 <= j < units(bytes)[i].len() - 1 ==> units(bytes)[i][j] != LINE_END,
        i < units(bytes).len() - 1 ==> units(bytes)[i].last() == LINE_END,
    decreases bytes.len(),
{
    lemma_first_unit(bytes);
    let n = first_unit_len(bytes) as int;
    let rest = bytes.subrange(n, bytes.len() as int);
    if i == 0 {
        assert(units(bytes)[0] == bytes.subrange(0, n));
        assert(units(bytes).len() == 1 + units(rest).len());
        if rest.len() == 0 {
            assert(units(rest).len() == 0);
        }
    } else {
        assert(units(bytes)[i] == units(rest)[i - 1]);
        lemma_units_are_lines(rest, i - 1);
    }
}

/// Bytes that arrive later do not change a line that is already complete.
pub proof fn lemma_later_bytes_keep_line(held: Seq<u8>, more: Seq<u8>)
    requires
        held.contains(LINE_END),
    ensures
        first_unit_len(held + more) == first_unit_len(held),
        (held + more).subrange(0, first_unit_len(held) as int) == held.subrange(
            0,
            first_unit_len(held) as int,
        ),
    decreases held.len(),
{
    lemma_first_unit(held);
    if held.first() != LINE_END {
        let i = choose|i: int| 0 <= i < held.len() && held[i] == LINE_END;
        assert(held.drop_first()[i - 1] == LINE_END);
        lemma_later_bytes_keep_line(held.drop_first(), more);
        assert((held + more).drop_first() =~= held.drop_first() + more);
    }
    assert((held + more).subrange(0, first_unit_len(held) as int) =~= held.subrange(
        0,
        first_unit_len(held) as int,
    ));
}

/// The index of the first line end in `bytes`, if there is one.
pub fn find_line_end(bytes: &[u8]) -> (found: Option<usize>)
    ensures
        match found {
            Some(i) => i < bytes@.len() && bytes@[i as int] == LINE_END && first_unit_len(bytes@)
                == i + 1,
            None => first_unit_len(bytes@) == bytes@.len() && !bytes@.contains(LINE_END),
        },
{
    let mut i: usize = 0;
    assert(bytes@.subrange(0, bytes@.len() as int) =~= bytes@);
    while i < bytes.len()
        invariant
            i <= bytes.len(),
            forall|j: int| 0 <= j < i ==> bytes@[j] != LINE_END,
            first_unit_len(bytes@) == i + first_unit_len(bytes@.subrange(i as int, bytes@.len() as int)),
        decreases bytes.len() - i,
    {
        let ghost tail = bytes@.subrange(i as int, bytes@.len() as int);
        if bytes[i] == LINE_END {
            assert(tail.first() == LINE_END);
            return Some(i);
        }
        assert(tail.drop_first() =~= bytes@.subrange(i + 1, bytes@.len() as int));
        i += 1;
    }
    None
}

/// The bytes of a stream that have arrived and were not yet handed out as
/// units.
pub struct LineBuffer {
    pending: Vec<u8>,
}

impl View for LineBuffer {
    type V = Seq<u8>;

    closed spec fn view(&self) -> Seq<u8> {
        self.pending@
    }
}

impl LineBuffer {
    /// A buffer that holds nothing.
    pub fn new() -> (buffer: LineBuffer)
        ensures
            buffer@ == Seq::<u8>::empty(),
    {
        LineBuffer { pending: Vec::new() }
    }

    /// Adds the bytes of `chunk` behind those held.
    pub fn push(&mut self, chunk: &[u8])
        ensures
            final(self)@ == old(self)@ + chunk@,
    {
        let mut i: usize = 0;
        while i < chunk.len()
            invariant
                i <= chunk.len(),
                self@ == old(self)@ + chunk@.subrange(0, i as int),
            decreases chunk.len() - i,
        {
            self.pending.push(chunk[i]);
            assert(self@ =~= old(self)@ + chunk@.subrange(0, i + 1));
            i += 1;
        }
        assert(chunk@.subrange(0, i as int) =~= chunk@);
    }

    /// Hands out the first complete line held, with its line end, and keeps
    /// what follows it; `None`, and nothing changed, where no line end has
    /// arrived yet.
    pub fn pop_line(&mut self) -> (line: Option<Vec<u8>>)
        ensures
            line is Some <==> old(self)@.contains(LINE_END),
            line is Some ==> line->0@ == old(self)@.subrange(0, first_unit_len(old(self)@) as int)
                && final(self)@ == old(self)@.subrange(
                first_unit_len(old(self)@) as int,
                old(self)@.len() as int,
            ),
            line is None ==> final(self)@ == old(self)@,
    {
        match find_line_end(self.pending.as_slice()) {
            None => None,
            Some(i) => {
                assert(i < self.pending.len());
                let mut line = self.pending.split_off(i + 1);
                std::mem::swap(&mut self.pending, &mut line);
                Some(line)
            },
        }
    }

    /// Hands out all that is held, as the last unit of a stream that has ended,
    /// and holds nothing afterwards; `None` where nothing is held.
    pub fn take_rest(&mut self) -> (rest: Option<Vec<u8>>)
        ensures
            final(self)@ == Seq::<u8>::empty(),
            rest is Some <==> old(self)@.len() > 0,
            rest is Some ==> rest->0@ == old(self)@,
    {
        let mut rest: Vec<u8> = Vec::new();
        std::mem::swap(&mut self.pending, &mut rest);
        if rest.len() > 0 {
            Some(rest)
        } else {
            None
        }
    }
}

} // verus!
