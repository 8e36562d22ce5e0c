//! The configuration channel: serialized records travel from the controller
//! to the overlay as lines of bytes, one record per line.
//!
//! The sending side remembers the last record and writes a new one only when
//! it differs byte for byte. The receiving side cuts the byte stream back
//! into lines, however the stream is chunked on the way.

use vstd::prelude::*;

verus! {

/// The byte that ends a line.
pub const NEWLINE: u8 = 0x0a;

/// The byte that may stand before the newline and is then part of the line
/// ending.
pub const CARRIAGE_RETURN: u8 = 0x0d;

/// The bytes of a stream after its last newline: the line that is not yet
/// complete.
pub open spec fn tail_of(stream: Seq<u8>) -> Seq<u8>
    decreases stream.len(),
{
    if stream.len() == 0 {
        Seq::empty()
    } else if stream.last() == NEWLINE {
        Seq::empty()
    } else {
        tail_of(stream.drop_last()).push(stream.last())
    }
}

/// The complete lines of a stream as they stand in it, each without its
/// newline.
pub open spec fn segments_of(stream: Seq<u8>) -> Seq<Seq<u8>>
    decreases stream.len(),
{
    if stream.len() == 0 {
        Seq::empty()
    } else if stream.last() == NEWLINE {
        segments_of(stream.drop_last()).push(tail_of(stream.drop_last()))
    } else {
        segments_of(stream.drop_last())
    }
}

/// A segment without the carriage return that may end it.
pub open spec fn strip_cr(segment: Seq<u8>) -> Seq<u8> {
    if segment.len() > 0 && segment.last() == CARRIAGE_RETURN {
        segment.drop_last()
    } else {
        segment
    }
}

/// The complete lines of a stream, each without its line ending.
pub open spec fn lines_of(stream: Seq<u8>) -> Seq<Seq<u8>> {
    Seq::new(segments_of(stream).len(), |i: int| strip_cr(segments_of(stream)[i]))
}

/// True when no byte of `bytes` is a newline.
pub open spec fn newline_free(bytes: Seq<u8>) -> bool {
    forall|i: int| 0 <= i < bytes.len() ==> bytes[i] != NEWLINE
}

/// The stream that carries the given segments: each followed by a newline.
pub open spec fn wire_of(segments: Seq<Seq<u8>>) -> Seq<u8>
    decreases segments.len(),
{
    if segments.len() == 0 {
        Seq::empty()
    } else {
        wire_of(segments.drop_last()) + segments.last().push(NEWLINE)
    }
}

/// A record that survives the channel unchanged: it holds no newline and
/// does not end in a carriage return.
pub open spec fn is_record(bytes: Seq<u8>) -> bool {
    newline_free(bytes) && strip_cr(bytes) == bytes
}

/// The pending line never holds a newline.
pub proof fn lemma_tail_newline_free(stream: Seq<u8>)
    ensures
        newline_free(tail_of(stream)),
    decreases stream.len(),
{
    if stream.len() > 0 && stream.last() != NEWLINE {
        lemma_tail_newline_free(stream.drop_last());
    }
}

/// No complete line holds a newline.
pub proof fn lemma_segments_newline_free(stream: Seq<u8>)
    ensures
        forall|k: int|
            0 <= k < segments_of(stream).len() ==> newline_free(#[trigger] segments_of(stream)[k]),
    decreases stream.len(),
{
    if stream.len() > 0 {
        let front = stream.drop_last();
        lemma_segments_newline_free(front);
        lemma_tail_newline_free(front);
        assert forall|k: int| 0 <= k < segments_of(stream).len() implies newline_free(
            #[trigger] segments_of(stream)[k],
        ) by {
            if k < segments_of(front).len() {
                assert(segments_of(stream)[k] == segments_of(front)[k]);
            } else {
                assert(segments_of(stream)[k] == tail_of(front));
            }
        }
    }
}

/// Framing loses nothing: the complete lines, each with its newline, followed
/// by the pending line, are the stream.
pub proof fn lemma_framing_rebuilds_stream(stream: Seq<u8>)
    ensures
        wire_of(segments_of(stream)) + tail_of(stream) == stream,
    decreases stream.len(),
{
    if stream.len() == 0 {
        assert(wire_of(segments_of(stream)) + tail_of(stream) =~= stream);
    } else {
        let front = stream.drop_last();
        lemma_framing_rebuilds_stream(front);
        if stream.last() == NEWLINE {
            let segments = segments_of(front).push(tail_of(front));
            assert(segments.drop_last() =~= segments_of(front));
            assert(wire_of(segments) == wire_of(segments_of(front)) + tail_of(front).push(NEWLINE));
            assert(wire_of(segments) + tail_of(stream) =~= (wire_of(segments_of(front)) + tail_of(
                front,
            )).push(NEWLINE));
            assert(front.push(NEWLINE) =~= stream);
        } else {
            assert(wire_of(segments_of(stream)) + tail_of(stream) =~= (wire_of(segments_of(front))
                + tail_of(front)).push(stream.last()));
            assert(front.push(stream.last()) =~= stream);
        }
    }
}

/// A stream may be cut anywhere: framing the second part after the pending
/// line of the first gives the rest of the lines, and the same pending line.
pub proof fn lemma_framing_is_incremental(first: Seq<u8>, second: Seq<u8>)
    ensures
        segments_of(first + second) == segments_of(first) + segments_of(tail_of(first) + second),
        lines_of(first + second) == lines_of(first) + lines_of(tail_of(first) + second),
        tail_of(first + second) == tail_of(tail_of(first) + second),
    decreases second.len(),
{
    let whole = first + second;
    let resumed = tail_of(first) + second;
    if second.len() == 0 {
        assert(whole =~= first);
        assert(resumed =~= tail_of(first));
        lemma_tail_newline_free(first);
        lemma_pending_line_has_no_segments(tail_of(first));
        assert(segments_of(whole) =~= segments_of(first) + segments_of(resumed));
    } else {
        let shorter = second.drop_last();
        lemma_framing_is_incremental(first, shorter);
        assert(whole.drop_last() =~= first + shorter);
        assert(resumed.drop_last() =~= tail_of(first) + shorter);
        assert(whole.last() == second.last());
        assert(resumed.last() == second.last());
        assert(segments_of(whole) =~= segments_of(first) + segments_of(resumed));
    }
    assert(lines_of(whole) =~= lines_of(first) + lines_of(resumed));
}

/// Bytes without a newline hold no complete line and are their own pending
/// line.
pub proof fn lemma_pending_line_has_no_segments(bytes: Seq<u8>)
    requires
        newline_free(bytes),
    ensures
        segments_of(bytes) == Seq::<Seq<u8>>::empty(),
        tail_of(bytes) == bytes,
    decreases bytes.len(),
{
    if bytes.len() > 0 {
        lemma_pending_line_has_no_segments(bytes.drop_last());
        assert(bytes.drop_last().push(bytes.last()) =~= bytes);
    } else {
        assert(tail_of(bytes) =~= bytes);
    }
}

/// Appending one whole line to a stream appends one segment and leaves
/// nothing pending beyond what the line started from.
pub proof fn lemma_framing_of_appended_line(stream: Seq<u8>, line: Seq<u8>)
    requires
        newline_free(line),
    ensures
        segments_of(stream + line.push(NEWLINE)) == segments_of(stream).push(
            tail_of(stream) + line,
        ),
        tail_of(stream + line.push(NEWLINE)) == Seq::<u8>::empty(),
{
    let body = stream + line;
    lemma_framing_is_incremental(stream, line);
    lemma_tail_newline_free(stream);
    assert(newline_free(tail_of(stream) + line));
    lemma_pending_line_has_no_segments(tail_of(stream) + line);
    assert(segments_of(body) =~= segments_of(stream));
    assert(tail_of(body) == tail_of(stream) + line);
    let whole = stream + line.push(NEWLINE);
    assert(whole.drop_last() =~= body);
    assert(whole.last() == NEWLINE);
}

/// What was written is what is read: the receiver of a stream of records
/// gets exactly those records, in the order in which they were written, and
/// no partial line is left over.
pub proof fn lemma_records_arrive_in_order(records: Seq<Seq<u8>>)
    requires
        forall|k: int| 0 <= k < records.len() ==> is_record(#[trigger] records[k]),
    ensures
        segments_of(wire_of(records)) == records,
        lines_of(wire_of(records)) == records,
        tail_of(wire_of(records)) == Seq::<u8>::empty(),
    decreases records.len(),
{
    if records.len() == 0 {
        assert(segments_of(wire_of(records)) =~= records);
    } else {
        let earlier = records.drop_last();
        assert forall|k: int| 0 <= k < earlier.len() implies is_record(#[trigger] earlier[k]) by {
            assert(earlier[k] == records[k]);
        }
        lemma_records_arrive_in_order(earlier);
        assert(is_record(records[records.len() - 1]));
        lemma_framing_of_appended_line(wire_of(earlier), records.last());
        assert(Seq::<u8>::empty() + records.last() =~= records.last());
        assert(segments_of(wire_of(records)) =~= records);
    }
    assert(lines_of(wire_of(records)) =~= records) by {
        assert forall|k: int| 0 <= k < records.len() implies strip_cr(
            segments_of(wire_of(records))[k],
        ) == records[k] by {
            assert(is_record(records[k]));
        }
    }
}

/// The remembered record and the decision of one send: the record is
/// written exactly when it differs from the remembered one, and is
/// remembered afterwards either way.
pub open spec fn send_step(remembered: Option<Seq<u8>>, encoded: Seq<u8>) -> (
    Option<Seq<u8>>,
    bool,
) {
    if remembered == Some(encoded) {
        (remembered, false)
    } else {
        (Some(encoded), true)
    }
}

/// The records that reach a live overlay when `sends` are sent one after the
/// other, starting from the given remembered record.
pub open spec fn transmitted(remembered: Option<Seq<u8>>, sends: Seq<Seq<u8>>) -> Seq<Seq<u8>>
    decreases sends.len(),
{
    if sends.len() == 0 {
        Seq::empty()
    } else {
        let (next, written) = send_step(remembered, sends[0]);
        if written {
            seq![sends[0]] + transmitted(next, sends.drop_first())
        } else {
            transmitted(next, sends.drop_first())
        }
    }
}

/// Sending one record twice in a row writes it once.
pub proof fn lemma_send_is_idempotent(remembered: Option<Seq<u8>>, encoded: Seq<u8>)
    ensures
        send_step(send_step(remembered, encoded).0, encoded) == (Some(encoded), false),
        remembered != Some(encoded) ==> transmitted(remembered, seq![encoded, encoded])
            == seq![encoded],
        remembered == Some(encoded) ==> transmitted(remembered, seq![encoded, encoded])
            == Seq::<Seq<u8>>::empty(),
        transmitted(None, seq![encoded, encoded]) == seq![encoded],
{
    let twice = seq![encoded, encoded];
    let once = twice.drop_first();
    assert(once =~= seq![encoded]);
    assert(once.drop_first() =~= Seq::<Seq<u8>>::empty());
    assert(transmitted(Some(encoded), once.drop_first()) =~= Seq::<Seq<u8>>::empty());
    assert(transmitted(Some(encoded), once) =~= Seq::<Seq<u8>>::empty());
    assert(twice[0] == encoded);
    if remembered != Some(encoded) {
        assert(transmitted(remembered, twice) =~= seq![encoded]);
    }
    assert(transmitted(None, twice) =~= seq![encoded]);
}

/// Records of which each differs from the one before it are all written, in
/// the order in which they were sent.
pub proof fn lemma_changed_records_are_all_written(
    remembered: Option<Seq<u8>>,
    sends: Seq<Seq<u8>>,
)
    requires
        sends.len() > 0 ==> remembered != Some(sends[0]),
        forall|k: int| 0 < k < sends.len() ==> sends[k - 1] != #[trigger] sends[k],
    ensures
        transmitted(remembered, sends) == sends,
    decreases sends.len(),
{
    if sends.len() == 0 {
        assert(transmitted(remembered, sends) =~= sends);
    } else {
        let rest = sends.drop_first();
        assert forall|k: int| 0 < k < rest.len() implies rest[k - 1] != #[trigger] rest[k] by {
            assert(rest[k] == sends[k + 1]);
            assert(rest[k - 1] == sends[k + 1 - 1]);
        }
        if rest.len() > 0 {
            assert(rest[0] == sends[1]);
            assert(sends[1 - 1] != sends[1]);
        }
        lemma_changed_records_are_all_written(Some(sends[0]), rest);
        assert(seq![sends[0]] + rest =~= sends);
    }
}

/// For any number of distinct records sent to a live overlay, the receiver
/// gets all of them in the order in which they were sent.
pub proof fn lemma_order_is_preserved(sends: Seq<Seq<u8>>)
    requires
        forall|k: int| 0 <= k < sends.len() ==> is_record(#[trigger] sends[k]),
        forall|j: int, k: int| 0 <= j < k < sends.len() ==> sends[j] != sends[k],
    ensures
        lines_of(wire_of(transmitted(None, sends))) == sends,
        tail_of(wire_of(transmitted(None, sends))) == Seq::<u8>::empty(),
{
    lemma_changed_records_are_all_written(None, sends);
    lemma_records_arrive_in_order(sends);
}

/// The view of an optional byte string.
pub open spec fn optional_bytes(bytes: Option<Vec<u8>>) -> Option<Seq<u8>> {
    match bytes {
        Some(held) => Some(held@),
        None => None,
    }
}

/// The views of a list of byte strings.
pub open spec fn line_views(lines: Seq<Vec<u8>>) -> Seq<Seq<u8>> {
    Seq::new(lines.len(), |i: int| lines[i]@)
}

/// Compares two byte strings.
pub fn bytes_equal(left: &[u8], right: &[u8]) -> (same: bool)
    ensures
        same == (left@ == right@),
{
    if left.len() != right.len() {
        return false;
    }
    let mut index: usize = 0;
    while index < left.len()
        invariant
            left@.len() == right@.len(),
            index <= left@.len(),
            forall|k: int| 0 <= k < index ==> left@[k] == right@[k],
        decreases left@.len() - index,
    {
        if left[index] != right[index] {
            return false;
        }
        index += 1;
    }
    assert(left@ =~= right@);
    true
}

/// Copies a byte string.
pub fn copied_bytes(bytes: &[u8]) -> (copy: Vec<u8>)
    ensures
        copy@ == bytes@,
{
    let mut copy: Vec<u8> = Vec::new();
    let mut index: usize = 0;
    while index < bytes.len()
        invariant
            index <= bytes@.len(),
            copy@ == bytes@.subrange(0, index as int),
        decreases bytes@.len() - index,
    {
        copy.push(bytes[index]);
        assert(copy@ =~= bytes@.subrange(0, index + 1));
        index += 1;
    }
    assert(bytes@.subrange(0, bytes@.len() as int) =~= bytes@);
    copy
}

/// Copies a byte string and ends it with a newline.
pub fn terminated_line(encoded: &[u8]) -> (line: Vec<u8>)
    ensures
        line@ == encoded@.push(NEWLINE),
{
    let mut line = copied_bytes(encoded);
    line.push(NEWLINE);
    line
}

/// The receiving end of the channel: it takes the stream in chunks of any
/// size and hands out each line once it is complete.
pub struct LineReader {
    pending: Vec<u8>,
}

impl LineReader {
    #[verifier::type_invariant]
    spec fn pending_is_one_line(self) -> bool {
        newline_free(self.pending@)
    }

    /// The bytes received since the last newline.
    pub closed spec fn buffered(&self) -> Seq<u8> {
        self.pending@
    }

    /// A reader that has received nothing.
    pub fn new() -> (reader: LineReader)
        ensures
            reader.buffered() == Seq::<u8>::empty(),
    {
        LineReader { pending: Vec::new() }
    }

    /// The number of bytes that wait for their newline.
    pub fn buffered_len(&self) -> (len: usize)
        ensures
            len == self.buffered().len(),
            newline_free(self.buffered()),
    {
        proof {
            use_type_invariant(self);
        }
        self.pending.len()
    }

    /// Takes the next chunk of the stream. Returns the lines that the chunk
    /// completes, in order and without their line endings, and keeps what
    /// follows the chunk's last newline for the next call.
    pub fn feed(&mut self, chunk: &[u8]) -> (lines: Vec<Vec<u8>>)
        ensures
            line_views(lines@) == lines_of(old(self).buffered() + chunk@),
            lines@.len() == segments_of(old(self).buffered() + chunk@).len(),
            forall|k: int|
                0 <= k < lines@.len() ==> (#[trigger] lines@[k])@ == strip_cr(
                    segments_of(old(self).buffered() + chunk@)[k],
                ),
            final(self).buffered() == tail_of(old(self).buffered() + chunk@),
    {
        let ghost start = self.pending@;
        proof {
            use_type_invariant(&*self);
            lemma_pending_line_has_no_segments(start);
            assert(start + chunk@.subrange(0, 0) =~= start);
        }
        let mut pending: Vec<u8> = Vec::new();
        core::mem::swap(&mut pending, &mut self.pending);
        let mut lines: Vec<Vec<u8>> = Vec::new();
        let mut index: usize = 0;
        assert(line_views(lines@) =~= lines_of(start));
        while index < chunk.len()
            invariant
                index <= chunk@.len(),
                self.pending@ == Seq::<u8>::empty(),
                pending@ == tail_of(start + chunk@.subrange(0, index as int)),
                line_views(lines@) == lines_of(start + chunk@.subrange(0, index as int)),
            decreases chunk@.len() - index,
        {
            let byte: u8 = chunk[index];
            let ghost seen = start + chunk@.subrange(0, index as int);
            let ghost next = start + chunk@.subrange(0, index + 1);
            proof {
                assert(next.drop_last() =~= seen);
                assert(next.last() == byte);
            }
            if byte == NEWLINE {
                let mut line: Vec<u8> = Vec::new();
                core::mem::swap(&mut line, &mut pending);
                let length: usize = line.len();
                if length > 0 && line[length - 1] == CARRIAGE_RETURN {
                    line.pop();
                }
                assert(line@ == strip_cr(tail_of(seen)));
                let ghost before = lines@;
                lines.push(line);
                proof {
                    assert(segments_of(next) == segments_of(seen).push(tail_of(seen)));
                    assert(line_views(lines@) =~= line_views(before).push(line@));
                    assert(lines_of(next) =~= lines_of(seen).push(strip_cr(tail_of(seen))));
                }
            } else {
                pending.push(byte);
                proof {
                    assert(segments_of(next) == segments_of(seen));
                    assert(lines_of(next) =~= lines_of(seen));
                }
            }
            index += 1;
        }
        proof {
            assert(chunk@.subrange(0, chunk@.len() as int) =~= chunk@);
            lemma_tail_newline_free(start + chunk@);
        }
        self.pending = pending;
        proof {
            let whole = start + chunk@;
            assert(line_views(lines@).len() == lines_of(whole).len());
            assert forall|k: int| 0 <= k < lines@.len() implies (#[trigger] lines@[k])@
                == strip_cr(segments_of(whole)[k]) by {
                assert(line_views(lines@)[k] == lines_of(whole)[k]);
            }
        }
        lines
    }

    /// Ends the stream. A last line that never got its newline is handed
    /// out as it stands; the reader is empty afterwards.
    pub fn finish(&mut self) -> (last: Option<Vec<u8>>)
        ensures
            final(self).buffered() == Seq::<u8>::empty(),
            old(self).buffered().len() == 0 ==> last is None,
            old(self).buffered().len() > 0 ==> optional_bytes(last) == Some(old(self).buffered()),
    {
        let mut pending: Vec<u8> = Vec::new();
        core::mem::swap(&mut pending, &mut self.pending);
        if pending.len() == 0 {
            None
        } else {
            Some(pending)
        }
    }
}

} // verus!
