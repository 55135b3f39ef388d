//! Reassembly of lines from a byte stream that arrives in arbitrary chunks.

use vstd::prelude::*;

verus! {

/// The byte that ends a line.
pub const LINE_FEED: u8 = 10;

/// The length of the longest prefix of `bytes` without a line feed.
pub open spec fn line_end(bytes: Seq<u8>) -> nat
    decreases bytes.len(),
{
    if bytes.len() == 0 || bytes[0] == LINE_FEED {
        0
    } else {
        1 + line_end(bytes.skip(1))
    }
}

/// Whether no byte of `bytes` is a line feed.
pub open spec fn unbroken(bytes: Seq<u8>) -> bool {
    line_end(bytes) == bytes.len()
}

/// The lines of `bytes` that a line feed ends, in order, each without its
/// line feed.
pub open spec fn complete_lines(bytes: Seq<u8>) -> Seq<Seq<u8>>
    decreases bytes.len(),
{
    if line_end(bytes) < bytes.len() {
        seq![bytes.take(line_end(bytes) as int)] + complete_lines(
            bytes.skip(line_end(bytes) as int + 1),
        )
    } else {
        Seq::empty()
    }
}

/// What follows the last line feed of `bytes`: the beginning of a line that
/// is not complete yet.
pub open spec fn residue(bytes: Seq<u8>) -> Seq<u8>
    decreases bytes.len(),
{
    if line_end(bytes) < bytes.len() {
        residue(bytes.skip(line_end(bytes) as int + 1))
    } else {
        bytes
    }
}

/// Every line of a stream that has ended: the complete ones, then what is
/// left over where that is not empty.
pub open spec fn all_lines(bytes: Seq<u8>) -> Seq<Seq<u8>> {
    complete_lines(bytes) + last_line(residue(bytes))
}

/// The line that the end of the stream makes of what is left over.
pub open spec fn last_line(rest: Seq<u8>) -> Seq<Seq<u8>> {
    if rest.len() > 0 {
        seq![rest]
    } else {
        Seq::empty()
    }
}

/// The bytes of `lines`, each followed by a line feed.
pub open spec fn join_lines(lines: Seq<Seq<u8>>) -> Seq<u8>
    decreases lines.len(),
{
    if lines.len() == 0 {
        Seq::empty()
    } else {
        lines[0] + seq![LINE_FEED] + join_lines(lines.skip(1))
    }
}

/// The byte sequences that a vector of lines holds.
pub open spec fn lines_view(lines: Seq<Vec<u8>>) -> Seq<Seq<u8>> {
    lines.map_values(|l: Vec<u8>| l@)
}

/// What [`line_end`] returns: a position within `bytes` before which there
/// is no line feed and at which there is one, unless it is the end.
pub proof fn lemma_line_end(bytes: Seq<u8>)
    ensures
        line_end(bytes) <= bytes.len(),
        forall|i: int| 0 <= i < line_end(bytes) ==> #[trigger] bytes[i] != LINE_FEED,
        line_end(bytes) < bytes.len() ==> bytes[line_end(bytes) as int] == LINE_FEED,
    decreases bytes.len(),
{
    if bytes.len() > 0 && bytes[0] != LINE_FEED {
        let rest = bytes.skip(1);
        lemma_line_end(rest);
        assert forall|i: int| 0 <= i < line_end(bytes) implies #[trigger] bytes[i]
            != LINE_FEED by {
            if i > 0 {
                assert(bytes[i] == rest[i - 1]);
            }
        }
        if line_end(bytes) < bytes.len() {
            assert(bytes[line_end(bytes) as int] == rest[line_end(rest) as int]);
        }
    }
}

/// A position with no line feed before it, which is the end or holds a line
/// feed, is what [`line_end`] returns.
pub proof fn lemma_line_end_is(bytes: Seq<u8>, k: int)
    requires
        0 <= k <= bytes.len(),
        forall|i: int| 0 <= i < k ==> #[trigger] bytes[i] != LINE_FEED,
        k == bytes.len() || bytes[k] == LINE_FEED,
    ensures
        line_end(bytes) == k,
    decreases k,
{
    if k > 0 {
        let rest = bytes.skip(1);
        assert forall|i: int| 0 <= i < k - 1 implies #[trigger] rest[i] != LINE_FEED by {
            assert(rest[i] == bytes[i + 1]);
        }
        lemma_line_end_is(rest, k - 1);
    }
}

/// Neither a complete line nor what is left over holds a line feed.
pub proof fn lemma_lines_unbroken(bytes: Seq<u8>)
    ensures
        forall|i: int|
            0 <= i < complete_lines(bytes).len() ==> unbroken(#[trigger] complete_lines(bytes)[i]),
        unbroken(residue(bytes)),
    decreases bytes.len(),
{
    lemma_line_end(bytes);
    let k = line_end(bytes) as int;
    if k < bytes.len() {
        let head = bytes.take(k);
        let tail = bytes.skip(k + 1);
        lemma_lines_unbroken(tail);
        assert forall|i: int| 0 <= i < k implies #[trigger] head[i] != LINE_FEED by {
            assert(head[i] == bytes[i]);
        }
        lemma_line_end_is(head, k);
        assert forall|i: int| 0 <= i < complete_lines(bytes).len() implies unbroken(
            #[trigger] complete_lines(bytes)[i],
        ) by {
            if i > 0 {
                assert(complete_lines(bytes)[i] == complete_lines(tail)[i - 1]);
            }
        }
    }
}

/// Nothing is lost and nothing is doubled: the complete lines, each with its
/// line feed, followed by what is left over, are the bytes that came in.
pub proof fn lemma_lines_rejoin(bytes: Seq<u8>)
    ensures
        join_lines(complete_lines(bytes)) + residue(bytes) == bytes,
    decreases bytes.len(),
{
    lemma_line_end(bytes);
    let k = line_end(bytes) as int;
    if k < bytes.len() {
        let head = bytes.take(k);
        let tail = bytes.skip(k + 1);
        lemma_lines_rejoin(tail);
        let lines = complete_lines(bytes);
        assert(lines.skip(1) =~= complete_lines(tail));
        assert(lines[0] == head);
        assert(join_lines(lines) == head + seq![LINE_FEED] + join_lines(complete_lines(tail)));
        assert(head + seq![LINE_FEED] + join_lines(complete_lines(tail)) + residue(tail) =~= head
            + seq![LINE_FEED] + (join_lines(complete_lines(tail)) + residue(tail)));
        assert(head + seq![LINE_FEED] + tail =~= bytes);
    } else {
        assert(join_lines(complete_lines(bytes)) + bytes =~= bytes);
    }
}

/// Splitting commutes with concatenation: the lines of `a + b` are the lines
/// of `a`, then the lines of what `a` left over followed by `b`.
pub proof fn lemma_split_concat(a: Seq<u8>, b: Seq<u8>)
    ensures
        complete_lines(a + b) == complete_lines(a) + complete_lines(residue(a) + b),
        residue(a + b) == residue(residue(a) + b),
    decreases a.len(),
{
    lemma_line_end(a);
    let k = line_end(a) as int;
    if k < a.len() {
        let ab = a + b;
        assert forall|i: int| 0 <= i < k implies #[trigger] ab[i] != LINE_FEED by {
            assert(ab[i] == a[i]);
        }
        assert(ab[k] == a[k]);
        lemma_line_end_is(ab, k);
        assert(ab.take(k) =~= a.take(k));
        assert(ab.skip(k + 1) =~= a.skip(k + 1) + b);
        lemma_split_concat(a.skip(k + 1), b);
        assert(seq![a.take(k)] + (complete_lines(a.skip(k + 1)) + complete_lines(
            residue(a.skip(k + 1)) + b,
        )) =~= (seq![a.take(k)] + complete_lines(a.skip(k + 1))) + complete_lines(
            residue(a.skip(k + 1)) + b,
        ));
    } else {
        assert(complete_lines(a) + complete_lines(a + b) =~= complete_lines(a + b));
    }
}

/// An unbroken sequence followed by a line feed and more bytes has that
/// sequence as its first line.
pub proof fn lemma_first_line(head: Seq<u8>, tail: Seq<u8>)
    requires
        unbroken(head),
    ensures
        complete_lines(head + seq![LINE_FEED] + tail) == seq![head] + complete_lines(tail),
        residue(head + seq![LINE_FEED] + tail) == residue(tail),
{
    let all = head + seq![LINE_FEED] + tail;
    let k = head.len() as int;
    lemma_line_end(head);
    assert forall|i: int| 0 <= i < k implies #[trigger] all[i] != LINE_FEED by {
        assert(all[i] == head[i]);
    }
    assert(all[k] == LINE_FEED);
    lemma_line_end_is(all, k);
    assert(all.take(k) =~= head);
    assert(all.skip(k + 1) =~= tail);
}

/// Lines without a line feed, each followed by one, split into just these
/// lines, and nothing is left over.
pub proof fn lemma_joined_lines_split(lines: Seq<Seq<u8>>)
    requires
        forall|i: int| 0 <= i < lines.len() ==> unbroken(#[trigger] lines[i]),
    ensures
        complete_lines(join_lines(lines)) == lines,
        residue(join_lines(lines)) == Seq::<u8>::empty(),
    decreases lines.len(),
{
    if lines.len() > 0 {
        let rest = lines.skip(1);
        assert forall|i: int| 0 <= i < rest.len() implies unbroken(#[trigger] rest[i]) by {
            assert(rest[i] == lines[i + 1]);
        }
        lemma_joined_lines_split(rest);
        assert(unbroken(lines[0]));
        lemma_first_line(lines[0], join_lines(rest));
        assert(seq![lines[0]] + rest =~= lines);
    }
}

/// Bytes that arrive in chunks, reassembled into lines. It holds the
/// beginning of the line that is not complete yet, and never a line feed.
pub struct LineBuffer {
    pending: Vec<u8>,
}

impl View for LineBuffer {
    type V = Seq<u8>;

    closed spec fn view(&self) -> Seq<u8> {
        self.pending@
    }
}

impl LineBuffer {
    #[verifier::type_invariant]
    spec fn holds_no_line_feed(self) -> bool {
        unbroken(self.pending@)
    }

    /// An empty buffer.
    pub fn new() -> (r: Self)
        ensures
            r@ == Seq::<u8>::empty(),
    {
        LineBuffer { pending: Vec::new() }
    }

    /// How many bytes wait for the end of their line.
    pub fn len(&self) -> (r: usize)
        ensures
            r == self@.len(),
    {
        self.pending.len()
    }

    /// Whether no byte waits for the end of its line.
    pub fn is_empty(&self) -> (r: bool)
        ensures
            r == (self@.len() == 0),
    {
        self.pending.len() == 0
    }

    /// Takes in a chunk and hands out the lines that it completes, in order
    /// and without their line feeds; what follows the last line feed stays in
    /// the buffer.
    pub fn push_chunk(&mut self, chunk: &[u8]) -> (lines: Vec<Vec<u8>>)
        ensures
            lines_view(lines@) == complete_lines(old(self)@ + chunk@),
            final(self)@ == residue(old(self)@ + chunk@),
            unbroken(final(self)@),
            join_lines(lines_view(lines@)) + final(self)@ == old(self)@ + chunk@,
    {
        proof {
            use_type_invariant(&*self);
        }
        let ghost before = self.pending@;
        let ghost input = before + chunk@;
        let mut current: Vec<u8> = Vec::new();
        std::mem::swap(&mut current, &mut self.pending);
        let mut lines: Vec<Vec<u8>> = Vec::new();
        let mut i: usize = 0;
        proof {
            assert(chunk@.skip(0) =~= chunk@);
            assert(lines_view(lines@) =~= Seq::<Seq<u8>>::empty());
            assert(lines_view(lines@) + complete_lines(input) =~= complete_lines(input));
        }
        while i < chunk.len()
            invariant
                i <= chunk.len(),
                unbroken(current@),
                lines_view(lines@) + complete_lines(current@ + chunk@.skip(i as int))
                    == complete_lines(input),
                residue(current@ + chunk@.skip(i as int)) == residue(input),
            decreases chunk.len() - i,
        {
            let byte = chunk[i];
            let ghost rest = chunk@.skip(i as int);
            let ghost next = chunk@.skip(i + 1);
            let ghost done = lines_view(lines@);
            if byte == LINE_FEED {
                proof {
                    lemma_first_line(current@, next);
                    assert(current@ + seq![LINE_FEED] + next =~= current@ + rest);
                    assert(Seq::<u8>::empty() + next =~= next);
                }
                let mut line: Vec<u8> = Vec::new();
                std::mem::swap(&mut line, &mut current);
                lines.push(line);
                proof {
                    assert(lines_view(lines@) =~= done + seq![line@]);
                    assert((done + seq![line@]) + complete_lines(next) =~= done + (seq![line@]
                        + complete_lines(next)));
                }
            } else {
                proof {
                    lemma_line_end(current@);
                    let grown = current@.push(byte);
                    assert forall|k: int| 0 <= k < grown.len() implies #[trigger] grown[k]
                        != LINE_FEED by {
                        if k < current@.len() {
                            assert(grown[k] == current@[k]);
                        }
                    }
                    lemma_line_end_is(grown, grown.len() as int);
                    assert(grown + next =~= current@ + rest);
                }
                current.push(byte);
            }
            i += 1;
        }
        proof {
            assert(current@ + chunk@.skip(i as int) =~= current@);
            assert(lines_view(lines@) + Seq::<Seq<u8>>::empty() =~= lines_view(lines@));
            lemma_lines_rejoin(input);
        }
        self.pending = current;
        lines
    }

    /// At the end of the stream: hands out what is left over as the last
    /// line, if it is not empty, and leaves the buffer empty.
    pub fn take_rest(&mut self) -> (rest: Option<Vec<u8>>)
        ensures
            final(self)@ == Seq::<u8>::empty(),
            match rest {
                Some(line) => seq![line@] == last_line(old(self)@),
                None => last_line(old(self)@) == Seq::<Seq<u8>>::empty(),
            },
    {
        let mut rest: Vec<u8> = Vec::new();
        std::mem::swap(&mut rest, &mut self.pending);
        if rest.len() > 0 {
            Some(rest)
        } else {
            None
        }
    }
}

} // verus!
