//! Reassembly of newline-delimited lines from arbitrarily chunked text.
//!
//! A serial device emits a byte stream; reads deliver it in chunks whose
//! boundaries bear no relation to line boundaries.  [`LineFramer`] keeps
//! the unterminated tail of the stream as an accumulator and, on each
//! chunk, emits every line completed so far, in order.  The spec model
//! ([`emitted_lines`], [`buffered_rest`]) walks the incoming characters
//! one by one; [`lemma_chunking_invariance`] shows that framing is
//! insensitive to how the stream was cut into chunks.

use vstd::prelude::*;

verus! {

/// The lines completed when the characters of `s` arrive while `acc` is
/// the unterminated tail already buffered: each newline in `s` completes
/// one line, made of everything buffered since the previous newline.
pub open spec fn emitted_lines(acc: Seq<char>, s: Seq<char>) -> Seq<Seq<char>>
    decreases s.len(),
{
    if s.len() == 0 {
        Seq::empty()
    } else if s[0] == '\n' {
        seq![acc] + emitted_lines(Seq::empty(), s.skip(1))
    } else {
        emitted_lines(acc.push(s[0]), s.skip(1))
    }
}

/// The unterminated tail left buffered after the characters of `s`
/// arrive while `acc` is the tail already buffered: everything past the
/// last newline, or `acc + s` when `s` has none.
pub open spec fn buffered_rest(acc: Seq<char>, s: Seq<char>) -> Seq<char>
    decreases s.len(),
{
    if s.len() == 0 {
        acc
    } else if s[0] == '\n' {
        buffered_rest(Seq::empty(), s.skip(1))
    } else {
        buffered_rest(acc.push(s[0]), s.skip(1))
    }
}

/// Framing one delivery `a + b` is the same as framing `a` and then `b`.
pub proof fn lemma_framing_concat(acc: Seq<char>, a: Seq<char>, b: Seq<char>)
    ensures
        emitted_lines(acc, a + b) == emitted_lines(acc, a) + emitted_lines(
            buffered_rest(acc, a),
            b,
        ),
        buffered_rest(acc, a + b) == buffered_rest(buffered_rest(acc, a), b),
    decreases a.len(),
{
    if a.len() == 0 {
        assert(a + b =~= b);
        assert(emitted_lines(acc, a) + emitted_lines(acc, b) =~= emitted_lines(acc, b));
    } else {
        assert((a + b).skip(1) =~= a.skip(1) + b);
        if a[0] == '\n' {
            lemma_framing_concat(Seq::empty(), a.skip(1), b);
            assert(seq![acc] + (emitted_lines(Seq::empty(), a.skip(1)) + emitted_lines(
                buffered_rest(Seq::empty(), a.skip(1)),
                b,
            )) =~= (seq![acc] + emitted_lines(Seq::empty(), a.skip(1))) + emitted_lines(
                buffered_rest(Seq::empty(), a.skip(1)),
                b,
            ));
        } else {
            lemma_framing_concat(acc.push(a[0]), a.skip(1), b);
        }
    }
}

/// All characters of `chunks`, in delivery order.
pub open spec fn concat_chunks(chunks: Seq<Seq<char>>) -> Seq<char>
    decreases chunks.len(),
{
    if chunks.len() == 0 {
        Seq::empty()
    } else {
        chunks[0] + concat_chunks(chunks.skip(1))
    }
}

/// The lines emitted, in order, when the chunks are framed one after
/// the other starting from the buffered tail `acc`.
pub open spec fn incremental_lines(acc: Seq<char>, chunks: Seq<Seq<char>>) -> Seq<Seq<char>>
    decreases chunks.len(),
{
    if chunks.len() == 0 {
        Seq::empty()
    } else {
        emitted_lines(acc, chunks[0]) + incremental_lines(
            buffered_rest(acc, chunks[0]),
            chunks.skip(1),
        )
    }
}

/// The buffered tail left after the chunks are framed one after the
/// other starting from the buffered tail `acc`.
pub open spec fn incremental_rest(acc: Seq<char>, chunks: Seq<Seq<char>>) -> Seq<char>
    decreases chunks.len(),
{
    if chunks.len() == 0 {
        acc
    } else {
        incremental_rest(buffered_rest(acc, chunks[0]), chunks.skip(1))
    }
}

/// Chunking invariance, from any starting tail: feeding the chunks one
/// at a time emits the same lines, in the same order, and leaves the
/// same tail, as one framing pass over their concatenation.
pub proof fn lemma_chunking_invariance_from(acc: Seq<char>, chunks: Seq<Seq<char>>)
    ensures
        incremental_lines(acc, chunks) == emitted_lines(acc, concat_chunks(chunks)),
        incremental_rest(acc, chunks) == buffered_rest(acc, concat_chunks(chunks)),
    decreases chunks.len(),
{
    if chunks.len() == 0 {
        assert(emitted_lines(acc, concat_chunks(chunks)) =~= Seq::<Seq<char>>::empty());
    } else {
        lemma_framing_concat(acc, chunks[0], concat_chunks(chunks.skip(1)));
        lemma_chunking_invariance_from(buffered_rest(acc, chunks[0]), chunks.skip(1));
    }
}

/// Chunking invariance: however a stream of text is partitioned into
/// chunks, framing the chunks sequentially from an empty accumulator
/// emits exactly the lines of one direct split of the whole stream
/// (every newline-separated segment but the unterminated last one), and
/// buffers exactly that last segment.
pub proof fn lemma_chunking_invariance(chunks: Seq<Seq<char>>)
    ensures
        incremental_lines(Seq::empty(), chunks) == emitted_lines(
            Seq::empty(),
            concat_chunks(chunks),
        ),
        incremental_rest(Seq::empty(), chunks) == buffered_rest(
            Seq::empty(),
            concat_chunks(chunks),
        ),
{
    lemma_chunking_invariance_from(Seq::empty(), chunks);
}

/// Holds when no character of `s` is a newline.
pub open spec fn newline_free(s: Seq<char>) -> bool {
    forall|i: int| 0 <= i < s.len() ==> s[i] != '\n'
}

/// Framing never buffers a newline: whatever tail is left after a
/// delivery is newline-free, provided the starting tail was.
pub proof fn lemma_rest_newline_free(acc: Seq<char>, s: Seq<char>)
    requires
        newline_free(acc),
    ensures
        newline_free(buffered_rest(acc, s)),
    decreases s.len(),
{
    if s.len() == 0 {
        assert(buffered_rest(acc, s) == acc);
    } else if s[0] == '\n' {
        assert(newline_free(Seq::<char>::empty()));
        lemma_rest_newline_free(Seq::empty(), s.skip(1));
        assert(buffered_rest(acc, s) == buffered_rest(Seq::empty(), s.skip(1)));
    } else {
        assert(newline_free(acc.push(s[0])));
        lemma_rest_newline_free(acc.push(s[0]), s.skip(1));
        assert(buffered_rest(acc, s) == buffered_rest(acc.push(s[0]), s.skip(1)));
    }
}

/// The text that permissive UTF-8 decoding makes of a byte sequence:
/// valid sequences become their characters, invalid ones become
/// replacement characters.  The result depends on the bytes alone.
pub uninterp spec fn lossy_of(bytes: Seq<u8>) -> Seq<char>;

/// Relies on String::from_utf8_lossy: decodes UTF-8 permissively,
/// replacing invalid sequences with U+FFFD instead of failing.  Its
/// documentation promises that valid UTF-8 — so in particular pure
/// ASCII, one character per byte — comes through unchanged.
#[verifier::external_body]
fn decode_lossy(bytes: &[u8]) -> (text: String)
    ensures
        text@ == lossy_of(bytes@),
        bytes@.len() == 0 ==> text@.len() == 0,
        (forall|i: int| 0 <= i < bytes@.len() ==> bytes@[i] < 0x80) ==> text@ == bytes@.map_values(
            |b: u8| b as char,
        ),
{
    String::from_utf8_lossy(bytes).into_owned()
}

/// Reassembles newline-delimited lines out of a stream of text chunks,
/// buffering the unterminated tail between deliveries.
pub struct LineFramer {
    acc: String,
}

impl View for LineFramer {
    type V = Seq<char>;

    closed spec fn view(&self) -> Seq<char> {
        self.acc@
    }
}

impl LineFramer {
    /// The buffered tail never holds a newline: a newline always
    /// completes a line at once.
    pub open spec fn wf(&self) -> bool {
        newline_free(self@)
    }

    /// A fresh framer with nothing buffered.
    pub fn new() -> (framer: LineFramer)
        ensures
            framer@ == Seq::<char>::empty(),
            framer.wf(),
    {
        LineFramer { acc: String::new() }
    }

    /// Feeds one chunk of text: returns every line it completes, in
    /// order, and keeps the unterminated tail for the next delivery.
    pub fn feed(&mut self, chunk: &str) -> (lines: Vec<String>)
        requires
            old(self).wf(),
        ensures
            final(self).wf(),
            lines@.map_values(|l: String| l@) == emitted_lines(old(self)@, chunk@),
            final(self)@ == buffered_rest(old(self)@, chunk@),
    {
        let ghost acc0 = self.acc@;
        let n = chunk.unicode_len();
        let mut lines: Vec<String> = Vec::new();
        let mut cur: String = self.acc.clone();
        let mut i: usize = 0;
        proof {
            assert(acc0 == old(self)@);
            assert(newline_free(acc0));
            assert(chunk@.take(0) =~= Seq::<char>::empty());
            assert(lines@.map_values(|l: String| l@) =~= emitted_lines(acc0, chunk@.take(0)));
        }
        while i < n
            invariant
                n == chunk@.len(),
                i <= n,
                lines@.map_values(|l: String| l@) == emitted_lines(acc0, chunk@.take(i as int)),
                cur@ == buffered_rest(acc0, chunk@.take(i as int)),
            decreases n - i,
        {
            let ghost done = chunk@.take(i as int);
            let ghost step = seq![chunk@[i as int]];
            proof {
                assert(chunk@.take(i as int + 1) =~= done + step);
                lemma_framing_concat(acc0, done, step);
                assert(step.skip(1) =~= Seq::<char>::empty());
                assert(emitted_lines(Seq::empty(), step.skip(1)) =~= Seq::<Seq<char>>::empty());
            }
            let c = chunk.get_char(i);
            if c == '\n' {
                proof {
                    assert(emitted_lines(cur@, step) =~= seq![cur@]);
                    assert(buffered_rest(Seq::empty(), step.skip(1)) =~= Seq::<char>::empty());
                    assert(buffered_rest(cur@, step) =~= Seq::<char>::empty());
                    assert(emitted_lines(acc0, chunk@.take(i as int + 1)) =~= lines@.map_values(
                        |l: String| l@,
                    ).push(cur@));
                }
                let ghost lines_before = lines@;
                let ghost cur_view = cur@;
                lines.push(cur);
                proof {
                    assert(lines@ =~= lines_before.push(lines@.last()));
                    assert(lines@.map_values(|l: String| l@) =~= lines_before.map_values(
                        |l: String| l@,
                    ).push(cur_view));
                }
                cur = String::new();
            } else {
                proof {
                    assert(emitted_lines(cur@.push(chunk@[i as int]), step.skip(1))
                        =~= Seq::<Seq<char>>::empty());
                    assert(emitted_lines(cur@, step) =~= Seq::<Seq<char>>::empty());
                    assert(buffered_rest(cur@.push(chunk@[i as int]), step.skip(1))
                        =~= cur@.push(chunk@[i as int]));
                    assert(buffered_rest(cur@, step) =~= cur@.push(chunk@[i as int]));
                    assert(emitted_lines(acc0, chunk@.take(i as int + 1)) =~= lines@.map_values(
                        |l: String| l@,
                    ));
                }
                let piece = chunk.substring_char(i, i + 1);
                proof {
                    assert(piece@ =~= step);
                }
                cur.append(piece);
                proof {
                    assert(cur@ =~= buffered_rest(acc0, chunk@.take(i as int + 1)));
                }
            }
            i = i + 1;
        }
        proof {
            assert(chunk@.take(n as int) =~= chunk@);
            lemma_rest_newline_free(acc0, chunk@);
        }
        self.acc = cur;
        lines
    }

    /// Feeds one chunk of raw device bytes: the chunk is first decoded
    /// permissively (invalid encoding becomes replacement characters,
    /// never a failure), then framed exactly as by [`Self::feed`].
    pub fn feed_bytes(&mut self, chunk: &[u8]) -> (lines: Vec<String>)
        requires
            old(self).wf(),
        ensures
            final(self).wf(),
            lines@.map_values(|l: String| l@) == emitted_lines(old(self)@, lossy_of(chunk@)),
            final(self)@ == buffered_rest(old(self)@, lossy_of(chunk@)),
    {
        let text = decode_lossy(chunk);
        self.feed(text.as_str())
    }

    /// The unterminated tail currently buffered.
    pub fn buffered(&self) -> (tail: String)
        ensures
            tail@ == self@,
    {
        self.acc.clone()
    }
}

} // verus!
