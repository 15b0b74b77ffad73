//! Captured-output prefixing.
//!
//! Everything a sandboxed program writes to its standard output or error
//! stream is surfaced by the host one line at a time, each line tagged
//! with the stream name and the request identity. Input is split only on
//! line boundaries: a complete line becomes one prefixed line of output,
//! empty fragments are suppressed, and a trailing fragment without a line
//! terminator is carried until a later write completes it.
use vstd::prelude::*;

verus! {

use crate::decimal::dec_digits;
use crate::decimal::lemma_dec_digits_ascii;
use crate::decimal::u64_to_decimal;

/// The line separator the splitter recognizes.
pub const LINE_SEP: u8 = 10;

/// Which standard stream a writer captures.
#[derive(PartialEq, Eq, Structural, Clone, Copy, Debug)]
pub enum StreamKind {
    Stdout,
    Stderr,
}

/// No byte of `s` is the line separator.
pub open spec fn no_newline(s: Seq<u8>) -> bool {
    forall|i: int| 0 <= i < s.len() ==> s[i] != LINE_SEP
}

/// The stream name that opens a captured-output prefix.
pub open spec fn stream_tag(k: StreamKind) -> Seq<u8> {
    match k {
        StreamKind::Stdout => seq![115u8, 116u8, 100u8, 111u8, 117u8, 116u8],
        StreamKind::Stderr => seq![115u8, 116u8, 100u8, 101u8, 114u8, 114u8],
    }
}

/// The prefix put before every captured line of request `id`:
/// the stream name, the identity in brackets, and a separator, as in
/// `stdout [7] :: `.
pub open spec fn stream_prefix_spec(k: StreamKind, id: nat) -> Seq<u8> {
    stream_tag(k) + seq![32u8, 91u8] + dec_digits(id) + seq![93u8, 32u8, 58u8, 58u8, 32u8]
}

/// One complete prefixed output line holding the fragment `seg`.
pub open spec fn prefixed_line(p: Seq<u8>, seg: Seq<u8>) -> Seq<u8> {
    p + seg + seq![LINE_SEP]
}

/// The output emitted while scanning `b` with prefix `p`, when the bytes
/// of an unterminated fragment `seg` are already pending: each line
/// boundary turns the pending fragment, unless empty, into one prefixed
/// line.
pub open spec fn emitted(p: Seq<u8>, b: Seq<u8>, seg: Seq<u8>) -> Seq<u8>
    decreases b.len(),
{
    if b.len() == 0 {
        Seq::empty()
    } else if b[0] == LINE_SEP {
        (if seg.len() == 0 {
            Seq::empty()
        } else {
            prefixed_line(p, seg)
        }) + emitted(p, b.skip(1), Seq::empty())
    } else {
        emitted(p, b.skip(1), seg.push(b[0]))
    }
}

/// The fragment left pending after scanning `b` with `seg` already
/// pending: the bytes that follow the last line boundary.
pub open spec fn carried(b: Seq<u8>, seg: Seq<u8>) -> Seq<u8>
    decreases b.len(),
{
    if b.len() == 0 {
        seg
    } else if b[0] == LINE_SEP {
        carried(b.skip(1), Seq::empty())
    } else {
        carried(b.skip(1), seg.push(b[0]))
    }
}

/// The prefixed output that one write of `b` produces under prefix `p`.
pub open spec fn log_chunk(p: Seq<u8>, b: Seq<u8>) -> Seq<u8> {
    emitted(p, b, Seq::empty())
}

/// The unterminated fragment one write of `b` leaves pending.
pub open spec fn log_carry(b: Seq<u8>) -> Seq<u8> {
    carried(b, Seq::empty())
}

/// Scanning `a + b` from a clean boundary equals scanning `b` with the
/// line-free bytes `a` pending.
proof fn lemma_emitted_accum(p: Seq<u8>, a: Seq<u8>, b: Seq<u8>, acc: Seq<u8>)
    requires
        no_newline(a),
    ensures
        emitted(p, a + b, acc) == emitted(p, b, acc + a),
    decreases a.len(),
{
    if a.len() == 0 {
        assert(a + b =~= b);
        assert(acc + a =~= acc);
    } else {
        assert((a + b)[0] == a[0]);
        assert((a + b).skip(1) =~= a.skip(1) + b);
        assert(no_newline(a.skip(1)));
        lemma_emitted_accum(p, a.skip(1), b, acc.push(a[0]));
        assert(acc.push(a[0]) + a.skip(1) =~= acc + a);
    }
}

/// The pending fragment after scanning `a + b` from a clean boundary
/// equals the one after scanning `b` with the line-free bytes `a`
/// pending.
proof fn lemma_carried_accum(a: Seq<u8>, b: Seq<u8>, acc: Seq<u8>)
    requires
        no_newline(a),
    ensures
        carried(a + b, acc) == carried(b, acc + a),
    decreases a.len(),
{
    if a.len() == 0 {
        assert(a + b =~= b);
        assert(acc + a =~= acc);
    } else {
        assert((a + b)[0] == a[0]);
        assert((a + b).skip(1) =~= a.skip(1) + b);
        assert(no_newline(a.skip(1)));
        lemma_carried_accum(a.skip(1), b, acc.push(a[0]));
        assert(acc.push(a[0]) + a.skip(1) =~= acc + a);
    }
}

/// A captured-output writer for one stream of one sandbox. It owns the
/// pending unterminated fragment, so fragments of different requests can
/// never mix inside a line.
pub struct LogWriter {
    prefix: Vec<u8>,
    pending: Vec<u8>,
}

impl LogWriter {
    /// The prefix put before every line this writer emits.
    pub closed spec fn prefix(self) -> Seq<u8> {
        self.prefix@
    }

    /// The unterminated fragment awaiting its line separator.
    pub closed spec fn pending(self) -> Seq<u8> {
        self.pending@
    }

    /// A pending fragment never holds a line separator.
    pub open spec fn wf(self) -> bool {
        no_newline(self.pending())
    }

    /// A writer for the given stream of request `id`, with nothing
    /// pending.
    pub fn new(k: StreamKind, id: u64) -> (w: LogWriter)
        ensures
            w.prefix() == stream_prefix_spec(k, id as nat),
            w.pending() == Seq::<u8>::empty(),
            w.wf(),
    {
        let mut p: Vec<u8> = Vec::new();
        match k {
            StreamKind::Stdout => {
                p.push(115);
                p.push(116);
                p.push(100);
                p.push(111);
                p.push(117);
                p.push(116);
            },
            StreamKind::Stderr => {
                p.push(115);
                p.push(116);
                p.push(100);
                p.push(101);
                p.push(114);
                p.push(114);
            },
        }
        p.push(32);
        p.push(91);
        let mut d = u64_to_decimal(id);
        p.append(&mut d);
        p.push(93);
        p.push(32);
        p.push(58);
        p.push(58);
        p.push(32);
        proof {
            assert(p@ =~= stream_prefix_spec(k, id as nat));
        }
        LogWriter { prefix: p, pending: Vec::new() }
    }

    /// Splits `bytes` on line boundaries and returns the prefixed output
    /// this write produces; empty fragments are suppressed, and a
    /// trailing fragment without a terminator is not flushed but kept
    /// pending for the next write.
    pub fn write(&mut self, bytes: &[u8]) -> (out: Vec<u8>)
        requires
            old(self).wf(),
        ensures
            final(self).wf(),
            final(self).prefix() == old(self).prefix(),
            out@ == log_chunk(old(self).prefix(), old(self).pending() + bytes@),
            final(self).pending() == log_carry(old(self).pending() + bytes@),
    {
        let ghost p = self.prefix@;
        let ghost pend0 = self.pending@;
        let mut out: Vec<u8> = Vec::new();
        let n = bytes.len();
        let mut i: usize = 0;
        proof {
            lemma_emitted_accum(p, pend0, bytes@, Seq::empty());
            lemma_carried_accum(pend0, bytes@, Seq::empty());
            assert(Seq::<u8>::empty() + pend0 =~= pend0);
            assert(bytes@.skip(0) =~= bytes@);
            assert(out@ + emitted(p, bytes@, pend0) =~= emitted(p, bytes@, pend0));
        }
        while i < n
            invariant
                i <= n,
                n == bytes@.len(),
                self.prefix@ == p,
                no_newline(self.pending@),
                emitted(p, bytes@, pend0) == out@ + emitted(
                    p,
                    bytes@.skip(i as int),
                    self.pending@,
                ),
                carried(bytes@, pend0) == carried(bytes@.skip(i as int), self.pending@),
            decreases n - i,
        {
            let ghost rem = bytes@.skip(i as int);
            let ghost out0 = out@;
            let ghost seg0 = self.pending@;
            proof {
                assert(rem[0] == bytes@[i as int]);
                assert(rem.skip(1) =~= bytes@.skip(i as int + 1));
            }
            let c = bytes[i];
            if c == LINE_SEP {
                if self.pending.len() > 0 {
                    out.extend_from_slice(self.prefix.as_slice());
                    out.extend_from_slice(self.pending.as_slice());
                    out.push(LINE_SEP);
                    proof {
                        assert(out@ =~= out0 + prefixed_line(p, seg0));
                    }
                }
                self.pending.clear();
                proof {
                    let line = if seg0.len() == 0 {
                        Seq::<u8>::empty()
                    } else {
                        prefixed_line(p, seg0)
                    };
                    if seg0.len() == 0 {
                        assert(out@ =~= out0 + line);
                    }
                    assert(emitted(p, rem, seg0) == line + emitted(
                        p,
                        rem.skip(1),
                        Seq::<u8>::empty(),
                    ));
                    assert(out0 + (line + emitted(p, rem.skip(1), Seq::<u8>::empty())) =~= (out0
                        + line) + emitted(p, rem.skip(1), Seq::<u8>::empty()));
                }
            } else {
                self.pending.push(c);
                proof {
                    assert forall|j: int| 0 <= j < self.pending@.len() implies self.pending@[j]
                        != LINE_SEP by {
                        if j < seg0.len() {
                            assert(seg0[j] != LINE_SEP);
                        }
                    }
                }
            }
            i = i + 1;
        }
        proof {
            assert(bytes@.skip(n as int) =~= Seq::<u8>::empty());
            assert(out@ + Seq::<u8>::empty() =~= out@);
        }
        out
    }
}

/// `o` consists of a whole number of complete output lines, each opening
/// with the prefix `p` and closing with the line separator, with no
/// separator inside a line's fragment.
pub open spec fn is_prefixed_lines(p: Seq<u8>, o: Seq<u8>) -> bool
    decreases o.len(),
{
    o.len() == 0 || exists|seg: Seq<u8>|
        {
            &&& 0 < seg.len()
            &&& no_newline(seg)
            &&& #[trigger] prefixed_line(p, seg).len() <= o.len()
            &&& prefixed_line(p, seg) == o.take(prefixed_line(p, seg).len() as int)
            &&& is_prefixed_lines(p, o.skip(prefixed_line(p, seg).len() as int))
        }
}

proof fn lemma_emitted_is_prefixed_lines(p: Seq<u8>, b: Seq<u8>, seg: Seq<u8>)
    requires
        no_newline(seg),
    ensures
        is_prefixed_lines(p, emitted(p, b, seg)),
    decreases b.len(),
{
    if b.len() == 0 {
    } else if b[0] == LINE_SEP {
        lemma_emitted_is_prefixed_lines(p, b.skip(1), Seq::empty());
        if seg.len() == 0 {
            assert(emitted(p, b, seg) =~= emitted(p, b.skip(1), Seq::empty()));
        } else {
            let o = emitted(p, b, seg);
            let l = prefixed_line(p, seg);
            assert(o =~= l + emitted(p, b.skip(1), Seq::empty()));
            assert(l.len() <= o.len());
            assert(o.take(l.len() as int) =~= l);
            assert(o.skip(l.len() as int) =~= emitted(p, b.skip(1), Seq::empty()));
        }
    } else {
        assert forall|j: int| 0 <= j < seg.push(b[0]).len() implies seg.push(b[0])[j] != LINE_SEP
            by {
            if j < seg.len() {
                assert(seg[j] != LINE_SEP);
            }
        }
        lemma_emitted_is_prefixed_lines(p, b.skip(1), seg.push(b[0]));
    }
}

/// Law: the output of one write is a whole number of complete lines, each
/// opening with that writer's prefix and closing with the line separator.
/// Since concurrent sandboxes emit through writers with distinct
/// prefixes, their output can interleave only at line granularity, never
/// inside a prefixed line.
pub proof fn lemma_output_atomic_lines(p: Seq<u8>, b: Seq<u8>)
    ensures
        is_prefixed_lines(p, log_chunk(p, b)),
{
    lemma_emitted_is_prefixed_lines(p, b, Seq::empty());
}

/// The captured-output prefix itself holds no line separator, so the
/// request identity named by a line is always the identity of the writer
/// that produced the whole line.
pub proof fn lemma_prefix_no_newline(k: StreamKind, id: nat)
    ensures
        no_newline(stream_prefix_spec(k, id)),
{
    lemma_dec_digits_ascii(id);
}

} // verus!
