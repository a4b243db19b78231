//! Helpers shared by the generators: putting streams together, and small
//! pieces of text.

use crate::targets::java::tokens::{settled, shallow, JavaTokens};
use crate::targets::java::writer::{run, Op, Writer};
use crate::text::push_char;
use vstd::prelude::*;

verus! {

/// The lists of `parts`, one after another.
pub open spec fn concat(parts: Seq<Seq<Op>>) -> Seq<Op>
    decreases parts.len(),
{
    if parts.len() == 0 {
        Seq::empty()
    } else {
        concat(parts.drop_last()) + parts.last()
    }
}

/// The lists of `parts`, one after another, with `sep` between each two.
pub open spec fn concat_join(parts: Seq<Seq<Op>>, sep: Seq<Op>) -> Seq<Op>
    decreases parts.len(),
{
    if parts.len() == 0 {
        Seq::empty()
    } else if parts.len() == 1 {
        parts[0]
    } else {
        concat_join(parts.drop_last(), sep) + sep + parts.last()
    }
}

/// The first `n + 1` parts are the first `n` and then part `n`.
pub proof fn lemma_concat_take(parts: Seq<Seq<Op>>, n: int)
    requires
        0 <= n < parts.len(),
    ensures
        concat(parts.take(n + 1)) == concat(parts.take(n)) + parts[n],
{
    assert(parts.take(n + 1).drop_last() =~= parts.take(n));
}

/// The first `n + 1` parts, joined, are the first `n`, joined, then the
/// separator unless `n` is 0, and part `n`.
pub proof fn lemma_concat_join_take(parts: Seq<Seq<Op>>, sep: Seq<Op>, n: int)
    requires
        0 <= n < parts.len(),
    ensures
        concat_join(parts.take(n + 1), sep) == if n == 0 {
            parts[0]
        } else {
            concat_join(parts.take(n), sep) + sep + parts[n]
        },
{
    assert(parts.take(n + 1).drop_last() =~= parts.take(n));
}

/// One operation per stream of `streams`: add its items.
pub open spec fn append_parts(streams: Seq<JavaTokens>) -> Seq<Seq<Op>> {
    Seq::new(streams.len(), |i: int| seq![Op::Append(streams[i].items())])
}

/// Putting a run of finished streams together into one.
pub trait Compact {
    /// The operations of [`Compact::compact`].
    spec fn compact_ops(&self) -> Seq<Op>;

    /// The operations of [`Compact::join`].
    spec fn join_ops(&self, sep: Seq<char>) -> Seq<Op>;

    /// One stream that holds the streams, one after another.
    fn compact(&self) -> (tokens: JavaTokens)
        ensures
            tokens.items() == run(self.compact_ops()),
    ;

    /// One stream that holds the streams, one after another, with the text
    /// `sep` between each two.
    fn join(&self, sep: &str) -> (tokens: JavaTokens)
        ensures
            tokens.items() == run(self.join_ops(sep@)),
    ;
}

impl Compact for Vec<JavaTokens> {
    open spec fn compact_ops(&self) -> Seq<Op> {
        concat(append_parts(self@))
    }

    open spec fn join_ops(&self, sep: Seq<char>) -> Seq<Op> {
        concat_join(append_parts(self@), seq![Op::Text(sep)])
    }

    fn compact(&self) -> (tokens: JavaTokens) {
        let mut w = Writer::new(Ghost(32767));
        let ghost parts = append_parts(self@);
        let mut i: usize = 0;
        assert(parts.take(0) =~= Seq::<Seq<Op>>::empty());
        while i < self.len()
            invariant
                i <= self.len(),
                parts == append_parts(self@),
                w.inv(),
                w.level() == 0,
                w.cap() == 32767,
                settled(w.items()),
                w.ops() == concat(parts.take(i as int)),
            decreases self.len() - i,
        {
            proof {
                lemma_concat_take(parts, i as int);
            }
            let more = &self[i];
            let _ = more.raw();
            w.append(more, Ghost(32767));
            assert(w.ops() =~= concat(parts.take(i as int)) + parts[i as int]);
            i += 1;
        }
        assert(parts.take(i as int) =~= parts);
        w.finish()
    }

    fn join(&self, sep: &str) -> (tokens: JavaTokens) {
        let mut w = Writer::new(Ghost(32767));
        let ghost parts = append_parts(self@);
        let ghost sep_ops = seq![Op::Text(sep@)];
        let mut i: usize = 0;
        assert(parts.take(0) =~= Seq::<Seq<Op>>::empty());
        while i < self.len()
            invariant
                i <= self.len(),
                parts == append_parts(self@),
                sep_ops == seq![Op::Text(sep@)],
                w.inv(),
                w.level() == 0,
                w.cap() == 32767,
                settled(w.items()),
                w.ops() == concat_join(parts.take(i as int), sep_ops),
            decreases self.len() - i,
        {
            proof {
                lemma_concat_join_take(parts, sep_ops, i as int);
            }
            if i > 0 {
                w.text(sep);
            }
            let more = &self[i];
            let _ = more.raw();
            w.append(more, Ghost(32767));
            assert(w.ops() =~= concat_join(parts.take(i + 1), sep_ops));
            i += 1;
        }
        assert(parts.take(i as int) =~= parts);
        w.finish()
    }
}

/// Every stream of `streams` goes at most `depth` levels deep.
pub open spec fn all_shallow(streams: Seq<JavaTokens>, depth: int) -> bool {
    forall|i: int| 0 <= i < streams.len() ==> shallow(#[trigger] streams[i].items(), depth)
}

/// One stream that holds `streams`, one after another, and goes no deeper
/// than they do.
pub(crate) fn compact_within(streams: &Vec<JavaTokens>, Ghost(depth): Ghost<int>) -> (tokens:
    JavaTokens)
    requires
        0 <= depth <= 32767,
        all_shallow(streams@, depth),
    ensures
        tokens.items() == run(concat(append_parts(streams@))),
        shallow(tokens.items(), depth),
{
    let mut w = Writer::new(Ghost(depth));
    let ghost parts = append_parts(streams@);
    let mut i: usize = 0;
    assert(parts.take(0) =~= Seq::<Seq<Op>>::empty());
    while i < streams.len()
        invariant
            i <= streams.len(),
            parts == append_parts(streams@),
            all_shallow(streams@, depth),
            w.inv(),
            w.level() == 0,
            w.cap() == depth,
            settled(w.items()),
            w.ops() == concat(parts.take(i as int)),
        decreases streams.len() - i,
    {
        proof {
            lemma_concat_take(parts, i as int);
        }
        w.append(&streams[i], Ghost(depth));
        assert(w.ops() =~= concat(parts.take(i as int)) + parts[i as int]);
        i += 1;
    }
    assert(parts.take(i as int) =~= parts);
    w.finish()
}

/// The character of the decimal digit `d`.
pub open spec fn digit(d: int) -> char {
    ((d + 48) as u8) as char
}

/// `n` in decimal, without leading zeros.
pub open spec fn decimal_text(n: nat) -> Seq<char>
    decreases n,
{
    if n < 10 {
        seq![digit(n as int)]
    } else {
        decimal_text(n / 10).push(digit((n % 10) as int))
    }
}

/// Writes `n` in decimal.
pub fn decimal(n: usize) -> (s: String)
    ensures
        s@ == decimal_text(n as nat),
    decreases n,
{
    if n < 10 {
        let mut s = String::new();
        push_char(&mut s, ((n as u8) + 48) as char);
        s
    } else {
        let mut s = decimal(n / 10);
        push_char(&mut s, (((n % 10) as u8) + 48) as char);
        s
    }
}

} // verus!
