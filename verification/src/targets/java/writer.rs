//! Building a token stream from a list of operations.
//!
//! A generator is specified by the operations it performs, in order; what the
//! stream then holds is [`run`] of that list.

use crate::targets::java::tokens::{
    indentation_fits, indentation_step, is_blank, is_text, item_step, lemma_levels_widen, level,
    levels_within, line_step, push_step, replay, replay_fits, settled, shallow, space_step,
    strip, token_items, well_formed, GencoTokens, Item, JavaTokens,
};
use vstd::prelude::*;

verus! {

/// One operation on a token stream.
pub ghost enum Op {
    /// Append text as it stands.
    Text(Seq<char>),
    /// Append text as a string literal of the target language.
    Quoted(Seq<char>),
    /// One space.
    Space,
    /// Start a new line.
    Push,
    /// Leave one line empty.
    Line,
    /// Start a new line, one level deeper.
    Indent,
    /// Start a new line, one level less deep.
    Unindent,
    /// Add the items of a finished stream.
    Append(Seq<Item>),
}

/// The stream after `op` was performed on it.
pub open spec fn op_step(items: Seq<Item>, op: Op) -> Seq<Item> {
    match op {
        Op::Text(s) => items.push(Item::Literal(s)),
        Op::Quoted(s) => items.push(Item::OpenQuote).push(Item::Literal(s)).push(Item::CloseQuote),
        Op::Space => space_step(items),
        Op::Push => push_step(items),
        Op::Line => line_step(items),
        Op::Indent => indentation_step(items, 1),
        Op::Unindent => indentation_step(items, -1),
        Op::Append(more) => replay(items, more),
    }
}

/// The stream that results from performing `ops`, in order, on an empty one.
#[verifier::opaque]
pub open spec fn run(ops: Seq<Op>) -> Seq<Item>
    decreases ops.len(),
{
    if ops.len() == 0 {
        Seq::empty()
    } else {
        op_step(run(ops.drop_last()), ops.last())
    }
}

/// Performing one more operation is one more step.
pub proof fn lemma_run_push(ops: Seq<Op>, op: Op)
    ensures
        run(ops.push(op)) == op_step(run(ops), op),
{
    reveal(run);
    assert(ops.push(op).drop_last() =~= ops);
}

/// What [`strip`] returns is a front part of its argument, and it keeps a
/// leading text item.
pub proof fn lemma_strip(items: Seq<Item>, space: bool, line: bool)
    ensures
        strip(items, space, line).len() <= items.len(),
        strip(items, space, line) == items.take(strip(items, space, line).len() as int),
        items.len() > 0 && is_text(items[0]) ==> strip(items, space, line).len() > 0,
    decreases items.len(),
{
    if items.len() > 0 && (items.last() is Push || (space && items.last() is Space) || (line
        && items.last() is Line)) {
        lemma_strip(items.drop_last(), space, line);
        let r = strip(items.drop_last(), space, line);
        assert(items.drop_last().take(r.len() as int) =~= items.take(r.len() as int));
    } else {
        assert(items.take(items.len() as int) =~= items);
    }
}

/// A front part of a well-formed stream, with white space added, is well formed.
proof fn lemma_front_then_blank(items: Seq<Item>, len: int, blank: Item)
    requires
        well_formed(items),
        0 < len <= items.len(),
        is_blank(blank),
    ensures
        well_formed(items.take(len).push(blank)),
        well_formed(items.take(len)),
{
    let front = items.take(len);
    let r = front.push(blank);
    assert forall|k: int| 0 <= k < r.len() && (#[trigger] r[k]) is Indentation implies k > 0
        && is_text(r[k - 1]) by {
        assert(r[k] == items[k]);
    }
    assert forall|k: int| 0 <= k < front.len() && (#[trigger] front[k]) is Indentation implies k
        > 0 && is_text(front[k - 1]) by {
        assert(front[k] == items[k]);
    }
}

/// White space keeps a well-formed stream that is not empty well formed.
pub proof fn lemma_blank_steps(items: Seq<Item>)
    requires
        well_formed(items),
        items.len() > 0,
    ensures
        well_formed(space_step(items)),
        space_step(items).len() > 0,
        well_formed(push_step(items)),
        push_step(items).len() > 0,
        well_formed(line_step(items)),
        line_step(items).len() > 0,
{
    lemma_front_then_blank(items, items.len() as int, Item::Space);
    assert(items.take(items.len() as int) =~= items);
    lemma_strip(items, true, false);
    lemma_front_then_blank(items, strip(items, true, false).len() as int, Item::Push);
    lemma_strip(items, false, true);
    lemma_front_then_blank(items, strip(items, false, true).len() as int, Item::Line);
}

/// A change of indentation keeps a well-formed stream that is not empty
/// well formed.
pub proof fn lemma_indentation_step(items: Seq<Item>, n: int)
    requires
        well_formed(items),
        items.len() > 0,
    ensures
        well_formed(indentation_step(items, n)),
        indentation_step(items, n).len() > 0,
    decreases items.len(),
{
    if is_blank(items.last()) || items.last() is Indentation {
        let front = items.drop_last();
        assert(front =~= items.take(items.len() - 1));
        lemma_front_then_blank(items, items.len() - 1, Item::Space);
        if is_blank(items.last()) {
            lemma_indentation_step(front, n);
        } else {
            lemma_indentation_step(front, n + items.last()->Indentation_0);
        }
    } else {
        let r = items.push(Item::Indentation(n));
        assert forall|k: int| 0 <= k < r.len() && (#[trigger] r[k]) is Indentation implies k > 0
            && is_text(r[k - 1]) by {
            if k < items.len() {
                assert(r[k] == items[k]);
            }
        }
    }
}

/// A stream that ends with text is settled.
pub proof fn lemma_settled_after_text(items: Seq<Item>)
    requires
        items.len() > 0,
        is_text(items.last()),
    ensures
        settled(items),
{
}

/// [`indentation_fits`] looks past the white space that [`strip`] removes.
proof fn lemma_fits_strip(items: Seq<Item>, space: bool, line: bool, n: int)
    ensures
        indentation_fits(strip(items, space, line), n) == indentation_fits(items, n),
    decreases items.len(),
{
    if items.len() > 0 && (items.last() is Push || (space && items.last() is Space) || (line
        && items.last() is Line)) {
        lemma_fits_strip(items.drop_last(), space, line, n);
    }
}

/// White space looks the same to [`indentation_fits`] as what it was added to.
proof fn lemma_fits_blank_steps(items: Seq<Item>, n: int)
    ensures
        indentation_fits(space_step(items), n) == indentation_fits(items, n),
        indentation_fits(push_step(items), n) == indentation_fits(items, n),
        indentation_fits(line_step(items), n) == indentation_fits(items, n),
{
    assert(items.push(Item::Space).drop_last() =~= items);
    lemma_fits_strip(items, true, false, n);
    let kept = strip(items, true, false);
    assert(kept.push(Item::Push).drop_last() =~= kept);
    lemma_fits_strip(items, false, true, n);
    let kept = strip(items, false, true);
    assert(kept.push(Item::Line).drop_last() =~= kept);
}

/// White space keeps a settled stream settled.
pub proof fn lemma_settled_blank_steps(items: Seq<Item>)
    requires
        settled(items),
    ensures
        settled(space_step(items)),
        settled(push_step(items)),
        settled(line_step(items)),
{
    assert forall|n: int| #[trigger]
        indentation_fits(space_step(items), n) && indentation_fits(push_step(items), n)
            && indentation_fits(line_step(items), n) by {
        lemma_fits_blank_steps(items, n);
        assert(indentation_fits(items, n));
    }
    assert forall|n: int| #[trigger] indentation_fits(push_step(items), n) by {
        assert(indentation_fits(space_step(items), n));
    }
    assert forall|n: int| #[trigger] indentation_fits(line_step(items), n) by {
        assert(indentation_fits(space_step(items), n));
    }
}

/// In a settled stream that is well formed and not empty, a change of
/// indentation by `n` is simply recorded, so that a following change by `m`
/// merges with it alone.
pub proof fn lemma_fits_after_change(items: Seq<Item>, n: int, m: int)
    requires
        well_formed(items),
        items.len() > 0,
        settled(items),
        -32768 <= n + m <= 32767,
    ensures
        indentation_fits(indentation_step(items, n), m),
    decreases items.len(),
{
    if is_blank(items.last()) {
        let front = items.drop_last();
        assert(front =~= items.take(items.len() - 1));
        lemma_front_then_blank(items, items.len() - 1, Item::Space);
        assert forall|k: int| #[trigger] indentation_fits(front, k) by {
            assert(indentation_fits(items, k));
        }
        lemma_fits_after_change(front, n, m);
    } else if items.last() is Indentation {
        assert(indentation_fits(items, 100000));
        assert(indentation_fits(items, -100000));
        assert(false);
    } else {
        if n != 0 {
            let after = items.push(Item::Indentation(n));
            assert(after.drop_last() =~= items);
            assert(indentation_fits(items, m + n));
        } else {
            assert(indentation_fits(items, m));
        }
    }
}

/// Text keeps a well-formed stream well formed.
pub proof fn lemma_text_step(items: Seq<Item>, item: Item)
    requires
        well_formed(items),
        is_text(item),
    ensures
        well_formed(items.push(item)),
{
    let r = items.push(item);
    assert forall|k: int| 0 <= k < r.len() && (#[trigger] r[k]) is Indentation implies k > 0
        && is_text(r[k - 1]) by {
        assert(r[k] == items[k]);
    }
}

/// Adding a well-formed stream to a well-formed stream merges no indentation
/// changes and gives a well-formed stream, which is settled where the added
/// one is settled and not empty.
pub proof fn lemma_replay(items: Seq<Item>, more: Seq<Item>)
    requires
        well_formed(items),
        well_formed(more),
    ensures
        replay_fits(items, more),
        well_formed(replay(items, more)),
        items.len() > 0 || more.len() > 0 ==> replay(items, more).len() > 0,
        more.len() > 0 && is_text(more.last()) ==> replay(items, more).last() == more.last(),
        more.len() > 0 && settled(more) ==> settled(replay(items, more)),
    decreases more.len(),
{
    if more.len() > 0 {
        let front = more.drop_last();
        let item = more.last();
        assert(front =~= more.take(more.len() - 1));
        assert(front.len() > 0 ==> front[0] == more[0]);
        assert forall|k: int| 0 <= k < front.len() && (#[trigger] front[k]) is Indentation implies k
            > 0 && is_text(front[k - 1]) by {
            assert(front[k] == more[k]);
        }
        lemma_replay(items, front);
        let s = replay(items, front);
        if is_text(item) {
            lemma_text_step(s, item);
            lemma_settled_after_text(s.push(item));
        } else {
            assert(more.len() >= 2);
            assert(s.len() > 0);
            if is_blank(item) {
                lemma_blank_steps(s);
                if settled(more) {
                    assert forall|k: int| #[trigger] indentation_fits(front, k) by {
                        assert(indentation_fits(more, k));
                    }
                    lemma_settled_blank_steps(s);
                }
            } else {
                assert(more[more.len() - 1] is Indentation);
                assert(is_text(more[more.len() - 2]));
                assert(front.last() == more[more.len() - 2]);
                lemma_indentation_step(s, item->Indentation_0);
                if settled(more) {
                    assert(indentation_fits(more, 100000));
                    assert(indentation_fits(more, -100000));
                    assert(false);
                }
            }
        }
    }
}

/// An item that is no indentation change leaves the level as it is.
proof fn lemma_level_push(items: Seq<Item>, item: Item, lo: int, hi: int)
    requires
        !(item is Indentation),
        levels_within(items, lo, hi),
        lo <= level(items) <= hi,
    ensures
        level(items.push(item)) == level(items),
        levels_within(items.push(item), lo, hi),
{
    assert(items.push(item).drop_last() =~= items);
}

/// What [`strip`] takes off changes no level.
proof fn lemma_level_strip(items: Seq<Item>, space: bool, line: bool, lo: int, hi: int)
    requires
        levels_within(items, lo, hi),
    ensures
        level(strip(items, space, line)) == level(items),
        levels_within(strip(items, space, line), lo, hi),
    decreases items.len(),
{
    if items.len() > 0 && (items.last() is Push || (space && items.last() is Space) || (line
        && items.last() is Line)) {
        lemma_level_strip(items.drop_last(), space, line, lo, hi);
    }
}

/// White space changes no level.
proof fn lemma_level_blank_steps(items: Seq<Item>, lo: int, hi: int)
    requires
        levels_within(items, lo, hi),
        lo <= level(items) <= hi,
    ensures
        level(space_step(items)) == level(items),
        levels_within(space_step(items), lo, hi),
        level(push_step(items)) == level(items),
        levels_within(push_step(items), lo, hi),
        level(line_step(items)) == level(items),
        levels_within(line_step(items), lo, hi),
{
    lemma_level_push(items, Item::Space, lo, hi);
    lemma_level_strip(items, true, false, lo, hi);
    lemma_level_push(strip(items, true, false), Item::Push, lo, hi);
    lemma_level_strip(items, false, true, lo, hi);
    lemma_level_push(strip(items, false, true), Item::Line, lo, hi);
}

/// A change of indentation by `n` changes the level by `n`, whatever it
/// merges with.
proof fn lemma_level_indentation_step(items: Seq<Item>, n: int, lo: int, hi: int)
    requires
        levels_within(items, lo, hi),
        lo <= level(items) + n <= hi,
    ensures
        level(indentation_step(items, n)) == level(items) + n,
        levels_within(indentation_step(items, n), lo, hi),
    decreases items.len(),
{
    if items.len() > 0 && is_blank(items.last()) {
        lemma_level_indentation_step(items.drop_last(), n, lo, hi);
    } else if items.len() > 0 && items.last() is Indentation {
        lemma_level_indentation_step(
            items.drop_last(),
            n + items.last()->Indentation_0,
            lo,
            hi,
        );
    } else if n != 0 {
        assert(items.push(Item::Indentation(n)).drop_last() =~= items);
    }
}

/// Adding a stream changes the level by what the stream changes it, and
/// keeps the levels within bounds where the added stream, seen from the
/// level it is added at, stays within them.
proof fn lemma_level_replay(items: Seq<Item>, more: Seq<Item>, lo: int, hi: int)
    requires
        levels_within(items, lo, hi),
        lo <= level(items) <= hi,
        levels_within(more, lo - level(items), hi - level(items)),
    ensures
        level(replay(items, more)) == level(items) + level(more),
        levels_within(replay(items, more), lo, hi),
    decreases more.len(),
{
    if more.len() > 0 {
        let front = more.drop_last();
        let item = more.last();
        lemma_level_replay(items, front, lo, hi);
        let s = replay(items, front);
        assert(replay(items, more) == item_step(s, item));
        match item {
            Item::Indentation(n) => {
                lemma_level_indentation_step(s, n, lo, hi);
            },
            Item::Push => {
                lemma_level_blank_steps(s, lo, hi);
            },
            Item::Line => {
                lemma_level_blank_steps(s, lo, hi);
            },
            Item::Space => {
                lemma_level_blank_steps(s, lo, hi);
            },
            _ => {
                lemma_level_push(s, item, lo, hi);
            },
        }
    }
}

/// A token stream under construction, with the operations performed so far
/// and the greatest indentation level that it may reach.
pub(crate) struct Writer {
    tokens: GencoTokens,
    ops: Ghost<Seq<Op>>,
    cap: Ghost<int>,
}

impl Writer {
    /// The operations performed so far.
    pub closed spec fn ops(&self) -> Seq<Op> {
        self.ops@
    }

    /// The items the stream holds.
    pub closed spec fn items(&self) -> Seq<Item> {
        token_items(self.tokens)
    }

    /// The indentation level the stream is on.
    pub closed spec fn level(&self) -> int {
        level(token_items(self.tokens))
    }

    /// The greatest indentation level the stream may reach.
    pub closed spec fn cap(&self) -> int {
        self.cap@
    }

    /// The stream holds what the operations give, is well formed, and its
    /// indentation level has stayed between 0 and the greatest it may reach.
    pub closed spec fn inv(&self) -> bool {
        &&& self.items() == run(self.ops())
        &&& well_formed(self.items())
        &&& 0 <= self.level() <= self.cap() <= 32767
        &&& levels_within(self.items(), 0, self.cap())
    }

    /// Starts with an empty stream, which may go `cap` levels deep.
    pub fn new(Ghost(cap): Ghost<int>) -> (w: Writer)
        requires
            0 <= cap <= 32767,
        ensures
            w.inv(),
            w.ops() == Seq::<Op>::empty(),
            w.items() == Seq::<Item>::empty(),
            w.level() == 0,
            w.cap() == cap,
            settled(w.items()),
    {
        proof {
            reveal(run);
        }
        Writer { tokens: GencoTokens::new(), ops: Ghost(Seq::empty()), cap: Ghost(cap) }
    }

    /// Appends `text` as it stands.
    pub fn text(&mut self, text: &str)
        requires
            old(self).inv(),
        ensures
            final(self).inv(),
            final(self).ops() == old(self).ops().push(Op::Text(text@)),
            final(self).level() == old(self).level(),
            final(self).cap() == old(self).cap(),
            final(self).items().len() > 0,
            settled(final(self).items()),
    {
        proof {
            lemma_run_push(self.ops(), Op::Text(text@));
            lemma_text_step(self.items(), Item::Literal(text@));
            lemma_settled_after_text(self.items().push(Item::Literal(text@)));
            lemma_level_push(self.items(), Item::Literal(text@), 0, self.cap());
        }
        self.tokens.append_text(text);
        self.ops = Ghost(self.ops@.push(Op::Text(text@)));
    }

    /// Appends `text` as a string literal.
    pub fn quoted(&mut self, text: &str)
        requires
            old(self).inv(),
        ensures
            final(self).inv(),
            final(self).ops() == old(self).ops().push(Op::Quoted(text@)),
            final(self).level() == old(self).level(),
            final(self).cap() == old(self).cap(),
            final(self).items().len() > 0,
            settled(final(self).items()),
    {
        proof {
            lemma_run_push(self.ops(), Op::Quoted(text@));
            let a = self.items().push(Item::OpenQuote);
            let b = a.push(Item::Literal(text@));
            lemma_text_step(self.items(), Item::OpenQuote);
            lemma_text_step(a, Item::Literal(text@));
            lemma_text_step(b, Item::CloseQuote);
            lemma_settled_after_text(b.push(Item::CloseQuote));
            lemma_level_push(self.items(), Item::OpenQuote, 0, self.cap());
            lemma_level_push(a, Item::Literal(text@), 0, self.cap());
            lemma_level_push(b, Item::CloseQuote, 0, self.cap());
        }
        self.tokens.append_quoted(text);
        self.ops = Ghost(self.ops@.push(Op::Quoted(text@)));
    }

    /// One space.
    pub fn space(&mut self)
        requires
            old(self).inv(),
            old(self).items().len() > 0,
        ensures
            final(self).inv(),
            final(self).ops() == old(self).ops().push(Op::Space),
            final(self).level() == old(self).level(),
            final(self).cap() == old(self).cap(),
            final(self).items().len() > 0,
            settled(old(self).items()) ==> settled(final(self).items()),
    {
        proof {
            lemma_run_push(self.ops(), Op::Space);
            lemma_blank_steps(self.items());
            lemma_level_blank_steps(self.items(), 0, self.cap());
            if settled(self.items()) {
                lemma_settled_blank_steps(self.items());
            }
        }
        self.tokens.space();
        self.ops = Ghost(self.ops@.push(Op::Space));
    }

    /// Starts a new line.
    pub fn push(&mut self)
        requires
            old(self).inv(),
            old(self).items().len() > 0,
        ensures
            final(self).inv(),
            final(self).ops() == old(self).ops().push(Op::Push),
            final(self).level() == old(self).level(),
            final(self).cap() == old(self).cap(),
            final(self).items().len() > 0,
            settled(old(self).items()) ==> settled(final(self).items()),
    {
        proof {
            lemma_run_push(self.ops(), Op::Push);
            lemma_blank_steps(self.items());
            lemma_level_blank_steps(self.items(), 0, self.cap());
            if settled(self.items()) {
                lemma_settled_blank_steps(self.items());
            }
        }
        self.tokens.push();
        self.ops = Ghost(self.ops@.push(Op::Push));
    }

    /// Leaves one line empty.
    pub fn line(&mut self)
        requires
            old(self).inv(),
            old(self).items().len() > 0,
        ensures
            final(self).inv(),
            final(self).ops() == old(self).ops().push(Op::Line),
            final(self).level() == old(self).level(),
            final(self).cap() == old(self).cap(),
            final(self).items().len() > 0,
            settled(old(self).items()) ==> settled(final(self).items()),
    {
        proof {
            lemma_run_push(self.ops(), Op::Line);
            lemma_blank_steps(self.items());
            lemma_level_blank_steps(self.items(), 0, self.cap());
            if settled(self.items()) {
                lemma_settled_blank_steps(self.items());
            }
        }
        self.tokens.line();
        self.ops = Ghost(self.ops@.push(Op::Line));
    }

    /// Starts a new line, one level deeper. Where the stream was settled, the
    /// level can be taken back at once.
    pub fn indent(&mut self)
        requires
            old(self).inv(),
            old(self).items().len() > 0,
            indentation_fits(old(self).items(), 1),
            old(self).level() < old(self).cap(),
        ensures
            final(self).inv(),
            final(self).ops() == old(self).ops().push(Op::Indent),
            final(self).level() == old(self).level() + 1,
            final(self).cap() == old(self).cap(),
            final(self).items().len() > 0,
            settled(old(self).items()) ==> indentation_fits(final(self).items(), -1),
    {
        proof {
            lemma_run_push(self.ops(), Op::Indent);
            lemma_indentation_step(self.items(), 1);
            lemma_level_indentation_step(self.items(), 1, 0, self.cap());
            if settled(self.items()) {
                lemma_fits_after_change(self.items(), 1, -1);
            }
        }
        self.tokens.indent();
        self.ops = Ghost(self.ops@.push(Op::Indent));
    }

    /// Starts a new line, one level less deep.
    pub fn unindent(&mut self)
        requires
            old(self).inv(),
            old(self).items().len() > 0,
            indentation_fits(old(self).items(), -1),
            old(self).level() > 0,
        ensures
            final(self).inv(),
            final(self).ops() == old(self).ops().push(Op::Unindent),
            final(self).level() == old(self).level() - 1,
            final(self).cap() == old(self).cap(),
            final(self).items().len() > 0,
            settled(old(self).items()) ==> indentation_fits(final(self).items(), 1),
    {
        proof {
            lemma_run_push(self.ops(), Op::Unindent);
            lemma_indentation_step(self.items(), -1);
            lemma_level_indentation_step(self.items(), -1, 0, self.cap());
            if settled(self.items()) {
                lemma_fits_after_change(self.items(), -1, 1);
            }
        }
        self.tokens.unindent();
        self.ops = Ghost(self.ops@.push(Op::Unindent));
    }

    /// Adds the items of the finished stream `more`, which goes at most
    /// `depth` levels deep.
    pub fn append(&mut self, more: &JavaTokens, Ghost(depth): Ghost<int>)
        requires
            old(self).inv(),
            shallow(more.items(), depth),
            old(self).level() + depth <= old(self).cap(),
        ensures
            final(self).inv(),
            final(self).ops() == old(self).ops().push(Op::Append(more.items())),
            final(self).level() == old(self).level(),
            final(self).cap() == old(self).cap(),
            old(self).items().len() > 0 || more.items().len() > 0 ==> final(self).items().len()
                > 0,
            more.items().len() > 0 ==> settled(final(self).items()),
            more.items().len() == 0 ==> final(self).items() == old(self).items(),
    {
        let raw = more.raw();
        proof {
            lemma_run_push(self.ops(), Op::Append(more.items()));
            lemma_replay(self.items(), more.items());
            lemma_levels_widen(
                more.items(),
                0,
                depth,
                0 - self.level(),
                self.cap() - self.level(),
            );
            lemma_level_replay(self.items(), more.items(), 0, self.cap());
        }
        self.tokens.extend(raw);
        self.ops = Ghost(self.ops@.push(Op::Append(more.items())));
    }

    /// Hands the stream out, finished: it must be settled and back on the
    /// level it started on.
    pub fn finish(self) -> (tokens: JavaTokens)
        requires
            self.inv(),
            settled(self.items()),
            self.level() == 0,
        ensures
            tokens.items() == run(self.ops()),
            tokens.items() == self.items(),
            shallow(tokens.items(), self.cap()),
    {
        proof {
            lemma_levels_widen(self.items(), 0, self.cap(), 0, 32767);
        }
        JavaTokens::from_raw(self.tokens)
    }
}

} // verus!
