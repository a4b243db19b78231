//! Token streams of Java source, kept by `genco`, and what is known of them.
//!
//! A stream is a sequence of [`Item`]s. The operations that add white space
//! do not simply append: they fold runs of white space into one item, as the
//! step functions below say.

use vstd::prelude::*;

verus! {

/// One element of a token stream.
pub ghost enum Item {
    /// Text written as it stands; inside a quote it is escaped.
    Literal(Seq<char>),
    /// The next text starts a new line.
    Push,
    /// The next text is separated from the previous by an empty line.
    Line,
    /// One space before the next text.
    Space,
    /// A change of the indentation level, which also starts a new line.
    Indentation(int),
    /// Opens a string literal of the target language.
    OpenQuote,
    /// Closes the string literal.
    CloseQuote,
}

/// `item` only separates text.
pub open spec fn is_blank(item: Item) -> bool {
    item is Push || item is Line || item is Space
}

/// `item` is written out: it is neither white space nor indentation.
pub open spec fn is_text(item: Item) -> bool {
    !is_blank(item) && !(item is Indentation)
}

/// `items` without its trailing `Push` items, and without its trailing
/// `Space` or `Line` items where the flag says so.
pub open spec fn strip(items: Seq<Item>, space: bool, line: bool) -> Seq<Item>
    decreases items.len(),
{
    if items.len() > 0 && (items.last() is Push || (space && items.last() is Space) || (line
        && items.last() is Line)) {
        strip(items.drop_last(), space, line)
    } else {
        items
    }
}

/// The stream after a space was asked for: two spaces never follow each other.
pub open spec fn space_step(items: Seq<Item>) -> Seq<Item> {
    if items.len() > 0 && items.last() is Space {
        items
    } else {
        items.push(Item::Space)
    }
}

/// The stream after a new line was asked for: trailing spaces and pushes
/// go, and a `Line` already there is kept in place of a `Push`.
pub open spec fn push_step(items: Seq<Item>) -> Seq<Item> {
    let kept = strip(items, true, false);
    if kept.len() > 0 && kept.last() is Line {
        kept
    } else {
        kept.push(Item::Push)
    }
}

/// The stream after an empty line was asked for: trailing pushes and lines
/// are replaced by one `Line`.
pub open spec fn line_step(items: Seq<Item>) -> Seq<Item> {
    strip(items, false, true).push(Item::Line)
}

/// The stream after the indentation level was changed by `n`: trailing white
/// space goes, trailing indentation changes are added to `n`, and the sum is
/// recorded unless it is zero.
pub open spec fn indentation_step(items: Seq<Item>, n: int) -> Seq<Item>
    decreases items.len(),
{
    if items.len() > 0 && is_blank(items.last()) {
        indentation_step(items.drop_last(), n)
    } else if items.len() > 0 && items.last() is Indentation {
        indentation_step(items.drop_last(), n + items.last()->Indentation_0)
    } else if n != 0 {
        items.push(Item::Indentation(n))
    } else {
        items
    }
}

/// Every sum that [`indentation_step`] forms on the way fits the 16 bits the
/// stream keeps a level in.
pub open spec fn indentation_fits(items: Seq<Item>, n: int) -> bool
    decreases items.len(),
{
    if items.len() > 0 && is_blank(items.last()) {
        indentation_fits(items.drop_last(), n)
    } else if items.len() > 0 && items.last() is Indentation {
        let sum = n + items.last()->Indentation_0;
        -32768 <= sum <= 32767 && indentation_fits(items.drop_last(), sum)
    } else {
        true
    }
}

/// The stream after one item was added to it.
pub open spec fn item_step(items: Seq<Item>, item: Item) -> Seq<Item> {
    match item {
        Item::Push => push_step(items),
        Item::Line => line_step(items),
        Item::Space => space_step(items),
        Item::Indentation(n) => indentation_step(items, n),
        _ => items.push(item),
    }
}

/// The stream after the items of `more` were added to it, one after another.
pub open spec fn replay(items: Seq<Item>, more: Seq<Item>) -> Seq<Item>
    decreases more.len(),
{
    if more.len() == 0 {
        items
    } else {
        item_step(replay(items, more.drop_last()), more.last())
    }
}

/// Every indentation change met while `more` is added fits, in the sense of
/// [`indentation_fits`].
pub open spec fn replay_fits(items: Seq<Item>, more: Seq<Item>) -> bool
    decreases more.len(),
{
    more.len() == 0 || (replay_fits(items, more.drop_last()) && (more.last() is Indentation
        ==> indentation_fits(replay(items, more.drop_last()), more.last()->Indentation_0)))
}

/// Every indentation change in `items` directly follows text.
pub open spec fn guarded(items: Seq<Item>) -> bool {
    forall|k: int|
        0 <= k < items.len() && (#[trigger] items[k]) is Indentation ==> k > 0 && is_text(
            items[k - 1],
        )
}

/// A stream is well formed when it is empty or starts with text, and every
/// indentation change in it directly follows text. Adding such a stream to
/// another never merges two indentation changes.
pub open spec fn well_formed(items: Seq<Item>) -> bool {
    guarded(items) && (items.len() > 0 ==> is_text(items[0]))
}

/// No change of indentation, whatever its size, would merge with one at the
/// end of the stream: after its trailing white space comes text, or nothing.
pub open spec fn settled(items: Seq<Item>) -> bool {
    forall|n: int| #[trigger] indentation_fits(items, n)
}

/// What a finished stream is: well formed and settled.
pub open spec fn tidy(items: Seq<Item>) -> bool {
    well_formed(items) && settled(items)
}

/// The indentation level that the items leave: the sum of their changes.
pub open spec fn level(items: Seq<Item>) -> int
    decreases items.len(),
{
    if items.len() == 0 {
        0
    } else {
        level(items.drop_last()) + match items.last() {
            Item::Indentation(n) => n,
            _ => 0,
        }
    }
}

/// After each item of the stream the indentation level is at least `lo` and
/// at most `hi`.
pub open spec fn levels_within(items: Seq<Item>, lo: int, hi: int) -> bool
    decreases items.len(),
{
    items.len() == 0 || (levels_within(items.drop_last(), lo, hi) && lo <= level(items) <= hi)
}

/// The stream ends on the level it starts on, and on the way goes no level
/// below it and at most `depth` levels above it.
pub open spec fn shallow(items: Seq<Item>, depth: int) -> bool {
    level(items) == 0 && levels_within(items, 0, depth)
}

/// Levels that stay within bounds stay within wider bounds.
pub proof fn lemma_levels_widen(items: Seq<Item>, lo: int, hi: int, lower: int, higher: int)
    requires
        levels_within(items, lo, hi),
        lower <= lo,
        hi <= higher,
    ensures
        levels_within(items, lower, higher),
    decreases items.len(),
{
    if items.len() > 0 {
        lemma_levels_widen(items.drop_last(), lo, hi, lower, higher);
    }
}

/// A stream of tokens as `genco` keeps it, a `genco::Tokens` for Java. Verus
/// does not look inside: all that is known of a stream is what the functions
/// below say of [`token_items`], each as the source of `genco` has it.
#[verifier::external_body]
pub struct GencoTokens {
    inner: genco::lang::java::Tokens,
}

/// The items that a stream of `genco` holds, in order.
pub uninterp spec fn token_items(tokens: GencoTokens) -> Seq<Item>;

/// The Java source text that `genco` writes for a stream with these items, or
/// `None` where it refuses the stream.
pub uninterp spec fn java_text(items: Seq<Item>) -> Option<Seq<char>>;

impl GencoTokens {
    /// `genco::Tokens::new`: a stream without items.
    #[verifier::external_body]
    pub(crate) fn new() -> (tokens: GencoTokens)
        ensures
            token_items(tokens) == Seq::<Item>::empty(),
    {
        GencoTokens { inner: genco::lang::java::Tokens::new() }
    }

    /// `genco::Tokens::append` with a `&str`, which goes through the
    /// `FormatInto` of `&str`: the string becomes one literal at the end of
    /// the stream, whatever stands there.
    #[verifier::external_body]
    pub(crate) fn append_text(&mut self, text: &str)
        ensures
            token_items(*final(self)) == token_items(*old(self)).push(Item::Literal(text@)),
    {
        self.inner.append(text)
    }

    /// `genco::Tokens::append` with `genco::tokens::quoted` of a `&str`, which
    /// goes through the `FormatInto` of `QuotedFn`: an opening quote, the
    /// string as one literal and a closing quote are put at the end of the
    /// stream.
    #[verifier::external_body]
    pub(crate) fn append_quoted(&mut self, text: &str)
        ensures
            token_items(*final(self)) == token_items(*old(self)).push(Item::OpenQuote).push(
                Item::Literal(text@),
            ).push(Item::CloseQuote),
    {
        self.inner.append(genco::tokens::quoted(text))
    }

    /// `genco::Tokens::space`: a space is added unless the stream ends with
    /// one.
    #[verifier::external_body]
    pub(crate) fn space(&mut self)
        ensures
            token_items(*final(self)) == space_step(token_items(*old(self))),
    {
        self.inner.space()
    }

    /// `genco::Tokens::push`: trailing spaces and pushes are taken off, and a
    /// push is added unless a line is then the last item.
    #[verifier::external_body]
    pub(crate) fn push(&mut self)
        ensures
            token_items(*final(self)) == push_step(token_items(*old(self))),
    {
        self.inner.push()
    }

    /// `genco::Tokens::line`: trailing pushes and lines are taken off, and a
    /// line is added.
    #[verifier::external_body]
    pub(crate) fn line(&mut self)
        ensures
            token_items(*final(self)) == line_step(token_items(*old(self))),
    {
        self.inner.line()
    }

    /// `genco::Tokens::indent`: trailing white space is taken off, trailing
    /// indentation changes are added to the change by one level, and the sum
    /// is recorded unless it is zero. The stream forms the sums in 16 bits
    /// without a check, so they must fit.
    #[verifier::external_body]
    pub(crate) fn indent(&mut self)
        requires
            indentation_fits(token_items(*old(self)), 1),
        ensures
            token_items(*final(self)) == indentation_step(token_items(*old(self)), 1),
    {
        self.inner.indent()
    }

    /// `genco::Tokens::unindent`: as [`GencoTokens::indent`], with a change
    /// by one level down.
    #[verifier::external_body]
    pub(crate) fn unindent(&mut self)
        requires
            indentation_fits(token_items(*old(self)), -1),
        ensures
            token_items(*final(self)) == indentation_step(token_items(*old(self)), -1),
    {
        self.inner.unindent()
    }

    /// `genco::Tokens::append` with a reference to another stream, which goes
    /// through the `FormatInto` of `&Tokens` to `Tokens::extend`: the items of
    /// the other stream are added one after another, white space and
    /// indentation changes each as if they had been asked for here, the
    /// others as they are. The sums of indentation changes must fit, as in
    /// [`GencoTokens::indent`].
    #[verifier::external_body]
    pub(crate) fn extend(&mut self, other: &GencoTokens)
        requires
            replay_fits(token_items(*old(self)), token_items(*other)),
        ensures
            token_items(*final(self)) == replay(token_items(*old(self)), token_items(*other)),
    {
        self.inner.append(&other.inner)
    }

    /// `genco::Tokens::to_string`: the stream written out as Java source with
    /// the default configuration, or `None` where `genco` reports an error.
    /// The formatter adds each indentation change to a level that it keeps in
    /// 16 bits, without a check, so the level must fit after every item.
    #[verifier::external_body]
    pub(crate) fn render(&self) -> (text: Option<String>)
        requires
            levels_within(token_items(*self), -32768, 32767),
        ensures
            match text {
                Some(s) => java_text(token_items(*self)) == Some(s@),
                None => java_text(token_items(*self)) is None,
            },
    {
        self.inner.to_string().ok()
    }
}

/// A finished stream of Java tokens. It is always well formed and settled,
/// so that it can be added to any other stream, and its indentation is
/// balanced and never deeper than 16 bits hold, so that it can be written
/// out.
pub struct JavaTokens {
    raw: GencoTokens,
}

impl JavaTokens {
    #[verifier::type_invariant]
    closed spec fn finished(&self) -> bool {
        tidy(token_items(self.raw)) && shallow(token_items(self.raw), 32767)
    }

    /// The items of the stream.
    pub closed spec fn items(&self) -> Seq<Item> {
        token_items(self.raw)
    }

    /// The finished stream that holds what `raw` holds.
    pub(crate) fn from_raw(raw: GencoTokens) -> (tokens: JavaTokens)
        requires
            tidy(token_items(raw)),
            shallow(token_items(raw), 32767),
        ensures
            tokens.items() == token_items(raw),
    {
        JavaTokens { raw }
    }

    /// The stream as `genco` keeps it.
    pub(crate) fn raw(&self) -> (raw: &GencoTokens)
        ensures
            token_items(*raw) == self.items(),
            tidy(self.items()),
            shallow(self.items(), 32767),
    {
        proof {
            use_type_invariant(self);
        }
        &self.raw
    }

    /// The stream written out as Java source, or `None` where it cannot be
    /// written.
    pub fn render(&self) -> (text: Option<String>)
        ensures
            match text {
                Some(s) => java_text(self.items()) == Some(s@),
                None => java_text(self.items()) is None,
            },
    {
        proof {
            use_type_invariant(self);
            lemma_levels_widen(token_items(self.raw), 0, 32767, -32768, 32767);
        }
        self.raw.render()
    }
}

} // verus!
