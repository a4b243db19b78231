//! Identifiers and their four case styles.

use crate::text::{is_lower, is_upper, lower, push_char, to_lower, to_upper, upper, upper_all};
use vstd::prelude::*;
use vstd::string::StrSliceExecFns;
use vstd::string::StringExecFns;

verus! {

/// What one character of a camel-case identifier, other than its first,
/// becomes in snake case. `before` is the character in front of it: an ASCII
/// capital opens a new segment where it follows an ASCII small letter, and
/// is lower-cased in any case.
pub open spec fn snake_segment(before: char, c: char) -> Seq<char> {
    if is_upper(c) {
        if is_lower(before) {
            seq!['_', lower(c)]
        } else {
            seq![lower(c)]
        }
    } else {
        seq![c]
    }
}

/// The snake-case form of what follows the character `before`.
pub open spec fn snake_tail(before: char, s: Seq<char>) -> Seq<char>
    decreases s.len(),
{
    if s.len() == 0 {
        Seq::empty()
    } else {
        snake_segment(before, s[0]) + snake_tail(s[0], s.drop_first())
    }
}

/// The snake-case form of a camel-case or Pascal-case identifier: the first
/// character is lower-cased and never opens a segment; a later capital opens
/// one only where it follows a small letter, so that a run of capitals stays
/// in one segment.
pub open spec fn camel_to_snake(s: Seq<char>) -> Seq<char> {
    if s.len() == 0 {
        Seq::empty()
    } else {
        seq![lower(s[0])] + snake_tail(s[0], s.drop_first())
    }
}

/// The camel-case form of a snake-case identifier: an underscore is dropped
/// and the character after it, if any, is upper-cased.
pub open spec fn snake_to_camel(s: Seq<char>) -> Seq<char>
    decreases s.len(),
{
    if s.len() == 0 {
        Seq::empty()
    } else if s[0] == '_' {
        if s.len() >= 2 {
            seq![upper(s[1])] + snake_to_camel(s.skip(2))
        } else {
            Seq::empty()
        }
    } else {
        seq![s[0]] + snake_to_camel(s.drop_first())
    }
}

/// `s` with its first character upper-cased.
pub open spec fn capitalize(s: Seq<char>) -> Seq<char> {
    if s.len() == 0 {
        s
    } else {
        seq![upper(s[0])] + s.drop_first()
    }
}

/// The Pascal-case form of a snake-case identifier.
pub open spec fn snake_to_pascal(s: Seq<char>) -> Seq<char> {
    capitalize(snake_to_camel(s))
}

/// No character of `s` is an underscore.
pub open spec fn no_underscore(s: Seq<char>) -> bool {
    forall|i: int| 0 <= i < s.len() ==> s[i] != '_'
}

/// Every ASCII capital of `s` directly follows an ASCII small letter, where
/// `before` is the character in front of `s`.
pub open spec fn capitals_follow_small(before: char, s: Seq<char>) -> bool {
    forall|i: int|
        0 <= i < s.len() && is_upper(#[trigger] s[i]) ==> is_lower(
            if i == 0 {
                before
            } else {
                s[i - 1]
            },
        )
}

/// Every ASCII capital of `s` after the first character directly follows an
/// ASCII small letter: each capital opens a word of its own.
pub open spec fn capitals_open_words(s: Seq<char>) -> bool {
    s.len() > 0 ==> capitals_follow_small(s[0], s.drop_first())
}

/// An identifier, kept in snake case, that can be read in any of the four
/// styles.
#[derive(Debug)]
pub struct Name {
    snake_case: String,
}

impl View for Name {
    type V = Seq<char>;

    /// The snake-case form.
    closed spec fn view(&self) -> Seq<char> {
        self.snake_case@
    }
}

impl Clone for Name {
    fn clone(&self) -> (r: Name)
        ensures
            r@ == self@,
    {
        Name { snake_case: self.snake_case.clone() }
    }
}

impl Name {
    /// Takes `snake_case` as it stands.
    pub fn from_snake_case(snake_case: &str) -> (n: Name)
        ensures
            n@ == snake_case@,
    {
        Name { snake_case: String::from_str(snake_case) }
    }

    /// Reads a camel-case identifier.
    pub fn from_camel_case(camel_case: &str) -> (n: Name)
        ensures
            n@ == camel_to_snake(camel_case@),
    {
        let len = camel_case.unicode_len();
        let mut snake_case = String::new();
        if len == 0 {
            return Name { snake_case };
        }
        let mut before = camel_case.get_char(0);
        push_char(&mut snake_case, to_lower(before));
        let mut i: usize = 1;
        assert(camel_case@.drop_first().skip(0) =~= camel_case@.drop_first());
        while i < len
            invariant
                1 <= i <= len,
                len == camel_case@.len(),
                before == camel_case@[i - 1],
                snake_case@ + snake_tail(before, camel_case@.drop_first().skip(i - 1))
                    == camel_to_snake(camel_case@),
            decreases len - i,
        {
            let c = camel_case.get_char(i);
            let ghost rest = camel_case@.drop_first().skip(i - 1);
            let ghost written = snake_case@;
            assert(rest[0] == c);
            assert(rest.drop_first() =~= camel_case@.drop_first().skip(i as int));
            if 'A' <= c && c <= 'Z' {
                if 'a' <= before && before <= 'z' {
                    push_char(&mut snake_case, '_');
                }
                push_char(&mut snake_case, to_lower(c));
            } else {
                push_char(&mut snake_case, c);
            }
            assert(snake_case@ =~= written + snake_segment(before, c));
            assert(snake_case@ + snake_tail(c, rest.drop_first()) =~= written + snake_tail(
                before,
                rest,
            ));
            before = c;
            i += 1;
        }
        assert(camel_case@.drop_first().skip(len - 1) =~= Seq::<char>::empty());
        assert(snake_case@ + Seq::<char>::empty() =~= snake_case@);
        Name { snake_case }
    }

    /// Reads a Pascal-case identifier.
    pub fn from_pascal_case(pascal_case: &str) -> (n: Name)
        ensures
            n@ == camel_to_snake(pascal_case@),
    {
        Name::from_camel_case(pascal_case)
    }

    /// The identifier in snake case.
    pub fn as_snake_case(&self) -> (s: String)
        ensures
            s@ == self@,
    {
        self.snake_case.clone()
    }

    /// The identifier in upper snake case: the snake-case form, upper-cased.
    pub fn as_upper_snake_case(&self) -> (s: String)
        ensures
            s@ == upper_all(self@),
    {
        let src = self.snake_case.as_str();
        let len = src.unicode_len();
        let mut out = String::new();
        let mut i: usize = 0;
        while i < len
            invariant
                i <= len,
                len == src@.len(),
                out@ == upper_all(src@.take(i as int)),
            decreases len - i,
        {
            let ghost before = out@;
            push_char(&mut out, to_upper(src.get_char(i)));
            assert(out@ =~= upper_all(src@.take(i + 1)));
            i += 1;
        }
        assert(src@.take(len as int) =~= src@);
        out
    }

    /// The identifier in camel case.
    pub fn as_camel_case(&self) -> (s: String)
        ensures
            s@ == snake_to_camel(self@),
    {
        let src = self.snake_case.as_str();
        let len = src.unicode_len();
        let mut out = String::new();
        let mut i: usize = 0;
        assert(src@.skip(0) =~= src@);
        assert(out@ + snake_to_camel(src@) =~= snake_to_camel(src@));
        while i < len
            invariant
                i <= len,
                len == src@.len(),
                out@ + snake_to_camel(src@.skip(i as int)) == snake_to_camel(src@),
            decreases len - i,
        {
            let c = src.get_char(i);
            let ghost rest = src@.skip(i as int);
            let ghost before = out@;
            assert(rest[0] == c);
            if c == '_' {
                if i + 1 < len {
                    let next = src.get_char(i + 1);
                    assert(rest[1] == next);
                    push_char(&mut out, to_upper(next));
                    assert(rest.skip(2) =~= src@.skip(i + 2));
                    assert(out@ + snake_to_camel(rest.skip(2)) =~= before + snake_to_camel(rest));
                    i += 2;
                } else {
                    assert(src@.skip(i + 1) =~= Seq::<char>::empty());
                    assert(out@ + snake_to_camel(src@.skip(i + 1)) =~= before + snake_to_camel(
                        rest,
                    ));
                    i += 1;
                }
            } else {
                push_char(&mut out, c);
                assert(rest.drop_first() =~= src@.skip(i + 1));
                assert(out@ + snake_to_camel(rest.drop_first()) =~= before + snake_to_camel(rest));
                i += 1;
            }
        }
        assert(src@.skip(len as int) =~= Seq::<char>::empty());
        assert(out@ + Seq::<char>::empty() =~= out@);
        out
    }

    /// The identifier in Pascal case.
    pub fn as_pascal_case(&self) -> (s: String)
        ensures
            s@ == snake_to_pascal(self@),
    {
        let camel_case = self.as_camel_case();
        let src = camel_case.as_str();
        let len = src.unicode_len();
        let mut out = String::new();
        if len == 0 {
            assert(out@ =~= capitalize(src@));
            return out;
        }
        push_char(&mut out, to_upper(src.get_char(0)));
        let mut i: usize = 1;
        while i < len
            invariant
                1 <= i <= len,
                len == src@.len(),
                out@ == capitalize(src@).take(i as int),
            decreases len - i,
        {
            push_char(&mut out, src.get_char(i));
            assert(out@ =~= capitalize(src@).take(i + 1));
            i += 1;
        }
        assert(capitalize(src@).take(len as int) =~= capitalize(src@));
        out
    }
}

/// What follows a character of a word-wise identifier is word-wise too.
proof fn lemma_rest_follows(before: char, s: Seq<char>)
    requires
        s.len() > 0,
        no_underscore(s),
        capitals_follow_small(before, s),
    ensures
        no_underscore(s.drop_first()),
        capitals_follow_small(s[0], s.drop_first()),
{
    let rest = s.drop_first();
    assert forall|i: int| 0 <= i < rest.len() implies rest[i] != '_' by {
        assert(rest[i] == s[i + 1]);
    }
    assert forall|i: int| 0 <= i < rest.len() && is_upper(#[trigger] rest[i]) implies is_lower(
        if i == 0 {
            s[0]
        } else {
            rest[i - 1]
        },
    ) by {
        assert(rest[i] == s[i + 1]);
        assert(is_upper(s[i + 1]));
    }
}

/// What holds of the rest of an identifier and of its first character holds
/// of the identifier.
proof fn lemma_first_and_rest(before: char, s: Seq<char>)
    requires
        s.len() > 0,
        s[0] != '_',
        is_upper(s[0]) ==> is_lower(before),
        no_underscore(s.drop_first()),
        capitals_follow_small(s[0], s.drop_first()),
    ensures
        no_underscore(s),
        capitals_follow_small(before, s),
{
    let rest = s.drop_first();
    assert forall|i: int| 0 <= i < s.len() implies s[i] != '_' by {
        if i > 0 {
            assert(s[i] == rest[i - 1]);
        }
    }
    assert forall|i: int| 0 <= i < s.len() && is_upper(#[trigger] s[i]) implies is_lower(
        if i == 0 {
            before
        } else {
            s[i - 1]
        },
    ) by {
        if i > 0 {
            assert(s[i] == rest[i - 1]);
            assert(is_upper(rest[i - 1]));
            if i > 1 {
                assert(s[i - 1] == rest[i - 2]);
            }
        }
    }
}

/// Writing the snake-case tail of `s` back in camel case gives `s` again,
/// provided `s` holds no underscore and each of its capitals follows a small
/// letter.
proof fn lemma_tail_round_trip(before: char, s: Seq<char>)
    requires
        no_underscore(s),
        capitals_follow_small(before, s),
    ensures
        snake_to_camel(snake_tail(before, s)) == s,
    decreases s.len(),
{
    if s.len() > 0 {
        let c = s[0];
        let rest = s.drop_first();
        lemma_rest_follows(before, s);
        lemma_tail_round_trip(c, rest);
        let t = snake_tail(before, s);
        if is_upper(c) {
            assert(is_lower(before));
            assert(t =~= seq!['_', lower(c)] + snake_tail(c, rest));
            assert(t[0] == '_' && t[1] == lower(c));
            assert(t.skip(2) =~= snake_tail(c, rest));
            assert(upper(lower(c)) == c);
            assert(snake_to_camel(t) =~= seq![c] + rest);
        } else {
            assert(t =~= seq![c] + snake_tail(c, rest));
            assert(t[0] == c);
            assert(t.drop_first() =~= snake_tail(c, rest));
            assert(snake_to_camel(t) =~= seq![c] + rest);
        }
        assert(seq![c] + rest =~= s);
    }
}

/// Camel case survives the round trip: a camel-case identifier, read with
/// [`Name::from_camel_case`] and written with [`Name::as_camel_case`], comes
/// back unchanged. Such an identifier holds no underscore, does not start
/// with an ASCII capital, and each of its capitals follows a small letter.
pub proof fn lemma_camel_round_trip(s: Seq<char>)
    requires
        no_underscore(s),
        s.len() > 0 ==> !is_upper(s[0]),
        capitals_open_words(s),
    ensures
        snake_to_camel(camel_to_snake(s)) == s,
{
    if s.len() > 0 {
        let rest = s.drop_first();
        assert(no_underscore(rest)) by {
            assert forall|i: int| 0 <= i < rest.len() implies rest[i] != '_' by {
                assert(rest[i] == s[i + 1]);
            }
        }
        lemma_tail_round_trip(s[0], rest);
        let t = camel_to_snake(s);
        assert(t[0] == s[0]);
        assert(s[0] != '_');
        assert(t.drop_first() =~= snake_tail(s[0], rest));
        assert(snake_to_camel(t) =~= seq![s[0]] + rest);
        assert(seq![s[0]] + rest =~= s);
    }
}

/// Pascal case survives the round trip: a Pascal-case identifier, read with
/// [`Name::from_pascal_case`] and written with [`Name::as_pascal_case`],
/// comes back unchanged. Such an identifier holds no underscore, does not
/// start with an ASCII small letter, and each of its later capitals follows
/// a small letter.
pub proof fn lemma_pascal_round_trip(s: Seq<char>)
    requires
        no_underscore(s),
        s.len() > 0 ==> !is_lower(s[0]),
        capitals_open_words(s),
    ensures
        snake_to_pascal(camel_to_snake(s)) == s,
{
    if s.len() > 0 {
        let rest = s.drop_first();
        assert(no_underscore(rest)) by {
            assert forall|i: int| 0 <= i < rest.len() implies rest[i] != '_' by {
                assert(rest[i] == s[i + 1]);
            }
        }
        lemma_tail_round_trip(s[0], rest);
        let t = camel_to_snake(s);
        assert(t[0] == lower(s[0]));
        assert(s[0] != '_');
        assert(t[0] != '_');
        assert(t.drop_first() =~= snake_tail(s[0], rest));
        let camel = snake_to_camel(t);
        assert(camel =~= seq![lower(s[0])] + rest);
        assert(camel[0] == lower(s[0]));
        assert(upper(lower(s[0])) == s[0]);
        assert(camel.drop_first() =~= rest);
        assert(capitalize(camel) =~= seq![s[0]] + rest);
        assert(seq![s[0]] + rest =~= s);
    } else {
        assert(snake_to_camel(camel_to_snake(s)) =~= s);
    }
}

/// Writing a snake-case tail in camel case never gives more characters than
/// went into the tail.
proof fn lemma_tail_shrinks(before: char, s: Seq<char>)
    ensures
        snake_to_camel(snake_tail(before, s)).len() <= s.len(),
    decreases s.len(),
{
    if s.len() > 0 {
        let c = s[0];
        let rest = s.drop_first();
        let t = snake_tail(before, s);
        let back = snake_to_camel(t);
        lemma_tail_shrinks(c, rest);
        if is_upper(c) && is_lower(before) {
            assert(t =~= seq!['_', lower(c)] + snake_tail(c, rest));
            assert(t[0] == '_' && t.len() >= 2);
            assert(t.skip(2) =~= snake_tail(c, rest));
            assert(back == seq![upper(t[1])] + snake_to_camel(t.skip(2)));
        } else if c == '_' {
            assert(t =~= seq!['_'] + snake_tail(c, rest));
            assert(t[0] == '_');
            if rest.len() > 0 {
                let d = rest[0];
                let last = rest.drop_first();
                let one = snake_segment(c, d);
                assert(one.len() == 1);
                assert(snake_tail(c, rest) =~= one + snake_tail(d, last));
                assert(t.len() >= 2);
                assert(t.skip(2) =~= snake_tail(d, last));
                assert(back == seq![upper(t[1])] + snake_to_camel(t.skip(2)));
                lemma_tail_shrinks(d, last);
            } else {
                assert(t.len() == 1);
                assert(back.len() == 0);
            }
        } else {
            let first = snake_segment(before, c);
            assert(first.len() == 1);
            assert(first[0] != '_');
            assert(t =~= first + snake_tail(c, rest));
            assert(t[0] == first[0]);
            assert(t.drop_first() =~= snake_tail(c, rest));
            assert(back == seq![t[0]] + snake_to_camel(t.drop_first()));
        }
    }
}

/// A tail that comes back unchanged holds no underscore, and each of its
/// capitals follows a small letter.
proof fn lemma_tail_round_trip_only(before: char, s: Seq<char>)
    requires
        snake_to_camel(snake_tail(before, s)) == s,
    ensures
        no_underscore(s),
        capitals_follow_small(before, s),
    decreases s.len(),
{
    if s.len() > 0 {
        let c = s[0];
        let rest = s.drop_first();
        let t = snake_tail(before, s);
        let back = snake_to_camel(t);
        if is_upper(c) && is_lower(before) {
            assert(t =~= seq!['_', lower(c)] + snake_tail(c, rest));
            assert(t.skip(2) =~= snake_tail(c, rest));
            assert(back == seq![upper(lower(c))] + snake_to_camel(snake_tail(c, rest)));
            assert(back.drop_first() =~= snake_to_camel(snake_tail(c, rest)));
            lemma_tail_round_trip_only(c, rest);
            lemma_first_and_rest(before, s);
        } else if is_upper(c) {
            assert(t =~= seq![lower(c)] + snake_tail(c, rest));
            assert(t[0] == lower(c));
            assert(back == seq![t[0]] + snake_to_camel(t.drop_first()));
            assert(back[0] == lower(c));
            assert(false);
        } else if c == '_' {
            assert(t =~= seq!['_'] + snake_tail(c, rest));
            assert(t[0] == '_');
            if rest.len() == 0 {
                assert(t.len() == 1);
                assert(back.len() == 0);
                assert(false);
            } else {
                let d = rest[0];
                let last = rest.drop_first();
                let one = snake_segment(c, d);
                assert(one.len() == 1);
                assert(snake_tail(c, rest) =~= one + snake_tail(d, last));
                assert(t.len() >= 2);
                assert(t.skip(2) =~= snake_tail(d, last));
                assert(back == seq![upper(t[1])] + snake_to_camel(t.skip(2)));
                assert(back.drop_first() =~= snake_to_camel(snake_tail(d, last)));
                assert(snake_to_camel(snake_tail(d, last)) == rest);
                lemma_tail_shrinks(d, last);
                assert(false);
            }
        } else {
            assert(t =~= seq![c] + snake_tail(c, rest));
            assert(t.drop_first() =~= snake_tail(c, rest));
            assert(back == seq![c] + snake_to_camel(snake_tail(c, rest)));
            assert(back.drop_first() =~= snake_to_camel(snake_tail(c, rest)));
            lemma_tail_round_trip_only(c, rest);
            lemma_first_and_rest(before, s);
        }
    }
}

/// Camel case survives the round trip only where [`lemma_camel_round_trip`]
/// says so: an identifier that comes back unchanged holds no underscore,
/// does not start with an ASCII capital, and each of its capitals follows a
/// small letter.
pub proof fn lemma_camel_round_trip_only(s: Seq<char>)
    requires
        snake_to_camel(camel_to_snake(s)) == s,
    ensures
        no_underscore(s),
        s.len() > 0 ==> !is_upper(s[0]),
        capitals_open_words(s),
{
    if s.len() > 0 {
        let c = s[0];
        let rest = s.drop_first();
        let t = camel_to_snake(s);
        let back = snake_to_camel(t);
        assert(t.drop_first() =~= snake_tail(c, rest));
        if c == '_' {
            assert(t =~= snake_tail('a', s));
            lemma_tail_round_trip_only('a', s);
        } else {
            assert(t[0] == lower(c));
            assert(back == seq![lower(c)] + snake_to_camel(snake_tail(c, rest)));
            assert(back[0] == lower(c));
            assert(back.drop_first() =~= snake_to_camel(snake_tail(c, rest)));
            lemma_tail_round_trip_only(c, rest);
            assert forall|i: int| 0 <= i < s.len() implies s[i] != '_' by {
                if i > 0 {
                    assert(s[i] == rest[i - 1]);
                }
            }
        }
    }
}

/// Pascal case survives the round trip only where
/// [`lemma_pascal_round_trip`] says so: an identifier that comes back
/// unchanged holds no underscore, does not start with an ASCII small letter,
/// and each of its later capitals follows a small letter.
pub proof fn lemma_pascal_round_trip_only(s: Seq<char>)
    requires
        snake_to_pascal(camel_to_snake(s)) == s,
    ensures
        no_underscore(s),
        s.len() > 0 ==> !is_lower(s[0]),
        capitals_open_words(s),
{
    if s.len() > 0 {
        let c = s[0];
        let rest = s.drop_first();
        let t = camel_to_snake(s);
        let camel = snake_to_camel(t);
        assert(t.drop_first() =~= snake_tail(c, rest));
        if c == '_' {
            assert(t =~= snake_tail('a', s));
            assert(camel.len() > 0);
            assert(capitalize(camel)[0] == upper(camel[0]));
            assert(camel[0] == '_');
            assert(capitalize(camel) =~= camel);
            lemma_tail_round_trip_only('a', s);
        } else {
            assert(t[0] == lower(c));
            assert(camel == seq![lower(c)] + snake_to_camel(snake_tail(c, rest)));
            assert(camel[0] == lower(c));
            assert(camel.drop_first() =~= snake_to_camel(snake_tail(c, rest)));
            assert(capitalize(camel)[0] == upper(lower(c)));
            assert(capitalize(camel).drop_first() =~= camel.drop_first());
            assert(snake_to_camel(snake_tail(c, rest)) =~= rest);
            lemma_tail_round_trip_only(c, rest);
            assert forall|i: int| 0 <= i < s.len() implies s[i] != '_' by {
                if i > 0 {
                    assert(s[i] == rest[i - 1]);
                }
            }
        }
    }
}

/// Upper snake case is the snake-case form read through [`upper`]: it has the
/// same length, and upper-casing it again changes nothing.
pub proof fn lemma_upper_snake_stable(s: Seq<char>)
    ensures
        upper_all(s).len() == s.len(),
        upper_all(upper_all(s)) == upper_all(s),
{
    assert(upper_all(upper_all(s)) =~= upper_all(s));
}

} // verus!
