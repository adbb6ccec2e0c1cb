//! What trimming, folding, searching, splitting and the reading of numerals amount to.
use crate::inputs;
use crate::rows;
use crate::text;
use vstd::prelude::*;

verus! {

/// Only white space.
pub open spec fn all_white(s: Seq<char>) -> bool {
    forall|i: int| 0 <= i < s.len() ==> text::is_white(#[trigger] s[i])
}

/// No white space at either end.
pub open spec fn tight(s: Seq<char>) -> bool {
    s.len() > 0 ==> !text::is_white(s[0]) && !text::is_white(s.last())
}

/// Letters, digits and the punctuation of ASCII are no white space; blanks, tabs and line ends are,
/// and of the other characters the blanks and separators of Unicode.
/// Capitals fold to their small letters, and nothing else folds.
pub proof fn law_characters(c: char)
    ensures
        0x21 <= c as int <= 0x7e ==> !text::is_white(c),
        c == ' ' || c == '\t' || c == '\n' || c == '\r' ==> text::is_white(c),
        c as int >= 0x7f ==> (text::is_white(c) <==> c == '\u{85}' || c == '\u{a0}' || c
            == '\u{1680}' || ('\u{2000}' <= c && c <= '\u{200a}') || c == '\u{2028}' || c
            == '\u{2029}' || c == '\u{202f}' || c == '\u{205f}' || c == '\u{3000}'),
        c as int <= 0x20 ==> (text::is_white(c) <==> c == ' ' || (9 <= c as int && c as int <= 13)),
        'A' <= c && c <= 'Z' ==> text::lower_char(c) as int == c as int - 'A' as int + 'a' as int,
        !('A' <= c && c <= 'Z') ==> text::lower_char(c) == c,
{
}

proof fn lemma_trim_start(s: Seq<char>) -> (a: Seq<char>)
    ensures
        s == a + text::trim_start(s),
        all_white(a),
        text::trim_start(s).len() > 0 ==> !text::is_white(text::trim_start(s)[0]),
    decreases s.len(),
{
    if s.len() > 0 && text::is_white(s[0]) {
        let b = lemma_trim_start(s.drop_first());
        let a = seq![s[0]] + b;
        assert(s =~= a + text::trim_start(s)) by {
            assert(s =~= seq![s[0]] + s.drop_first());
        }
        assert forall|i: int| 0 <= i < a.len() implies text::is_white(#[trigger] a[i]) by {
            if i > 0 {
                assert(a[i] == b[i - 1]);
            }
        }
        a
    } else {
        assert(s =~= Seq::<char>::empty() + s);
        Seq::empty()
    }
}

proof fn lemma_trim_end(s: Seq<char>) -> (b: Seq<char>)
    ensures
        s == text::trim_end(s) + b,
        all_white(b),
        text::trim_end(s).len() > 0 ==> !text::is_white(text::trim_end(s).last()),
    decreases s.len(),
{
    if s.len() > 0 && text::is_white(s.last()) {
        let a = lemma_trim_end(s.drop_last());
        let b = a.push(s.last());
        assert(s =~= text::trim_end(s) + b) by {
            assert(s =~= s.drop_last().push(s.last()));
        }
        b
    } else {
        assert(s =~= s + Seq::<char>::empty());
        Seq::empty()
    }
}

/// Trimming takes white space from the two ends, all of it, and nothing else; a text is blank where
/// nothing is left, which is where it holds nothing but white space.
pub proof fn law_trimming_takes_the_white_ends(s: Seq<char>)
    ensures
        exists|a: Seq<char>, b: Seq<char>| #[trigger]
            (a + text::trimmed(s) + b) == s && all_white(a) && all_white(b),
        tight(text::trimmed(s)),
        tight(s) ==> text::trimmed(s) == s,
        text::trimmed(text::trimmed(s)) == text::trimmed(s),
        text::blank(s) <==> all_white(s),
        text::blank(s) <==> text::trimmed(s).len() == 0,
{
    let a = lemma_trim_start(s);
    let m = text::trim_start(s);
    let b = lemma_trim_end(m);
    let t = text::trimmed(s);
    assert(a + t + b =~= s);
    if t.len() > 0 {
        assert(t[0] == m[0]);
    }
    if tight(s) {
        assert(text::trim_start(s) == s);
    }
    assert(text::trim_start(t) == t);
    assert(text::trim_end(t) == t);
    if t.len() > 0 {
        assert(s[a.len() as int] == t[0]);
        assert(!all_white(s));
    } else {
        assert forall|i: int| 0 <= i < s.len() implies text::is_white(#[trigger] s[i]) by {
            if i < a.len() {
                assert(s[i] == a[i]);
            } else {
                assert(s[i] == b[i - a.len()]);
            }
        }
    }
}

/// Folding keeps the length and every character but the capitals; two texts are the same without
/// regard to case where their characters fold alike; a key is the folded text without the white
/// space round it, and a key is its own key.
pub proof fn law_folding(s: Seq<char>, t: Seq<char>)
    ensures
        text::lower(s).len() == s.len(),
        forall|i: int|
            0 <= i < s.len() ==> #[trigger] text::lower(s)[i] == text::lower_char(s[i]),
        text::eq_nocase(s, t) <==> s.len() == t.len() && forall|i: int|
            0 <= i < s.len() ==> text::lower_char(#[trigger] s[i]) == text::lower_char(t[i]),
        text::folded(s) == text::lower(text::trimmed(s)),
        text::folded(text::folded(s)) == text::folded(s),
{
    if text::eq_nocase(s, t) {
        assert(text::lower(s).len() == text::lower(t).len());
        assert forall|i: int| 0 <= i < s.len() implies text::lower_char(#[trigger] s[i])
            == text::lower_char(t[i]) by {
            assert(text::lower(s)[i] == text::lower(t)[i]);
        }
    } else if s.len() == t.len() && forall|i: int|
        0 <= i < s.len() ==> text::lower_char(#[trigger] s[i]) == text::lower_char(t[i]) {
        assert(text::lower(s) =~= text::lower(t));
    }
    law_trimming_takes_the_white_ends(s);
    let k = text::folded(s);
    assert(tight(k));
    law_trimming_takes_the_white_ends(k);
    assert(text::lower(k) =~= k);
}

/// A flag says yes by one of four words, in whatever case and with whatever white space around it;
/// a deletion is forced by such a flag, and never without one.
pub proof fn law_what_says_yes(s: Seq<char>)
    ensures
        ({
            let word = text::lower(text::trimmed(s));
            let yes = word == "1"@ || word == "true"@ || word == "yes"@ || word == "on"@;
            &&& inputs::truthy(s) <==> yes
            &&& inputs::forced(Some(s)) <==> yes
        }),
        !inputs::forced(None),
{
}

/// A text begins with `a` where it is `a` and a rest, ends with `b` where it is a rest and `b`, and
/// holds `m` where it is a rest, `m` and a rest.
pub proof fn law_parts_of_a_text(a: Seq<char>, m: Seq<char>, b: Seq<char>, s: Seq<char>)
    ensures
        text::begins_with(a + b, a),
        text::finishes_with(a + b, b),
        text::holds_text(a + m + b, m),
        text::begins_with(s, a) ==> s == a + s.skip(a.len() as int),
        text::finishes_with(s, b) ==> b.len() <= s.len() && s == s.take(s.len() - b.len()) + b,
        text::holds_text(s, m) ==> exists|x: Seq<char>, y: Seq<char>| #[trigger] (x + m + y) == s,
{
    assert((a + b).subrange(0, a.len() as int) =~= a);
    assert((a + b).subrange(a.len() as int, (a.len() + b.len()) as int) =~= b);
    assert((a + m + b).subrange(a.len() as int, (a.len() + m.len()) as int) =~= m);
    assert(text::stands_at(a + m + b, m, a.len() as int));
    if text::begins_with(s, a) {
        assert(s =~= s.subrange(0, a.len() as int) + s.skip(a.len() as int));
    }
    if text::finishes_with(s, b) {
        let at = s.len() - b.len();
        assert(s =~= s.take(at) + s.subrange(at, at + b.len()));
    }
    if text::holds_text(s, m) {
        let at = choose|at: int| text::stands_at(s, m, at);
        assert(s.take(at) + m + s.skip(at + m.len()) =~= s) by {
            assert(s =~= s.take(at) + s.subrange(at, at + m.len()) + s.skip(at + m.len()));
        }
    }
}

/// A text falls into the pieces between the separators: none of them holds one, and joined by the
/// separator they are the text again.
pub proof fn law_pieces_join_to_the_text(s: Seq<char>, sep: char)
    ensures
        text::pieces(s, sep).len() >= 1,
        forall|i: int|
            0 <= i < text::pieces(s, sep).len() ==> !(#[trigger] text::pieces(s, sep)[i]).contains(
                sep,
            ),
        text::joined(text::pieces(s, sep), seq![sep]) == s,
    decreases s.len(),
{
    let all = text::pieces(s, sep);
    if s.len() > 0 {
        let init = s.drop_last();
        law_pieces_join_to_the_text(init, sep);
        let before = text::pieces(init, sep);
        assert(s =~= init.push(s.last()));
        if s.last() == sep {
            assert(all.drop_last() =~= before);
            assert(text::joined(all, seq![sep]) =~= init + seq![sep] + Seq::<char>::empty());
            assert(s =~= init + seq![sep] + Seq::<char>::empty());
        } else {
            assert(all.drop_last() =~= before.drop_last());
            assert(all.last() =~= before.last().push(s.last()));
            if before.len() == 1 {
                assert(text::joined(all, seq![sep]) == all[0]);
            } else {
                let head = text::joined(before.drop_last(), seq![sep]) + seq![sep];
                assert(head + before.last() == init);
                assert(text::joined(all, seq![sep]) =~= head + all.last());
                assert(head + all.last() =~= (head + before.last()).push(s.last()));
            }
            assert forall|i: int| 0 <= i < all.len() implies !(#[trigger] all[i]).contains(
                sep,
            ) by {
                if i < all.len() - 1 {
                    assert(all[i] == before[i]);
                } else {
                    assert(!before.last().contains(sep));
                    if all[i].contains(sep) {
                        let j = choose|j: int| 0 <= j < all[i].len() && all[i][j] == sep;
                        assert(before.last()[j] == sep);
                    }
                }
            }
        }
    } else {
        assert(!Seq::<char>::empty().contains(sep));
        assert(all[0] =~= s);
    }
}

/// Text order is that of the first difference: `a` stands before `b` where it is a beginning of it,
/// or has the smaller character where the two first differ.
pub proof fn law_text_order(a: Seq<char>, b: Seq<char>)
    ensures
        rows::text_le(a, b) <==> a.is_prefix_of(b) || exists|i: int|
            0 <= i < a.len() && i < b.len() && a[i] < b[i] && #[trigger] a.take(i) == b.take(i),
    decreases a.len(),
{
    if a.len() == 0 {
        assert(a =~= b.take(0));
    } else if b.len() > 0 {
        let (c, d) = (a.skip(1), b.skip(1));
        law_text_order(c, d);
        if a[0] == b[0] {
            if c.is_prefix_of(d) {
                assert(a =~= b.take(a.len() as int)) by {
                    assert forall|j: int| 0 <= j < a.len() implies a[j] == b[j] by {
                        if j > 0 {
                            assert(c[j - 1] == d[j - 1]);
                        }
                    }
                }
            }
            if exists|i: int|
                0 <= i < c.len() && i < d.len() && c[i] < d[i] && #[trigger] c.take(i) == d.take(i) {
                let i = choose|i: int|
                    0 <= i < c.len() && i < d.len() && c[i] < d[i] && #[trigger] c.take(i)
                        == d.take(i);
                assert(a.take(i + 1) =~= seq![a[0]] + c.take(i));
                assert(b.take(i + 1) =~= seq![b[0]] + d.take(i));
                assert(a[i + 1] < b[i + 1]);
            }
            if a.is_prefix_of(b) {
                assert(c =~= d.take(c.len() as int)) by {
                    assert forall|j: int| 0 <= j < c.len() implies c[j] == d[j] by {
                        assert(a[j + 1] == b[j + 1]);
                    }
                }
            }
            if exists|i: int|
                0 <= i < a.len() && i < b.len() && a[i] < b[i] && #[trigger] a.take(i) == b.take(i) {
                let i = choose|i: int|
                    0 <= i < a.len() && i < b.len() && a[i] < b[i] && #[trigger] a.take(i)
                        == b.take(i);
                assert(i > 0);
                assert(c.take(i - 1) =~= a.take(i).skip(1));
                assert(d.take(i - 1) =~= b.take(i).skip(1));
                assert(c[i - 1] < d[i - 1]);
            }
        } else {
            if a[0] < b[0] {
                assert(a.take(0) =~= b.take(0));
            }
            if exists|i: int|
                0 <= i < a.len() && i < b.len() && a[i] < b[i] && #[trigger] a.take(i) == b.take(i) {
                let i = choose|i: int|
                    0 <= i < a.len() && i < b.len() && a[i] < b[i] && #[trigger] a.take(i)
                        == b.take(i);
                if i > 0 {
                    assert(a.take(i)[0] == b.take(i)[0]);
                }
            }
        }
    }
}

proof fn lemma_numeral(n: nat)
    ensures
        text::all_digits(text::nat_text(n)),
        text::digits_value(text::nat_text(n)) == n,
    decreases n,
{
    let t = text::nat_text(n);
    if n >= 10 {
        lemma_numeral(n / 10);
        assert(t.drop_last() =~= text::nat_text(n / 10));
    } else {
        assert(t.drop_last() =~= Seq::empty());
        assert(text::digits_value(t.drop_last()) == 0);
    }
}

/// A number reads back from its numeral, which is digits alone where the number is not negative,
/// and which has no white space at its ends.
pub proof fn law_numerals_read_back(n: int)
    ensures
        text::read_signed(text::int_text(n)) == Some(n),
        0 <= n ==> text::read_unsigned(text::int_text(n)) == Some(n),
        0 <= n ==> text::all_digits(text::int_text(n)),
        0 < n ==> text::read_signed(text::int_text(-n)) == Some(-n),
        text::trimmed(text::int_text(n)) == text::int_text(n),
{
    let m = if n < 0 {
        (-n) as nat
    } else {
        n as nat
    };
    lemma_numeral(m);
    let d = text::nat_text(m);
    assert((seq!['-'] + d).skip(1) =~= d);
    assert(text::is_digit(d[0]) && text::is_digit(d.last()));
    law_trimming_takes_the_white_ends(text::int_text(n));
    assert(text::int_text(n).last() == d.last());
    if 0 < n {
        assert(text::int_text(-n) == seq!['-'] + d);
    }
}

/// One or more digits.
pub open spec fn only_digits(s: Seq<char>) -> bool {
    s.len() > 0 && forall|i: int| 0 <= i < s.len() ==> '0' <= #[trigger] s[i] && s[i] <= '9'
}

proof fn lemma_only_digits(s: Seq<char>)
    ensures
        text::all_digits(s) <==> only_digits(s),
{
    if text::all_digits(s) {
        assert forall|i: int| 0 <= i < s.len() implies '0' <= #[trigger] s[i] && s[i] <= '9' by {
            assert(text::is_digit(s[i]));
        }
    }
}

/// A numeral is one or more digits, with a sign before them or without; a plus changes nothing, a minus
/// negates, and each further digit counts ten times what stands before it.
pub proof fn law_what_a_numeral_is(s: Seq<char>, d: Seq<char>, c: char)
    ensures
        s.len() > 0 && (s[0] == '+' || s[0] == '-') ==> (text::read_signed(s) is Some
            <==> only_digits(s.skip(1))),
        !(s.len() > 0 && (s[0] == '+' || s[0] == '-')) ==> (text::read_signed(s) is Some
            <==> only_digits(s)),
        text::all_digits(d) ==> text::read_signed(d) == Some(text::digits_value(d)),
        text::all_digits(d) ==> text::read_signed(seq!['+'] + d) == Some(text::digits_value(d)),
        text::all_digits(d) ==> text::read_signed(seq!['-'] + d) == Some(-text::digits_value(d)),
        text::all_digits(d) ==> text::read_unsigned(seq!['+'] + d) == Some(text::digits_value(d)),
        text::read_unsigned(seq!['-'] + d) is None,
        text::digits_value(Seq::empty()) == 0,
        text::digits_value(d.push(c)) == 10 * text::digits_value(d) + (c as int - '0' as int),
{
    assert((seq!['+'] + d).skip(1) =~= d);
    assert((seq!['-'] + d).skip(1) =~= d);
    assert(d.push(c).drop_last() =~= d);
    let m = seq!['-'] + d;
    assert(!text::is_digit(m[0]));
    lemma_only_digits(s);
    lemma_only_digits(s.skip(1));
    if d.len() > 0 && text::all_digits(d) {
        assert(text::is_digit(d[0]));
    }
}

/// A page size is the number that the query spells, where that is a 64-bit integer; anything else,
/// and no query at all, asks for none.
pub proof fn law_the_page_size_asked_for(n: int, raw: Seq<char>)
    ensures
        i64::MIN <= n <= i64::MAX ==> inputs::limit_asked(Some(text::int_text(n))) == Some(n as i64),
        !(i64::MIN <= n <= i64::MAX) ==> inputs::limit_asked(Some(text::int_text(n))) is None,
        inputs::limit_asked(None) is None,
        text::read_signed(text::trimmed(raw)) is None ==> inputs::limit_asked(Some(raw)) is None,
        text::trimmed(raw) == text::int_text(n) ==> inputs::limit_asked(Some(raw))
            == inputs::limit_asked(Some(text::int_text(n))),
{
    law_numerals_read_back(n);
}

} // verus!
