//! Text as the queue manager reads and writes it: the words of a command
//! line and the decimal form of a number.

use vstd::prelude::*;

verus! {

/// The characters that part the words of a command line: the ASCII white
/// space.
pub open spec fn is_blank(c: char) -> bool {
    c == ' ' || c == '\t' || c == '\n' || c == '\x0C' || c == '\r'
}

/// The words of `s`: its longest runs of characters that are not blank, in
/// their order.
pub open spec fn words(s: Seq<char>) -> Seq<Seq<char>>
    decreases s.len(),
{
    if s.len() == 0 {
        Seq::empty()
    } else {
        let before = words(s.drop_last());
        if is_blank(s.last()) {
            before
        } else if s.len() >= 2 && !is_blank(s[s.len() - 2]) {
            before.drop_last().push(before.last().push(s.last()))
        } else {
            before.push(seq![s.last()])
        }
    }
}

/// The words `ws` from the place `from` on, each parted from the next by
/// one space.
pub open spec fn joined(ws: Seq<Seq<char>>, from: int) -> Seq<char>
    decreases ws.len() - from,
{
    if from >= ws.len() || from < 0 {
        Seq::empty()
    } else if from == ws.len() - 1 {
        ws[from]
    } else {
        ws[from] + seq![' '] + joined(ws, from + 1)
    }
}

/// The character of the decimal digit `d`.
pub open spec fn digit(d: nat) -> char {
    if d == 0 {
        '0'
    } else if d == 1 {
        '1'
    } else if d == 2 {
        '2'
    } else if d == 3 {
        '3'
    } else if d == 4 {
        '4'
    } else if d == 5 {
        '5'
    } else if d == 6 {
        '6'
    } else if d == 7 {
        '7'
    } else if d == 8 {
        '8'
    } else {
        '9'
    }
}

/// The decimal form of `n`, without leading zeros.
pub open spec fn decimal(n: nat) -> Seq<char>
    decreases n,
{
    if n < 10 {
        seq![digit(n)]
    } else {
        decimal(n / 10).push(digit(n % 10))
    }
}

/// The views of `strings`, one for one.
pub open spec fn views(strings: Seq<String>) -> Seq<Seq<char>> {
    Seq::new(strings.len(), |i: int| strings[i]@)
}

/// Whether `c` parts words.
pub fn blank(c: char) -> (res: bool)
    ensures
        res == is_blank(c),
{
    c == ' ' || c == '\t' || c == '\n' || c == '\x0C' || c == '\r'
}

/// Splits `s` into its words.
pub fn split_words(s: &str) -> (res: Vec<String>)
    ensures
        views(res@) == words(s@),
{
    broadcast use vstd::string::axiom_spec_iter;
    let mut done: Vec<String> = Vec::new();
    let mut word = String::new();
    let mut open = false;
    let ghost mut seen: Seq<char> = Seq::empty();
    for c in it: s.chars()
        invariant
            it.seq() == s@,
            seen == s@.take(it.index() as int),
            open <==> seen.len() > 0 && !is_blank(seen.last()),
            open ==> words(seen) == views(done@).push(word@),
            !open ==> words(seen) == views(done@) && word@.len() == 0,
    {
        let ghost before = seen;
        proof {
            seen = seen.push(c);
            assert(seen =~= s@.take(it.index() + 1));
            assert(seen.drop_last() =~= before);
        }
        if blank(c) {
            if open {
                let ghost old_done = done@;
                done.push(word);
                word = String::new();
                open = false;
                assert(views(done@) =~= views(old_done).push(done@.last()@));
            }
        } else {
            proof {
                if open {
                    assert(seen[seen.len() - 2] == before.last());
                    assert(words(before).drop_last() =~= views(done@));
                } else {
                    assert(word@.push(c) =~= seq![c]);
                    if seen.len() >= 2 {
                        assert(seen[seen.len() - 2] == before.last());
                    }
                }
            }
            word.push(c);
            open = true;
        }
    }
    assert(seen =~= s@);
    if open {
        let ghost old_done = done@;
        done.push(word);
        assert(views(done@) =~= views(old_done).push(done@.last()@));
    }
    done
}

/// Joins the words `ws` from the place `from` on, with one space between
/// each two.
pub fn join_words(ws: &Vec<String>, from: usize) -> (res: String)
    ensures
        res@ == joined(views(ws@), from as int),
{
    let mut out = String::new();
    if from >= ws.len() {
        return out;
    }
    let mut i: usize = ws.len() - 1;
    out.append(ws[i].as_str());
    while i > from
        invariant
            from <= i < ws.len(),
            out@ == joined(views(ws@), i as int),
        decreases i,
    {
        i -= 1;
        let mut next = ws[i].clone();
        next.push(' ');
        next.append(out.as_str());
        proof {
            assert(next@ =~= views(ws@)[i as int] + seq![' '] + joined(views(ws@), i + 1));
        }
        out = next;
    }
    out
}

/// The character of the decimal digit `d`.
fn digit_char(d: u64) -> (c: char)
    requires
        d < 10,
    ensures
        c == digit(d as nat),
{
    if d == 0 {
        '0'
    } else if d == 1 {
        '1'
    } else if d == 2 {
        '2'
    } else if d == 3 {
        '3'
    } else if d == 4 {
        '4'
    } else if d == 5 {
        '5'
    } else if d == 6 {
        '6'
    } else if d == 7 {
        '7'
    } else if d == 8 {
        '8'
    } else {
        '9'
    }
}

/// Writes `n` in decimal, without leading zeros.
pub fn decimal_string(n: u64) -> (res: String)
    ensures
        res@ == decimal(n as nat),
{
    let ghost full = decimal(n as nat);
    let mut low: Vec<char> = Vec::new();
    let mut m: u64 = n;
    while m >= 10
        invariant
            decimal(m as nat).len() + low.len() == full.len(),
            forall|k: int| 0 <= k < decimal(m as nat).len() ==> full[k] == decimal(m as nat)[k],
            forall|k: int| 0 <= k < low.len() ==> low[k] == full[full.len() - 1 - k],
        decreases m,
    {
        low.push(digit_char(m % 10));
        m = m / 10;
    }
    low.push(digit_char(m));
    let mut out = String::new();
    let mut i: usize = low.len();
    while i > 0
        invariant
            i <= low.len(),
            low.len() == full.len(),
            forall|k: int| 0 <= k < low.len() ==> low[k] == full[full.len() - 1 - k],
            out@ == full.take(low.len() - i),
        decreases i,
    {
        i -= 1;
        out.push(low[i]);
        assert(out@ =~= full.take(low.len() - i));
    }
    assert(full.take(full.len() as int) =~= full);
    out
}

/// Every word holds a character, and none of its characters is blank. A
/// text that ends with a character that is not blank ends with the end of
/// its last word.
pub proof fn law_words_hold_no_blank(s: Seq<char>)
    ensures
        forall|k: int| 0 <= k < words(s).len() ==> (#[trigger] words(s)[k]).len() > 0,
        forall|k: int, m: int|
            0 <= k < words(s).len() && 0 <= m < words(s)[k].len() ==> !is_blank(
                #[trigger] words(s)[k][m],
            ),
        s.len() > 0 && !is_blank(s.last()) ==> words(s).len() > 0 && words(s).last().last()
            == s.last(),
    decreases s.len(),
{
    if s.len() > 0 {
        let init = s.drop_last();
        law_words_hold_no_blank(init);
        let before = words(init);
        let c = s.last();
        if !is_blank(c) {
            if s.len() >= 2 && !is_blank(s[s.len() - 2]) {
                assert(init.last() == s[s.len() - 2]);
                let grown = before.last().push(c);
                let after = before.drop_last().push(grown);
                assert(words(s) == after);
                assert forall|k: int| 0 <= k < after.len() implies (#[trigger] after[k]).len() > 0 by {
                    if k < after.len() - 1 {
                        assert(after[k] == before[k]);
                    }
                }
                assert forall|k: int, m: int|
                    0 <= k < after.len() && 0 <= m < after[k].len() implies !is_blank(
                    #[trigger] after[k][m],
                ) by {
                    if k < after.len() - 1 {
                        assert(after[k] == before[k]);
                    } else if m < grown.len() - 1 {
                        assert(grown[m] == before.last()[m]);
                    }
                }
            } else {
                let after = before.push(seq![c]);
                assert(words(s) == after);
                assert forall|k: int| 0 <= k < after.len() implies (#[trigger] after[k]).len() > 0 by {
                    if k < after.len() - 1 {
                        assert(after[k] == before[k]);
                    }
                }
                assert forall|k: int, m: int|
                    0 <= k < after.len() && 0 <= m < after[k].len() implies !is_blank(
                    #[trigger] after[k][m],
                ) by {
                    if k < after.len() - 1 {
                        assert(after[k] == before[k]);
                    }
                }
            }
        }
    }
}

/// A text has no word if and only if all its characters are blank.
pub proof fn law_no_word_in_blank_text(s: Seq<char>)
    ensures
        words(s).len() == 0 <==> (forall|i: int| 0 <= i < s.len() ==> is_blank(#[trigger] s[i])),
    decreases s.len(),
{
    if s.len() > 0 {
        let init = s.drop_last();
        law_no_word_in_blank_text(init);
        law_words_hold_no_blank(init);
        law_words_hold_no_blank(s);
        if is_blank(s.last()) {
            if words(init).len() == 0 {
                assert forall|i: int| 0 <= i < s.len() implies is_blank(#[trigger] s[i]) by {
                    if i < s.len() - 1 {
                        assert(s[i] == init[i]);
                    }
                }
            } else {
                let i = choose|i: int| 0 <= i < init.len() && !is_blank(#[trigger] init[i]);
                assert(s[i] == init[i]);
            }
        } else {
            assert(!is_blank(s[s.len() - 1]));
        }
    }
}

/// A text that holds a character and no blank is one word.
pub proof fn law_word_alone(w: Seq<char>)
    requires
        w.len() > 0,
        forall|i: int| 0 <= i < w.len() ==> !is_blank(#[trigger] w[i]),
    ensures
        words(w) == seq![w],
    decreases w.len(),
{
    let init = w.drop_last();
    if init.len() > 0 {
        assert forall|i: int| 0 <= i < init.len() implies !is_blank(#[trigger] init[i]) by {
            assert(init[i] == w[i]);
        }
        law_word_alone(init);
        assert(!is_blank(w[w.len() - 2]));
        assert(seq![init].last() == init);
        assert(seq![init].drop_last().push(init.push(w.last())) =~= seq![init.push(w.last())]);
        assert(init.push(w.last()) =~= w);
    } else {
        assert(!is_blank(w[0]));
        assert(words(init) =~= Seq::<Seq<char>>::empty());
        assert(seq![w.last()] =~= w);
        assert(Seq::<Seq<char>>::empty().push(w) =~= seq![w]);
    }
}

/// A blank parts the words before it from the words behind it.
pub proof fn law_words_across_blank(a: Seq<char>, c: char, b: Seq<char>)
    requires
        is_blank(c),
    ensures
        words(a.push(c) + b) == words(a) + words(b),
    decreases b.len(),
{
    let s = a.push(c) + b;
    if b.len() == 0 {
        assert(s =~= a.push(c));
        assert(s.drop_last() =~= a);
        assert(words(a) + words(b) =~= words(a));
    } else {
        let rest = b.drop_last();
        let d = b.last();
        law_words_across_blank(a, c, rest);
        let before = a.push(c) + rest;
        assert(s.drop_last() =~= before);
        assert(s.last() == d);
        if is_blank(d) {
            assert(words(s) == words(before));
        } else if rest.len() == 0 {
            assert(before =~= a.push(c));
            assert(s[s.len() - 2] == c);
            assert(words(b) =~= seq![seq![d]]);
            assert(words(s) =~= words(a) + words(b));
        } else {
            assert(s[s.len() - 2] == rest.last());
            assert(b[b.len() - 2] == rest.last());
            if is_blank(rest.last()) {
                assert(words(s) =~= words(a) + words(b));
            } else {
                law_words_hold_no_blank(rest);
                let x = words(a);
                let y = words(rest);
                assert((x + y).drop_last() =~= x + y.drop_last());
                assert((x + y).last() == y.last());
                assert(words(s) =~= words(a) + words(b));
            }
        }
    }
}

} // verus!
