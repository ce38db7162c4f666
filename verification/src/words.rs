//! Words of a text, its maximal runs of non-white-space characters, and the
//! normalized form that joins them with single spaces in ASCII lower case.
use crate::text::{is_space, is_space_char};
use vstd::prelude::*;
use vstd::string::StrSliceExecFns;
use vstd::string::StringExecFns;

verus! {

/// The length of the run of non-white-space characters that starts `s`.
pub open spec fn word_len(s: Seq<char>) -> nat
    decreases s.len(),
{
    if s.len() == 0 || is_space_char(s[0]) {
        0
    } else {
        1 + word_len(s.drop_first())
    }
}

pub proof fn lemma_word_len(s: Seq<char>)
    ensures
        word_len(s) <= s.len(),
        forall|k: int| 0 <= k < word_len(s) ==> !is_space_char(#[trigger] s[k]),
        word_len(s) < s.len() ==> is_space_char(s[word_len(s) as int]),
    decreases s.len(),
{
    if s.len() > 0 && !is_space_char(s[0]) {
        lemma_word_len(s.drop_first());
        assert forall|k: int| 0 <= k < word_len(s) implies !is_space_char(#[trigger] s[k]) by {
            if k > 0 {
                assert(s[k] == s.drop_first()[k - 1]);
            }
        }
    }
}

proof fn lemma_word_len_exact(s: Seq<char>, j: int)
    requires
        0 <= j <= s.len(),
        forall|k: int| 0 <= k < j ==> !is_space_char(#[trigger] s[k]),
        j == s.len() || is_space_char(s[j]),
    ensures
        word_len(s) == j,
    decreases j,
{
    if j > 0 {
        assert forall|k: int| 0 <= k < j - 1 implies !is_space_char(#[trigger] s.drop_first()[k]) by {
            assert(s.drop_first()[k] == s[k + 1]);
        }
        if j < s.len() {
            assert(s.drop_first()[j - 1] == s[j]);
        }
        lemma_word_len_exact(s.drop_first(), j - 1);
    }
}

/// The words of `s`, in order: its maximal runs of non-white-space
/// characters.
pub open spec fn words(s: Seq<char>) -> Seq<Seq<char>>
    decreases s.len(),
{
    if s.len() == 0 {
        seq![]
    } else if is_space_char(s[0]) {
        words(s.drop_first())
    } else {
        proof {
            lemma_word_len(s);
        }
        seq![s.take(word_len(s) as int)] + words(s.skip(word_len(s) as int))
    }
}

/// The words joined by single spaces.
pub open spec fn joined(ws: Seq<Seq<char>>) -> Seq<char>
    decreases ws.len(),
{
    if ws.len() == 0 {
        seq![]
    } else if ws.len() == 1 {
        ws[0]
    } else {
        joined(ws.drop_last()) + seq![' '] + ws.last()
    }
}

/// A character in ASCII lower case.
pub open spec fn ascii_lower_char(c: char) -> char {
    if 'A' <= c && c <= 'Z' {
        ((c as u32) + 32) as char
    } else {
        c
    }
}

pub open spec fn lower_text(s: Seq<char>) -> Seq<char> {
    s.map_values(|c: char| ascii_lower_char(c))
}

/// The normalized form of a text: its words joined by single spaces, in
/// ASCII lower case.
pub open spec fn normalized(s: Seq<char>) -> Seq<char> {
    lower_text(joined(words(s)))
}

/// Splits `s` into its words.
pub fn split_words(s: &str) -> (r: Vec<String>)
    ensures
        r@.len() == words(s@).len(),
        forall|k: int| 0 <= k < r@.len() ==> #[trigger] r@[k]@ == words(s@)[k],
{
    let n = s.unicode_len();
    let mut out: Vec<String> = Vec::new();
    let ghost done: Seq<Seq<char>> = seq![];
    let mut i: usize = 0;
    assert(s@.skip(0) =~= s@);
    while i < n
        invariant
            n == s@.len(),
            i <= n,
            out@.len() == done.len(),
            forall|k: int| 0 <= k < out@.len() ==> #[trigger] out@[k]@ == done[k],
            words(s@) == done + words(s@.skip(i as int)),
        decreases n - i,
    {
        let ghost t = s@.skip(i as int);
        let c = s.get_char(i);
        if is_space(c) {
            assert(t.drop_first() =~= s@.skip(i + 1));
            i = i + 1;
        } else {
            let mut j: usize = i + 1;
            while j < n && !is_space(s.get_char(j))
                invariant
                    n == s@.len(),
                    i < j <= n,
                    forall|k: int| i <= k < j ==> !is_space_char(#[trigger] s@[k]),
                decreases n - j,
            {
                j = j + 1;
            }
            proof {
                assert forall|k: int| 0 <= k < j - i implies !is_space_char(#[trigger] t[k]) by {
                    assert(t[k] == s@[i + k]);
                }
                if j < n {
                    assert(t[j - i] == s@[j as int]);
                }
                lemma_word_len_exact(t, j - i);
                assert(t.skip(j - i) =~= s@.skip(j as int));
            }
            let word = s.substring_char(i, j);
            assert(word@ =~= t.take(j - i));
            let w = word.to_string();
            out.push(w);
            proof {
                done = done.push(t.take(j - i));
                assert(seq![t.take(j - i)] + words(s@.skip(j as int)) == words(t));
                assert(done == done.drop_last().push(t.take(j - i)));
            }
            assert(words(s@) =~= done + words(s@.skip(j as int)));
            i = j;
        }
    }
    assert(words(s@.skip(i as int)) =~= Seq::<Seq<char>>::empty());
    assert(done + Seq::<Seq<char>>::empty() =~= done);
    out
}

fn lower_letter(c: char) -> (r: &'static str)
    requires
        'A' <= c && c <= 'Z',
    ensures
        r@ == seq![ascii_lower_char(c)],
{
    proof {
        reveal_strlit("a");
        reveal_strlit("b");
        reveal_strlit("c");
        reveal_strlit("d");
        reveal_strlit("e");
        reveal_strlit("f");
        reveal_strlit("g");
        reveal_strlit("h");
        reveal_strlit("i");
        reveal_strlit("j");
        reveal_strlit("k");
        reveal_strlit("l");
        reveal_strlit("m");
        reveal_strlit("n");
        reveal_strlit("o");
        reveal_strlit("p");
        reveal_strlit("q");
        reveal_strlit("r");
        reveal_strlit("s");
        reveal_strlit("t");
        reveal_strlit("u");
        reveal_strlit("v");
        reveal_strlit("w");
        reveal_strlit("x");
        reveal_strlit("y");
        reveal_strlit("z");
    }
    match c {
        'A' => "a",
        'B' => "b",
        'C' => "c",
        'D' => "d",
        'E' => "e",
        'F' => "f",
        'G' => "g",
        'H' => "h",
        'I' => "i",
        'J' => "j",
        'K' => "k",
        'L' => "l",
        'M' => "m",
        'N' => "n",
        'O' => "o",
        'P' => "p",
        'Q' => "q",
        'R' => "r",
        'S' => "s",
        'T' => "t",
        'U' => "u",
        'V' => "v",
        'W' => "w",
        'X' => "x",
        'Y' => "y",
        _ => "z",
    }
}

/// Appends `s` in ASCII lower case to `out`.
pub(crate) fn append_lower(out: &mut String, s: &str)
    ensures
        final(out)@ == old(out)@ + lower_text(s@),
{
    let n = s.unicode_len();
    let mut k: usize = 0;
    while k < n
        invariant
            n == s@.len(),
            k <= n,
            out@ == old(out)@ + lower_text(s@.take(k as int)),
        decreases n - k,
    {
        let c = s.get_char(k);
        if 'A' <= c && c <= 'Z' {
            out.append(lower_letter(c));
        } else {
            let one = s.substring_char(k, k + 1);
            assert(one@ =~= seq![c]);
            out.append(one);
        }
        assert(lower_text(s@.take(k + 1)) =~= lower_text(s@.take(k as int)).push(ascii_lower_char(c)));
        k = k + 1;
    }
    assert(s@.take(k as int) =~= s@);
}

/// The normalized form of `value`: its words joined by single spaces, in
/// ASCII lower case.
pub fn normalize(value: &str) -> (r: String)
    ensures
        r@ == normalized(value@),
{
    let ws = split_words(value);
    let ghost all = words(value@);
    let mut out = String::new();
    let mut k: usize = 0;
    assert(all.take(0) =~= Seq::<Seq<char>>::empty());
    while k < ws.len()
        invariant
            ws@.len() == all.len(),
            forall|m: int| 0 <= m < ws@.len() ==> #[trigger] ws@[m]@ == all[m],
            k <= ws@.len(),
            out@ == lower_text(joined(all.take(k as int))),
        decreases ws@.len() - k,
    {
        if k > 0 {
            out.append(" ");
            proof {
                reveal_strlit(" ");
            }
        }
        append_lower(&mut out, ws[k].as_str());
        proof {
            let t = all.take(k + 1);
            assert(t.drop_last() =~= all.take(k as int));
            assert(t.last() == all[k as int]);
            if k == 0 {
                assert(joined(t) == all[0]);
                assert(out@ =~= lower_text(joined(t)));
            } else {
                assert(joined(t) == joined(all.take(k as int)) + seq![' '] + all[k as int]);
                assert(out@ =~= lower_text(joined(t)));
            }
        }
        k = k + 1;
    }
    assert(all.take(k as int) =~= all);
    out
}

} // verus!
