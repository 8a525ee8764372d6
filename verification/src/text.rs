//! Word-level text handling: splitting generated text into
//! whitespace-delimited words, counting them, and truncating to a word cap.
//!
//! Whitespace here means the Unicode white-space characters, the same set
//! that `str::split_whitespace` splits on. A *word* is a maximal nonempty
//! run of non-whitespace characters.

use vstd::prelude::*;

verus! {

/// The characters that delimit words: the Unicode white-space set (the
/// `White_Space` property, as `str::split_whitespace` uses it).
pub open spec fn is_space(c: char) -> bool {
    ||| c == '\t'
    ||| c == '\n'
    ||| c == '\u{B}'
    ||| c == '\u{C}'
    ||| c == '\r'
    ||| c == ' '
    ||| c == '\u{85}'
    ||| c == '\u{A0}'
    ||| c == '\u{1680}'
    ||| ((c as u32) >= 0x2000 && (c as u32) <= 0x200A)
    ||| c == '\u{2028}'
    ||| c == '\u{2029}'
    ||| c == '\u{202F}'
    ||| c == '\u{205F}'
    ||| c == '\u{3000}'
}

/// A word: nonempty and free of whitespace.
pub open spec fn is_word(w: Seq<char>) -> bool {
    &&& w.len() > 0
    &&& forall|j: int| 0 <= j < w.len() ==> !is_space(#[trigger] w[j])
}

/// Length of the maximal non-whitespace prefix of `s`.
pub open spec fn word_len(s: Seq<char>) -> nat
    decreases s.len(),
{
    if s.len() == 0 || is_space(s[0]) {
        0
    } else {
        1 + word_len(s.drop_first())
    }
}

/// The whitespace-delimited words of `s`, in order.
pub open spec fn words(s: Seq<char>) -> Seq<Seq<char>>
    decreases s.len(),
    via words_decreases
{
    if s.len() == 0 {
        Seq::empty()
    } else if is_space(s[0]) {
        words(s.drop_first())
    } else {
        seq![s.take(word_len(s) as int)] + words(s.skip(word_len(s) as int))
    }
}

#[via_fn]
proof fn words_decreases(s: Seq<char>) {
    if s.len() != 0 && !is_space(s[0]) {
        lemma_word_len_shape(s);
    }
}

/// The words joined back together with a single space between neighbours.
pub open spec fn join_spaces(ws: Seq<Seq<char>>) -> Seq<char>
    decreases ws.len(),
{
    if ws.len() == 0 {
        Seq::empty()
    } else if ws.len() == 1 {
        ws[0]
    } else {
        ws[0] + seq![' '] + join_spaces(ws.drop_first())
    }
}

/// Does `s` end in the sentence-terminal character?
pub open spec fn ends_terminal(s: Seq<char>) -> bool {
    s.len() > 0 && s[s.len() - 1] == '.'
}

/// The non-whitespace prefix never reaches past the end of `s`, holds no
/// whitespace, and is followed by whitespace if anything follows it.
pub proof fn lemma_word_len_shape(s: Seq<char>)
    ensures
        word_len(s) <= s.len(),
        forall|i: int| 0 <= i < word_len(s) ==> !is_space(#[trigger] s[i]),
        word_len(s) < s.len() ==> is_space(s[word_len(s) as int]),
    decreases s.len(),
{
    if s.len() == 0 || is_space(s[0]) {
    } else {
        lemma_word_len_shape(s.drop_first());
        assert forall|i: int| 0 <= i < word_len(s) implies !is_space(#[trigger] s[i]) by {
            if i > 0 {
                assert(s.drop_first()[i - 1] == s[i]);
            }
        }
    }
}

/// The non-whitespace prefix is exactly the stretch up to the first
/// whitespace character (or the whole of `s` if there is none).
pub proof fn lemma_word_len_exact(s: Seq<char>, l: int)
    requires
        0 <= l <= s.len(),
        forall|i: int| 0 <= i < l ==> !is_space(#[trigger] s[i]),
        l == s.len() || is_space(s[l]),
    ensures
        word_len(s) == l,
    decreases l,
{
    if l == 0 {
    } else {
        assert(!is_space(s[0]));
        assert forall|i: int| 0 <= i < l - 1 implies !is_space(#[trigger] s.drop_first()[i]) by {
            assert(s.drop_first()[i] == s[i + 1]);
        }
        if l - 1 < s.drop_first().len() {
            assert(s.drop_first()[l - 1] == s[l]);
        }
        lemma_word_len_exact(s.drop_first(), l - 1);
    }
}

/// Every word that `words` yields is a word: nonempty and whitespace-free.
pub proof fn lemma_words_wf(s: Seq<char>)
    ensures
        forall|i: int| 0 <= i < words(s).len() ==> is_word(#[trigger] words(s)[i]),
    decreases s.len(),
{
    if s.len() == 0 {
    } else if is_space(s[0]) {
        lemma_words_wf(s.drop_first());
        assert(words(s) == words(s.drop_first()));
        assert forall|i: int| 0 <= i < words(s).len() implies is_word(#[trigger] words(s)[i]) by {
            assert(words(s)[i] == words(s.drop_first())[i]);
        }
    } else {
        lemma_word_len_shape(s);
        lemma_words_wf(s.skip(word_len(s) as int));
        let w0 = s.take(word_len(s) as int);
        assert forall|j: int| 0 <= j < w0.len() implies !is_space(#[trigger] w0[j]) by {
            assert(w0[j] == s[j]);
        }
        assert(is_word(w0));
        assert(words(s) == seq![w0] + words(s.skip(word_len(s) as int)));
        assert forall|i: int| 0 <= i < words(s).len() implies is_word(#[trigger] words(s)[i]) by {
            if i == 0 {
                assert(words(s)[0] == w0);
            } else {
                assert(words(s)[i] == words(s.skip(word_len(s) as int))[i - 1]);
            }
        }
    }
}

/// Splitting a single word yields just that word.
pub proof fn lemma_words_single(w: Seq<char>)
    requires
        is_word(w),
    ensures
        words(w) =~= seq![w],
{
    assert(!is_space(w[0]));
    lemma_word_len_exact(w, w.len() as int);
    assert(w.take(w.len() as int) =~= w);
    assert(w.skip(w.len() as int) =~= Seq::<char>::empty());
    assert(words(w.skip(w.len() as int)) =~= Seq::<Seq<char>>::empty());
    assert(words(w) == seq![w.take(w.len() as int)] + words(w.skip(w.len() as int)));
}

/// Splitting undoes joining: the words of `join_spaces(ws)` are exactly `ws`,
/// whenever every entry of `ws` is a word. This is what makes truncation to a
/// word cap meaningful: a text rebuilt from `n` words splits back into those
/// same `n` words.
pub proof fn lemma_words_of_join(ws: Seq<Seq<char>>)
    requires
        forall|i: int| 0 <= i < ws.len() ==> is_word(#[trigger] ws[i]),
    ensures
        words(join_spaces(ws)) =~= ws,
    decreases ws.len(),
{
    if ws.len() == 0 {
    } else if ws.len() == 1 {
        lemma_words_single(ws[0]);
        assert(words(join_spaces(ws)) =~= seq![ws[0]]);
    } else {
        let j = join_spaces(ws);
        let w0 = ws[0];
        let rest = join_spaces(ws.drop_first());
        assert(j == w0 + seq![' '] + rest);
        assert(j.len() == w0.len() + 1 + rest.len());
        assert forall|i: int| 0 <= i < w0.len() implies !is_space(#[trigger] j[i]) by {
            assert(j[i] == w0[i]);
        }
        assert(is_space(j[w0.len() as int]));
        lemma_word_len_exact(j, w0.len() as int);
        assert(j.take(w0.len() as int) =~= w0);
        let tail = j.skip(w0.len() as int);
        assert(tail[0] == ' ');
        assert(tail.drop_first() =~= rest);
        lemma_words_of_join(ws.drop_first());
        assert(words(j) == seq![w0] + words(tail));
        assert(words(tail) == words(rest));
        assert(seq![w0] + ws.drop_first() =~= ws);
    }
}

/// Joining one more word onto the right.
pub proof fn lemma_join_push(ws: Seq<Seq<char>>, w: Seq<char>)
    ensures
        ws.len() == 0 ==> join_spaces(ws.push(w)) =~= w,
        ws.len() > 0 ==> join_spaces(ws.push(w)) =~= join_spaces(ws) + seq![' '] + w,
    decreases ws.len(),
{
    if ws.len() == 0 {
        assert(ws.push(w) =~= seq![w]);
        assert(join_spaces(seq![w]) == w);
    } else if ws.len() == 1 {
        assert(ws.push(w).len() == 2);
        assert(ws.push(w).drop_first() =~= seq![w]);
        assert(join_spaces(ws.push(w)) == ws[0] + seq![' '] + join_spaces(seq![w]));
    } else {
        assert(ws.push(w).drop_first() =~= ws.drop_first().push(w));
        lemma_join_push(ws.drop_first(), w);
    }
}

/// Whether `c` delimits words.
pub fn is_space_char(c: char) -> (r: bool)
    ensures
        r == is_space(c),
{
    c == '\t' || c == '\n' || c == '\u{B}' || c == '\u{C}' || c == '\r' || c == ' '
        || c == '\u{85}' || c == '\u{A0}' || c == '\u{1680}'
        || ((c as u32) >= 0x2000 && (c as u32) <= 0x200A)
        || c == '\u{2028}' || c == '\u{2029}' || c == '\u{202F}' || c == '\u{205F}'
        || c == '\u{3000}'
}

/// The whitespace-delimited words of `s`, in order of appearance.
pub fn split_words(s: &str) -> (ws: Vec<String>)
    ensures
        ws@.map_values(|w: String| w@) =~= words(s@),
{
    let n = s.unicode_len();
    let mut ws: Vec<String> = Vec::new();
    let mut i: usize = 0;
    proof {
        assert(s@.skip(0) =~= s@);
        assert(ws@.map_values(|w: String| w@) =~= Seq::<Seq<char>>::empty());
    }
    while i < n
        invariant
            n == s@.len(),
            i <= n,
            words(s@) =~= ws@.map_values(|w: String| w@) + words(s@.skip(i as int)),
        decreases n - i,
    {
        let c = s.get_char(i);
        if is_space_char(c) {
            proof {
                assert(s@.skip(i as int)[0] == s@[i as int]);
                assert(s@.skip(i as int).drop_first() =~= s@.skip(i + 1));
            }
            i = i + 1;
        } else {
            let start = i;
            let mut j: usize = i + 1;
            while j < n && !is_space_char(s.get_char(j))
                invariant
                    n == s@.len(),
                    start < j <= n,
                    forall|k: int| start <= k < j ==> !is_space(#[trigger] s@[k]),
                decreases n - j,
            {
                j = j + 1;
            }
            let w = s.substring_char(start, j);
            proof {
                let suf = s@.skip(start as int);
                assert(suf[0] == s@[start as int]);
                assert forall|k: int| 0 <= k < j - start implies !is_space(#[trigger] suf[k]) by {
                    assert(suf[k] == s@[k + start]);
                }
                if j - start < suf.len() {
                    assert(suf[j - start] == s@[j as int]);
                }
                lemma_word_len_exact(suf, j - start);
                assert(suf.take(j - start) =~= s@.subrange(start as int, j as int));
                assert(suf.skip(j - start) =~= s@.skip(j as int));
                assert(words(suf) == seq![s@.subrange(start as int, j as int)] + words(
                    s@.skip(j as int),
                ));
            }
            let owned = w.to_owned();
            let ghost before = ws@;
            ws.push(owned);
            proof {
                assert(ws@.map_values(|x: String| x@) =~= before.map_values(|x: String| x@).push(
                    w@,
                ));
            }
            i = j;
        }
    }
    proof {
        assert(s@.skip(n as int) =~= Seq::<char>::empty());
    }
    ws
}

/// How many whitespace-delimited words `s` holds.
pub fn count_words(s: &str) -> (n: usize)
    ensures
        n == words(s@).len(),
{
    let ws = split_words(s);
    ws.len()
}

/// The first `cap` words of `s`, joined by single spaces. If `s` has no more
/// than `cap` words the result is all of them; whitespace is normalised
/// either way.
pub fn truncate_words(s: &str, cap: usize) -> (r: String)
    ensures
        r@ == join_spaces(words(s@).take(vstd::math::min(cap as int, words(s@).len() as int))),
        words(r@).len() <= cap,
        words(r@) =~= words(s@).take(vstd::math::min(cap as int, words(s@).len() as int)),
{
    let ws = split_words(s);
    let take_n: usize = if cap < ws.len() {
        cap
    } else {
        ws.len()
    };
    let ghost goal = words(s@).take(take_n as int);
    let mut out = String::new();
    let mut i: usize = 0;
    while i < take_n
        invariant
            take_n <= ws@.len(),
            i <= take_n,
            ws@.map_values(|w: String| w@) =~= words(s@),
            goal == words(s@).take(take_n as int),
            out@ =~= join_spaces(goal.take(i as int)),
        decreases take_n - i,
    {
        proof {
            assert(goal.take(i + 1) =~= goal.take(i as int).push(ws@[i as int]@));
            lemma_join_push(goal.take(i as int), ws@[i as int]@);
        }
        if i > 0 {
            proof {
                reveal_strlit(" ");
            }
            out.append(" ");
        } else {
            proof {
                assert(goal.take(0) =~= Seq::<Seq<char>>::empty());
                assert(join_spaces(goal.take(0)) =~= Seq::<char>::empty());
            }
        }
        let w = &ws[i];
        out.append(w.as_str());
        i = i + 1;
    }
    proof {
        assert(goal.take(take_n as int) =~= goal);
        lemma_words_wf(s@);
        assert forall|k: int| 0 <= k < goal.len() implies is_word(#[trigger] goal[k]) by {
            assert(goal[k] == words(s@)[k]);
        }
        lemma_words_of_join(goal);
    }
    out
}

/// Does the fragment end in the sentence-terminal character?
pub fn fragment_ends_terminal(s: &str) -> (r: bool)
    ensures
        r == ends_terminal(s@),
{
    let n = s.unicode_len();
    if n == 0 {
        false
    } else {
        s.get_char(n - 1) == '.'
    }
}

/// Character-for-character equality of two text slices.
pub fn text_eq(a: &str, b: &str) -> (r: bool)
    ensures
        r == (a@ == b@),
{
    let na = a.unicode_len();
    let nb = b.unicode_len();
    if na != nb {
        return false;
    }
    let mut i: usize = 0;
    while i < na
        invariant
            na == a@.len(),
            na == b@.len(),
            i <= na,
            forall|k: int| 0 <= k < i ==> a@[k] == b@[k],
        decreases na - i,
    {
        if a.get_char(i) != b.get_char(i) {
            return false;
        }
        i = i + 1;
    }
    proof {
        assert(a@ =~= b@);
    }
    true
}

} // verus!
