//! Small operations on strings, stated over their characters.
use vstd::prelude::*;
use vstd::string::StrSliceExecFns;
use vstd::string::StringExecFns;

verus! {

/// The number of characters at the front of `s` that come before its first
/// space.
pub open spec fn word_len(s: Seq<char>) -> nat
    decreases s.len(),
{
    if s.len() == 0 || s[0] == ' ' {
        0
    } else {
        1 + word_len(s.drop_first())
    }
}

/// The words of `s`: its maximal runs of characters other than a space, in
/// the order in which they stand. Spaces only separate; they never give an
/// empty word.
pub open spec fn words(s: Seq<char>) -> Seq<Seq<char>>
    decreases s.len(),
    via words_terminates
{
    if s.len() == 0 {
        Seq::empty()
    } else if s[0] == ' ' {
        words(s.drop_first())
    } else {
        seq![s.take(word_len(s) as int)] + words(s.skip(word_len(s) as int))
    }
}

#[via_fn]
proof fn words_terminates(s: Seq<char>) {
    lemma_word_len_bounds(s);
}

/// A word is no longer than the text it starts, and not empty where the text
/// starts with something other than a space.
pub proof fn lemma_word_len_bounds(s: Seq<char>)
    ensures
        word_len(s) <= s.len(),
        s.len() > 0 && s[0] != ' ' ==> word_len(s) >= 1,
    decreases s.len(),
{
    if s.len() > 0 && s[0] != ' ' {
        lemma_word_len_bounds(s.drop_first());
    }
}

/// A run of characters other than a space that ends at a space, or at the
/// end of the text, is the word that starts where the run starts.
pub proof fn lemma_word_len_of_run(s: Seq<char>, from: int, to: int)
    requires
        0 <= from <= to <= s.len(),
        forall|k: int| from <= k < to ==> s[k] != ' ',
        to == s.len() || s[to] == ' ',
    ensures
        word_len(s.skip(from)) == to - from,
    decreases to - from,
{
    let rest = s.skip(from);
    if from < to {
        assert(rest[0] == s[from]);
        assert(rest.drop_first() =~= s.skip(from + 1));
        lemma_word_len_of_run(s, from + 1, to);
    } else if to < s.len() {
        assert(rest[0] == s[to]);
    }
}

/// No word is empty, and no word holds a space.
pub proof fn lemma_words_are_words(s: Seq<char>)
    ensures
        forall|k: int|
            0 <= k < words(s).len() ==> (#[trigger] words(s)[k]).len() > 0 && !words(s)[k].contains(
                ' ',
            ),
    decreases s.len(),
{
    if s.len() == 0 {
        assert(words(s).len() == 0);
    } else if s[0] == ' ' {
        lemma_words_are_words(s.drop_first());
        assert(words(s) == words(s.drop_first()));
    } else {
        let n = word_len(s) as int;
        lemma_word_len_bounds(s);
        lemma_word_has_no_space(s);
        lemma_words_are_words(s.skip(n));
        let rest = words(s.skip(n));
        assert(words(s) == seq![s.take(n)] + rest);
        assert forall|k: int| 0 <= k < words(s).len() implies (#[trigger] words(s)[k]).len() > 0
            && !words(s)[k].contains(' ') by {
            if k == 0 {
                assert(words(s)[0] == s.take(n));
            } else {
                assert(words(s)[k] == rest[k - 1]);
            }
        }
    }
}

/// The characters that `word_len` counts are not spaces.
pub proof fn lemma_word_has_no_space(s: Seq<char>)
    ensures
        !s.take(word_len(s) as int).contains(' '),
    decreases s.len(),
{
    lemma_word_len_bounds(s);
    let n = word_len(s) as int;
    if s.len() > 0 && s[0] != ' ' {
        let tail = s.drop_first();
        lemma_word_has_no_space(tail);
        lemma_word_len_bounds(tail);
        assert forall|k: int| 0 <= k < n implies s.take(n)[k] != ' ' by {
            if k > 0 {
                assert(tail.take(n - 1)[k - 1] == s[k]);
                assert(tail.take(n - 1).contains(s[k]));
            }
        }
    }
}

/// Whether `token` can stand as a word: it is not empty and holds no space.
pub open spec fn is_word(token: Seq<char>) -> bool {
    token.len() > 0 && !token.contains(' ')
}

/// The text in which each of `tokens` stands behind one space, in order.
pub open spec fn space_led(tokens: Seq<Seq<char>>) -> Seq<char>
    decreases tokens.len(),
{
    if tokens.len() == 0 {
        Seq::empty()
    } else {
        seq![' '] + tokens[0] + space_led(tokens.drop_first())
    }
}

/// Splitting undoes joining: the words of a text in which each token stands
/// behind one space are those tokens, each whole, in the same order and
/// number.
pub proof fn lemma_words_of_space_led(tokens: Seq<Seq<char>>)
    requires
        forall|i: int| 0 <= i < tokens.len() ==> is_word(#[trigger] tokens[i]),
    ensures
        words(space_led(tokens)) == tokens,
    decreases tokens.len(),
{
    if tokens.len() == 0 {
        assert(words(space_led(tokens)) =~= tokens);
    } else {
        let first = tokens[0];
        let rest = tokens.drop_first();
        let tail = space_led(rest);
        let text = first + tail;
        assert forall|i: int| 0 <= i < rest.len() implies is_word(#[trigger] rest[i]) by {
            assert(rest[i] == tokens[i + 1]);
        }
        lemma_words_of_space_led(rest);
        assert(is_word(first));
        assert((seq![' '] + first + tail).drop_first() =~= text);
        assert forall|k: int| 0 <= k < first.len() implies text[k] != ' ' by {
            assert(first.contains(first[k]));
        }
        assert(first.len() == text.len() || text[first.len() as int] == ' ') by {
            if rest.len() > 0 {
                assert(tail[0] == ' ');
            }
        }
        assert(text.skip(0) =~= text);
        lemma_word_len_of_run(text, 0, first.len() as int);
        assert(text.take(first.len() as int) =~= first);
        assert(text.skip(first.len() as int) =~= tail);
        assert(text[0] == first[0]);
        assert(words(text) == seq![first] + words(tail));
        assert(seq![first] + rest =~= tokens);
    }
}

/// The views of the strings in `v`, in order.
pub open spec fn strings_view(v: Seq<String>) -> Seq<Seq<char>> {
    Seq::new(v.len(), |i: int| v[i]@)
}

/// The characters of `s`, in order.
pub fn chars_of(s: &str) -> (chars: Vec<char>)
    ensures
        chars@ == s@,
{
    let mut chars: Vec<char> = Vec::new();
    for c in it: s.chars()
        invariant
            chars@ == it.seq().take(it.index()),
            it.seq() == s@,
    {
        chars.push(c);
    }
    chars
}

/// Whether `a` and `b` hold the same characters.
pub fn str_eq(a: &str, b: &str) -> (same: bool)
    ensures
        same == (a@ == b@),
{
    String::from_str(a) == String::from_str(b)
}

/// Splits `s` at its spaces into its words.
pub fn split_words(s: &str) -> (out: Vec<String>)
    ensures
        strings_view(out@) == words(s@),
{
    let chars = chars_of(s);
    let n = chars.len();
    let mut out: Vec<String> = Vec::new();
    let mut i: usize = 0;
    assert(s@.skip(0) =~= s@);
    assert(strings_view(out@) =~= Seq::<Seq<char>>::empty());
    while i < n
        invariant
            chars@ == s@,
            n == chars.len(),
            i <= n,
            strings_view(out@) + words(s@.skip(i as int)) == words(s@),
        decreases n - i,
    {
        let ghost rest = s@.skip(i as int);
        if chars[i] == ' ' {
            assert(rest.drop_first() =~= s@.skip(i + 1));
            i += 1;
        } else {
            let start = i;
            while i < n && chars[i] != ' '
                invariant
                    chars@ == s@,
                    n == chars.len(),
                    start <= i <= n,
                    forall|k: int| start <= k < i ==> s@[k] != ' ',
                decreases n - i,
            {
                i += 1;
            }
            let word = String::from_str(s.substring_char(start, i));
            proof {
                lemma_word_len_of_run(s@, start as int, i as int);
                assert(rest.take(i - start) =~= s@.subrange(start as int, i as int));
                assert(rest.skip(i - start) =~= s@.skip(i as int));
                assert(strings_view(out@.push(word)) =~= strings_view(out@) + seq![word@]);
            }
            out.push(word);
        }
    }
    assert(words(s@.skip(n as int)) =~= Seq::<Seq<char>>::empty());
    out
}

} // verus!
