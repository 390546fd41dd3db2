use vstd::prelude::*;

use crate::text::{chars_equal, is_alphanumeric, matches_at, unicode_alphanumeric};

verus! {

// ---------------------------------------------------------------------------
// Replacement of every occurrence of a pattern.
// ---------------------------------------------------------------------------
/// `s` with every leftmost, non-overlapping occurrence of `pattern` replaced.
pub open spec fn replace_spec(s: Seq<char>, pattern: Seq<char>, replacement: Seq<char>) -> Seq<
    char,
>
    decreases s.len(),
{
    if s.len() == 0 || pattern.len() == 0 {
        s
    } else if pattern.len() <= s.len() && s.subrange(0, pattern.len() as int) == pattern {
        replacement + replace_spec(s.skip(pattern.len() as int), pattern, replacement)
    } else {
        seq![s[0]] + replace_spec(s.drop_first(), pattern, replacement)
    }
}

/// Appends characters at the end of a vector.
pub fn append_chars(out: &mut Vec<char>, extra: &[char])
    ensures
        final(out)@ == old(out)@ + extra@,
{
    let mut k: usize = 0;
    while k < extra.len()
        invariant
            k <= extra@.len(),
            out@ == old(out)@ + extra@.take(k as int),
        decreases extra@.len() - k,
    {
        out.push(extra[k]);
        assert(extra@.take(k as int).push(extra@[k as int]) =~= extra@.take(k + 1));
        k = k + 1;
    }
    assert(extra@.take(extra@.len() as int) =~= extra@);
}

/// Replaces every leftmost, non-overlapping occurrence of a non-empty pattern.
pub fn replace_all(s: &[char], pattern: &[char], replacement: &[char]) -> (out: Vec<char>)
    requires
        pattern@.len() > 0,
    ensures
        out@ == replace_spec(s@, pattern@, replacement@),
{
    let n = s.len();
    let m = pattern.len();
    let mut out: Vec<char> = Vec::new();
    let mut i: usize = 0;
    assert(s@.skip(0) =~= s@);
    while i < n
        invariant
            i <= n,
            n == s@.len(),
            m == pattern@.len(),
            m > 0,
            out@ + replace_spec(s@.skip(i as int), pattern@, replacement@) == replace_spec(
                s@,
                pattern@,
                replacement@,
            ),
        decreases n - i,
    {
        let rest = Ghost(s@.skip(i as int));
        if m <= n - i && matches_at(s, pattern, i) {
            assert(rest@.subrange(0, m as int) =~= s@.subrange(i as int, i + m));
            assert(rest@.skip(m as int) =~= s@.skip(i + m));
            let ghost before = out@;
            append_chars(&mut out, replacement);
            assert(out@ + replace_spec(s@.skip(i + m), pattern@, replacement@) =~= before
                + replace_spec(rest@, pattern@, replacement@));
            i = i + m;
        } else {
            assert(rest@.drop_first() =~= s@.skip(i + 1));
            assert(m <= rest@.len() ==> rest@.subrange(0, m as int) =~= s@.subrange(
                i as int,
                i + m,
            ));
            let ghost before = out@;
            out.push(s[i]);
            assert(out@ + replace_spec(s@.skip(i + 1), pattern@, replacement@) =~= before
                + replace_spec(rest@, pattern@, replacement@));
            i = i + 1;
        }
    }
    assert(s@.skip(n as int) =~= Seq::<char>::empty());
    assert(out@ + replace_spec(s@.skip(n as int), pattern@, replacement@) =~= out@);
    out
}

// ---------------------------------------------------------------------------
// Splitting into alphanumeric words.
// ---------------------------------------------------------------------------
/// The finished word, if any, as a sequence of zero or one words.
pub open spec fn finished_word(current: Seq<char>) -> Seq<Seq<char>> {
    if current.len() > 0 {
        seq![current]
    } else {
        seq![]
    }
}

/// The maximal runs of alphanumeric characters of `s`, the first one extending `current`.
pub open spec fn alnum_runs(s: Seq<char>, current: Seq<char>) -> Seq<Seq<char>>
    decreases s.len(),
{
    if s.len() == 0 {
        finished_word(current)
    } else if unicode_alphanumeric(s[0]) {
        alnum_runs(s.drop_first(), current.push(s[0]))
    } else {
        finished_word(current) + alnum_runs(s.drop_first(), seq![])
    }
}

/// The non-empty pieces of `s` between non-alphanumeric characters, in order.
pub open spec fn alnum_words(s: Seq<char>) -> Seq<Seq<char>> {
    alnum_runs(s, seq![])
}

// ---------------------------------------------------------------------------
// Lexicographic order and sorted sets of words.
// ---------------------------------------------------------------------------
/// Lexicographic order on character sequences, comparing code points.
pub open spec fn lex_lt(a: Seq<char>, b: Seq<char>) -> bool
    decreases a.len(),
{
    if a.len() == 0 {
        b.len() > 0
    } else if b.len() == 0 {
        false
    } else if a[0] != b[0] {
        (a[0] as int) < (b[0] as int)
    } else {
        lex_lt(a.drop_first(), b.drop_first())
    }
}

/// Every word comes strictly before every later word.
pub open spec fn strictly_sorted(words: Seq<Seq<char>>) -> bool {
    forall|i: int, j: int| 0 <= i < j < words.len() ==> lex_lt(#[trigger] words[i], #[trigger] words[j])
}

/// The character sequences that a vector of character vectors holds.
pub open spec fn word_views(words: Seq<Vec<char>>) -> Seq<Seq<char>> {
    words.map_values(|w: Vec<char>| w@)
}

pub proof fn lemma_lex_irreflexive(a: Seq<char>)
    ensures
        !lex_lt(a, a),
    decreases a.len(),
{
    if a.len() > 0 {
        lemma_lex_irreflexive(a.drop_first());
    }
}

pub proof fn lemma_lex_transitive(a: Seq<char>, b: Seq<char>, c: Seq<char>)
    requires
        lex_lt(a, b),
        lex_lt(b, c),
    ensures
        lex_lt(a, c),
    decreases a.len(),
{
    if a.len() > 0 && b.len() > 0 && c.len() > 0 {
        if a[0] == b[0] && b[0] == c[0] {
            lemma_lex_transitive(a.drop_first(), b.drop_first(), c.drop_first());
        }
    }
}

pub proof fn lemma_lex_total(a: Seq<char>, b: Seq<char>)
    requires
        a != b,
    ensures
        lex_lt(a, b) || lex_lt(b, a),
    decreases a.len(),
{
    if a.len() == 0 {
        assert(b.len() > 0) by {
            if b.len() == 0 {
                assert(a =~= b);
            }
        }
    } else if b.len() > 0 && a[0] == b[0] {
        if a.drop_first() == b.drop_first() {
            assert(a =~= seq![a[0]] + a.drop_first());
            assert(b =~= seq![b[0]] + b.drop_first());
        }
        lemma_lex_total(a.drop_first(), b.drop_first());
    } else if b.len() > 0 {
    }
}

/// Two strictly sorted sequences that hold the same words are the same sequence.
pub proof fn lemma_sorted_words_unique(x: Seq<Seq<char>>, y: Seq<Seq<char>>)
    requires
        strictly_sorted(x),
        strictly_sorted(y),
        x.to_set() == y.to_set(),
    ensures
        x == y,
    decreases x.len(),
{
    if x.len() == 0 {
        if y.len() > 0 {
            assert(y.to_set().contains(y[0]));
            assert(!x.to_set().contains(y[0]));
        }
        assert(x =~= y);
    } else if y.len() == 0 {
        assert(x.to_set().contains(x[0]));
        assert(!y.to_set().contains(x[0]));
    } else {
        // Both first elements are the least words of the common set.
        assert(x.to_set().contains(x[0]));
        assert(y.to_set().contains(y[0]));
        let j = choose|j: int| 0 <= j < y.len() && y[j] == x[0];
        let i = choose|i: int| 0 <= i < x.len() && x[i] == y[0];
        if x[0] != y[0] {
            assert(j > 0);
            assert(i > 0);
            assert(lex_lt(y[0], y[j]));
            assert(lex_lt(x[0], x[i]));
            lemma_lex_transitive(y[0], x[0], y[0]);
            lemma_lex_irreflexive(y[0]);
        }
        let xs = x.drop_first();
        let ys = y.drop_first();
        assert forall|w: Seq<char>| xs.to_set().contains(w) implies ys.to_set().contains(w) by {
            let k = choose|k: int| 0 <= k < xs.len() && xs[k] == w;
            assert(x[k + 1] == w);
            assert(lex_lt(x[0], w));
            assert(y.to_set().contains(w));
            let l = choose|l: int| 0 <= l < y.len() && y[l] == w;
            if l == 0 {
                lemma_lex_irreflexive(w);
            }
            assert(ys[l - 1] == w);
        }
        assert forall|w: Seq<char>| ys.to_set().contains(w) implies xs.to_set().contains(w) by {
            let k = choose|k: int| 0 <= k < ys.len() && ys[k] == w;
            assert(y[k + 1] == w);
            assert(lex_lt(y[0], w));
            assert(x.to_set().contains(w));
            let l = choose|l: int| 0 <= l < x.len() && x[l] == w;
            if l == 0 {
                lemma_lex_irreflexive(w);
            }
            assert(xs[l - 1] == w);
        }
        assert(xs.to_set() =~= ys.to_set());
        lemma_sorted_words_unique(xs, ys);
        assert(x =~= seq![x[0]] + xs);
        assert(y =~= seq![y[0]] + ys);
    }
}

/// Whether `a` comes strictly before `b` in lexicographic code-point order.
pub fn lex_less(a: &[char], b: &[char]) -> (less: bool)
    ensures
        less == lex_lt(a@, b@),
{
    let mut i: usize = 0;
    assert(a@.skip(0) =~= a@);
    assert(b@.skip(0) =~= b@);
    while i < a.len() && i < b.len()
        invariant
            i <= a@.len(),
            i <= b@.len(),
            lex_lt(a@, b@) == lex_lt(a@.skip(i as int), b@.skip(i as int)),
        decreases a@.len() - i,
    {
        if a[i] != b[i] {
            return a[i] < b[i];
        }
        assert(a@.skip(i as int).drop_first() =~= a@.skip(i + 1));
        assert(b@.skip(i as int).drop_first() =~= b@.skip(i + 1));
        i = i + 1;
    }
    i < b.len()
}

/// Inserts a word into a strictly sorted vector of distinct words, unless present.
pub fn insert_sorted_unique(words: &mut Vec<Vec<char>>, word: Vec<char>)
    requires
        strictly_sorted(word_views(old(words)@)),
    ensures
        strictly_sorted(word_views(final(words)@)),
        word_views(final(words)@).to_set() == word_views(old(words)@).to_set().insert(word@),
{
    let ghost before = word_views(words@);
    let mut j: usize = 0;
    while j < words.len() && lex_less(words[j].as_slice(), word.as_slice())
        invariant
            j <= words@.len(),
            before == word_views(words@),
            strictly_sorted(before),
            forall|k: int| 0 <= k < j ==> lex_lt(#[trigger] before[k], word@),
        decreases words@.len() - j,
    {
        j = j + 1;
    }
    if j < words.len() && chars_equal(words[j].as_slice(), word.as_slice()) {
        assert(before.to_set().contains(word@)) by {
            assert(before[j as int] == word@);
        }
        assert(before.to_set().insert(word@) =~= before.to_set());
        return;
    }
    proof {
        if j < before.len() {
            lemma_lex_total(before[j as int], word@);
        }
    }
    let ghost w = word@;
    words.insert(j, word);
    let ghost after = word_views(words@);
    assert(after =~= before.insert(j as int, w));
    assert forall|a: int, b: int| 0 <= a < b < after.len() implies lex_lt(
        #[trigger] after[a],
        #[trigger] after[b],
    ) by {
        if b < j {
        } else if b == j {
        } else if a < j {
            assert(after[b] == before[b - 1]);
            lemma_lex_transitive(before[a], w, before[j as int]);
            if b - 1 > j {
                assert(lex_lt(before[j as int], before[b - 1]));
                lemma_lex_transitive(before[a], before[j as int], before[b - 1]);
            }
        } else if a == j {
            if b - 1 > j {
                lemma_lex_transitive(w, before[j as int], before[b - 1]);
            }
        } else {
            assert(lex_lt(before[a - 1], before[b - 1]));
        }
    }
    assert(after.to_set() =~= before.to_set().insert(w)) by {
        assert forall|x: Seq<char>| after.to_set().contains(x) implies before.to_set().insert(
            w,
        ).contains(x) by {
            let k = choose|k: int| 0 <= k < after.len() && after[k] == x;
            if k < j {
                assert(before[k] == x);
            } else if k > j {
                assert(before[k - 1] == x);
            }
        }
        assert forall|x: Seq<char>| before.to_set().insert(w).contains(x) implies after.to_set().contains(x) by {
            if x == w {
                assert(after[j as int] == w);
            } else {
                let k = choose|k: int| 0 <= k < before.len() && before[k] == x;
                if k < j {
                    assert(after[k] == x);
                } else {
                    assert(after[k + 1] == x);
                }
            }
        }
    }
}

// ---------------------------------------------------------------------------
// Joining words.
// ---------------------------------------------------------------------------
/// The words separated by `sep`.
pub open spec fn join_spec(parts: Seq<Seq<char>>, sep: Seq<char>) -> Seq<char>
    decreases parts.len(),
{
    if parts.len() == 0 {
        seq![]
    } else if parts.len() == 1 {
        parts[0]
    } else {
        join_spec(parts.drop_last(), sep) + sep + parts.last()
    }
}

/// Joins words with a separator.
pub fn join_words(parts: &Vec<Vec<char>>, sep: &[char]) -> (joined: Vec<char>)
    ensures
        joined@ == join_spec(word_views(parts@), sep@),
{
    let ghost views = word_views(parts@);
    let mut joined: Vec<char> = Vec::new();
    let mut i: usize = 0;
    while i < parts.len()
        invariant
            i <= parts@.len(),
            views == word_views(parts@),
            joined@ == join_spec(views.take(i as int), sep@),
        decreases parts@.len() - i,
    {
        if i > 0 {
            append_chars(&mut joined, sep);
        }
        append_chars(&mut joined, parts[i].as_slice());
        assert(views.take(i + 1).drop_last() =~= views.take(i as int));
        i = i + 1;
    }
    assert(views.take(parts@.len() as int) =~= views);
    joined
}

// ---------------------------------------------------------------------------
// Collecting the distinct words of a text.
// ---------------------------------------------------------------------------
/// Adds a finished word to the sorted word set unless it is empty or excluded.
fn finish_word(words: &mut Vec<Vec<char>>, word: Vec<char>, excluded: &Vec<Vec<char>>)
    requires
        strictly_sorted(word_views(old(words)@)),
    ensures
        strictly_sorted(word_views(final(words)@)),
        word_views(final(words)@).to_set() == if word@.len() > 0 && !word_views(
            excluded@,
        ).contains(word@) {
            word_views(old(words)@).to_set().insert(word@)
        } else {
            word_views(old(words)@).to_set()
        },
{
    if word.len() == 0 {
        return;
    }
    let ghost ex = word_views(excluded@);
    let mut excluded_word = false;
    let mut k: usize = 0;
    while k < excluded.len()
        invariant
            k <= excluded@.len(),
            ex == word_views(excluded@),
            excluded_word == ex.take(k as int).contains(word@),
        decreases excluded@.len() - k,
    {
        assert(ex[k as int] == excluded@[k as int]@);
        if chars_equal(excluded[k].as_slice(), word.as_slice()) {
            excluded_word = true;
        }
        assert(ex.take(k + 1) =~= ex.take(k as int).push(ex[k as int]));
        proof {
            let t0 = ex.take(k as int);
            let t1 = ex.take(k + 1);
            assert(t1[k as int] == ex[k as int]);
            if t0.contains(word@) {
                let q = choose|q: int| 0 <= q < t0.len() && t0[q] == word@;
                assert(t1[q] == word@);
            }
            if t1.contains(word@) && !t0.contains(word@) {
                let q = choose|q: int| 0 <= q < t1.len() && t1[q] == word@;
                if q < k {
                    assert(t0[q] == word@);
                }
            }
        }
        k = k + 1;
    }
    assert(ex.take(excluded@.len() as int) =~= ex);
    if !excluded_word {
        insert_sorted_unique(words, word);
    }
}

/// Collects the distinct alphanumeric words of `s`, leaving out the excluded ones, in
/// strictly increasing order.
pub fn sorted_distinct_words(s: &[char], excluded: &Vec<Vec<char>>) -> (words: Vec<Vec<char>>)
    ensures
        strictly_sorted(word_views(words@)),
        word_views(words@).to_set() == Set::new(
            |w: Seq<char>| alnum_words(s@).contains(w) && !word_views(excluded@).contains(w),
        ),
{
    let ghost ex = word_views(excluded@);
    let mut words: Vec<Vec<char>> = Vec::new();
    let mut current: Vec<char> = Vec::new();
    let ghost mut done: Seq<Seq<char>> = seq![];
    let n = s.len();
    let mut i: usize = 0;
    assert(s@.skip(0) =~= s@);
    assert(word_views(words@).to_set() =~= Set::new(
        |w: Seq<char>| done.contains(w) && !ex.contains(w),
    ));
    while i < n
        invariant
            i <= n,
            n == s@.len(),
            ex == word_views(excluded@),
            done + alnum_runs(s@.skip(i as int), current@) == alnum_words(s@),
            strictly_sorted(word_views(words@)),
            word_views(words@).to_set() == Set::new(
                |w: Seq<char>| done.contains(w) && !ex.contains(w),
            ),
        decreases n - i,
    {
        let rest = Ghost(s@.skip(i as int));
        assert(rest@.drop_first() =~= s@.skip(i + 1));
        assert(rest@[0] == s@[i as int]);
        if is_alphanumeric(s[i]) {
            current.push(s[i]);
        } else {
            let ghost old_cur = current@;
            let ghost old_done = done;
            let ghost old_set = word_views(words@).to_set();
            let word = current;
            current = Vec::new();
            finish_word(&mut words, word, excluded);
            proof {
                done = old_done + finished_word(old_cur);
                lemma_done_set(old_done, old_cur, ex, old_set, word_views(words@).to_set());
                assert(done + alnum_runs(s@.skip(i + 1), current@) =~= old_done + (finished_word(
                    old_cur,
                ) + alnum_runs(s@.skip(i + 1), seq![])));
            }
        }
        i = i + 1;
    }
    let ghost old_cur = current@;
    let ghost old_done = done;
    let ghost old_set = word_views(words@).to_set();
    assert(s@.skip(n as int) =~= Seq::<char>::empty());
    finish_word(&mut words, current, excluded);
    proof {
        lemma_done_set(old_done, old_cur, ex, old_set, word_views(words@).to_set());
        assert(old_done + finished_word(old_cur) == alnum_words(s@));
        assert(word_views(words@).to_set() =~= Set::new(
            |w: Seq<char>| alnum_words(s@).contains(w) && !word_views(excluded@).contains(w),
        ));
    }
    words
}

proof fn lemma_done_set(
    old_done: Seq<Seq<char>>,
    cur: Seq<char>,
    ex: Seq<Seq<char>>,
    old_set: Set<Seq<char>>,
    new_set: Set<Seq<char>>,
)
    requires
        old_set == Set::new(|w: Seq<char>| old_done.contains(w) && !ex.contains(w)),
        new_set == if cur.len() > 0 && !ex.contains(cur) {
            old_set.insert(cur)
        } else {
            old_set
        },
    ensures
        new_set == Set::new(
            |w: Seq<char>| (old_done + finished_word(cur)).contains(w) && !ex.contains(w),
        ),
{
    let done = old_done + finished_word(cur);
    assert forall|w: Seq<char>| done.contains(w) && !ex.contains(w) implies #[trigger] new_set.contains(w) by {
        let q = choose|q: int| 0 <= q < done.len() && done[q] == w;
        if q < old_done.len() {
            assert(old_done[q] == w);
        } else {
            assert(w == cur);
        }
    }
    assert forall|w: Seq<char>| #[trigger] new_set.contains(w) implies done.contains(w) && !ex.contains(w) by {
        if old_set.contains(w) {
            let q = choose|q: int| 0 <= q < old_done.len() && old_done[q] == w;
            assert(done[q] == w);
        } else {
            assert(done[old_done.len() as int] == w);
        }
    }
    assert(new_set =~= Set::new(|w: Seq<char>| done.contains(w) && !ex.contains(w)));
}

} // verus!
