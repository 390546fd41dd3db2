use vstd::prelude::*;

use crate::digits::{decimal, decimal_spec, digit_char};
use crate::presets::{UserPreset, MAX_PRESET_NAME_CHARS};
use crate::text::{from_chars, str_equal, to_chars};

verus! {

/// The characters ` Copy`.
pub open spec fn copy_word() -> Seq<char> {
    seq![' ', 'C', 'o', 'p', 'y']
}

/// The suffix of the `n`-th copy of a preset: ` Copy`, then ` Copy 2`, ` Copy 3`, ...
pub open spec fn copy_suffix(n: nat) -> Seq<char> {
    if n <= 1 {
        copy_word()
    } else {
        copy_word().push(' ') + decimal_spec(n)
    }
}

/// How many characters of the name a copy keeps: as many as fit beside the suffix
/// within the longest preset name.
pub open spec fn kept_chars(source: Seq<char>, n: nat) -> int {
    let room = if copy_suffix(n).len() <= MAX_PRESET_NAME_CHARS {
        MAX_PRESET_NAME_CHARS - copy_suffix(n).len()
    } else {
        0
    };
    if room < source.len() {
        room
    } else {
        source.len() as int
    }
}

/// The `n`-th copy name of a preset named `source`.
pub open spec fn copy_name(source: Seq<char>, n: nat) -> Seq<char> {
    source.take(kept_chars(source, n)) + copy_suffix(n)
}

/// The names of the presets.
pub open spec fn preset_names<P>(presets: Seq<UserPreset<P>>) -> Seq<Seq<char>> {
    presets.map_values(|p: UserPreset<P>| p.name@)
}

/// The `n`-th copy name is the first that no preset uses.
pub open spec fn first_free_copy(source: Seq<char>, names: Seq<Seq<char>>, n: nat) -> bool {
    &&& n >= 1
    &&& !names.contains(copy_name(source, n))
    &&& forall|j: nat| 1 <= j < n ==> names.contains(#[trigger] copy_name(source, j))
}

/// A decimal digit.
pub open spec fn is_digit(c: char) -> bool {
    exists|d: int| 0 <= d < 10 && c == digit_char(d)
}

/// Decimal notation is a nonempty run of digits whose last digit is the lowest one,
/// and it has at least two digits from ten on.
pub proof fn lemma_decimal_shape(x: nat)
    ensures
        decimal_spec(x).len() >= 1,
        x >= 10 ==> decimal_spec(x).len() >= 2,
        decimal_spec(x).last() == digit_char((x % 10) as int),
        forall|i: int| 0 <= i < decimal_spec(x).len() ==> is_digit(#[trigger] decimal_spec(x)[i]),
    decreases x,
{
    if x < 10 {
        assert(is_digit(decimal_spec(x)[0]));
    } else {
        lemma_decimal_shape(x / 10);
        let d = decimal_spec(x);
        assert forall|i: int| 0 <= i < d.len() implies is_digit(#[trigger] d[i]) by {
            if i < d.len() - 1 {
                assert(d[i] == decimal_spec(x / 10)[i]);
            } else {
                assert(d[i] == digit_char((x % 10) as int));
                assert(0 <= x % 10 < 10);
            }
        }
    }
}

/// Different numbers have different decimal notations.
pub proof fn lemma_decimal_injective(a: nat, b: nat)
    requires
        decimal_spec(a) == decimal_spec(b),
    ensures
        a == b,
    decreases a,
{
    lemma_decimal_shape(a);
    lemma_decimal_shape(b);
    if a < 10 && b < 10 {
        assert(decimal_spec(a)[0] == decimal_spec(b)[0]);
    } else if a >= 10 && b >= 10 {
        let da = decimal_spec(a);
        let db = decimal_spec(b);
        assert(da.drop_last() =~= decimal_spec(a / 10));
        assert(db.drop_last() =~= decimal_spec(b / 10));
        lemma_decimal_injective(a / 10, b / 10);
        assert(digit_char((a % 10) as int) == digit_char((b % 10) as int));
        assert(a % 10 == b % 10);
    }
}

/// No digit is a space or the letter `y`.
proof fn lemma_digit_not_space_or_y(c: char)
    requires
        is_digit(c),
    ensures
        c != ' ',
        c != 'y',
{
    let d = choose|d: int| 0 <= d < 10 && c == digit_char(d);
}

/// The character `i` places from the end of a copy name is that of its suffix.
proof fn lemma_copy_name_end(source: Seq<char>, n: nat, i: int)
    requires
        0 <= i < copy_suffix(n).len(),
    ensures
        copy_name(source, n).len() == kept_chars(source, n) + copy_suffix(n).len(),
        copy_name(source, n)[copy_name(source, n).len() - 1 - i] == copy_suffix(n)[copy_suffix(n).len()
            - 1 - i],
{
}

/// Different copy numbers give different copy names.
pub proof fn lemma_copy_names_differ(source: Seq<char>, j: nat, k: nat)
    requires
        1 <= j < k,
    ensures
        copy_name(source, j) != copy_name(source, k),
{
    let cj = copy_name(source, j);
    let ck = copy_name(source, k);
    let dk = decimal_spec(k);
    lemma_decimal_shape(k);
    if cj == ck {
        let sk = copy_suffix(k);
        assert(sk =~= copy_word().push(' ') + dk);
        lemma_copy_name_end(source, k, 0);
        assert(sk[sk.len() - 1] == dk[dk.len() - 1]);
        lemma_digit_not_space_or_y(dk[dk.len() - 1]);
        if j == 1 {
            lemma_copy_name_end(source, j, 0);
            assert(copy_suffix(j)[copy_suffix(j).len() - 1] == 'y');
        } else {
            let dj = decimal_spec(j);
            let sj = copy_suffix(j);
            lemma_decimal_shape(j);
            assert(sj =~= copy_word().push(' ') + dj);
            if dj.len() == dk.len() {
                assert forall|i: int| 0 <= i < dj.len() implies dj[i] == dk[i] by {
                    let back = dj.len() - 1 - i;
                    lemma_copy_name_end(source, j, back);
                    lemma_copy_name_end(source, k, back);
                    assert(sj[sj.len() - 1 - back] == dj[i]);
                    assert(sk[sk.len() - 1 - back] == dk[i]);
                }
                assert(dj =~= dk);
                lemma_decimal_injective(j, k);
            } else if dj.len() < dk.len() {
                let back = dj.len() as int;
                lemma_copy_name_end(source, j, back);
                lemma_copy_name_end(source, k, back);
                assert(sj[sj.len() - 1 - back] == ' ');
                assert(sk[sk.len() - 1 - back] == dk[dk.len() - 1 - back]);
                lemma_digit_not_space_or_y(dk[dk.len() - 1 - back]);
            } else {
                let back = dk.len() as int;
                lemma_copy_name_end(source, j, back);
                lemma_copy_name_end(source, k, back);
                assert(sk[sk.len() - 1 - back] == ' ');
                assert(sj[sj.len() - 1 - back] == dj[dj.len() - 1 - back]);
                lemma_digit_not_space_or_y(dj[dj.len() - 1 - back]);
            }
        }
    }
}

/// Among the first `names.len() + 1` copy names one is free: they all differ, and
/// there are more of them than names.
pub proof fn lemma_some_copy_free(source: Seq<char>, names: Seq<Seq<char>>)
    ensures
        exists|n: nat| 1 <= n <= names.len() + 1 && !names.contains(#[trigger] copy_name(source, n)),
{
    broadcast use vstd::seq_lib::seq_to_set_is_finite;

    let count = names.len() + 1;
    let copies = Seq::new(count, |i: int| copy_name(source, (i + 1) as nat));
    if forall|n: nat| 1 <= n <= names.len() + 1 ==> names.contains(#[trigger] copy_name(source, n)) {
        assert forall|a: int, b: int| 0 <= a < copies.len() && 0 <= b < copies.len() && a != b implies copies[a]
            != copies[b] by {
            if a < b {
                lemma_copy_names_differ(source, (a + 1) as nat, (b + 1) as nat);
            } else {
                lemma_copy_names_differ(source, (b + 1) as nat, (a + 1) as nat);
            }
        }
        assert(copies.no_duplicates());
        copies.unique_seq_to_set();
        names.lemma_cardinality_of_set();
        assert forall|c: Seq<char>| copies.to_set().contains(c) implies names.to_set().contains(c) by {
            let i = choose|i: int| 0 <= i < copies.len() && copies[i] == c;
            assert(names.contains(copy_name(source, (i + 1) as nat)));
        }
        vstd::set_lib::lemma_len_subset(copies.to_set(), names.to_set());
        assert(false);
    }
}

/// The suffix of the `number`-th copy.
fn copy_suffix_chars(number: u64) -> (suffix: Vec<char>)
    ensures
        suffix@ == copy_suffix(number as nat),
{
    let mut suffix: Vec<char> = Vec::new();
    suffix.push(' ');
    suffix.push('C');
    suffix.push('o');
    suffix.push('p');
    suffix.push('y');
    if number > 1 {
        suffix.push(' ');
        let digits = decimal(number);
        let mut i: usize = 0;
        let ghost start = suffix@;
        while i < digits.len()
            invariant
                i <= digits@.len(),
                suffix@ == start + digits@.take(i as int),
            decreases digits@.len() - i,
        {
            suffix.push(digits[i]);
            assert(digits@.take(i + 1) =~= digits@.take(i as int).push(digits@[i as int]));
            i = i + 1;
        }
        assert(digits@.take(digits@.len() as int) =~= digits@);
    }
    assert(suffix@ =~= copy_suffix(number as nat));
    suffix
}

/// The `number`-th copy name of a preset named `source`.
fn copy_name_text(source: &Vec<char>, number: u64) -> (name: String)
    ensures
        name@ == copy_name(source@, number as nat),
{
    let suffix = copy_suffix_chars(number);
    let room: usize = if suffix.len() <= MAX_PRESET_NAME_CHARS {
        MAX_PRESET_NAME_CHARS - suffix.len()
    } else {
        0
    };
    let keep: usize = if room < source.len() {
        room
    } else {
        source.len()
    };
    let mut name: Vec<char> = Vec::new();
    let mut i: usize = 0;
    while i < keep
        invariant
            keep <= source@.len(),
            i <= keep,
            name@ == source@.take(i as int),
        decreases keep - i,
    {
        name.push(source[i]);
        assert(source@.take(i + 1) =~= source@.take(i as int).push(source@[i as int]));
        i = i + 1;
    }
    let mut j: usize = 0;
    while j < suffix.len()
        invariant
            j <= suffix@.len(),
            name@ == source@.take(keep as int) + suffix@.take(j as int),
        decreases suffix@.len() - j,
    {
        name.push(suffix[j]);
        assert(suffix@.take(j + 1) =~= suffix@.take(j as int).push(suffix@[j as int]));
        j = j + 1;
    }
    assert(suffix@.take(suffix@.len() as int) =~= suffix@);
    assert(keep == kept_chars(source@, number as nat));
    from_chars(name.as_slice())
}

/// Whether a preset already has the name.
fn name_taken<P>(existing: &[UserPreset<P>], name: &str) -> (taken: bool)
    ensures
        taken == preset_names(existing@).contains(name@),
{
    let ghost names = preset_names(existing@);
    let mut i: usize = 0;
    while i < existing.len()
        invariant
            i <= existing@.len(),
            names == preset_names(existing@),
            forall|j: int| 0 <= j < i ==> names[j] != name@,
        decreases existing@.len() - i,
    {
        if str_equal(existing[i].name.as_str(), name) {
            assert(names[i as int] == name@);
            return true;
        }
        i = i + 1;
    }
    false
}

/// The name for a copy of the preset named `source_name`: the first of ` Copy`,
/// ` Copy 2`, ` Copy 3`, ... after the name (cut to fit the longest preset name) that
/// no preset uses yet.
pub fn unique_copy_name<P>(source_name: &str, existing: &[UserPreset<P>]) -> (name: String)
    requires
        existing@.len() < u64::MAX,
    ensures
        exists|n: nat| first_free_copy(source_name@, preset_names(existing@), n) && name@ == copy_name(source_name@, n),
{
    let ghost names = preset_names(existing@);
    let source = to_chars(source_name);
    let last: u64 = existing.len() as u64 + 1;
    let mut number: u64 = 1;
    proof {
        lemma_some_copy_free(source_name@, names);
    }
    while number <= last
        invariant
            1 <= number <= last + 1,
            last == names.len() + 1,
            names == preset_names(existing@),
            source@ == source_name@,
            forall|j: nat| 1 <= j < number ==> names.contains(#[trigger] copy_name(source_name@, j)),
            exists|n: nat| 1 <= n <= names.len() + 1 && !names.contains(#[trigger] copy_name(source_name@, n)),
        decreases last + 1 - number,
    {
        let candidate = copy_name_text(&source, number);
        if !name_taken(existing, candidate.as_str()) {
            assert(first_free_copy(source_name@, names, number as nat));
            return candidate;
        }
        number = number + 1;
    }
    proof {
        let n = choose|n: nat| 1 <= n <= names.len() + 1 && !names.contains(#[trigger] copy_name(source_name@, n));
        assert(names.contains(copy_name(source_name@, n)));
    }
    String::new()
}

} // verus!
