use vstd::prelude::*;

use crate::presets::{
    built_in_preset_id, document_check, entries_check, entry_check, has_preset, id_taken,
    is_built_in_id, name_check, presets_without, timestamp_spec, user_preset_id, PresetDocument,
    UserPreset, BUILT_IN_PRESET_COUNT,
};
use crate::text::{trim_end_spec, trim_spec, trim_start_spec, unicode_white_space};

verus! {

/// The outcomes of checking `n` presets' parameters when every check passed.
pub open spec fn all_passed(n: nat) -> Seq<Result<(), String>> {
    Seq::new(n, |i: int| Ok::<(), String>(()))
}

/// Each of the first `n` presets passes its own check (given passing parameters).
pub open spec fn entries_pass<P>(presets: Seq<UserPreset<P>>, n: int) -> bool {
    forall|k: int| 0 <= k < n ==> (#[trigger] entry_check(presets, k, Ok(()))) is Ok
}

/// A passing check of the first `n` presets means each passed and so did its parameters.
proof fn lemma_entries_check_passes<P>(presets: Seq<UserPreset<P>>, params: Seq<Result<(), String>>, n: int)
    requires
        0 <= n,
        entries_check(presets, params, n) is Ok,
    ensures
        entries_pass(presets, n),
        forall|k: int| 0 <= k < n ==> (#[trigger] params[k]) is Ok,
    decreases n,
{
    if n > 0 {
        lemma_entries_check_passes(presets, params, n - 1);
        assert(entry_check(presets, n - 1, params[n - 1]) is Ok);
        assert(params[n - 1] is Ok);
        assert(entry_check(presets, n - 1, Ok(())) == entry_check(presets, n - 1, params[n - 1]));
    }
}

/// Presets that each pass their own check pass the check in order.
proof fn lemma_entries_pass_checks<P>(presets: Seq<UserPreset<P>>, total: nat, n: int)
    requires
        0 <= n <= total,
        entries_pass(presets, n),
    ensures
        entries_check(presets, all_passed(total), n) is Ok,
    decreases n,
{
    if n > 0 {
        lemma_entries_pass_checks(presets, total, n - 1);
        assert(all_passed(total)[n - 1] == Ok::<(), String>(()));
        assert(entry_check(presets, n - 1, Ok(())) is Ok);
    }
}

/// Appending a preset leaves the checks of the earlier ones as they were.
proof fn lemma_entry_check_push<P>(q: Seq<UserPreset<P>>, x: UserPreset<P>, k: int)
    requires
        0 <= k < q.len(),
    ensures
        entry_check(q.push(x), k, Ok(())) == entry_check(q, k, Ok(())),
{
    let s = q.push(x);
    assert(s[k] == q[k]);
    assert forall|id: Seq<char>| id_taken(s, k, id) == id_taken(q, k, id) by {
        if exists|j: int| 0 <= j < k && (#[trigger] s[j]).id@ == id {
            let j = choose|j: int| 0 <= j < k && (#[trigger] s[j]).id@ == id;
            assert(q[j] == s[j]);
        }
        if exists|j: int| 0 <= j < k && (#[trigger] q[j]).id@ == id {
            let j = choose|j: int| 0 <= j < k && (#[trigger] q[j]).id@ == id;
            assert(s[j] == q[j]);
        }
    }
}

/// The presets left after removing an identifier are the others, and only they.
proof fn lemma_presets_without_contains<P>(presets: Seq<UserPreset<P>>, id: Seq<char>, x: UserPreset<P>)
    ensures
        presets_without(presets, id).contains(x) <==> presets.contains(x) && x.id@ != id,
    decreases presets.len(),
{
    if presets.len() > 0 {
        let r = presets.drop_last();
        lemma_presets_without_contains(r, id, x);
        assert(presets =~= r.push(presets.last()));
        if r.contains(x) {
            let j = choose|j: int| 0 <= j < r.len() && r[j] == x;
            assert(presets[j] == x);
        }
        if presets.contains(x) {
            let j = choose|j: int| 0 <= j < presets.len() && presets[j] == x;
            if j < r.len() {
                assert(r[j] == x);
            }
        }
        let w = presets_without(r, id);
        if presets.last().id@ != id {
            if w.push(presets.last()).contains(x) {
                let j = choose|j: int| 0 <= j < w.len() + 1 && w.push(presets.last())[j] == x;
                if j < w.len() {
                    assert(w[j] == x);
                }
            }
            if w.contains(x) {
                let j = choose|j: int| 0 <= j < w.len() && w[j] == x;
                assert(w.push(presets.last())[j] == x);
            }
            if x == presets.last() {
                assert(w.push(presets.last())[w.len() as int] == x);
            }
        }
    }
}

/// Removing presets keeps every remaining one passing its own check.
proof fn lemma_removal_keeps_entries_passing<P>(presets: Seq<UserPreset<P>>, id: Seq<char>)
    requires
        entries_pass(presets, presets.len() as int),
    ensures
        entries_pass(presets_without(presets, id), presets_without(presets, id).len() as int),
    decreases presets.len(),
{
    if presets.len() > 0 {
        let r = presets.drop_last();
        let x = presets.last();
        assert(presets =~= r.push(x));
        assert forall|k: int| 0 <= k < r.len() implies (#[trigger] entry_check(r, k, Ok(()))) is Ok by {
            lemma_entry_check_push(r, x, k);
            assert(entry_check(presets, k, Ok(())) is Ok);
        }
        lemma_removal_keeps_entries_passing(r, id);
        let w = presets_without(r, id);
        if x.id@ != id {
            let s = w.push(x);
            let last = r.len() as int;
            assert(entry_check(presets, last, Ok(())) is Ok);
            assert(presets[last] == x);
            assert(!id_taken(presets, last, x.id@));
            assert forall|k: int| 0 <= k < s.len() implies (#[trigger] entry_check(s, k, Ok(()))) is Ok by {
                if k < w.len() {
                    lemma_entry_check_push(w, x, k);
                } else {
                    assert(s[k] == x);
                    assert forall|j: int| 0 <= j < k implies (#[trigger] s[j]).id@ != x.id@ by {
                        assert(s[j] == w[j]);
                        assert(w.contains(w[j]));
                        lemma_presets_without_contains(r, id, w[j]);
                        let i = choose|i: int| 0 <= i < r.len() && r[i] == w[j];
                        assert(presets[i] == r[i]);
                    }
                }
            }
        }
    }
}

/// Trimming an already trimmed text changes nothing.
pub proof fn lemma_trim_is_idempotent(s: Seq<char>)
    ensures
        trim_spec(trim_spec(s)) == trim_spec(s),
{
    let u = trim_start_spec(s);
    lemma_trim_start_shape(s);
    lemma_trim_end_prefix(u);
    let t = trim_end_spec(u);
    if t.len() > 0 {
        assert(t[0] == u[0]);
        assert(trim_start_spec(t) == t);
    }
    lemma_trim_end_prefix(t);
    lemma_trim_end_fixed(t);
}

proof fn lemma_trim_start_shape(s: Seq<char>)
    ensures
        trim_start_spec(s).len() > 0 ==> !unicode_white_space(trim_start_spec(s)[0]),
    decreases s.len(),
{
    if s.len() > 0 && unicode_white_space(s[0]) {
        lemma_trim_start_shape(s.drop_first());
    }
}

proof fn lemma_trim_end_prefix(s: Seq<char>)
    ensures
        trim_end_spec(s).len() <= s.len(),
        trim_end_spec(s) == s.take(trim_end_spec(s).len() as int),
        trim_end_spec(s).len() > 0 ==> !unicode_white_space(trim_end_spec(s).last()),
    decreases s.len(),
{
    if s.len() > 0 && unicode_white_space(s.last()) {
        lemma_trim_end_prefix(s.drop_last());
        let t = trim_end_spec(s.drop_last());
        assert(s.drop_last().take(t.len() as int) =~= s.take(t.len() as int));
    } else {
        assert(s.take(s.len() as int) =~= s);
    }
}

proof fn lemma_trim_end_fixed(t: Seq<char>)
    requires
        t.len() > 0 ==> !unicode_white_space(t.last()),
    ensures
        trim_end_spec(t) == t,
{
}

/// A trimmed, accepted preset name is accepted again unchanged.
pub proof fn lemma_accepted_name_is_stable(name: Seq<char>)
    requires
        name_check(name) is Ok,
    ensures
        name_check(name_check(name)->Ok_0) == name_check(name),
{
    lemma_trim_is_idempotent(name);
}

/// Selecting a preset that exists keeps a valid preset document valid.
pub proof fn lemma_selecting_keeps_document_valid<P>(
    before: PresetDocument<P>,
    after: PresetDocument<P>,
    params: Seq<Result<(), String>>,
    id: Seq<char>,
)
    requires
        document_check(before, params) is Ok,
        after.schema_version == before.schema_version,
        after.presets@ == before.presets@,
        after.selected_preset_id matches Some(s) && s@ == id,
        is_built_in_id(id) || has_preset(before.presets@, id),
    ensures
        document_check(after, params) is Ok,
{
    if has_preset(before.presets@, id) {
        let k = choose|k: int| 0 <= k < before.presets@.len() && (#[trigger] before.presets@[k]).id@ == id;
        assert(after.presets@[k].id@ == id);
    }
}

/// Saving a preset under a fresh identifier, with an accepted name and the current
/// time, keeps a valid preset document valid.
pub proof fn lemma_adding_keeps_document_valid<P>(
    before: PresetDocument<P>,
    after: PresetDocument<P>,
    params: Seq<Result<(), String>>,
    name: Seq<char>,
    now: Seq<char>,
)
    requires
        document_check(before, params) is Ok,
        params.len() == before.presets@.len(),
        after.schema_version == before.schema_version,
        after.presets@.len() == before.presets@.len() + 1,
        after.presets@.drop_last() == before.presets@,
        user_preset_id(after.presets@.last().id@),
        !id_taken(before.presets@, before.presets@.len() as int, after.presets@.last().id@),
        name_check(name) is Ok,
        after.presets@.last().name@ == name_check(name)->Ok_0,
        timestamp_spec(now) is Some,
        after.presets@.last().created_at@ == now,
        after.presets@.last().updated_at@ == now,
        after.selected_preset_id matches Some(s) && s@ == after.presets@.last().id@,
    ensures
        document_check(after, all_passed(after.presets@.len())) is Ok,
{
    let q = before.presets@;
    let x = after.presets@.last();
    let s = after.presets@;
    assert(s =~= q.push(x));
    lemma_entries_check_passes(q, params, q.len() as int);
    lemma_accepted_name_is_stable(name);
    assert forall|k: int| 0 <= k < s.len() implies (#[trigger] entry_check(s, k, Ok(()))) is Ok by {
        if k < q.len() {
            lemma_entry_check_push(q, x, k);
        } else {
            assert(s[k] == x);
            assert forall|j: int| 0 <= j < k implies (#[trigger] s[j]).id@ != x.id@ by {
                assert(s[j] == q[j]);
            }
        }
    }
    lemma_entries_pass_checks(s, s.len(), s.len() as int);
    assert(s[s.len() - 1].id@ == x.id@);
}

/// Deleting a user preset keeps a valid preset document valid; a deleted selection
/// falls back to the natural preset, which always exists.
pub proof fn lemma_deleting_keeps_document_valid<P>(
    before: PresetDocument<P>,
    after: PresetDocument<P>,
    params: Seq<Result<(), String>>,
    id: Seq<char>,
)
    requires
        document_check(before, params) is Ok,
        after.schema_version == before.schema_version,
        after.presets@ == presets_without(before.presets@, id),
        match before.selected_preset_id {
            Some(s) => if s@ == id {
                after.selected_preset_id matches Some(n) && n@ == "builtin-natural"@
            } else {
                after.selected_preset_id == before.selected_preset_id
            },
            None => after.selected_preset_id is None,
        },
    ensures
        document_check(after, all_passed(after.presets@.len())) is Ok,
{
    let q = before.presets@;
    let w = after.presets@;
    lemma_entries_check_passes(q, params, q.len() as int);
    lemma_removal_keeps_entries_passing(q, id);
    lemma_entries_pass_checks(w, w.len(), w.len() as int);
    match after.selected_preset_id {
        Some(s) => {
            if before.selected_preset_id matches Some(b) && b@ == id {
                assert(built_in_preset_id(0) == s@);
                assert(0 < BUILT_IN_PRESET_COUNT);
            } else {
                assert(id_taken(q, q.len() as int, s@));
                if !is_built_in_id(s@) {
                    let k = choose|k: int| 0 <= k < q.len() && (#[trigger] q[k]).id@ == s@;
                    assert(q.contains(q[k]));
                    lemma_presets_without_contains(q, id, q[k]);
                    let j = choose|j: int| 0 <= j < w.len() && w[j] == q[k];
                    assert(w[j].id@ == s@);
                }
            }
        },
        None => {},
    }
}


/// Renaming a user preset at the current time keeps a valid preset document valid,
/// provided the clock has not gone back before the preset's creation.
pub proof fn lemma_renaming_keeps_document_valid<P>(
    before: PresetDocument<P>,
    after: PresetDocument<P>,
    params: Seq<Result<(), String>>,
    k: int,
    name: Seq<char>,
    now: Seq<char>,
)
    requires
        document_check(before, params) is Ok,
        0 <= k < before.presets@.len(),
        after.schema_version == before.schema_version,
        after.selected_preset_id == before.selected_preset_id,
        after.presets@.len() == before.presets@.len(),
        forall|m: int| 0 <= m < before.presets@.len() && m != k ==> after.presets@[m] == before.presets@[m],
        after.presets@[k].id == before.presets@[k].id,
        after.presets@[k].created_at == before.presets@[k].created_at,
        name_check(name) is Ok,
        after.presets@[k].name@ == name_check(name)->Ok_0,
        after.presets@[k].updated_at@ == now,
        timestamp_spec(now) is Some,
        timestamp_spec(before.presets@[k].created_at@) matches Some(c) && c <= timestamp_spec(now)->0,
    ensures
        document_check(after, all_passed(after.presets@.len())) is Ok,
{
    let q = before.presets@;
    let s = after.presets@;
    lemma_entries_check_passes(q, params, q.len() as int);
    lemma_accepted_name_is_stable(name);
    assert forall|m: int| 0 <= m < s.len() implies (#[trigger] s[m]).id@ == q[m].id@ by {
        if m != k {
            assert(s[m] == q[m]);
        }
    }
    assert forall|m: int, id: Seq<char>| 0 <= m <= s.len() implies id_taken(s, m, id) == id_taken(q, m, id) by {
        if exists|j: int| 0 <= j < m && (#[trigger] s[j]).id@ == id {
            let j = choose|j: int| 0 <= j < m && (#[trigger] s[j]).id@ == id;
            assert(q[j].id@ == id);
        }
        if exists|j: int| 0 <= j < m && (#[trigger] q[j]).id@ == id {
            let j = choose|j: int| 0 <= j < m && (#[trigger] q[j]).id@ == id;
            assert(s[j].id@ == id);
        }
    }
    assert forall|m: int| 0 <= m < s.len() implies (#[trigger] entry_check(s, m, Ok(()))) is Ok by {
        assert(entry_check(q, m, Ok(())) is Ok);
        assert(id_taken(s, m, s[m].id@) == id_taken(q, m, q[m].id@));
    }
    lemma_entries_pass_checks(s, s.len(), s.len() as int);
    match after.selected_preset_id {
        Some(sel) => {
            assert(id_taken(q, q.len() as int, sel@));
            assert(id_taken(s, s.len() as int, sel@));
        },
        None => {},
    }
}

} // verus!
