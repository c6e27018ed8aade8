//! The boundary to the `indexmap` crate: insertion-ordered maps keyed by
//! strings, their contents as sequences of entries, and what each call that
//! the library makes does to them.
use vstd::prelude::*;
use indexmap::IndexMap;
use crate::ast::TypedExpression;
use crate::generic::{CompiledGenericInfo, GenericInfo};

verus! {

#[verifier::external_type_specification]
#[verifier::external_body]
#[verifier::reject_recursive_types(K)]
#[verifier::reject_recursive_types(V)]
#[verifier::reject_recursive_types(S)]
pub struct ExIndexMap<K, V, S>(IndexMap<K, V, S>);

/// The position of the first entry with key `k`.
pub open spec fn key_index<V>(e: Seq<(Seq<char>, V)>, k: Seq<char>) -> Option<int>
    decreases e.len(),
{
    if e.len() == 0 {
        None
    } else {
        match key_index(e.drop_last(), k) {
            Some(i) => Some(i),
            None => if e.last().0 == k {
                Some(e.len() - 1)
            } else {
                None
            },
        }
    }
}

/// The value stored under `k`.
pub open spec fn entries_get<V>(e: Seq<(Seq<char>, V)>, k: Seq<char>) -> Option<V> {
    match key_index(e, k) {
        Some(i) => Some(e[i].1),
        None => None,
    }
}

/// Inserting `k -> v`: an existing key keeps its place and gets the new
/// value, a new key goes last.
pub open spec fn entries_insert<V>(e: Seq<(Seq<char>, V)>, k: Seq<char>, v: V) -> Seq<(Seq<char>, V)> {
    match key_index(e, k) {
        Some(i) => e.update(i, (k, v)),
        None => e.push((k, v)),
    }
}

/// Removing `k`, shifting the entries after it.
pub open spec fn entries_shift_remove<V>(e: Seq<(Seq<char>, V)>, k: Seq<char>) -> Seq<(Seq<char>, V)> {
    match key_index(e, k) {
        Some(i) => e.remove(i),
        None => e,
    }
}

/// The entries of the map of generic definitions, in insertion order.
pub uninterp spec fn generic_map_entries(m: IndexMap<String, GenericInfo>) -> Seq<(Seq<char>, GenericInfo)>;

/// The entries of the map of compiled generic instances, in insertion order.
pub uninterp spec fn compiled_map_entries(m: IndexMap<String, CompiledGenericInfo>) -> Seq<(Seq<char>, CompiledGenericInfo)>;

/// `IndexMap::new` for generic definitions: an empty map.
#[verifier::external_body]
pub(crate) fn generic_map_new() -> (m: IndexMap<String, GenericInfo>)
    ensures
        generic_map_entries(m) == Seq::<(Seq<char>, GenericInfo)>::empty(),
{
    IndexMap::new()
}

/// `IndexMap::insert` for generic definitions; returns the value that `k` had.
#[verifier::external_body]
pub(crate) fn generic_map_insert(m: &mut IndexMap<String, GenericInfo>, k: String, v: GenericInfo) -> (old_v: Option<GenericInfo>)
    ensures
        generic_map_entries(*final(m)) == entries_insert(generic_map_entries(*old(m)), k@, v),
        old_v == entries_get(generic_map_entries(*old(m)), k@),
{
    m.insert(k, v)
}

/// `IndexMap::get` for generic definitions.
#[verifier::external_body]
pub(crate) fn generic_map_get<'a>(m: &'a IndexMap<String, GenericInfo>, k: &str) -> (r: Option<&'a GenericInfo>)
    ensures
        match r {
            Some(v) => entries_get(generic_map_entries(*m), k@) == Some(*v),
            None => entries_get(generic_map_entries(*m), k@) is None,
        },
{
    m.get(k)
}

/// `IndexMap::get_mut` for generic definitions: a mutable reference to the
/// value of `k`; whatever is written through it becomes the value of `k`.
#[verifier::external_body]
pub(crate) fn generic_map_get_mut<'a>(m: &'a mut IndexMap<String, GenericInfo>, k: &str) -> (r: Option<&'a mut GenericInfo>)
    ensures
        match r {
            Some(v) => key_index(generic_map_entries(*old(m)), k@) matches Some(i) && *v == generic_map_entries(*old(m))[i].1
                && generic_map_entries(*final(m)) == generic_map_entries(*old(m)).update(i, (k@, *final(v))),
            None => key_index(generic_map_entries(*old(m)), k@) is None && generic_map_entries(*final(m)) == generic_map_entries(*old(m)),
        },
{
    m.get_mut(k)
}

/// `IndexMap::new` for compiled generic instances: an empty map.
#[verifier::external_body]
pub(crate) fn compiled_map_new() -> (m: IndexMap<String, CompiledGenericInfo>)
    ensures
        compiled_map_entries(m) == Seq::<(Seq<char>, CompiledGenericInfo)>::empty(),
{
    IndexMap::new()
}

/// `IndexMap::insert` for compiled generic instances; returns the value that `k` had.
#[verifier::external_body]
pub(crate) fn compiled_map_insert(
    m: &mut IndexMap<String, CompiledGenericInfo>,
    k: String,
    v: CompiledGenericInfo,
) -> (old_v: Option<CompiledGenericInfo>)
    ensures
        compiled_map_entries(*final(m)) == entries_insert(compiled_map_entries(*old(m)), k@, v),
        old_v == entries_get(compiled_map_entries(*old(m)), k@),
{
    m.insert(k, v)
}

/// `IndexMap::shift_remove` for compiled generic instances: removes `k` and
/// returns its value, keeping the order of the other entries.
#[verifier::external_body]
pub(crate) fn compiled_map_shift_remove(m: &mut IndexMap<String, CompiledGenericInfo>, k: &str) -> (r: Option<CompiledGenericInfo>)
    ensures
        compiled_map_entries(*final(m)) == entries_shift_remove(compiled_map_entries(*old(m)), k@),
        r == entries_get(compiled_map_entries(*old(m)), k@),
{
    m.shift_remove(k)
}


/// The entries of a map from field names to the expressions that give the
/// fields their values, in insertion order.
pub uninterp spec fn field_map_entries(m: IndexMap<String, TypedExpression>) -> Seq<(Seq<char>, TypedExpression)>;

/// `IndexMap::len` for field maps: the number of entries.
#[verifier::external_body]
pub(crate) fn field_map_len(m: &IndexMap<String, TypedExpression>) -> (n: usize)
    ensures
        n == field_map_entries(*m).len(),
{
    m.len()
}

/// `IndexMap::get_index` for field maps: the entry at position `i`, if there
/// is one.
#[verifier::external_body]
pub(crate) fn field_map_get_index(m: &IndexMap<String, TypedExpression>, i: usize) -> (r: Option<(&String, &TypedExpression)>)
    ensures
        i < field_map_entries(*m).len() ==> r is Some && r.unwrap().0@ == field_map_entries(*m)[i as int].0
            && *r.unwrap().1 == field_map_entries(*m)[i as int].1,
        i >= field_map_entries(*m).len() ==> r is None,
{
    m.get_index(i)
}

/// The key found by `key_index` is the key searched for.
pub proof fn lemma_key_index<V>(e: Seq<(Seq<char>, V)>, k: Seq<char>)
    ensures
        key_index(e, k) matches Some(i) ==> 0 <= i < e.len() && e[i].0 == k && forall|j: int|
            0 <= j < i ==> e[j].0 != k,
        key_index(e, k) is None ==> forall|j: int| 0 <= j < e.len() ==> e[j].0 != k,
    decreases e.len(),
{
    if e.len() > 0 {
        let d = e.drop_last();
        lemma_key_index(d, k);
        assert(forall|j: int| 0 <= j < d.len() ==> d[j] == #[trigger] e[j]);
    }
}

/// `key_index` finds the first entry with the key.
pub proof fn lemma_key_index_first<V>(e: Seq<(Seq<char>, V)>, k: Seq<char>, i: int)
    requires
        0 <= i < e.len(),
        e[i].0 == k,
        forall|j: int| 0 <= j < i ==> e[j].0 != k,
    ensures
        key_index(e, k) == Some(i),
    decreases e.len(),
{
    if i < e.len() - 1 {
        lemma_key_index_first(e.drop_last(), k, i);
    } else {
        lemma_key_index(e.drop_last(), k);
    }
}

/// No key occurs twice.
pub open spec fn keys_distinct<V>(e: Seq<(Seq<char>, V)>) -> bool {
    forall|i: int, j: int| 0 <= i < j < e.len() ==> #[trigger] e[i].0 != #[trigger] e[j].0
}

/// Inserting keeps keys distinct.
pub proof fn lemma_insert_distinct<V>(e: Seq<(Seq<char>, V)>, k: Seq<char>, v: V)
    requires
        keys_distinct(e),
    ensures
        keys_distinct(entries_insert(e, k, v)),
{
    lemma_key_index(e, k);
    let n = entries_insert(e, k, v);
    match key_index(e, k) {
        Some(i) => {
            assert forall|a: int, b: int| 0 <= a < b < n.len() implies #[trigger] n[a].0 != #[trigger] n[b].0 by {
                assert(n[a].0 == e[a].0);
                assert(n[b].0 == e[b].0);
            }
        },
        None => {
            assert forall|a: int, b: int| 0 <= a < b < n.len() implies #[trigger] n[a].0 != #[trigger] n[b].0 by {
                assert(n[a] == e[a]);
                if b < e.len() {
                    assert(n[b] == e[b]);
                }
            }
        },
    }
}

/// Replacing the value at an index keeps keys distinct when the key stays.
pub proof fn lemma_update_distinct<V>(e: Seq<(Seq<char>, V)>, i: int, k: Seq<char>, v: V)
    requires
        keys_distinct(e),
        0 <= i < e.len(),
        e[i].0 == k,
    ensures
        keys_distinct(e.update(i, (k, v))),
{
    let n = e.update(i, (k, v));
    assert forall|a: int, b: int| 0 <= a < b < n.len() implies #[trigger] n[a].0 != #[trigger] n[b].0 by {
        assert(n[a].0 == e[a].0);
        assert(n[b].0 == e[b].0);
    }
}

/// Removing a key from a map with distinct keys leaves no entry for it, and
/// keeps keys distinct.
pub proof fn law_remove_leaves_no_entry<V>(e: Seq<(Seq<char>, V)>, k: Seq<char>)
    requires
        keys_distinct(e),
    ensures
        keys_distinct(entries_shift_remove(e, k)),
        entries_get(entries_shift_remove(e, k), k) is None,
{
    lemma_key_index(e, k);
    let n = entries_shift_remove(e, k);
    match key_index(e, k) {
        Some(i) => {
            assert forall|a: int| 0 <= a < n.len() implies n[a] == e[if a < i { a } else { a + 1 }] by {}
            assert forall|a: int, b: int| 0 <= a < b < n.len() implies #[trigger] n[a].0 != #[trigger] n[b].0 by {
                let a2 = if a < i { a } else { a + 1 };
                let b2 = if b < i { b } else { b + 1 };
                assert(n[a] == e[a2]);
                assert(n[b] == e[b2]);
            }
            lemma_key_index(n, k);
            if key_index(n, k) is Some {
                let j = key_index(n, k)->Some_0;
                let j2 = if j < i { j } else { j + 1 };
                assert(n[j] == e[j2]);
                if j2 < i {
                    assert(e[j2].0 != e[i].0);
                } else {
                    assert(e[i].0 != e[j2].0);
                }
            }
        },
        None => {
            lemma_key_index(n, k);
        },
    }
}

/// After inserting `k -> v`, looking up `k` gives `v`, and every other key
/// gives what it gave before.
pub proof fn law_get_after_insert<V>(e: Seq<(Seq<char>, V)>, k: Seq<char>, v: V, other: Seq<char>)
    requires
        other != k,
    ensures
        entries_get(entries_insert(e, k, v), k) == Some(v),
        entries_get(entries_insert(e, k, v), other) == entries_get(e, other),
{
    lemma_key_index(e, k);
    lemma_key_index(e, other);
    let n = entries_insert(e, k, v);
    match key_index(e, k) {
        Some(i) => {
            lemma_key_index_first(n, k, i);
        },
        None => {
            lemma_key_index_first(n, k, e.len() as int);
        },
    }
    lemma_key_index(n, other);
    match key_index(e, other) {
        Some(i) => {
            lemma_key_index_first(n, other, i);
        },
        None => {},
    }
}

/// Removing a key that was just inserted as a new key restores the map.
pub proof fn law_remove_after_insert<V>(e: Seq<(Seq<char>, V)>, k: Seq<char>, v: V)
    requires
        entries_get(e, k) is None,
    ensures
        entries_get(entries_insert(e, k, v), k) == Some(v),
        entries_shift_remove(entries_insert(e, k, v), k) == e,
{
    lemma_key_index(e, k);
    lemma_key_index_first(e.push((k, v)), k, e.len() as int);
    assert(e.push((k, v)).remove(e.len() as int) =~= e);
}

} // verus!
