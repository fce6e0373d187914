use vstd::prelude::*;

verus! {

/// The remote store as the merge protocol sees it: each object name mapped to
/// its content as text.
pub open spec fn ensure_object(
    store: Map<Seq<char>, Seq<char>>,
    name: Seq<char>,
) -> Map<Seq<char>, Seq<char>> {
    if store.contains_key(name) {
        store
    } else {
        store.insert(name, Seq::empty())
    }
}

/// Law: construction leaves an existing object exactly as it was and creates
/// a missing one empty, and either way every other object keeps its content.
pub proof fn lemma_construction_preserves_store(
    store: Map<Seq<char>, Seq<char>>,
    name: Seq<char>,
)
    ensures
        ensure_object(store, name).contains_key(name),
        store.contains_key(name) ==> ensure_object(store, name) == store,
        !store.contains_key(name) ==> ensure_object(store, name)[name] == Seq::<char>::empty(),
        forall|other: Seq<char>| other != name ==> #[trigger] ensure_object(
            store,
            name,
        ).contains_key(other) == store.contains_key(other),
        forall|other: Seq<char>| other != name && store.contains_key(other)
            ==> #[trigger] ensure_object(store, name)[other] == store[other],
{
}

} // verus!
