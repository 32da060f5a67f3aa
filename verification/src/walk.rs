//! Walks over the registry: what it means to call a function on every
//! registered editor that exists.

use vstd::prelude::*;
use crate::arena::WeakEditorHandle;
use crate::editor::Editor;

verus! {

/// One call of `f` on the editor that `handle` resolves to: the editor as it
/// was goes in, and what `f` returns is what the arena holds afterwards.
/// Where the handle does not resolve nothing is called and nothing changes.
pub open spec fn visited<F: Fn(Editor) -> Editor>(
    f: F,
    before: Map<WeakEditorHandle, Editor>,
    handle: WeakEditorHandle,
    after: Map<WeakEditorHandle, Editor>,
) -> bool {
    if before.contains_key(handle) {
        &&& f.ensures((before[handle],), after[handle])
        &&& after == before.insert(handle, after[handle])
    } else {
        after == before
    }
}

/// A walk over the registry: `ids` lists every registered identifier once,
/// `states` holds the arena before the first visit and after each one, and
/// step `i` visits the handle registered under `ids[i]`.
pub open spec fn walked<F: Fn(Editor) -> Editor>(
    f: F,
    registry: Map<usize, WeakEditorHandle>,
    ids: Seq<usize>,
    states: Seq<Map<WeakEditorHandle, Editor>>,
) -> bool {
    &&& ids.no_duplicates()
    &&& ids.to_set() == registry.dom()
    &&& states.len() == ids.len() + 1
    &&& forall|i: int|
        0 <= i < ids.len() ==> visited(f, states[i], registry[#[trigger] ids[i]], states[i + 1])
}

/// The identifiers of a registry's entries, taken in the order in which the
/// entries are listed, name every registered identifier once.
pub(crate) proof fn lemma_entries_list_every_id_once(
    registry: Map<usize, WeakEditorHandle>,
    entries: Seq<(&usize, &WeakEditorHandle)>,
    ids: Seq<usize>,
)
    requires
        entries.no_duplicates(),
        forall|i: int|
            0 <= i < entries.len() ==> registry.contains_key(*(#[trigger] entries[i]).0)
                && registry[*entries[i].0] == *entries[i].1,
        forall|id: usize| #[trigger]
            registry.contains_key(id) ==> entries.contains((&id, &registry[id])),
        ids.len() == entries.len(),
        forall|i: int| 0 <= i < ids.len() ==> ids[i] == *(#[trigger] entries[i]).0,
    ensures
        ids.no_duplicates(),
        ids.to_set() == registry.dom(),
{
    assert forall|i: int, j: int| 0 <= i < ids.len() && 0 <= j < ids.len() && i != j implies ids[i]
        != ids[j] by {
        if ids[i] == ids[j] {
            assert(entries[i] == entries[j]);
        }
    }
    assert forall|id: usize| ids.to_set().contains(id) <==> registry.dom().contains(id) by {
        if ids.to_set().contains(id) {
            let i: int = choose|i: int| 0 <= i < ids.len() && ids[i] == id;
            assert(registry.contains_key(*entries[i].0));
        }
        if registry.contains_key(id) {
            let i: int = choose|i: int|
                0 <= i < entries.len() && entries[i] == (&id, &registry[id]);
            assert(ids[i] == id);
        }
    }
}

/// Between two points of a walk the same editors exist, and an editor that
/// no step in between visits is as it was.
pub proof fn lemma_walk_frame<F: Fn(Editor) -> Editor>(
    f: F,
    registry: Map<usize, WeakEditorHandle>,
    ids: Seq<usize>,
    states: Seq<Map<WeakEditorHandle, Editor>>,
    from: int,
    to: int,
)
    requires
        walked(f, registry, ids, states),
        0 <= from <= to <= ids.len(),
    ensures
        states[to].dom() == states[from].dom(),
        forall|handle: WeakEditorHandle| #[trigger]
            states[from].contains_key(handle) && (forall|i: int|
                from <= i < to ==> registry[#[trigger] ids[i]] != handle) ==> states[to][handle]
                == states[from][handle],
    decreases to - from,
{
    if from < to {
        lemma_walk_frame(f, registry, ids, states, from, to - 1);
        assert(visited(f, states[to - 1], registry[ids[to - 1]], states[to]));
    }
}

/// An editor that exists and is registered under one identifier only is
/// visited once: what the walk leaves of it is what `f` returns for the
/// editor as it was before the walk.
pub proof fn lemma_walk_visits_once<F: Fn(Editor) -> Editor>(
    f: F,
    registry: Map<usize, WeakEditorHandle>,
    ids: Seq<usize>,
    states: Seq<Map<WeakEditorHandle, Editor>>,
    id: usize,
)
    requires
        walked(f, registry, ids, states),
        registry.contains_key(id),
        forall|other: usize| #[trigger]
            registry.contains_key(other) && other != id ==> registry[other] != registry[id],
        states.first().contains_key(registry[id]),
    ensures
        f.ensures((states.first()[registry[id]],), states.last()[registry[id]]),
{
    let handle = registry[id];
    assert(ids.to_set().contains(id));
    let at: int = choose|at: int| 0 <= at < ids.len() && ids[at] == id;
    assert forall|i: int| 0 <= i < ids.len() && i != at implies registry[#[trigger] ids[i]]
        != handle by {
        assert(ids.to_set().contains(ids[i]));
    }
    lemma_walk_frame(f, registry, ids, states, 0, at);
    assert(states[at].contains_key(handle) && states[at][handle] == states[0][handle]);
    assert(visited(f, states[at], registry[ids[at]], states[at + 1]));
    assert(states[at + 1].contains_key(handle));
    lemma_walk_frame(f, registry, ids, states, at + 1, ids.len() as int);
    assert(states.last()[handle] == states[at + 1][handle]);
}

/// After the first `done` visits of a walk with a function that returns
/// `options` whatever it is given, the same editors exist as before the walk,
/// each one visited holds `options`, and every other one is as it was.
pub(crate) proof fn lemma_walk_prefix<F: Fn(Editor) -> Editor>(
    f: F,
    registry: Map<usize, WeakEditorHandle>,
    ids: Seq<usize>,
    states: Seq<Map<WeakEditorHandle, Editor>>,
    options: Editor,
    done: int,
)
    requires
        walked(f, registry, ids, states),
        forall|given: Editor, returned: Editor|
            f.ensures((given,), returned) ==> returned == options,
        0 <= done <= ids.len(),
    ensures
        states[done].dom() == states[0].dom(),
        forall|handle: WeakEditorHandle| #[trigger]
            states[0].contains_key(handle) ==> states[done][handle] == if exists|i: int|
                0 <= i < done && registry[#[trigger] ids[i]] == handle {
                options
            } else {
                states[0][handle]
            },
    decreases done,
{
    if done > 0 {
        lemma_walk_prefix(f, registry, ids, states, options, done - 1);
        let last = registry[ids[done - 1]];
        assert(visited(f, states[done - 1], last, states[done]));
        assert forall|handle: WeakEditorHandle| #[trigger]
            states[0].contains_key(handle) implies states[done][handle] == if exists|i: int|
            0 <= i < done && registry[#[trigger] ids[i]] == handle {
            options
        } else {
            states[0][handle]
        } by {
            if handle == last {
                assert(registry[ids[done - 1]] == handle);
            } else if exists|i: int| 0 <= i < done && registry[#[trigger] ids[i]] == handle {
                let i: int = choose|i: int|
                    0 <= i < done && registry[#[trigger] ids[i]] == handle;
                assert(i < done - 1);
            }
        }
    }
}

} // verus!
