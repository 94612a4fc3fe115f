//! The tab selection controller: given an ordered list of pane names, a
//! persisted per-call-site selection, and the click of this tick (if any),
//! decide which pane body to render and persist the selection back.
//!
//! The store maps an opaque caller-supplied identity to the name of the
//! active pane; an absent entry means "use the default: the first pane".
//! Rendering the selector and the pane bodies belongs to the embedding
//! code; what is decided and persisted each tick is verified here.

use vstd::prelude::*;

use std::collections::HashMap;

verus! {

broadcast use vstd::std_specs::hash::group_hash_axioms;

/// The persisted tab selections, keyed by an opaque per-call-site identity.
/// The view is the mapping from identity to the active pane's name.
pub struct TabStore {
    inner: HashMap<u64, String>,
}

impl View for TabStore {
    type V = Map<u64, Seq<char>>;

    closed spec fn view(&self) -> Map<u64, Seq<char>> {
        self.inner@.map_values(|s: String| s@)
    }
}

impl TabStore {
    /// An empty store: no selection persisted anywhere.
    pub fn new() -> (r: TabStore)
        ensures
            r@ == Map::<u64, Seq<char>>::empty(),
    {
        let inner: HashMap<u64, String> = HashMap::new();
        proof {
            assert(inner@.map_values(|s: String| s@) =~= Map::<u64, Seq<char>>::empty());
        }
        TabStore { inner }
    }

    /// The persisted selection under an identity, or nothing.
    pub fn get(&self, identity: u64) -> (r: Option<&String>)
        ensures
            r matches Some(s) ==> self@.contains_key(identity) && self@[identity] == s@,
            r is None ==> !self@.contains_key(identity),
    {
        self.inner.get(&identity)
    }

    /// Persist a selection under an identity, overwriting what was there.
    pub fn set(&mut self, identity: u64, name: String)
        ensures
            final(self)@ == old(self)@.insert(identity, name@),
    {
        let ghost pre = self.inner@;
        self.inner.insert(identity, name);
        proof {
            assert(self.inner@.map_values(|s: String| s@) =~= pre.map_values(
                |s: String| s@,
            ).insert(identity, name@));
        }
    }
}

/// The selection a tick works with: the click of this tick if there was
/// one, else the persisted selection, else the first pane's name. Re-derived
/// every tick from the current pane list, so a changed pane list changes
/// the default immediately.
pub open spec fn active_selection(
    store: Map<u64, Seq<char>>,
    identity: u64,
    names: Seq<Seq<char>>,
    click: Option<usize>,
) -> Seq<char>
    recommends
        names.len() > 0,
        click matches Some(i) ==> i < names.len(),
{
    match click {
        Some(i) => names[i as int],
        None => if store.contains_key(identity) {
            store[identity]
        } else {
            names[0]
        },
    }
}

/// One render tick of the controller over the pane names alone. Decides the
/// active selection, persists it unconditionally, and reports which pane
/// body to render: the first pane whose name equals the selection, or none
/// if the selection no longer occurs in the list (a silent no-render, not a
/// failure). An empty pane list renders nothing and touches the store not
/// at all.
#[verifier::loop_isolation(false)]
pub fn tab_tick(
    store: &mut TabStore,
    identity: u64,
    names: &Vec<String>,
    click: Option<usize>,
) -> (render: Option<usize>)
    requires
        click matches Some(i) ==> i < names@.len(),
    ensures
        names@.len() == 0 ==> render is None && *final(store) == *old(store),
        names@.len() > 0 ==> ({
            let active = active_selection(old(store)@, identity, names.deep_view(), click);
            &&& final(store)@ == old(store)@.insert(identity, active)
            &&& (render matches Some(i) ==> i < names@.len() && names.deep_view()[i as int]
                == active && (forall|j: int|
                0 <= j < i ==> names.deep_view()[j] != active))
            &&& (render is None ==> (forall|j: int|
                0 <= j < names@.len() ==> names.deep_view()[j] != active))
        }),
{
    if names.len() == 0 {
        return None;
    }
    let active: String = match click {
        Some(i) => names[i].clone(),
        None => match store.get(identity) {
            Some(s) => s.clone(),
            None => names[0].clone(),
        },
    };
    store.set(identity, active.clone());
    let ghost goal = active_selection(old(store)@, identity, names.deep_view(), click);
    proof {
        assert(active@ == goal);
    }
    let mut j: usize = 0;
    while j < names.len()
        invariant
            j <= names@.len(),
            active@ == goal,
            forall|k: int| 0 <= k < j ==> names.deep_view()[k] != goal,
        decreases names@.len() - j,
    {
        if names[j] == active {
            return Some(j);
        }
        j += 1;
    }
    None
}

/// Persistence is idempotent: once a tick has persisted a selection, a
/// further tick with the same pane list and no click re-derives the same
/// selection, renders the same pane, and leaves the store exactly as it
/// was. In particular a persisted selection survives any number of ticks
/// without user interaction.
pub proof fn lemma_tab_tick_idempotent(
    store: Map<u64, Seq<char>>,
    identity: u64,
    names: Seq<Seq<char>>,
)
    requires
        names.len() > 0,
    ensures
        ({
            let once = store.insert(
                identity,
                active_selection(store, identity, names, None),
            );
            let again = once.insert(identity, active_selection(once, identity, names, None));
            &&& active_selection(once, identity, names, None) == active_selection(
                store,
                identity,
                names,
                None,
            )
            &&& again == once
        }),
{
    let active = active_selection(store, identity, names, None);
    let once = store.insert(identity, active);
    assert(once.contains_key(identity) && once[identity] == active);
    assert(once.insert(identity, active) =~= once);
}

} // verus!
