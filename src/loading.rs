//! The per-state loading registry and the phase driver.
//!
//! Game states and collection types are identified by `u64` values chosen by
//! the host. Load handles are identified by `u64` values too; the host keeps
//! the engine's real handles and polls their aggregate load state.
use std::collections::HashMap;
use vstd::prelude::*;

verus! {

broadcast use vstd::std_specs::hash::group_hash_axioms;

/// Where a game state stands in the load pipeline.
#[derive(Clone, Copy, Debug, PartialEq, Eq, Structural)]
pub enum LoadingPhase {
    PreparingAssetKeys,
    StartLoading,
    Loading,
}

/// Aggregate load state of a group of handles, as the asset server reports it.
#[derive(Clone, Copy, Debug, PartialEq, Eq, Structural)]
pub enum LoadState {
    NotLoaded,
    Loading,
    Loaded,
    Failed,
}

/// Phase, pending-collection count and successor of one game state.
#[derive(Clone, Copy, Debug)]
pub struct StateConfig {
    pub phase: LoadingPhase,
    pub count: u64,
    pub next: Option<u64>,
}

/// What the per-collection system has to do on this tick.
#[derive(Clone, Copy, Debug, PartialEq, Eq, Structural)]
pub enum CollectionAction {
    /// Nothing to do in the current phase.
    Idle,
    /// Issue the collection's loads and hand the handles to `start_loading_collections`.
    StartLoading,
    /// Poll the collection's handles and hand the result to `check_loading_state`.
    CheckLoading,
}

/// Result of checking an in-flight collection.
#[derive(Clone, Copy, Debug, PartialEq, Eq, Structural)]
pub enum CheckOutcome {
    /// No handles in flight, or not all of them are loaded yet: nothing changed.
    Waiting,
    /// All handles are loaded: create the collection, insert it as a resource,
    /// and, if `next` is given, switch the game state to it.
    Finished { next: Option<u64> },
}

/// Result of the phase system's step.
#[derive(Clone, Debug)]
pub enum PhaseOutcome {
    Idle,
    /// The dynamic asset collections of the state are loaded: apply each of
    /// these handles' contents to the asset keys.
    ApplyKeyCollections(Vec<u64>),
}

/// Mathematical model of the registry.
pub ghost struct RegistryView {
    pub states: Map<u64, StateConfig>,
    pub key_collections: Map<u64, Vec<u64>>,
    pub in_flight: Map<u64, Vec<u64>>,
}

/// Per-state configuration, the dynamic asset collections waiting for each
/// state, and the handle groups in flight for each collection type.
pub struct AssetLoaderConfiguration {
    states: HashMap<u64, StateConfig>,
    key_collections: HashMap<u64, Vec<u64>>,
    in_flight: HashMap<u64, Vec<u64>>,
}

impl View for AssetLoaderConfiguration {
    type V = RegistryView;

    closed spec fn view(&self) -> RegistryView {
        RegistryView {
            states: self.states@,
            key_collections: self.key_collections@,
            in_flight: self.in_flight@,
        }
    }
}

/// The configuration a state gets when it is first registered.
pub open spec fn fresh_config(next: Option<u64>) -> StateConfig {
    StateConfig { phase: LoadingPhase::StartLoading, count: 0, next }
}

/// Registering a state creates its entry lazily; registering it again only
/// replaces its successor, when one is given.
pub open spec fn register_spec(v: RegistryView, state: u64, next: Option<u64>) -> RegistryView {
    if !v.states.contains_key(state) {
        RegistryView { states: v.states.insert(state, fresh_config(next)), ..v }
    } else if next is Some {
        RegistryView {
            states: v.states.insert(state, StateConfig { next, ..v.states[state] }),
            ..v
        }
    } else {
        v
    }
}

/// Which step the per-collection system takes in the current state's phase.
pub open spec fn action_of(phase: LoadingPhase) -> CollectionAction {
    match phase {
        LoadingPhase::StartLoading => CollectionAction::StartLoading,
        LoadingPhase::Loading => CollectionAction::CheckLoading,
        LoadingPhase::PreparingAssetKeys => CollectionAction::Idle,
    }
}

/// Starting a collection counts it as pending and stores its handle group.
pub open spec fn start_spec(
    v: RegistryView,
    current: u64,
    collection: u64,
    handles: Vec<u64>,
) -> RegistryView {
    RegistryView {
        states: v.states.insert(
            current,
            StateConfig { count: (v.states[current].count + 1) as u64, ..v.states[current] },
        ),
        in_flight: v.in_flight.insert(collection, handles),
        ..v
    }
}

/// A collection finishes when its handle group is in flight and fully loaded.
pub open spec fn finishes(v: RegistryView, collection: u64, status: LoadState) -> bool {
    v.in_flight.contains_key(collection) && status == LoadState::Loaded
}

/// Whether finishing a collection in `current` decrements a pending count.
pub open spec fn decrements(v: RegistryView, current: u64) -> bool {
    v.states.contains_key(current) && v.states[current].count > 0
}

/// The registry and the outcome after checking `collection` in `current`:
/// a finished collection leaves the in-flight set and decrements the
/// current state's pending count, if it is above zero; the successor is
/// reported when that count reaches zero.
pub open spec fn check_spec(
    v: RegistryView,
    current: u64,
    collection: u64,
    status: LoadState,
) -> (RegistryView, CheckOutcome) {
    if !finishes(v, collection, status) {
        (v, CheckOutcome::Waiting)
    } else if decrements(v, current) {
        let c = v.states[current];
        let count = (c.count - 1) as u64;
        (
            RegistryView {
                states: v.states.insert(current, StateConfig { count, ..c }),
                in_flight: v.in_flight.remove(collection),
                ..v
            },
            CheckOutcome::Finished { next: if count == 0 { c.next } else { None } },
        )
    } else {
        (
            RegistryView { in_flight: v.in_flight.remove(collection), ..v },
            CheckOutcome::Finished { next: None },
        )
    }
}

/// The registry after the phase system's step in `current`.
pub open spec fn phase_spec(v: RegistryView, current: u64, keys_status: LoadState) -> RegistryView {
    let c = v.states[current];
    match c.phase {
        LoadingPhase::PreparingAssetKeys => if keys_status == LoadState::Loaded {
            RegistryView {
                states: v.states.insert(
                    current,
                    StateConfig { phase: LoadingPhase::StartLoading, ..c },
                ),
                key_collections: v.key_collections.remove(current),
                ..v
            }
        } else {
            v
        },
        LoadingPhase::StartLoading => RegistryView {
            states: v.states.insert(current, StateConfig { phase: LoadingPhase::Loading, ..c }),
            ..v
        },
        LoadingPhase::Loading => v,
    }
}

/// Once a registered state is in `StartLoading`, one phase step moves it to
/// `Loading`; starting a collection before that keeps it in `StartLoading`.
pub proof fn lemma_start_phase_leads_to_loading(
    v: RegistryView,
    s: u64,
    collection: u64,
    handles: Vec<u64>,
    keys_status: LoadState,
)
    requires
        v.states.contains_key(s),
        v.states[s].phase == LoadingPhase::StartLoading,
    ensures
        action_of(v.states[s].phase) == CollectionAction::StartLoading,
        phase_spec(v, s, keys_status).states[s].phase == LoadingPhase::Loading,
        start_spec(v, s, collection, handles).states[s].phase == LoadingPhase::StartLoading,
{
}

/// A state in `Loading` stays in `Loading`: the phase step leaves the registry
/// alone, and neither starting nor checking a collection changes the phase.
/// The check reports a successor only when the pending count was one, that is
/// when it reaches zero.
pub proof fn lemma_loading_phase_is_stable(
    v: RegistryView,
    s: u64,
    collection: u64,
    handles: Vec<u64>,
    status: LoadState,
    keys_status: LoadState,
)
    requires
        v.states.contains_key(s),
        v.states[s].phase == LoadingPhase::Loading,
    ensures
        action_of(v.states[s].phase) == CollectionAction::CheckLoading,
        phase_spec(v, s, keys_status) == v,
        start_spec(v, s, collection, handles).states[s].phase == LoadingPhase::Loading,
        check_spec(v, s, collection, status).0.states[s].phase == LoadingPhase::Loading,
        check_spec(v, s, collection, status).1 matches CheckOutcome::Finished { next: Some(n) }
            ==> v.states[s].count == 1 && check_spec(v, s, collection, status).0.states[s].count
            == 0,
{
}

/// Checking a collection type with no handle group in flight changes nothing
/// and reports `Waiting`.
pub proof fn lemma_check_without_handles_is_noop(
    v: RegistryView,
    current: u64,
    collection: u64,
    status: LoadState,
)
    requires
        !v.in_flight.contains_key(collection),
    ensures
        check_spec(v, current, collection, status) == (v, CheckOutcome::Waiting),
{
}

/// Pending counts never go below zero; a check decrements the current
/// state's count by exactly one, and only when the collection's handles are
/// in flight and fully loaded; starting a collection increments it by exactly
/// one. No other state's entry changes, and neither the phase step nor
/// registering the state again changes the count.
pub proof fn lemma_pending_count(
    v: RegistryView,
    current: u64,
    collection: u64,
    handles: Vec<u64>,
    status: LoadState,
    other: u64,
)
    requires
        v.states.contains_key(current),
        other != current,
    ensures
        check_spec(v, current, collection, status).0.states[current].count >= 0,
        check_spec(v, current, collection, status).0.states[current].count
            == v.states[current].count || (finishes(v, collection, status)
            && v.states[current].count > 0 && check_spec(v, current, collection, status).0.states[current].count
            == v.states[current].count - 1),
        check_spec(v, current, collection, status).0.states[current].count
            != v.states[current].count ==> status == LoadState::Loaded,
        check_spec(v, current, collection, status).0.states.remove(current) == v.states.remove(
            current,
        ),
        v.states[current].count < u64::MAX ==> start_spec(
            v,
            current,
            collection,
            handles,
        ).states[current].count == v.states[current].count + 1,
        start_spec(v, current, collection, handles).states.remove(current) == v.states.remove(
            current,
        ),
        phase_spec(v, current, status).states[current].count == v.states[current].count,
        register_spec(v, current, v.states[current].next).states[current].count
            == v.states[current].count,
        register_spec(v, current, Some(other)).states[current].count == v.states[current].count,
{
    assert(check_spec(v, current, collection, status).0.states.remove(current) =~= v.states.remove(
        current,
    ));
    assert(start_spec(v, current, collection, handles).states.remove(current) =~= v.states.remove(
        current,
    ));
}

/// A check asks for a switch to `n` exactly when it brings the current
/// state's pending count from one to zero and `n` is the registered
/// successor; every other check leaves the game state as it is.
pub proof fn lemma_state_advance(
    v: RegistryView,
    current: u64,
    collection: u64,
    status: LoadState,
    n: u64,
)
    ensures
        check_spec(v, current, collection, status).1 == (CheckOutcome::Finished { next: Some(n) })
            <==> (finishes(v, collection, status) && decrements(v, current)
            && v.states[current].count == 1 && v.states[current].next == Some(n)),
        !(finishes(v, collection, status) && decrements(v, current)
            && v.states[current].count == 1 && v.states[current].next is Some) ==> !(check_spec(
            v,
            current,
            collection,
            status,
        ).1 matches CheckOutcome::Finished { next: Some(_) }),
{
}

impl AssetLoaderConfiguration {
    pub fn new() -> (r: Self)
        ensures
            r@.states.is_empty(),
            r@.key_collections.is_empty(),
            r@.in_flight.is_empty(),
    {
        AssetLoaderConfiguration {
            states: HashMap::new(),
            key_collections: HashMap::new(),
            in_flight: HashMap::new(),
        }
    }

    /// Binds a collection type's game state to an optional successor.
    pub fn register_state(&mut self, state: u64, next: Option<u64>)
        ensures
            final(self)@ == register_spec(old(self)@, state, next),
    {
        match self.states.get(&state) {
            None => {
                self.states.insert(
                    state,
                    StateConfig { phase: LoadingPhase::StartLoading, count: 0, next },
                );
            },
            Some(c) => {
                if next.is_some() {
                    let c = StateConfig { next, ..*c };
                    self.states.insert(state, c);
                }
            },
        }
    }

    /// Registers a dynamic asset collection file for `state`, which then has
    /// to prepare its asset keys before it starts loading. Returns `false`,
    /// changing nothing, when `state` is not registered.
    pub fn add_key_collection(&mut self, state: u64, handle: u64) -> (r: bool)
        ensures
            r == old(self)@.states.contains_key(state),
            !r ==> final(self)@ == old(self)@,
            r ==> final(self)@.in_flight == old(self)@.in_flight,
            r ==> final(self)@.key_collections == old(self)@.key_collections.insert(
                state,
                final(self)@.key_collections[state],
            ),
            r ==> final(self)@.key_collections[state]@ == (if old(
                self,
            )@.key_collections.contains_key(state) {
                old(self)@.key_collections[state]@
            } else {
                Seq::empty()
            }).push(handle),
            r ==> final(self)@.states == old(self)@.states.insert(
                state,
                StateConfig {
                    phase: if old(self)@.states[state].phase == LoadingPhase::StartLoading {
                        LoadingPhase::PreparingAssetKeys
                    } else {
                        old(self)@.states[state].phase
                    },
                    ..old(self)@.states[state]
                },
            ),
    {
        let c = match self.states.get(&state) {
            None => {
                return false;
            },
            Some(c) => *c,
        };
        let mut group = match self.key_collections.remove(&state) {
            None => Vec::new(),
            Some(g) => g,
        };
        group.push(handle);
        self.key_collections.insert(state, group);
        let phase = if c.phase == LoadingPhase::StartLoading {
            LoadingPhase::PreparingAssetKeys
        } else {
            c.phase
        };
        self.states.insert(state, StateConfig { phase, ..c });
        true
    }

    pub fn is_registered(&self, state: u64) -> (r: bool)
        ensures
            r == self@.states.contains_key(state),
    {
        self.states.contains_key(&state)
    }

    pub fn phase_of(&self, state: u64) -> (r: Option<LoadingPhase>)
        ensures
            r == (if self@.states.contains_key(state) {
                Some(self@.states[state].phase)
            } else {
                None
            }),
    {
        match self.states.get(&state) {
            Some(c) => Some(c.phase),
            None => None,
        }
    }

    pub fn pending_count(&self, state: u64) -> (r: Option<u64>)
        ensures
            r == (if self@.states.contains_key(state) {
                Some(self@.states[state].count)
            } else {
                None
            }),
    {
        match self.states.get(&state) {
            Some(c) => Some(c.count),
            None => None,
        }
    }

    pub fn next_state(&self, state: u64) -> (r: Option<u64>)
        ensures
            r == (if self@.states.contains_key(state) {
                self@.states[state].next
            } else {
                None
            }),
    {
        match self.states.get(&state) {
            Some(c) => c.next,
            None => None,
        }
    }

    /// The handle group in flight for a collection type, if any.
    pub fn loading_handles(&self, collection: u64) -> (r: Option<&Vec<u64>>)
        ensures
            r == (if self@.in_flight.contains_key(collection) {
                Some(&self@.in_flight[collection])
            } else {
                None
            }),
    {
        self.in_flight.get(&collection)
    }

    /// The dynamic asset collection handles still waiting for a state.
    pub fn key_collection_handles(&self, state: u64) -> (r: Option<&Vec<u64>>)
        ensures
            r == (if self@.key_collections.contains_key(state) {
                Some(&self@.key_collections[state])
            } else {
                None
            }),
    {
        self.key_collections.get(&state)
    }

    /// The per-collection system's dispatch on the current state's phase.
    pub fn loading_state(&self, current: u64) -> (r: CollectionAction)
        requires
            self@.states.contains_key(current),
        ensures
            r == action_of(self@.states[current].phase),
    {
        let c = self.states.get(&current).unwrap();
        match c.phase {
            LoadingPhase::StartLoading => CollectionAction::StartLoading,
            LoadingPhase::Loading => CollectionAction::CheckLoading,
            LoadingPhase::PreparingAssetKeys => CollectionAction::Idle,
        }
    }

    /// Counts a collection as pending for `current` and stores the handles
    /// that its loads returned.
    pub fn start_loading_collections(&mut self, current: u64, collection: u64, handles: Vec<u64>)
        requires
            old(self)@.states.contains_key(current),
            old(self)@.states[current].count < u64::MAX,
        ensures
            final(self)@ == start_spec(old(self)@, current, collection, handles),
    {
        let c = *self.states.get(&current).unwrap();
        self.states.insert(current, StateConfig { count: c.count + 1, ..c });
        self.in_flight.insert(collection, handles);
    }

    /// Checks the collection's in-flight handle group, whose aggregate load
    /// state the host polled as `status`.
    pub fn check_loading_state(&mut self, current: u64, collection: u64, status: LoadState) -> (r:
        CheckOutcome)
        ensures
            (final(self)@, r) == check_spec(old(self)@, current, collection, status),
    {
        if !self.in_flight.contains_key(&collection) || status != LoadState::Loaded {
            return CheckOutcome::Waiting;
        }
        self.in_flight.remove(&collection);
        match self.states.get(&current) {
            Some(c) => {
                if c.count > 0 {
                    let c = *c;
                    let count = c.count - 1;
                    self.states.insert(current, StateConfig { count, ..c });
                    let next = if count == 0 {
                        c.next
                    } else {
                        None
                    };
                    CheckOutcome::Finished { next }
                } else {
                    CheckOutcome::Finished { next: None }
                }
            },
            None => CheckOutcome::Finished { next: None },
        }
    }

    /// The phase system's step for `current`; `keys_status` is the aggregate
    /// load state of the state's dynamic asset collection handles.
    pub fn phase(&mut self, current: u64, keys_status: LoadState) -> (r: PhaseOutcome)
        requires
            old(self)@.states.contains_key(current),
        ensures
            final(self)@ == phase_spec(old(self)@, current, keys_status),
            r matches PhaseOutcome::ApplyKeyCollections(h) ==> old(self)@.states[current].phase
                == LoadingPhase::PreparingAssetKeys && keys_status == LoadState::Loaded && h@ == (
            if old(self)@.key_collections.contains_key(current) {
                old(self)@.key_collections[current]@
            } else {
                Seq::empty()
            }),
            r is Idle <==> !(old(self)@.states[current].phase == LoadingPhase::PreparingAssetKeys
                && keys_status == LoadState::Loaded),
    {
        let c = *self.states.get(&current).unwrap();
        match c.phase {
            LoadingPhase::PreparingAssetKeys => {
                if keys_status == LoadState::Loaded {
                    let handles = match self.key_collections.remove(&current) {
                        Some(h) => h,
                        None => Vec::new(),
                    };
                    self.states.insert(
                        current,
                        StateConfig { phase: LoadingPhase::StartLoading, ..c },
                    );
                    PhaseOutcome::ApplyKeyCollections(handles)
                } else {
                    PhaseOutcome::Idle
                }
            },
            LoadingPhase::StartLoading => {
                self.states.insert(current, StateConfig { phase: LoadingPhase::Loading, ..c });
                PhaseOutcome::Idle
            },
            LoadingPhase::Loading => PhaseOutcome::Idle,
        }
    }
}

} // verus!
