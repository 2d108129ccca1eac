//! The identity registry: which handle stands for which record identity.

use vstd::hash_map::StringHashMap;
use vstd::prelude::*;
use vstd::string::StringExecFns;
use crate::extensions::Identifiable;
use crate::store::Components;

verus! {

/// The handle of a record: an opaque key into the record store. The
/// registry mints it; it owns no data.
#[derive(Clone, Copy, Debug, PartialEq, Eq, Structural)]
pub struct RecordHandle {
    index: u64,
}

impl RecordHandle {
    /// The number that tells this handle from every other.
    pub closed spec fn spec_to_bits(self) -> u64 {
        self.index
    }

    /// The number that tells this handle from every other.
    #[verifier::when_used_as_spec(spec_to_bits)]
    pub fn to_bits(self) -> (bits: u64)
        ensures
            bits == self.spec_to_bits(),
    {
        self.index
    }

    /// Two handles with the same number are the same handle.
    pub proof fn same_bits_same_handle(self, other: RecordHandle)
        requires
            self.to_bits() == other.to_bits(),
        ensures
            self == other,
    {
    }
}

/// The identity that a record carries in the store.
#[derive(Clone, Debug)]
pub struct Id(pub String);

/// The position of the last of the first `upto` entries of `log` that is
/// `id`.
pub open spec fn last_position(log: Seq<Seq<char>>, id: Seq<char>, upto: int) -> Option<int>
    decreases upto,
{
    if upto <= 0 || upto > log.len() {
        None
    } else if log[upto - 1] == id {
        Some(upto - 1)
    } else {
        last_position(log, id, upto - 1)
    }
}

/// What [`last_position`] finds is a position of `id`, and the last one.
pub proof fn lemma_last_position(log: Seq<Seq<char>>, id: Seq<char>, upto: int)
    requires
        0 <= upto <= log.len(),
    ensures
        match last_position(log, id, upto) {
            Some(at) => 0 <= at < upto && log[at] == id && forall|later: int|
                at < later < upto ==> log[later] != id,
            None => forall|at: int| 0 <= at < upto ==> log[at] != id,
        },
    decreases upto,
{
    if upto > 0 && log[upto - 1] != id {
        lemma_last_position(log, id, upto - 1);
    }
}

/// The identity registry, as a value: the identities in the order in which
/// handles were minted for them. The handle of an identity is the position
/// of its last entry.
pub struct RegistryView {
    pub log: Seq<Seq<char>>,
}

impl RegistryView {
    /// The registry that knows no identity.
    pub open spec fn empty() -> RegistryView {
        RegistryView { log: Seq::empty() }
    }

    /// The position of the handle of `id`.
    pub open spec fn position(self, id: Seq<char>) -> Option<int> {
        last_position(self.log, id, self.log.len() as int)
    }

    /// Whether `id` has a handle.
    pub open spec fn contains(self, id: Seq<char>) -> bool {
        self.position(id) is Some
    }

    /// The registry after a handle was minted for `id`, whether or not it
    /// had one.
    pub open spec fn spawned(self, id: Seq<char>) -> RegistryView {
        RegistryView { log: self.log.push(id) }
    }

    /// The registry after `id` was looked up and, where it had no handle,
    /// given one.
    pub open spec fn upserted(self, id: Seq<char>) -> RegistryView {
        if self.contains(id) {
            self
        } else {
            self.spawned(id)
        }
    }

    /// The number of handles minted so far.
    pub open spec fn minted(self) -> nat {
        self.log.len()
    }

    /// The identities that have a handle.
    pub open spec fn ids(self) -> Set<Seq<char>> {
        self.log.to_set()
    }
}

/// An identity has a handle exactly when a handle was minted for it: an
/// unknown identity has none.
pub proof fn lemma_found_iff_minted(registry: RegistryView, id: Seq<char>)
    ensures
        registry.contains(id) <==> registry.log.contains(id),
{
    lemma_last_position(registry.log, id, registry.log.len() as int);
    if registry.log.contains(id) {
        let at = choose|at: int| 0 <= at < registry.log.len() && registry.log[at] == id;
    }
}

/// After a handle was minted for `id`, `id` has the newest handle, and
/// every other identity has the handle that it had.
pub proof fn lemma_spawned(registry: RegistryView, id: Seq<char>, other: Seq<char>)
    ensures
        registry.spawned(id).position(id) == Some(registry.log.len() as int),
        other != id ==> registry.spawned(id).position(other) == registry.position(other),
{
    let after = registry.spawned(id);
    if other != id {
        lemma_same_prefix(after.log, registry.log, other, registry.log.len() as int);
    }
}

/// Two logs that agree on their first `upto` entries hold the same last
/// position of `id` among them.
pub proof fn lemma_same_prefix(first: Seq<Seq<char>>, second: Seq<Seq<char>>, id: Seq<char>, upto: int)
    requires
        0 <= upto <= first.len(),
        upto <= second.len(),
        forall|at: int| 0 <= at < upto ==> first[at] == second[at],
    ensures
        last_position(first, id, upto) == last_position(second, id, upto),
    decreases upto,
{
    if upto > 0 && first[upto - 1] != id {
        lemma_same_prefix(first, second, id, upto - 1);
    }
}

/// After an upsert of `id`, `id` has a handle, and every identity that had
/// a handle has the same one: a handle is never given to another identity.
pub proof fn lemma_upserted(registry: RegistryView, id: Seq<char>, other: Seq<char>)
    ensures
        registry.upserted(id).contains(id),
        registry.contains(other) ==> registry.upserted(id).position(other) == registry.position(
            other,
        ),
        other != id ==> registry.upserted(id).position(other) == registry.position(other),
{
    lemma_spawned(registry, id, other);
}

/// An upsert of an identity that has a handle changes nothing, so two
/// upserts of one identity are as good as one.
pub proof fn lemma_upsert_is_idempotent(registry: RegistryView, id: Seq<char>)
    ensures
        registry.upserted(id).upserted(id) == registry.upserted(id),
{
}

/// Two identities never share a handle: the registry is one-to-one between
/// the identities that it knows and their handles.
pub proof fn lemma_handles_are_distinct(registry: RegistryView, first: Seq<char>, second: Seq<char>)
    requires
        registry.minted() <= u64::MAX,
        first != second,
        registry.contains(first),
        registry.contains(second),
    ensures
        PhysicalAssetRegistry::spec_find(registry, first) != PhysicalAssetRegistry::spec_find(
            registry,
            second,
        ),
{
    lemma_last_position(registry.log, first, registry.log.len() as int);
    lemma_last_position(registry.log, second, registry.log.len() as int);
}

/// The identity registry, under the name that the store knows it by.
pub type AssetRegistry = PhysicalAssetRegistry;

/// The identity registry: maps the identity of a record to its handle. A
/// hash map answers the look-ups; the log holds, under the number of each
/// handle, the identity that the handle was minted for.
pub struct PhysicalAssetRegistry {
    ledger: Ledger,
}

/// What the registry holds: the log and the hash map.
struct Ledger {
    log: Vec<String>,
    handles: StringHashMap<RecordHandle>,
}

impl Ledger {
    /// Whether the hash map holds, for each identity, the handle of its
    /// last entry in the log, and nothing for an identity without one.
    closed spec fn consistent(&self) -> bool {
        forall|id: Seq<char>| #[trigger]
            PhysicalAssetRegistry::held(self.handles@, id) == PhysicalAssetRegistry::spec_find(
                RegistryView { log: self.log.deep_view() },
                id,
            )
    }

    /// The ledger without entries.
    fn new() -> (ledger: Ledger)
        ensures
            ledger.log.deep_view() == Seq::<Seq<char>>::empty(),
            ledger.consistent(),
    {
        let log: Vec<String> = Vec::new();
        Ledger { log, handles: StringHashMap::new() }
    }
}

impl View for PhysicalAssetRegistry {
    type V = RegistryView;

    closed spec fn view(&self) -> RegistryView {
        RegistryView { log: self.ledger.log.deep_view() }
    }
}

impl Default for PhysicalAssetRegistry {
    /// The registry that knows no identity.
    fn default() -> (registry: PhysicalAssetRegistry)
        ensures
            registry@ == RegistryView::empty(),
    {
        PhysicalAssetRegistry { ledger: Ledger::new() }
    }
}

impl PhysicalAssetRegistry {
    /// The handle that a hash map holds for `id`.
    pub closed spec fn held(handles: Map<Seq<char>, RecordHandle>, id: Seq<char>) -> Option<
        RecordHandle,
    > {
        if handles.contains_key(id) {
            Some(handles[id])
        } else {
            None
        }
    }

    /// The hash map and the log agree.
    #[verifier::type_invariant]
    closed spec fn consistent(&self) -> bool {
        self.ledger.consistent()
    }

    /// The handle at a position of the log.
    pub closed spec fn handle_at(position: int) -> RecordHandle {
        RecordHandle { index: position as u64 }
    }

    /// The handle of `id` in the registry `registry`.
    pub open spec fn spec_find(registry: RegistryView, id: Seq<char>) -> Option<RecordHandle> {
        match registry.position(id) {
            Some(position) => Some(Self::handle_at(position)),
            None => None,
        }
    }

    /// Whether no identity of `registry` has the handle `handle`.
    pub open spec fn is_fresh(registry: RegistryView, handle: RecordHandle) -> bool {
        forall|id: Seq<char>| Self::spec_find(registry, id) != Some(handle)
    }

    /// The handle at a position carries the position as its number, so the
    /// handles of two positions differ.
    pub proof fn lemma_handle_at(position: int)
        requires
            0 <= position <= u64::MAX,
        ensures
            Self::handle_at(position).to_bits() == position,
    {
    }

    /// The handle of an identity carries a number below the number of
    /// handles minted, so a handle with that number or a higher one is
    /// fresh.
    pub proof fn lemma_found_handle_is_minted(registry: RegistryView, id: Seq<char>)
        requires
            registry.minted() <= u64::MAX,
        ensures
            Self::spec_find(registry, id) matches Some(handle) ==> handle.to_bits()
                < registry.minted(),
    {
        lemma_last_position(registry.log, id, registry.log.len() as int);
    }

    /// The registry that knows no identity.
    pub fn new() -> (registry: PhysicalAssetRegistry)
        ensures
            registry@ == RegistryView::empty(),
    {
        Self::default()
    }

    /// The number of handles minted so far. It fits the numbers that tell
    /// handles apart.
    pub fn minted(&self) -> (minted: usize)
        ensures
            minted == self@.minted(),
            self@.minted() <= u64::MAX,
    {
        self.ledger.log.len()
    }

    /// The number of identities that have a handle.
    pub fn len(&self) -> (count: usize)
        ensures
            count == self@.ids().len(),
    {
        proof {
            use_type_invariant(self);
            assert forall|id: Seq<char>| self.ledger.handles@.dom().contains(id)
                <==> self@.ids().contains(id) by {
                assert(Self::held(self.ledger.handles@, id) == Self::spec_find(self@, id));
                lemma_found_iff_minted(self@, id);
            }
            assert(self.ledger.handles@.dom() =~= self@.ids());
        }
        self.ledger.handles.len()
    }

    /// Whether no identity has a handle.
    pub fn is_empty(&self) -> (empty: bool)
        ensures
            empty == (self@.minted() == 0),
            empty == (self@.ids().len() == 0),
    {
        proof {
            if self@.log.len() > 0 {
                assert(self@.log.to_set().contains(self@.log[0]));
            } else {
                assert(self@.log.to_set() =~= Set::<Seq<char>>::empty());
            }
        }
        self.ledger.log.len() == 0
    }

    /// Whether `id` has a handle.
    pub fn contains_key(&self, id: &str) -> (held: bool)
        ensures
            held == self@.contains(id@),
    {
        self.find_physical_asset_by_id(id).is_some()
    }

    /// The handle of `id`, if it has one. An unknown identity has none.
    pub fn find_physical_asset_by_id(&self, id: &str) -> (found: Option<RecordHandle>)
        ensures
            found == Self::spec_find(self@, id@),
            found matches Some(handle) ==> handle.to_bits() < self@.minted(),
    {
        proof {
            use_type_invariant(self);
            assert(Self::held(self.ledger.handles@, id@) == Self::spec_find(self@, id@));
            assert(self@.minted() == self.ledger.log.len());
            Self::lemma_found_handle_is_minted(self@, id@);
        }
        match self.ledger.handles.get(id) {
            Some(handle) => Some(*handle),
            None => None,
        }
    }

    /// The handle of `id`, if it has one.
    pub fn find(&self, id: &str) -> (found: Option<RecordHandle>)
        ensures
            found == Self::spec_find(self@, id@),
            found matches Some(handle) ==> handle.to_bits() < self@.minted(),
    {
        self.find_physical_asset_by_id(id)
    }

    /// Mints a handle for `id` and makes it the handle of `id`, whether or
    /// not `id` had one before. The handle is new: no identity had it, `id`
    /// neither.
    pub fn spawn_physical_asset(&mut self, id: String) -> (minted: RecordHandle)
        ensures
            final(self)@ == old(self)@.spawned(id@),
            Self::spec_find(final(self)@, id@) == Some(minted),
            minted.to_bits() == old(self)@.minted(),
            Self::is_fresh(old(self)@, minted),
            forall|other: Seq<char>|
                other != id@ ==> Self::spec_find(final(self)@, other) == Self::spec_find(
                    old(self)@,
                    other,
                ),
    {
        proof {
            use_type_invariant(&*self);
        }
        let mut ledger = Ledger::new();
        core::mem::swap(&mut self.ledger, &mut ledger);
        let position = ledger.log.len();
        let minted = RecordHandle { index: position as u64 };
        let ghost before = RegistryView { log: ledger.log.deep_view() };
        let ghost held_before = ledger.handles@;
        ledger.log.push(id.clone());
        ledger.handles.insert(id, minted);
        proof {
            let after = RegistryView { log: ledger.log.deep_view() };
            assert(after.log =~= before.log.push(id@));
            assert forall|other: Seq<char>| #[trigger]
                Self::held(ledger.handles@, other) == Self::spec_find(after, other) by {
                assert(Self::held(held_before, other) == Self::spec_find(before, other));
                lemma_spawned(before, id@, other);
            }
            assert forall|other: Seq<char>| Self::spec_find(before, other) != Some(minted) by {
                Self::lemma_found_handle_is_minted(before, other);
            }
            assert forall|other: Seq<char>| other != id@ implies Self::spec_find(after, other)
                == Self::spec_find(before, other) by {
                lemma_spawned(before, id@, other);
            }
        }
        core::mem::swap(&mut self.ledger, &mut ledger);
        minted
    }

    /// Attaches `component` to the record `id`: the identity gets a handle
    /// if it had none, and the handle holds the component in place of any
    /// component of the type that it held.
    pub fn insert_component<C: View>(
        &mut self,
        components: &mut Components<C>,
        id: &str,
        component: C,
    ) -> (handle: RecordHandle)
        ensures
            final(self)@ == old(self)@.upserted(id@),
            Self::spec_find(final(self)@, id@) == Some(handle),
            !old(self)@.contains(id@) ==> Self::is_fresh(old(self)@, handle),
            forall|other: Seq<char>|
                other != id@ ==> Self::spec_find(final(self)@, other) == Self::spec_find(
                    old(self)@,
                    other,
                ),
            final(components)@ == old(components)@.insert(handle, component@),
    {
        let handle = self.upsert(id);
        components.insert(handle, component);
        handle
    }

    /// Attaches `component` to the record of its own identity.
    pub fn spawn_identifiable<C: Identifiable>(
        &mut self,
        components: &mut Components<C>,
        component: C,
    ) -> (handle: RecordHandle)
        ensures
            final(self)@ == old(self)@.upserted(C::spec_id(component@)),
            Self::spec_find(final(self)@, C::spec_id(component@)) == Some(handle),
            !old(self)@.contains(C::spec_id(component@)) ==> Self::is_fresh(old(self)@, handle),
            forall|other: Seq<char>|
                other != C::spec_id(component@) ==> Self::spec_find(final(self)@, other)
                    == Self::spec_find(old(self)@, other),
            final(components)@ == old(components)@.insert(handle, component@),
    {
        let id = component.id();
        self.insert_component(components, id.as_str(), component)
    }

    /// The handle of `id`: the one it has, or else a new one, minted now,
    /// which no identity had.
    pub fn upsert(&mut self, id: &str) -> (handle: RecordHandle)
        ensures
            final(self)@ == old(self)@.upserted(id@),
            Self::spec_find(final(self)@, id@) == Some(handle),
            old(self)@.contains(id@) ==> Self::spec_find(old(self)@, id@) == Some(handle),
            !old(self)@.contains(id@) ==> Self::is_fresh(old(self)@, handle),
            forall|other: Seq<char>|
                other != id@ ==> Self::spec_find(final(self)@, other) == Self::spec_find(
                    old(self)@,
                    other,
                ),
    {
        match self.find_physical_asset_by_id(id) {
            Some(handle) => handle,
            None => self.spawn_physical_asset(String::from_str(id)),
        }
    }
}

} // verus!
