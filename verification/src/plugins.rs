//! The register and update instructions, and the flush that applies them.

use vstd::prelude::*;
use vstd::string::StringExecFns;
use crate::extensions::{JsonSchema, Updatable};
use crate::json::json_of_value;
use crate::validation::{validate_value_as, validated_value};
use crate::resources::{
    lemma_handles_are_distinct, lemma_upserted, PhysicalAssetRegistry, RecordHandle, RegistryView,
};
use crate::store::Components;

verus! {

/// The instruction to attach `component` to the record `id`.
#[derive(Debug)]
pub struct RegisterEvent<T> {
    pub id: String,
    pub component: T,
}

/// The mathematical value of a [`RegisterEvent`].
pub struct RegisterEventView<V> {
    pub id: Seq<char>,
    pub component: V,
}

impl<T: View> View for RegisterEvent<T> {
    type V = RegisterEventView<T::V>;

    open spec fn view(&self) -> RegisterEventView<T::V> {
        RegisterEventView { id: self.id@, component: self.component@ }
    }
}

/// The instruction to apply the sparse update `update` to the record `id`.
pub struct UpdateEvent<T: Updatable> {
    pub id: String,
    pub update: T::Updater,
}

/// The mathematical value of an [`UpdateEvent`].
pub struct UpdateEventView<U> {
    pub id: Seq<char>,
    pub update: U,
}

impl<T: Updatable> View for UpdateEvent<T> {
    type V = UpdateEventView<<T::Updater as View>::V>;

    open spec fn view(&self) -> UpdateEventView<<T::Updater as View>::V> {
        UpdateEventView { id: self.id@, update: self.update@ }
    }
}

/// Why an update instruction could not be applied.
#[derive(Clone, Copy, Debug, PartialEq, Eq, Structural)]
pub enum ErrorType {
    /// No record has the identity.
    EntityNotFound,
    /// The record has no component of the type.
    ComponentNotFound,
}

/// The record of an update instruction that could not be applied.
#[derive(Debug)]
pub struct EntityNotFoundEvent {
    pub id: String,
    pub component_type: String,
    pub error_type: ErrorType,
}

/// The mathematical value of an [`EntityNotFoundEvent`].
pub struct FailureView {
    pub id: Seq<char>,
    pub component_type: Seq<char>,
    pub error_type: ErrorType,
}

impl View for EntityNotFoundEvent {
    type V = FailureView;

    open spec fn view(&self) -> FailureView {
        FailureView {
            id: self.id@,
            component_type: self.component_type@,
            error_type: self.error_type,
        }
    }
}

/// The registry and the records of one type, as a value.
pub struct TypedWorld<V> {
    pub registry: RegistryView,
    pub records: Map<RecordHandle, V>,
}

/// The records of one type and the failures recorded so far, as a value.
pub struct UpdatedView<V> {
    pub records: Map<RecordHandle, V>,
    pub failures: Seq<FailureView>,
}

/// The world after one register instruction: the identity has a handle,
/// its own or a new one, and that handle holds the component.
pub open spec fn registered<V>(world: TypedWorld<V>, event: RegisterEventView<V>) -> TypedWorld<V> {
    let registry = world.registry.upserted(event.id);
    TypedWorld {
        registry,
        records: world.records.insert(
            PhysicalAssetRegistry::spec_find(registry, event.id)->Some_0,
            event.component,
        ),
    }
}

/// The world after the register instructions `events`, applied in order.
pub open spec fn registered_all<V>(world: TypedWorld<V>, events: Seq<RegisterEventView<V>>) -> TypedWorld<
    V,
>
    decreases events.len(),
{
    if events.len() == 0 {
        world
    } else {
        registered(registered_all(world, events.drop_last()), events.last())
    }
}

/// The records and failures after one update instruction. An unknown
/// identity and a record without a component of the type are recorded as
/// failures and change no record; otherwise the component takes the update.
pub open spec fn updated<T: Updatable>(
    registry: RegistryView,
    state: UpdatedView<T::V>,
    component_type: Seq<char>,
    event: UpdateEventView<<T::Updater as View>::V>,
) -> UpdatedView<T::V> {
    match PhysicalAssetRegistry::spec_find(registry, event.id) {
        None => UpdatedView {
            records: state.records,
            failures: state.failures.push(
                FailureView {
                    id: event.id,
                    component_type,
                    error_type: ErrorType::EntityNotFound,
                },
            ),
        },
        Some(handle) => if state.records.dom().contains(handle) {
            UpdatedView {
                records: state.records.insert(
                    handle,
                    T::merged(state.records[handle], event.update),
                ),
                failures: state.failures,
            }
        } else {
            UpdatedView {
                records: state.records,
                failures: state.failures.push(
                    FailureView {
                        id: event.id,
                        component_type,
                        error_type: ErrorType::ComponentNotFound,
                    },
                ),
            }
        },
    }
}

/// The records and failures after the update instructions `events`,
/// applied in order.
pub open spec fn updated_all<T: Updatable>(
    registry: RegistryView,
    state: UpdatedView<T::V>,
    component_type: Seq<char>,
    events: Seq<UpdateEventView<<T::Updater as View>::V>>,
) -> UpdatedView<T::V>
    decreases events.len(),
{
    if events.len() == 0 {
        state
    } else {
        updated::<T>(
            registry,
            updated_all::<T>(registry, state, component_type, events.drop_last()),
            component_type,
            events.last(),
        )
    }
}

/// After a register instruction, the identity has a handle, and the handle
/// holds the component of the instruction.
pub proof fn lemma_registered_record_is_found<V>(world: TypedWorld<V>, event: RegisterEventView<V>)
    ensures
        PhysicalAssetRegistry::spec_find(registered(world, event).registry, event.id) is Some,
        registered(world, event).records.dom().contains(
            PhysicalAssetRegistry::spec_find(registered(world, event).registry, event.id)->Some_0,
        ),
        registered(world, event).records[PhysicalAssetRegistry::spec_find(
            registered(world, event).registry,
            event.id,
        )->Some_0] == event.component,
{
}

/// A register instruction leaves every other identity with its handle and
/// its record.
pub proof fn lemma_registered_keeps_others<V>(
    world: TypedWorld<V>,
    event: RegisterEventView<V>,
    other: Seq<char>,
)
    requires
        world.registry.minted() < u64::MAX,
        other != event.id,
        world.registry.contains(other),
    ensures
        PhysicalAssetRegistry::spec_find(registered(world, event).registry, other)
            == PhysicalAssetRegistry::spec_find(world.registry, other),
        world.records.dom().contains(
            PhysicalAssetRegistry::spec_find(world.registry, other)->Some_0,
        ) ==> registered(world, event).records.dom().contains(
            PhysicalAssetRegistry::spec_find(world.registry, other)->Some_0,
        ) && registered(world, event).records[PhysicalAssetRegistry::spec_find(
            world.registry,
            other,
        )->Some_0] == world.records[PhysicalAssetRegistry::spec_find(world.registry, other)->Some_0],
{
    let after = world.registry.upserted(event.id);
    lemma_upserted(world.registry, event.id, other);
    lemma_handles_are_distinct(after, event.id, other);
}

/// After a flush of register instructions, the identity of the last one
/// has a handle, and the handle holds its component.
pub proof fn lemma_flushed_record_is_found<V>(world: TypedWorld<V>, events: Seq<RegisterEventView<V>>)
    requires
        events.len() > 0,
    ensures
        PhysicalAssetRegistry::spec_find(registered_all(world, events).registry, events.last().id)
            is Some,
        registered_all(world, events).records.dom().contains(
            PhysicalAssetRegistry::spec_find(
                registered_all(world, events).registry,
                events.last().id,
            )->Some_0,
        ),
        registered_all(world, events).records[PhysicalAssetRegistry::spec_find(
            registered_all(world, events).registry,
            events.last().id,
        )->Some_0] == events.last().component,
{
}

/// Flushing two queues one after the other comes to the same as flushing
/// them as one queue: what counts is the order of the instructions.
pub proof fn lemma_register_flushes_compose<V>(
    world: TypedWorld<V>,
    first: Seq<RegisterEventView<V>>,
    second: Seq<RegisterEventView<V>>,
)
    ensures
        registered_all(registered_all(world, first), second) == registered_all(
            world,
            first + second,
        ),
    decreases second.len(),
{
    if second.len() == 0 {
    } else {
        lemma_register_flushes_compose(world, first, second.drop_last());
        assert((first + second).drop_last() =~= first + second.drop_last());
    }
}

/// Flushing two queues of updates one after the other comes to the same
/// as flushing them as one queue.
pub proof fn lemma_update_flushes_compose<T: Updatable>(
    registry: RegistryView,
    state: UpdatedView<T::V>,
    component_type: Seq<char>,
    first: Seq<UpdateEventView<<T::Updater as View>::V>>,
    second: Seq<UpdateEventView<<T::Updater as View>::V>>,
)
    ensures
        updated_all::<T>(
            registry,
            updated_all::<T>(registry, state, component_type, first),
            component_type,
            second,
        ) == updated_all::<T>(registry, state, component_type, first + second),
    decreases second.len(),
{
    if second.len() == 0 {
    } else {
        lemma_update_flushes_compose::<T>(
            registry,
            state,
            component_type,
            first,
            second.drop_last(),
        );
        assert((first + second).drop_last() =~= first + second.drop_last());
    }
}

/// A flush of updates records one failure for each instruction that it
/// could not apply, and none for the others: the log of failures never
/// shrinks, and grows by at most the length of the queue.
pub proof fn lemma_flush_keeps_failures<T: Updatable>(
    registry: RegistryView,
    state: UpdatedView<T::V>,
    component_type: Seq<char>,
    events: Seq<UpdateEventView<<T::Updater as View>::V>>,
)
    ensures
        ({
            let after = updated_all::<T>(registry, state, component_type, events);
            &&& state.failures.len() <= after.failures.len() <= state.failures.len() + events.len()
            &&& after.failures.take(state.failures.len() as int) == state.failures
        }),
    decreases events.len(),
{
    if events.len() > 0 {
        let before = updated_all::<T>(registry, state, component_type, events.drop_last());
        lemma_flush_keeps_failures::<T>(registry, state, component_type, events.drop_last());
        let after = updated_all::<T>(registry, state, component_type, events);
        assert(after.failures.take(state.failures.len() as int) =~= before.failures.take(
            state.failures.len() as int,
        ));
    }
}

/// An update with every field absent changes no record.
pub proof fn lemma_empty_update_changes_no_record<T: Updatable>(
    registry: RegistryView,
    state: UpdatedView<T::V>,
    component_type: Seq<char>,
    event: UpdateEventView<<T::Updater as View>::V>,
)
    requires
        T::is_empty_update(event.update),
    ensures
        updated::<T>(registry, state, component_type, event).records == state.records,
        PhysicalAssetRegistry::spec_find(registry, event.id) is Some && state.records.dom().contains(
            PhysicalAssetRegistry::spec_find(registry, event.id)->Some_0,
        ) ==> updated::<T>(registry, state, component_type, event) == state,
{
    match PhysicalAssetRegistry::spec_find(registry, event.id) {
        Some(handle) => {
            if state.records.dom().contains(handle) {
                T::empty_update_changes_nothing(state.records[handle], event.update);
                assert(state.records.insert(handle, state.records[handle]) =~= state.records);
            }
        },
        None => {},
    }
}

/// Of two updates of one record, applied one after the other, the record
/// ends as the second update applied to the outcome of the first. No
/// failure is recorded.
pub proof fn lemma_updates_apply_in_order<T: Updatable>(
    registry: RegistryView,
    state: UpdatedView<T::V>,
    component_type: Seq<char>,
    first: UpdateEventView<<T::Updater as View>::V>,
    second: UpdateEventView<<T::Updater as View>::V>,
)
    requires
        first.id == second.id,
        PhysicalAssetRegistry::spec_find(registry, first.id) is Some,
        state.records.dom().contains(PhysicalAssetRegistry::spec_find(registry, first.id)->Some_0),
    ensures
        ({
            let handle = PhysicalAssetRegistry::spec_find(registry, first.id)->Some_0;
            let after = updated::<T>(
                registry,
                updated::<T>(registry, state, component_type, first),
                component_type,
                second,
            );
            &&& after.failures == state.failures
            &&& after.records.dom().contains(handle)
            &&& after.records[handle] == T::merged(
                T::merged(state.records[handle], first.update),
                second.update,
            )
            &&& forall|other: RecordHandle|
                other != handle ==> (after.records.dom().contains(other)
                    <==> state.records.dom().contains(other)) && (state.records.dom().contains(other)
                    ==> after.records[other] == state.records[other])
        }),
{
}

/// An update of an identity that no record has changes no record, and is
/// recorded as a failure that names the identity.
pub proof fn lemma_unknown_id_is_reported<T: Updatable>(
    registry: RegistryView,
    state: UpdatedView<T::V>,
    component_type: Seq<char>,
    event: UpdateEventView<<T::Updater as View>::V>,
)
    requires
        !registry.contains(event.id),
    ensures
        updated::<T>(registry, state, component_type, event).records == state.records,
        updated::<T>(registry, state, component_type, event).failures == state.failures.push(
            FailureView { id: event.id, component_type, error_type: ErrorType::EntityNotFound },
        ),
{
}

/// Every failure that an update records names the identity of the
/// update, and an update records at most one.
pub proof fn lemma_failure_names_its_request<T: Updatable>(
    registry: RegistryView,
    state: UpdatedView<T::V>,
    component_type: Seq<char>,
    event: UpdateEventView<<T::Updater as View>::V>,
)
    ensures
        ({
            let after = updated::<T>(registry, state, component_type, event);
            ||| after.failures == state.failures
            ||| after.failures.len() == state.failures.len() + 1 && after.failures.drop_last()
                == state.failures && after.failures.last().id == event.id
                && after.records == state.records
        }),
{
}

/// The values of a queue of register instructions.
pub open spec fn register_views<T: View>(events: Seq<RegisterEvent<T>>) -> Seq<
    RegisterEventView<T::V>,
> {
    Seq::new(events.len(), |i: int| events[i]@)
}

/// The values of a queue of update instructions.
pub open spec fn update_views<T: Updatable>(events: Seq<UpdateEvent<T>>) -> Seq<
    UpdateEventView<<T::Updater as View>::V>,
> {
    Seq::new(events.len(), |i: int| events[i]@)
}

/// The values of a log of failures.
pub open spec fn failure_views(failures: Seq<EntityNotFoundEvent>) -> Seq<FailureView> {
    Seq::new(failures.len(), |i: int| failures[i]@)
}

/// Queues a register instruction for the record `id`: the payload is
/// validated as a full record of type `T`, and what passes is queued. A
/// payload that does not pass is an error and queues nothing.
pub fn register<T: JsonSchema>(
    queue: &mut Vec<RegisterEvent<T>>,
    id: &str,
    raw_component: &serde_json::Value,
) -> (queued: Result<(), T::Err>)
    ensures
        match validated_value::<T>(json_of_value(*raw_component)) {
            Ok(record) => queued is Ok && register_views(final(queue)@) == register_views(
                old(queue)@,
            ).push(RegisterEventView { id: id@, component: record }),
            Err(fault) => queued is Err && T::fault_of(queued->Err_0) == fault && final(queue)@
                == old(queue)@,
        },
{
    match validate_value_as::<T>(raw_component) {
        Ok(component) => {
            let event = RegisterEvent { id: String::from_str(id), component };
            queue.push(event);
            Ok(())
        },
        Err(error) => Err(error),
    }
}

/// Queues an update instruction for the record `id`: the payload is
/// validated as a sparse update of a record of type `T`, and what passes
/// is queued. A payload that does not pass is an error and queues
/// nothing. Whether the record exists is found out when the queue is
/// flushed.
pub fn update<T: Updatable>(
    queue: &mut Vec<UpdateEvent<T>>,
    id: &str,
    raw_patch: &serde_json::Value,
) -> (queued: Result<(), <T::Updater as JsonSchema>::Err>)
    ensures
        match validated_value::<T::Updater>(json_of_value(*raw_patch)) {
            Ok(updates) => queued is Ok && update_views(final(queue)@) == update_views(
                old(queue)@,
            ).push(UpdateEventView { id: id@, update: updates }),
            Err(fault) => queued is Err && <T::Updater as JsonSchema>::fault_of(queued->Err_0)
                == fault && final(queue)@ == old(queue)@,
        },
{
    match validate_value_as::<T::Updater>(raw_patch) {
        Ok(update) => {
            let event: UpdateEvent<T> = UpdateEvent { id: String::from_str(id), update };
            queue.push(event);
            Ok(())
        },
        Err(error) => Err(error),
    }
}

/// Applies one register instruction.
pub fn apply_register<T: View>(
    event: RegisterEvent<T>,
    registry: &mut PhysicalAssetRegistry,
    components: &mut Components<T>,
)
    ensures
        (TypedWorld { registry: final(registry)@, records: final(components)@ }) == registered(
            TypedWorld { registry: old(registry)@, records: old(components)@ },
            event@,
        ),
{
    registry.insert_component(components, event.id.as_str(), event.component);
}

/// Flushes a queue of register instructions: applies them in the order in
/// which they were queued.
pub fn handle_register_events<T: View>(
    events: Vec<RegisterEvent<T>>,
    registry: &mut PhysicalAssetRegistry,
    components: &mut Components<T>,
)
    ensures
        (TypedWorld { registry: final(registry)@, records: final(components)@ })
            == registered_all(
            TypedWorld { registry: old(registry)@, records: old(components)@ },
            register_views(events@),
        ),
{
    let ghost start = TypedWorld { registry: registry@, records: components@ };
    let ghost all = register_views(events@);
    for event in iter: events
        invariant
            iter.seq() == events@,
            all == register_views(events@),
            (TypedWorld { registry: registry@, records: components@ }) == registered_all(
                start,
                all.take(iter.index() as int),
            ),
    {
        proof {
            let done = iter.index() as int;
            assert(all.take(done + 1).drop_last() =~= all.take(done));
        }
        apply_register(event, registry, components);
    }
    proof {
        assert(all.take(all.len() as int) =~= all);
    }
}

/// Applies one update instruction.
pub fn apply_update<T: Updatable>(
    event: UpdateEvent<T>,
    component_type: &str,
    registry: &PhysicalAssetRegistry,
    components: &mut Components<T>,
    failures: &mut Vec<EntityNotFoundEvent>,
)
    ensures
        (UpdatedView { records: final(components)@, failures: failure_views(final(failures)@) })
            == updated::<T>(
            registry@,
            UpdatedView { records: old(components)@, failures: failure_views(old(failures)@) },
            component_type@,
            event@,
        ),
{
    let ghost logged = failure_views(failures@);
    match registry.find(event.id.as_str()) {
        None => {
            let failure = EntityNotFoundEvent {
                id: event.id,
                component_type: String::from_str(component_type),
                error_type: ErrorType::EntityNotFound,
            };
            failures.push(failure);
            proof {
                assert(failure_views(failures@) =~= logged.push(failure@));
            }
        },
        Some(handle) => {
            if !components.update(handle, event.update) {
                let failure = EntityNotFoundEvent {
                    id: event.id,
                    component_type: String::from_str(component_type),
                    error_type: ErrorType::ComponentNotFound,
                };
                failures.push(failure);
                proof {
                    assert(failure_views(failures@) =~= logged.push(failure@));
                }
            }
        },
    }
}

/// Flushes a queue of update instructions: applies them in the order in
/// which they were queued. An instruction that cannot be applied is
/// recorded in `failures` and changes no record.
pub fn handle_update_events<T: Updatable>(
    events: Vec<UpdateEvent<T>>,
    component_type: &str,
    registry: &PhysicalAssetRegistry,
    components: &mut Components<T>,
    failures: &mut Vec<EntityNotFoundEvent>,
)
    ensures
        (UpdatedView { records: final(components)@, failures: failure_views(final(failures)@) })
            == updated_all::<T>(
            registry@,
            UpdatedView { records: old(components)@, failures: failure_views(old(failures)@) },
            component_type@,
            update_views(events@),
        ),
{
    let ghost start = UpdatedView { records: components@, failures: failure_views(failures@) };
    let ghost all = update_views(events@);
    for event in iter: events
        invariant
            iter.seq() == events@,
            all == update_views(events@),
            (UpdatedView { records: components@, failures: failure_views(failures@) })
                == updated_all::<T>(
                registry@,
                start,
                component_type@,
                all.take(iter.index() as int),
            ),
    {
        proof {
            let done = iter.index() as int;
            assert(all.take(done + 1).drop_last() =~= all.take(done));
        }
        apply_update(event, component_type, registry, components, failures);
    }
    proof {
        assert(all.take(all.len() as int) =~= all);
    }
}

} // verus!
