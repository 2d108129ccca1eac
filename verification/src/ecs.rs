//! The world: the registry and the records of every type that the store
//! serves, and the set-up of the dispatch table.

use vstd::prelude::*;
use crate::entities::current_limits::{CurrentLimits, CurrentLimitsView};
use crate::entities::line::{Line, LineView};
use crate::entities::network::{Network, NetworkView};
use crate::entities::substation::{Substation, SubstationView};
use crate::entities::temporary_limit::{TemporaryLimit, TemporaryLimitView};
use vstd::string::StringExecFns;
use crate::extensions::{Identifiable, Updatable};
use crate::handlers::{
    is_confirmation, register_component, register_served, update_iidm, update_served,
    RegisterRequest, RegisterResponse, RequestView, UpdateError,
};
use crate::plugins::TypedWorld;
use crate::json::same_text;
use crate::resources::{PhysicalAssetRegistry, RecordHandle, RegistryView};
use crate::store::Components;
use crate::update_registry::{component_name, spec_component_name, DispatchError, UpdateRegistry};

verus! {

/// What the store asks of a record type that it holds: the type owns its
/// data and may cross threads.
pub trait ComponentInit: 'static + Send + Sync {

}

impl<T: 'static + Send + Sync> ComponentInit for T {

}

/// Accepts the types that carry an identity, and no others.
pub fn assert_identifiable<T: Identifiable>() {
}

/// Accepts the types that the store can hold, and no others.
pub fn assert_component<T: ComponentInit>() {
}

/// Accepts the types that take sparse updates, and no others.
pub fn assert_updatable<T: Updatable>() {
}

/// The world: one registry of identities, and the records of each type.
/// A handle may hold a record of several types at once, one of each.
pub struct World {
    pub registry: PhysicalAssetRegistry,
    pub networks: Components<Network>,
    pub substations: Components<Substation>,
    pub lines: Components<Line>,
    pub current_limits: Components<CurrentLimits>,
    pub temporary_limits: Components<TemporaryLimit>,
}

/// The mathematical value of a [`World`].
pub struct WorldView {
    pub registry: RegistryView,
    pub networks: Map<RecordHandle, NetworkView>,
    pub substations: Map<RecordHandle, SubstationView>,
    pub lines: Map<RecordHandle, LineView>,
    pub current_limits: Map<RecordHandle, CurrentLimitsView>,
    pub temporary_limits: Map<RecordHandle, TemporaryLimitView>,
}

impl View for World {
    type V = WorldView;

    open spec fn view(&self) -> WorldView {
        WorldView {
            registry: self.registry@,
            networks: self.networks@,
            substations: self.substations@,
            lines: self.lines@,
            current_limits: self.current_limits@,
            temporary_limits: self.temporary_limits@,
        }
    }
}

impl WorldView {
    /// The world that knows no identity and holds no record.
    pub open spec fn empty() -> WorldView {
        WorldView {
            registry: RegistryView::empty(),
            networks: Map::empty(),
            substations: Map::empty(),
            lines: Map::empty(),
            current_limits: Map::empty(),
            temporary_limits: Map::empty(),
        }
    }
}

impl World {
    /// The world that knows no identity and holds no record.
    pub fn new() -> (world: World)
        ensures
            world@ == WorldView::empty(),
    {
        World {
            registry: PhysicalAssetRegistry::new(),
            networks: Components::new(),
            substations: Components::new(),
            lines: Components::new(),
            current_limits: Components::new(),
            temporary_limits: Components::new(),
        }
    }
}

/// What a dispatched request came to, as the handler saw it: `None` where
/// no handler was found.
pub open spec fn handler_outcome(answer: Result<(u16, RegisterResponse), DispatchError>) -> Option<
    Result<(), UpdateError>,
> {
    match answer {
        Ok(_) => Some(Ok(())),
        Err(DispatchError::Handler(error)) => Some(Err(error)),
        Err(DispatchError::UnknownType(_)) => None,
    }
}

/// Words the answer of a handler for the caller of the dispatch.
fn dispatched(answer: Result<(u16, RegisterResponse), UpdateError>) -> (wrapped: Result<
    (u16, RegisterResponse),
    DispatchError,
>)
    ensures
        handler_outcome(wrapped) == Some(
            match answer {
                Ok(_) => Ok::<(), UpdateError>(()),
                Err(error) => Err::<(), UpdateError>(error),
            },
        ),
        answer matches Ok(sent) ==> wrapped == Ok::<(u16, RegisterResponse), DispatchError>(sent),
{
    match answer {
        Ok(sent) => Ok(sent),
        Err(error) => Err(DispatchError::Handler(error)),
    }
}

impl World {
    /// Whether `answer` and the world `after` are what the update request
    /// `request` under the tag `tag` comes to: the tag selects the type of
    /// record, the request is served for that type, and the records of
    /// every other type stay as they were. A tag of no type is an error
    /// and changes nothing.
    pub open spec fn update_dispatched(
        before: WorldView,
        tag: Seq<char>,
        request: RequestView,
        after: WorldView,
        answer: Result<(u16, RegisterResponse), DispatchError>,
    ) -> bool {
        if tag == "network"@ {
            handler_outcome(answer) is Some && update_served::<Network>(
                tag,
                before.registry,
                before.networks,
                request,
                after.networks,
                handler_outcome(answer)->Some_0,
            ) && after == (WorldView { networks: after.networks, ..before })
        } else if tag == "substation"@ {
            handler_outcome(answer) is Some && update_served::<Substation>(
                tag,
                before.registry,
                before.substations,
                request,
                after.substations,
                handler_outcome(answer)->Some_0,
            ) && after == (WorldView { substations: after.substations, ..before })
        } else if tag == "line"@ {
            handler_outcome(answer) is Some && update_served::<Line>(
                tag,
                before.registry,
                before.lines,
                request,
                after.lines,
                handler_outcome(answer)->Some_0,
            ) && after == (WorldView { lines: after.lines, ..before })
        } else if tag == "current_limits"@ {
            handler_outcome(answer) is Some && update_served::<CurrentLimits>(
                tag,
                before.registry,
                before.current_limits,
                request,
                after.current_limits,
                handler_outcome(answer)->Some_0,
            ) && after == (WorldView { current_limits: after.current_limits, ..before })
        } else if tag == "temporary_limit"@ {
            handler_outcome(answer) is Some && update_served::<TemporaryLimit>(
                tag,
                before.registry,
                before.temporary_limits,
                request,
                after.temporary_limits,
                handler_outcome(answer)->Some_0,
            ) && after == (WorldView { temporary_limits: after.temporary_limits, ..before })
        } else {
            answer matches Err(DispatchError::UnknownType(unknown)) && unknown@ == tag && after
                == before
        }
    }

    /// Serves an update request for the type of record that `tag` names:
    /// the one entry point for requests that name their type by a string.
    pub fn update(&mut self, tag: &str, request: &RegisterRequest) -> (answer: Result<
        (u16, RegisterResponse),
        DispatchError,
    >)
        ensures
            answer matches Ok(sent) ==> is_confirmation(sent),
            World::update_dispatched(old(self)@, tag@, request@, final(self)@, answer),
    {
        if same_text(tag, "network") {
            dispatched(update_iidm::<Network>(tag, &self.registry, &mut self.networks, request))
        } else if same_text(tag, "substation") {
            dispatched(
                update_iidm::<Substation>(tag, &self.registry, &mut self.substations, request),
            )
        } else if same_text(tag, "line") {
            dispatched(update_iidm::<Line>(tag, &self.registry, &mut self.lines, request))
        } else if same_text(tag, "current_limits") {
            dispatched(
                update_iidm::<CurrentLimits>(
                    tag,
                    &self.registry,
                    &mut self.current_limits,
                    request,
                ),
            )
        } else if same_text(tag, "temporary_limit") {
            dispatched(
                update_iidm::<TemporaryLimit>(
                    tag,
                    &self.registry,
                    &mut self.temporary_limits,
                    request,
                ),
            )
        } else {
            Err(DispatchError::UnknownType(String::from_str(tag)))
        }
    }
}

/// Words the answer of a register handler for the caller of the dispatch.
fn registered_answer(served: Result<(), UpdateError>) -> (wrapped: Result<(), DispatchError>)
    ensures
        match served {
            Ok(()) => wrapped is Ok,
            Err(error) => wrapped == Err::<(), DispatchError>(DispatchError::Handler(error)),
        },
{
    match served {
        Ok(()) => Ok(()),
        Err(error) => Err(DispatchError::Handler(error)),
    }
}

/// What a dispatched register request came to, as the handler saw it:
/// `None` where no handler was found.
pub open spec fn register_outcome(answer: Result<(), DispatchError>) -> Option<
    Result<(), UpdateError>,
> {
    match answer {
        Ok(()) => Some(Ok(())),
        Err(DispatchError::Handler(error)) => Some(Err(error)),
        Err(DispatchError::UnknownType(_)) => None,
    }
}

impl World {
    /// Whether `answer` and the world `after` are what the register
    /// request `request` under the tag `tag` comes to: the tag selects the
    /// type of record, the request is served for that type, and the
    /// records of every other type stay as they were. A tag of no type is
    /// an error and changes nothing.
    pub open spec fn register_dispatched(
        before: WorldView,
        tag: Seq<char>,
        request: RequestView,
        after: WorldView,
        answer: Result<(), DispatchError>,
    ) -> bool {
        if tag == "network"@ {
            register_outcome(answer) is Some && register_served::<Network>(
                TypedWorld { registry: before.registry, records: before.networks },
                request,
                TypedWorld { registry: after.registry, records: after.networks },
                register_outcome(answer)->Some_0,
            ) && after == (WorldView {
                registry: after.registry,
                networks: after.networks,
                ..before
            })
        } else if tag == "substation"@ {
            register_outcome(answer) is Some && register_served::<Substation>(
                TypedWorld { registry: before.registry, records: before.substations },
                request,
                TypedWorld { registry: after.registry, records: after.substations },
                register_outcome(answer)->Some_0,
            ) && after == (WorldView {
                registry: after.registry,
                substations: after.substations,
                ..before
            })
        } else if tag == "line"@ {
            register_outcome(answer) is Some && register_served::<Line>(
                TypedWorld { registry: before.registry, records: before.lines },
                request,
                TypedWorld { registry: after.registry, records: after.lines },
                register_outcome(answer)->Some_0,
            ) && after == (WorldView { registry: after.registry, lines: after.lines, ..before })
        } else if tag == "current_limits"@ {
            register_outcome(answer) is Some && register_served::<CurrentLimits>(
                TypedWorld { registry: before.registry, records: before.current_limits },
                request,
                TypedWorld { registry: after.registry, records: after.current_limits },
                register_outcome(answer)->Some_0,
            ) && after == (WorldView {
                registry: after.registry,
                current_limits: after.current_limits,
                ..before
            })
        } else if tag == "temporary_limit"@ {
            register_outcome(answer) is Some && register_served::<TemporaryLimit>(
                TypedWorld { registry: before.registry, records: before.temporary_limits },
                request,
                TypedWorld { registry: after.registry, records: after.temporary_limits },
                register_outcome(answer)->Some_0,
            ) && after == (WorldView {
                registry: after.registry,
                temporary_limits: after.temporary_limits,
                ..before
            })
        } else {
            answer matches Err(DispatchError::UnknownType(unknown)) && unknown@ == tag && after
                == before
        }
    }

    /// Serves a register request for the type of record that `tag` names.
    /// Only the record of the request is registered, not what it holds.
    pub fn register(&mut self, tag: &str, request: &RegisterRequest) -> (answer: Result<
        (),
        DispatchError,
    >)
        ensures
            World::register_dispatched(old(self)@, tag@, request@, final(self)@, answer),
    {
        if same_text(tag, "network") {
            registered_answer(
                register_component::<Network>(&mut self.registry, &mut self.networks, request),
            )
        } else if same_text(tag, "substation") {
            registered_answer(
                register_component::<Substation>(
                    &mut self.registry,
                    &mut self.substations,
                    request,
                ),
            )
        } else if same_text(tag, "line") {
            registered_answer(
                register_component::<Line>(&mut self.registry, &mut self.lines, request),
            )
        } else if same_text(tag, "current_limits") {
            registered_answer(
                register_component::<CurrentLimits>(
                    &mut self.registry,
                    &mut self.current_limits,
                    request,
                ),
            )
        } else if same_text(tag, "temporary_limit") {
            registered_answer(
                register_component::<TemporaryLimit>(
                    &mut self.registry,
                    &mut self.temporary_limits,
                    request,
                ),
            )
        } else {
            Err(DispatchError::UnknownType(String::from_str(tag)))
        }
    }
}

/// The names of the types that carry an identity.
pub open spec fn identifiable_types() -> Seq<Seq<char>> {
    seq![
        "Substation"@,
        "VoltageLevel"@,
        "Generator"@,
        "Load"@,
        "Line"@,
        "Switch"@,
        "ShuntCompensator"@,
        "StaticVarCompensator"@,
        "DanglingLine"@,
        "TieLine"@,
        "HvdcLine"@,
        "HvdcConverterStation"@,
    ]
}

/// Whether the type of this name carries an identity, so that a record
/// which holds one registers it along with itself.
pub fn is_identifiable_type(type_tag: &str) -> (identifiable: bool)
    ensures
        identifiable == identifiable_types().contains(type_tag@),
{
    let found = same_text(type_tag, "Substation") || same_text(type_tag, "VoltageLevel")
        || same_text(type_tag, "Generator") || same_text(type_tag, "Load") || same_text(
        type_tag,
        "Line",
    ) || same_text(type_tag, "Switch") || same_text(type_tag, "ShuntCompensator") || same_text(
        type_tag,
        "StaticVarCompensator",
    ) || same_text(type_tag, "DanglingLine") || same_text(type_tag, "TieLine") || same_text(
        type_tag,
        "HvdcLine",
    ) || same_text(type_tag, "HvdcConverterStation");
    found
}

/// The position of the first of `tags`, from `from` on, that `existing`
/// or an earlier one of `tags` holds already.
pub open spec fn first_clash(existing: Set<Seq<char>>, tags: Seq<Seq<char>>, from: int) -> Option<int>
    decreases tags.len() - from,
{
    if from < 0 || from >= tags.len() {
        None
    } else if existing.contains(tags[from]) || tags.take(from).contains(tags[from]) {
        Some(from)
    } else {
        first_clash(existing, tags, from + 1)
    }
}

/// The tags of a list of type names.
pub open spec fn component_tags<H>(components: Seq<(String, H)>) -> Seq<Seq<char>> {
    Seq::new(components.len(), |i: int| spec_component_name(components[i].0@))
}

/// The handlers of a list of components.
pub open spec fn component_handlers<H>(components: Seq<(String, H)>) -> Seq<H> {
    Seq::new(components.len(), |i: int| components[i].1)
}

/// The table after each of `handlers` was put under its tag, in order.
pub open spec fn filled<H>(table: Map<Seq<char>, H>, tags: Seq<Seq<char>>, handlers: Seq<H>) -> Map<
    Seq<char>,
    H,
>
    decreases tags.len(),
{
    if tags.len() == 0 {
        table
    } else {
        filled(table, tags.drop_last(), handlers.drop_last()).insert(tags.last(), handlers.last())
    }
}

/// A filled table holds a tag exactly when the table held it or it is
/// one of the tags put.
pub proof fn lemma_filled_tags<H>(
    table: Map<Seq<char>, H>,
    tags: Seq<Seq<char>>,
    handlers: Seq<H>,
    tag: Seq<char>,
)
    ensures
        filled(table, tags, handlers).contains_key(tag) <==> table.contains_key(tag)
            || tags.contains(tag),
    decreases tags.len(),
{
    if tags.len() > 0 {
        lemma_filled_tags(table, tags.drop_last(), handlers.drop_last(), tag);
        if tags.contains(tag) {
            let at = choose|at: int| 0 <= at < tags.len() && tags[at] == tag;
            if at < tags.len() - 1 {
                assert(tags.drop_last()[at] == tag);
            }
        }
    }
}

/// Fills the dispatch table: for each component, given by the name of its
/// type and its handler, the handler goes under the tag of the name. A
/// tag is registered once: the first component whose tag the table holds
/// already stops the set-up, and its tag comes back.
pub fn init_updatable_components<H>(
    updater: &mut UpdateRegistry<H>,
    components: Vec<(String, H)>,
) -> (filled_up: Result<(), String>)
    ensures
        match first_clash(old(updater)@.dom(), component_tags(components@), 0) {
            None => filled_up is Ok && final(updater)@ == filled(
                old(updater)@,
                component_tags(components@),
                component_handlers(components@),
            ),
            Some(at) => filled_up matches Err(tag) && tag@ == component_tags(components@)[at]
                && final(updater)@ == filled(
                old(updater)@,
                component_tags(components@).take(at),
                component_handlers(components@).take(at),
            ),
        },
{
    let ghost start = updater@;
    let ghost tags = component_tags(components@);
    let ghost handlers = component_handlers(components@);
    for component in iter: components
        invariant
            iter.seq() == components@,
            start == old(updater)@,
            tags == component_tags(components@),
            handlers == component_handlers(components@),
            first_clash(start.dom(), tags, 0) == first_clash(
                start.dom(),
                tags,
                iter.index() as int,
            ),
            updater@ == filled(
                start,
                tags.take(iter.index() as int),
                handlers.take(iter.index() as int),
            ),
    {
        let ghost done = iter.index() as int;
        let tag = component_name(component.0.as_str());
        proof {
            lemma_filled_tags(start, tags.take(done), handlers.take(done), tag@);
        }
        if updater.contains(tag.as_str()) {
            return Err(tag);
        }
        updater.register(tag.as_str(), component.1);
        proof {
            assert(tags.take(done + 1).drop_last() =~= tags.take(done));
            assert(handlers.take(done + 1).drop_last() =~= handlers.take(done));
        }
    }
    proof {
        assert(tags.take(tags.len() as int) =~= tags);
        assert(handlers.take(handlers.len() as int) =~= handlers);
    }
    Ok(())
}

/// The state of the store: the world and the dispatch table.
#[verifier::reject_recursive_types(H)]
pub struct EcsState<H> {
    pub world: World,
    pub update_registry: UpdateRegistry<H>,
}

impl<H> EcsState<H> {
    /// Sets the store up: an empty world, and a dispatch table with the
    /// handler of each component under the tag of its type. A tag that
    /// comes twice stops the set-up, and the tag comes back.
    pub fn new(components: Vec<(String, H)>) -> (state: Result<EcsState<H>, String>)
        ensures
            match first_clash(Set::empty(), component_tags(components@), 0) {
                None => state matches Ok(ready) && ready.world@ == WorldView::empty()
                    && ready.update_registry@ == filled(
                    Map::empty(),
                    component_tags(components@),
                    component_handlers(components@),
                ),
                Some(at) => state matches Err(tag) && tag@ == component_tags(components@)[at],
            },
    {
        let world = World::new();
        let mut update_registry = UpdateRegistry::new();
        match init_updatable_components(&mut update_registry, components) {
            Ok(()) => Ok(EcsState { world, update_registry }),
            Err(tag) => Err(tag),
        }
    }
}

} // verus!
