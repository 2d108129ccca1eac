//! Assets and their switches.

use vstd::prelude::*;
use crate::resources::{PhysicalAssetRegistry, RecordHandle};
use crate::store::Components;

verus! {

/// The identity that an asset carries in the store.
#[derive(Clone, Debug)]
pub struct Identifiable(pub String);

/// A switch: open or closed.
#[derive(Debug)]
pub struct Switch {
    pub id: String,
    pub open: bool,
}

/// The mathematical value of a [`Switch`].
pub struct SwitchView {
    pub id: Seq<char>,
    pub open: bool,
}

impl View for Switch {
    type V = SwitchView;

    open spec fn view(&self) -> SwitchView {
        SwitchView { id: self.id@, open: self.open }
    }
}

/// Mints a handle for `id` and makes it the handle of `id`, whether or
/// not `id` had one before. The handle is new: no identity had it.
pub fn spawn_physical_asset(registery: &mut PhysicalAssetRegistry, id: String) -> (minted:
    RecordHandle)
    ensures
        final(registery)@ == old(registery)@.spawned(id@),
        PhysicalAssetRegistry::spec_find(final(registery)@, id@) == Some(minted),
        minted.to_bits() == old(registery)@.minted(),
        PhysicalAssetRegistry::is_fresh(old(registery)@, minted),
        forall|other: Seq<char>|
            other != id@ ==> PhysicalAssetRegistry::spec_find(final(registery)@, other)
                == PhysicalAssetRegistry::spec_find(old(registery)@, other),
{
    registery.spawn_physical_asset(id)
}

/// The handle of `id`, if it has one.
pub fn find_physical_asset_by_id(registery: &PhysicalAssetRegistry, id: &str) -> (found: Option<
    RecordHandle,
>)
    ensures
        found == PhysicalAssetRegistry::spec_find(registery@, id@),
        found matches Some(handle) ==> handle.to_bits() < registery@.minted(),
{
    registery.find_physical_asset_by_id(id)
}

/// Attaches a switch to an asset, in place of the switch that the asset
/// held, if it held one.
pub fn add_switch_component(switches: &mut Components<Switch>, entity: RecordHandle, switch: Switch)
    ensures
        final(switches)@ == old(switches)@.insert(entity, switch@),
{
    switches.insert(entity, switch);
}

/// The switches after one of them was loaded: attached to the asset of
/// its identity, or dropped where no asset has that identity.
pub open spec fn switch_loaded(
    registry: crate::resources::RegistryView,
    switches: Map<RecordHandle, SwitchView>,
    switch: SwitchView,
) -> Map<RecordHandle, SwitchView> {
    match PhysicalAssetRegistry::spec_find(registry, switch.id) {
        Some(entity) => switches.insert(entity, switch),
        None => switches,
    }
}

/// The switches after each of `loaded` was loaded, in order.
pub open spec fn switches_loaded(
    registry: crate::resources::RegistryView,
    switches: Map<RecordHandle, SwitchView>,
    loaded: Seq<SwitchView>,
) -> Map<RecordHandle, SwitchView>
    decreases loaded.len(),
{
    if loaded.len() == 0 {
        switches
    } else {
        switch_loaded(
            registry,
            switches_loaded(registry, switches, loaded.drop_last()),
            loaded.last(),
        )
    }
}

/// The values of a list of switches.
pub open spec fn switch_views(switchs: Seq<Switch>) -> Seq<SwitchView> {
    Seq::new(switchs.len(), |i: int| switchs[i]@)
}

/// Loads switches: each goes to the asset of its identity; a switch of an
/// identity that no asset has is dropped.
pub fn load_switchs(
    switches: &mut Components<Switch>,
    registery: &PhysicalAssetRegistry,
    switchs: Vec<Switch>,
)
    ensures
        final(switches)@ == switches_loaded(registery@, old(switches)@, switch_views(switchs@)),
{
    let ghost start = switches@;
    let ghost all = switch_views(switchs@);
    for switch in iter: switchs
        invariant
            iter.seq() == switchs@,
            all == switch_views(switchs@),
            switches@ == switches_loaded(registery@, start, all.take(iter.index() as int)),
    {
        proof {
            let done = iter.index() as int;
            assert(all.take(done + 1).drop_last() =~= all.take(done));
        }
        match registery.find_physical_asset_by_id(switch.id.as_str()) {
            Some(entity) => {
                add_switch_component(switches, entity, switch);
            },
            None => {},
        }
    }
    proof {
        assert(all.take(all.len() as int) =~= all);
    }
}

/// Opens or closes the switch of an asset. An asset without a switch is
/// left as it is.
pub fn change_switch(switches: &mut Components<Switch>, open: bool, entity: RecordHandle)
    ensures
        old(switches)@.dom().contains(entity) ==> final(switches)@ == old(switches)@.insert(
            entity,
            SwitchView { open, ..old(switches)@[entity] },
        ),
        !old(switches)@.dom().contains(entity) ==> final(switches)@ == old(switches)@,
{
    switches.set_open(entity, open);
}

} // verus!
