//! The layout of a network diagram, and the registries of what it places.

use vstd::prelude::*;
use crate::decode::Real;
use crate::resources::{PhysicalAssetRegistry, RecordHandle, RegistryView};

verus! {

/// A point of the diagram.
#[derive(Clone, Debug, Default)]
pub struct Point {
    pub x: Real,
    pub y: Real,
}

/// How the diagram was laid out.
#[derive(Clone, Debug, Default)]
pub struct LayoutParameters {
    pub text_nodes_force_layout: bool,
    pub spring_repulsion_factor_force_layout: Real,
    pub text_node_fixed_shift: Point,
    pub max_steps: i32,
    pub text_node_edge_connection_y_shift: Real,
}

/// The margins of the diagram.
#[derive(Clone, Debug, Default)]
pub struct Padding {
    pub left: Real,
    pub top: Real,
    pub right: Real,
    pub bottom: Real,
}

/// How the diagram was drawn.
#[derive(Clone, Debug, Default)]
pub struct SvgParameters {
    pub diagram_padding: Padding,
    pub insert_name_desc: bool,
    pub svg_width_and_height_added: bool,
    pub css_location: String,
    pub size_constraint: String,
    pub fixed_width: Real,
    pub fixed_height: Real,
    pub fixed_scale: Real,
    pub arrow_shift: Real,
    pub arrow_label_shift: Real,
    pub converter_station_width: Real,
    pub voltage_level_circle_radius: Real,
    pub fictitious_voltage_level_circle_radius: Real,
    pub transformer_circle_radius: Real,
    pub node_hollow_width: Real,
    pub edges_fork_length: Real,
    pub edges_fork_aperture: Real,
    pub edge_start_shift: Real,
    pub unknown_bus_node_extra_radius: Real,
    pub loop_distance: Real,
    pub loop_edges_aperture: Real,
    pub loop_control_distance: Real,
    pub edge_info_along_edge: bool,
    pub edge_name_displayed: bool,
    pub inter_annulus_space: Real,
    pub svg_prefix: String,
    pub id_displayed: bool,
    pub substation_description_displayed: bool,
    pub arrow_height: Real,
    pub bus_legend: bool,
    pub voltage_level_details: bool,
    pub language_tag: String,
    pub voltage_value_precision: i32,
    pub power_value_precision: i32,
    pub angle_value_precision: i32,
    pub current_value_precision: i32,
    pub edge_info_displayed: String,
    pub pst_arrow_head_size: Real,
    pub undefined_value_symbol: String,
}

/// A bus of the diagram.
#[derive(Clone, Debug, Default)]
pub struct BusNode {
    pub svg_id: String,
    pub equipment_id: String,
    pub nb_neighbours: i32,
    pub index: i32,
    pub vl_node: String,
}

/// A voltage level of the diagram.
#[derive(Clone, Debug, Default)]
pub struct Node {
    pub svg_id: String,
    pub equipment_id: String,
    pub x: Real,
    pub y: Real,
}

/// An edge of the diagram.
#[derive(Clone, Debug, Default)]
pub struct Edge {
    pub svg_id: String,
    pub equipment_id: String,
    pub node1: String,
    pub node2: String,
    pub bus_node1: String,
    pub bus_node2: String,
    pub edge_type: String,
}

/// A label of the diagram.
#[derive(Clone, Debug, Default)]
pub struct TextNode {
    pub svg_id: String,
    pub equipment_id: String,
    pub vl_node: String,
    pub shift_x: Real,
    pub shift_y: Real,
    pub connection_shift_x: Real,
    pub connection_shift_y: Real,
}

/// The layout of a network diagram: its parameters, and the nodes, edges
/// and labels that it places.
#[derive(Clone, Debug, Default)]
pub struct MetadataGrid {
    pub layout_parameters: LayoutParameters,
    pub svg_parameters: SvgParameters,
    pub bus_nodes: Vec<BusNode>,
    pub nodes: Vec<Node>,
    pub edges: Vec<Edge>,
    pub text_nodes: Vec<TextNode>,
}

/// The identity of the equipment that a handle of a diagram stands for.
#[derive(Clone, Debug)]
pub struct EquipmentId(pub String);

/// The registry after a handle was minted for each of `ids`, in order.
pub open spec fn spawned_all(registry: RegistryView, ids: Seq<Seq<char>>) -> RegistryView
    decreases ids.len(),
{
    if ids.len() == 0 {
        registry
    } else {
        spawned_all(registry, ids.drop_last()).spawned(ids.last())
    }
}

/// The registry of the voltage levels of a diagram, by the identity of their
/// equipment.
#[derive(Default)]
pub struct NodeRegistry(pub PhysicalAssetRegistry);

/// Mints a handle for the equipment `equipment_id` and makes it the handle
/// of that equipment, whether or not it had one before. The handle is new:
/// no equipment had it, this one neither.
pub fn spawn_node(node_registry: &mut NodeRegistry, equipment_id: String) -> (minted: RecordHandle)
    ensures
        final(node_registry).0@ == old(node_registry).0@.spawned(equipment_id@),
        PhysicalAssetRegistry::spec_find(final(node_registry).0@, equipment_id@) == Some(minted),
        minted.to_bits() == old(node_registry).0@.minted(),
        PhysicalAssetRegistry::is_fresh(old(node_registry).0@, minted),
        forall|other: Seq<char>|
            other != equipment_id@ ==> PhysicalAssetRegistry::spec_find(
                final(node_registry).0@,
                other,
            ) == PhysicalAssetRegistry::spec_find(old(node_registry).0@, other),
{
    node_registry.0.spawn_physical_asset(equipment_id)
}

/// The handle of the equipment `equipment_id`, if it has one.
pub fn find_node_by_equipment_id(node_registry: &NodeRegistry, equipment_id: &str) -> (found: Option<
    RecordHandle,
>)
    ensures
        found == PhysicalAssetRegistry::spec_find(node_registry.0@, equipment_id@),
{
    node_registry.0.find_physical_asset_by_id(equipment_id)
}

/// The identities of the equipment of the voltage levels of a diagram.
pub open spec fn node_equipment(grid: MetadataGrid) -> Seq<Seq<char>> {
    Seq::new(grid.nodes.len() as nat, |i: int| grid.nodes[i].equipment_id@)
}

/// Mints a handle for the equipment of each voltage level of the diagram,
/// in order.
pub fn load_nodes_from_metadata(node_registry: &mut NodeRegistry, grid: &MetadataGrid)
    ensures
        final(node_registry).0@ == spawned_all(old(node_registry).0@, node_equipment(*grid)),
{
    let ghost start = node_registry.0@;
    let ghost all = node_equipment(*grid);
    let mut i: usize = 0;
    while i < grid.nodes.len()
        invariant
            i <= grid.nodes.len(),
            all == node_equipment(*grid),
            node_registry.0@ == spawned_all(start, all.take(i as int)),
        decreases grid.nodes.len() - i,
    {
        proof {
            assert(all.take(i + 1).drop_last() =~= all.take(i as int));
        }
        spawn_node(node_registry, grid.nodes[i].equipment_id.clone());
        i += 1;
    }
    proof {
        assert(all.take(all.len() as int) =~= all);
    }
}

/// The registry of the buses of a diagram, by the identity of their
/// equipment.
#[derive(Default)]
pub struct BusNodeRegistry(pub PhysicalAssetRegistry);

/// Mints a handle for the equipment `equipment_id` and makes it the handle
/// of that equipment, whether or not it had one before. The handle is new:
/// no equipment had it, this one neither.
pub fn spawn_bus_node(bus_node_registry: &mut BusNodeRegistry, equipment_id: String) -> (minted: RecordHandle)
    ensures
        final(bus_node_registry).0@ == old(bus_node_registry).0@.spawned(equipment_id@),
        PhysicalAssetRegistry::spec_find(final(bus_node_registry).0@, equipment_id@) == Some(minted),
        minted.to_bits() == old(bus_node_registry).0@.minted(),
        PhysicalAssetRegistry::is_fresh(old(bus_node_registry).0@, minted),
        forall|other: Seq<char>|
            other != equipment_id@ ==> PhysicalAssetRegistry::spec_find(
                final(bus_node_registry).0@,
                other,
            ) == PhysicalAssetRegistry::spec_find(old(bus_node_registry).0@, other),
{
    bus_node_registry.0.spawn_physical_asset(equipment_id)
}

/// The handle of the equipment `equipment_id`, if it has one.
pub fn find_bus_node_by_equipment_id(bus_node_registry: &BusNodeRegistry, equipment_id: &str) -> (found: Option<
    RecordHandle,
>)
    ensures
        found == PhysicalAssetRegistry::spec_find(bus_node_registry.0@, equipment_id@),
{
    bus_node_registry.0.find_physical_asset_by_id(equipment_id)
}

/// The identities of the equipment of the buses of a diagram.
pub open spec fn bus_node_equipment(grid: MetadataGrid) -> Seq<Seq<char>> {
    Seq::new(grid.bus_nodes.len() as nat, |i: int| grid.bus_nodes[i].equipment_id@)
}

/// Mints a handle for the equipment of each bus of the diagram, in order.
pub fn load_bus_nodes_from_metadata(bus_node_registry: &mut BusNodeRegistry, grid: &MetadataGrid)
    ensures
        final(bus_node_registry).0@ == spawned_all(old(bus_node_registry).0@, bus_node_equipment(*grid)),
{
    let ghost start = bus_node_registry.0@;
    let ghost all = bus_node_equipment(*grid);
    let mut i: usize = 0;
    while i < grid.bus_nodes.len()
        invariant
            i <= grid.bus_nodes.len(),
            all == bus_node_equipment(*grid),
            bus_node_registry.0@ == spawned_all(start, all.take(i as int)),
        decreases grid.bus_nodes.len() - i,
    {
        proof {
            assert(all.take(i + 1).drop_last() =~= all.take(i as int));
        }
        spawn_bus_node(bus_node_registry, grid.bus_nodes[i].equipment_id.clone());
        i += 1;
    }
    proof {
        assert(all.take(all.len() as int) =~= all);
    }
}

/// The registry of the edges of a diagram, by the identity of their
/// equipment.
#[derive(Default)]
pub struct EdgeRegistry(pub PhysicalAssetRegistry);

/// Mints a handle for the equipment `equipment_id` and makes it the handle
/// of that equipment, whether or not it had one before. The handle is new:
/// no equipment had it, this one neither.
pub fn spawn_edge(edge_registry: &mut EdgeRegistry, equipment_id: String) -> (minted: RecordHandle)
    ensures
        final(edge_registry).0@ == old(edge_registry).0@.spawned(equipment_id@),
        PhysicalAssetRegistry::spec_find(final(edge_registry).0@, equipment_id@) == Some(minted),
        minted.to_bits() == old(edge_registry).0@.minted(),
        PhysicalAssetRegistry::is_fresh(old(edge_registry).0@, minted),
        forall|other: Seq<char>|
            other != equipment_id@ ==> PhysicalAssetRegistry::spec_find(
                final(edge_registry).0@,
                other,
            ) == PhysicalAssetRegistry::spec_find(old(edge_registry).0@, other),
{
    edge_registry.0.spawn_physical_asset(equipment_id)
}

/// The handle of the equipment `equipment_id`, if it has one.
pub fn find_edge_by_equipment_id(edge_registry: &EdgeRegistry, equipment_id: &str) -> (found: Option<
    RecordHandle,
>)
    ensures
        found == PhysicalAssetRegistry::spec_find(edge_registry.0@, equipment_id@),
{
    edge_registry.0.find_physical_asset_by_id(equipment_id)
}

/// The identities of the equipment that the registry of edges is loaded
/// with: those of the buses of the diagram.
pub open spec fn edge_equipment(grid: MetadataGrid) -> Seq<Seq<char>> {
    Seq::new(grid.bus_nodes.len() as nat, |i: int| grid.bus_nodes[i].equipment_id@)
}

/// Mints a handle for each equipment that the registry of edges is loaded
/// with, in order.
pub fn load_edges_from_metadata(edge_registry: &mut EdgeRegistry, grid: &MetadataGrid)
    ensures
        final(edge_registry).0@ == spawned_all(old(edge_registry).0@, edge_equipment(*grid)),
{
    let ghost start = edge_registry.0@;
    let ghost all = edge_equipment(*grid);
    let mut i: usize = 0;
    while i < grid.bus_nodes.len()
        invariant
            i <= grid.bus_nodes.len(),
            all == edge_equipment(*grid),
            edge_registry.0@ == spawned_all(start, all.take(i as int)),
        decreases grid.bus_nodes.len() - i,
    {
        proof {
            assert(all.take(i + 1).drop_last() =~= all.take(i as int));
        }
        spawn_edge(edge_registry, grid.bus_nodes[i].equipment_id.clone());
        i += 1;
    }
    proof {
        assert(all.take(all.len() as int) =~= all);
    }
}

} // verus!
