//! Mutation core of an in-memory store of power-grid equipment records.
//!
//! Records are registered under a string identity and updated field by
//! field. A payload is validated against an allowlist and a schema before
//! anything is queued; queued instructions take effect when they are
//! flushed, in the order in which they were queued.

pub mod decode;
pub mod ecs;
pub mod entities;
pub mod extensions;
pub mod handlers;
pub mod iidm_ecs;
pub mod json;
pub mod metadata_grid;
pub mod plugins;
pub mod resources;
pub mod schema;
pub mod store;
pub mod update_registry;
pub mod validation;

pub use crate::decode::{Real, Timestamp};
pub use crate::ecs::{EcsState, World};
pub use crate::entities::current_limits::{
    CurrentLimits, CurrentLimitsError, CurrentLimitsUpdater,
};
pub use crate::entities::line::{Line, LineError, LineUpdater};
pub use crate::entities::network::{Network, NetworkError, NetworkUpdater};
pub use crate::entities::substation::{Substation, SubstationError, SubstationUpdater};
pub use crate::entities::temporary_limit::{
    TemporaryLimit, TemporaryLimitError, TemporaryLimitUpdater,
};
pub use crate::extensions::{Identifiable, JsonSchema, Updatable};
pub use crate::handlers::{
    IIdmTableTemplate, LinesSectionTemplate, RegisterRequest, RegisterResponse, UpdateError,
    UploadError, UploadField,
};
pub use crate::json::{Json, JsonNumber};
pub use crate::metadata_grid::{
    find_bus_node_by_equipment_id, find_edge_by_equipment_id, find_node_by_equipment_id,
    load_bus_nodes_from_metadata, load_edges_from_metadata, load_nodes_from_metadata,
    spawn_bus_node, spawn_edge, spawn_node, BusNode, BusNodeRegistry, Edge, EdgeRegistry,
    EquipmentId, LayoutParameters, MetadataGrid, Node, NodeRegistry, Padding, Point,
    SvgParameters, TextNode,
};
pub use crate::plugins::{
    handle_register_events, handle_update_events, EntityNotFoundEvent, ErrorType, RegisterEvent,
    UpdateEvent,
};
pub use crate::resources::{AssetRegistry, Id, PhysicalAssetRegistry, RecordHandle};
pub use crate::store::Components;
pub use crate::update_registry::{DispatchError, UpdateRegistry};
pub use crate::validation::ValidationError;
