//! Requests, answers and the errors that go back to the caller.

use vstd::prelude::*;
use vstd::string::StringExecFns;
use crate::ecs::World;
use crate::entities::line::Line;
use crate::entities::network::{Network, NetworkError};
use crate::extensions::{Fault, Identifiable, JsonSchema, Updatable};
use crate::json::{json_of_text, json_of_value, same_text, JsonView};
use crate::plugins::{
    failure_views, handle_register_events, handle_update_events, register, registered, update,
    EntityNotFoundEvent, ErrorType, FailureView, RegisterEvent, RegisterEventView, TypedWorld,
    UpdateEvent,
};
use crate::resources::{PhysicalAssetRegistry, RecordHandle, RegistryView};
use crate::store::Components;
use crate::validation::{validated_value, Rejection};

verus! {

/// A request to register or update a record: its identity and the raw
/// payload.
#[derive(Debug)]
pub struct RegisterRequest {
    pub id: String,
    pub component: serde_json::Value,
}

/// The mathematical value of a [`RegisterRequest`].
pub struct RequestView {
    pub id: Seq<char>,
    pub component: JsonView,
}

impl View for RegisterRequest {
    type V = RequestView;

    open spec fn view(&self) -> RequestView {
        RequestView { id: self.id@, component: json_of_value(self.component) }
    }
}

/// The answer to a request.
#[derive(Debug)]
pub struct RegisterResponse {
    pub status: String,
}

/// Why a request failed.
#[derive(Debug)]
pub enum UpdateError {
    /// The payload could not be written or read as JSON.
    SerializationError(String),
    /// The payload did not pass validation.
    ValidationError(String),
    /// The record, or its component of the type, does not exist.
    NotFoundError(String),
    /// The store is not set up for the type.
    InternalError(String),
}

impl UpdateError {
    /// The text of [`UpdateError::to_string`].
    pub open spec fn message(self) -> Seq<char> {
        match self {
            UpdateError::SerializationError(detail) => "Failed to parse JSON: "@ + detail@,
            UpdateError::ValidationError(detail) => "Invalid network data: "@ + detail@,
            UpdateError::NotFoundError(detail) => "Component not found: "@ + detail@,
            UpdateError::InternalError(detail) => "Internal server error: "@ + detail@,
        }
    }

    /// The HTTP status that goes with this error.
    pub open spec fn spec_status_code(self) -> u16 {
        match self {
            UpdateError::SerializationError(_) | UpdateError::ValidationError(_) => 400,
            UpdateError::NotFoundError(_) => 404,
            UpdateError::InternalError(_) => 500,
        }
    }

    /// The error in words.
    pub fn to_string(&self) -> (text: String)
        ensures
            text@ == self.message(),
    {
        match self {
            UpdateError::SerializationError(detail) => String::from_str(
                "Failed to parse JSON: ",
            ).concat(detail.as_str()),
            UpdateError::ValidationError(detail) => String::from_str(
                "Invalid network data: ",
            ).concat(detail.as_str()),
            UpdateError::NotFoundError(detail) => String::from_str("Component not found: ").concat(
                detail.as_str(),
            ),
            UpdateError::InternalError(detail) => String::from_str(
                "Internal server error: ",
            ).concat(detail.as_str()),
        }
    }

    /// The HTTP status that goes with this error: 400 for a payload that
    /// is malformed or invalid, 404 for a record or component that does not
    /// exist, 500 for the rest.
    pub fn status_code(&self) -> (status: u16)
        ensures
            status == self.spec_status_code(),
    {
        match self {
            UpdateError::SerializationError(_) | UpdateError::ValidationError(_) => 400,
            UpdateError::NotFoundError(_) => 404,
            UpdateError::InternalError(_) => 500,
        }
    }

    /// The answer that reports this error: its status and, as the body,
    /// the error in words.
    pub fn into_response(self) -> (answer: (u16, RegisterResponse))
        ensures
            answer.0 == self.spec_status_code(),
            answer.1.status@ == self.message(),
    {
        let status = self.status_code();
        let body = RegisterResponse { status: self.to_string() };
        (status, body)
    }
}

/// The words for an identity that no record has.
pub open spec fn entity_not_found(id: Seq<char>) -> Seq<char> {
    "Entity with ID '"@ + id + "' not found"@
}

/// The words for a record that has no component of a type.
pub open spec fn component_not_found(component_type: Seq<char>, id: Seq<char>) -> Seq<char> {
    "Component of type '"@ + component_type + "' not found on entity with ID '"@ + id + "'"@
}

/// The words that report a failure of the flush.
pub open spec fn failure_detail(failure: FailureView) -> Seq<char> {
    match failure.error_type {
        ErrorType::EntityNotFound => entity_not_found(failure.id),
        ErrorType::ComponentNotFound => component_not_found(failure.component_type, failure.id),
    }
}

/// The position of the first of `failures`, from `from` on, that belongs
/// to the request `id`.
pub open spec fn first_failure(failures: Seq<FailureView>, id: Seq<char>, from: int) -> Option<int>
    decreases failures.len() - from,
{
    if from < 0 || from >= failures.len() {
        None
    } else if failures[from].id == id {
        Some(from)
    } else {
        first_failure(failures, id, from + 1)
    }
}

/// The error that reports a failure of the flush.
fn not_found(failure: &EntityNotFoundEvent) -> (error: UpdateError)
    ensures
        error matches UpdateError::NotFoundError(detail) && detail@ == failure_detail(failure@),
{
    match failure.error_type {
        ErrorType::EntityNotFound => UpdateError::NotFoundError(
            String::from_str("Entity with ID '").concat(failure.id.as_str()).concat("' not found"),
        ),
        ErrorType::ComponentNotFound => UpdateError::NotFoundError(
            String::from_str("Component of type '").concat(
                failure.component_type.as_str(),
            ).concat("' not found on entity with ID '").concat(failure.id.as_str()).concat("'"),
        ),
    }
}

/// The first failure of a flush that belongs to the request `id`, as the
/// error that goes back to the caller.
pub fn failure_for(failures: &Vec<EntityNotFoundEvent>, id: &str) -> (found: Option<UpdateError>)
    ensures
        match first_failure(failure_views(failures@), id@, 0) {
            None => found is None,
            Some(at) => found matches Some(UpdateError::NotFoundError(detail)) && detail@
                == failure_detail(failure_views(failures@)[at]),
        },
{
    let mut i: usize = 0;
    while i < failures.len()
        invariant
            i <= failures.len(),
            failure_views(failures@).len() == failures.len(),
            first_failure(failure_views(failures@), id@, 0) == first_failure(
                failure_views(failures@),
                id@,
                i as int,
            ),
        decreases failures.len() - i,
    {
        if same_text(failures[i].id.as_str(), id) {
            return Some(not_found(&failures[i]));
        }
        i += 1;
    }
    None
}

/// Whether `served` and `after` are what serving the update request
/// `request` comes to, for records of type `C` under the tag
/// `component_type`: a payload that does not pass validation, an identity
/// without a handle and a handle without a record of the type are errors
/// and change no record; otherwise the record takes the update.
pub open spec fn update_served<C: Updatable>(
    component_type: Seq<char>,
    registry: RegistryView,
    before: Map<RecordHandle, C::V>,
    request: RequestView,
    after: Map<RecordHandle, C::V>,
    served: Result<(), UpdateError>,
) -> bool {
    match validated_value::<C::Updater>(request.component) {
        Err(_) => served matches Err(UpdateError::ValidationError(_)) && after == before,
        Ok(updates) => match PhysicalAssetRegistry::spec_find(registry, request.id) {
            None => served matches Err(UpdateError::NotFoundError(detail)) && detail@
                == entity_not_found(request.id) && after == before,
            Some(handle) => if before.dom().contains(handle) {
                served is Ok && after == before.insert(handle, C::merged(before[handle], updates))
            } else {
                served matches Err(UpdateError::NotFoundError(detail)) && detail@
                    == component_not_found(component_type, request.id) && after == before
            },
        },
    }
}

/// Whether `served` and the world `after` are what serving the register
/// request `request` comes to, for records of type `T`: a payload that
/// does not pass validation is an error and changes nothing; otherwise the
/// identity has a handle, its own or a new one, and the handle holds the
/// record.
pub open spec fn register_served<T: JsonSchema>(
    before: TypedWorld<T::V>,
    request: RequestView,
    after: TypedWorld<T::V>,
    served: Result<(), UpdateError>,
) -> bool {
    match validated_value::<T>(request.component) {
        Err(_) => served matches Err(UpdateError::ValidationError(_)) && after == before,
        Ok(record) => served is Ok && after == registered(
            before,
            RegisterEventView { id: request.id, component: record },
        ),
    }
}

/// Serves one update request for records of type `C`: validates the
/// payload as a sparse update, queues it, flushes the queue, and reports
/// the failure that the flush recorded for this request, if any. Only a
/// request that passes validation and meets a record with a component of
/// the type changes the store.
pub fn update_component<C: Updatable>(
    component_type: &str,
    registry: &PhysicalAssetRegistry,
    components: &mut Components<C>,
    payload: &RegisterRequest,
) -> (served: Result<(), UpdateError>)
    ensures
        update_served::<C>(
            component_type@,
            registry@,
            old(components)@,
            payload@,
            final(components)@,
            served,
        ),
{
    let mut queue: Vec<UpdateEvent<C>> = Vec::new();
    match update(&mut queue, payload.id.as_str(), &payload.component) {
        Ok(()) => {},
        Err(error) => {
            return Err(UpdateError::ValidationError(<C::Updater as JsonSchema>::error_text(&error)));
        },
    }
    let mut failures: Vec<EntityNotFoundEvent> = Vec::new();
    proof {
        reveal_with_fuel(crate::plugins::updated_all, 2);
    }
    handle_update_events(queue, component_type, registry, components, &mut failures);
    match failure_for(&failures, payload.id.as_str()) {
        Some(error) => Err(error),
        None => Ok(()),
    }
}

/// The answer to an update that was applied.
pub open spec fn is_confirmation(answer: (u16, RegisterResponse)) -> bool {
    answer.0 == 200 && answer.1.status@ == "Component updated successfully"@
}

/// Serves one update request and words the answer: status 200 with a
/// confirmation where the update was applied.
pub fn update_iidm<C: Updatable>(
    component_type: &str,
    registry: &PhysicalAssetRegistry,
    components: &mut Components<C>,
    payload: &RegisterRequest,
) -> (answer: Result<(u16, RegisterResponse), UpdateError>)
    ensures
        answer matches Ok(sent) ==> is_confirmation(sent),
        update_served::<C>(
            component_type@,
            registry@,
            old(components)@,
            payload@,
            final(components)@,
            match answer {
                Ok(_) => Ok(()),
                Err(error) => Err(error),
            },
        ),
{
    match update_component(component_type, registry, components, payload) {
        Ok(()) => Ok(
            (200, RegisterResponse { status: String::from_str("Component updated successfully") }),
        ),
        Err(error) => Err(error),
    }
}

/// Serves one register request for records of type `T`: validates the
/// payload as a full record, queues it, and flushes the queue. The
/// identity gets a handle if it had none, and the handle holds the record
/// in place of any record of the type that it held. A payload that does
/// not pass validation changes nothing.
pub fn register_component<T: JsonSchema>(
    registry: &mut PhysicalAssetRegistry,
    components: &mut Components<T>,
    payload: &RegisterRequest,
) -> (served: Result<(), UpdateError>)
    ensures
        register_served::<T>(
            TypedWorld { registry: old(registry)@, records: old(components)@ },
            payload@,
            TypedWorld { registry: final(registry)@, records: final(components)@ },
            served,
        ),
{
    let mut queue: Vec<RegisterEvent<T>> = Vec::new();
    match register(&mut queue, payload.id.as_str(), &payload.component) {
        Ok(()) => {},
        Err(error) => {
            return Err(UpdateError::ValidationError(T::error_text(&error)));
        },
    }
    proof {
        reveal_with_fuel(crate::plugins::registered_all, 2);
    }
    handle_register_events(queue, registry, components);
    Ok(())
}

/// What the page of an uploaded network shows: a message, and the
/// network if there is one.
#[derive(Debug)]
pub struct IIdmTableTemplate {
    pub message: String,
    pub network: Option<Network>,
}

impl IIdmTableTemplate {
    /// The page for a message and a network.
    pub fn new(message: String, network: Option<Network>) -> (page: IIdmTableTemplate)
        ensures
            page.message == message,
            page.network == network,
    {
        Self { message, network }
    }
}

/// What the section of lines shows.
#[derive(Debug)]
pub struct LinesSectionTemplate {
    pub lines: Vec<Line>,
}

/// The section of lines before any line is known.
pub fn lines_section_handler() -> (section: LinesSectionTemplate)
    ensures
        section.lines@ == Seq::<Line>::empty(),
{
    LinesSectionTemplate { lines: Vec::new() }
}

/// Why an upload failed.
#[derive(Debug)]
pub enum UploadError {
    /// A part of the form could not be read.
    MultipartError(String),
    /// The file is no network.
    JsonError(NetworkError),
    /// The page could not be rendered.
    TemplateError(String),
    /// The form holds no file.
    NoFile,
}

impl UploadError {
    /// The text of [`UploadError::to_string`].
    pub open spec fn message(self) -> Seq<char> {
        match self {
            UploadError::MultipartError(detail) => "Multipart field error: "@ + detail@,
            UploadError::JsonError(error) => "JSON parsing error: "@ + error.message(),
            UploadError::TemplateError(detail) => "Template rendering error: "@ + detail@,
            UploadError::NoFile => "No IIDM file provided"@,
        }
    }

    /// The error in words.
    pub fn to_string(&self) -> (text: String)
        ensures
            text@ == self.message(),
    {
        match self {
            UploadError::MultipartError(detail) => String::from_str(
                "Multipart field error: ",
            ).concat(detail.as_str()),
            UploadError::JsonError(error) => String::from_str("JSON parsing error: ").concat(
                error.to_string().as_str(),
            ),
            UploadError::TemplateError(detail) => String::from_str(
                "Template rendering error: ",
            ).concat(detail.as_str()),
            UploadError::NoFile => String::from_str("No IIDM file provided"),
        }
    }

    /// The answer that reports this error: status 400 and the error in
    /// words.
    pub fn into_response(self) -> (answer: (u16, String))
        ensures
            answer.0 == 400,
            answer.1@ == self.message(),
    {
        (400, self.to_string())
    }
}

/// One part of an uploaded form: its name, if it has one, and what it
/// holds.
#[derive(Debug)]
pub struct UploadField {
    pub name: Option<String>,
    pub content: String,
}

/// Whether a part of a form is the one that holds the network file.
pub open spec fn is_network_file(field: UploadField) -> bool {
    field.name matches Some(name) && name@ == "iidm_file"@
}

/// The position of the first of `fields`, from `from` on, that holds the
/// network file.
pub open spec fn first_network_file(fields: Seq<UploadField>, from: int) -> Option<int>
    decreases fields.len() - from,
{
    if from < 0 || from >= fields.len() {
        None
    } else if is_network_file(fields[from]) {
        Some(from)
    } else {
        first_network_file(fields, from + 1)
    }
}

/// Reads the network out of an uploaded form: out of the first part named
/// `iidm_file`. A form without such a part holds no file.
pub fn process_upload(fields: &Vec<UploadField>) -> (read: Result<Network, UploadError>)
    ensures
        match first_network_file(fields@, 0) {
            None => read matches Err(UploadError::NoFile),
            Some(at) => match json_of_text(fields[at].content@) {
                None => read matches Err(UploadError::JsonError(error)) && error.fault()
                    == Fault::Rejected(Rejection::Malformed),
                Some(payload) => match Network::spec_decoded(payload) {
                    Ok(network) => read is Ok && read->Ok_0@ == network,
                    Err(fault) => read matches Err(UploadError::JsonError(error)) && error.fault()
                        == fault,
                },
            },
        },
{
    let mut i: usize = 0;
    while i < fields.len()
        invariant
            i <= fields.len(),
            first_network_file(fields@, 0) == first_network_file(fields@, i as int),
        decreases fields.len() - i,
    {
        let named = match &fields[i].name {
            Some(name) => same_text(name.as_str(), "iidm_file"),
            None => false,
        };
        if named {
            return match Network::from_json_str(fields[i].content.as_str()) {
                Ok(network) => Ok(network),
                Err(error) => Err(UploadError::JsonError(error)),
            };
        }
        i += 1;
    }
    Err(UploadError::NoFile)
}

/// Registers an uploaded network, with its substations and its lines.
pub fn update_ecs_state(world: &mut World, network: &Network)
    ensures
        final(world)@ == Network::registered(old(world)@, network@),
{
    network.register(world);
}

/// Serves an upload: reads the network out of the form and registers it.
/// A form without a network changes nothing.
pub fn upload_iidm(world: &mut World, fields: &Vec<UploadField>) -> (uploaded: Result<
    Network,
    UploadError,
>)
    ensures
        match uploaded {
            Ok(network) => final(world)@ == Network::registered(old(world)@, network@),
            Err(_) => final(world)@ == old(world)@,
        },
        match first_network_file(fields@, 0) {
            None => uploaded matches Err(UploadError::NoFile),
            Some(at) => match json_of_text(fields[at].content@) {
                None => uploaded matches Err(UploadError::JsonError(error)) && error.fault()
                    == Fault::Rejected(Rejection::Malformed),
                Some(payload) => match Network::spec_decoded(payload) {
                    Ok(network) => uploaded is Ok && uploaded->Ok_0@ == network,
                    Err(fault) => uploaded matches Err(UploadError::JsonError(error))
                        && error.fault() == fault,
                },
            },
        },
{
    match process_upload(fields) {
        Ok(network) => {
            update_ecs_state(world, &network);
            Ok(network)
        },
        Err(error) => Err(error),
    }
}

} // verus!
