//! What a record type offers to the store: an identity, a sparse update,
//! and a description of its wire format.

use vstd::prelude::*;
use vstd::string::StringExecFns;
use crate::ecs::{World, WorldView};
use crate::json::{json_of_text, Json, JsonView};
use crate::validation::{rejection, shape_rejection, Rejection, ValidationError};

verus! {

/// Why a payload did not become a typed value.
pub enum Fault {
    /// Validation turned it away.
    Rejected(Rejection),
    /// The field with this wire name is missing or holds a wrong value.
    Field(Seq<char>),
    /// A date could not be read.
    Date,
    /// Anything else.
    Unknown,
}

/// The words for a field that is at fault: its wire name, and the detail.
pub open spec fn field_error_text(wire: Seq<char>, detail: Seq<char>) -> Seq<char> {
    wire + " error: "@ + detail
}

/// The detail of a field that is missing or holds a wrong value.
pub open spec fn invalid_value_text() -> Seq<char> {
    "missing or invalid value"@
}

/// The words for a field that is at fault.
pub fn field_error(wire: &str, detail: &str) -> (text: String)
    ensures
        text@ == field_error_text(wire@, detail@),
{
    String::from_str(wire).concat(" error: ").concat(detail)
}

/// Whether `message` is what a decoding error that reports `fault` says:
/// a field at fault is named, and said to be missing or invalid.
pub open spec fn worded(fault: Fault, message: Seq<char>) -> bool {
    fault matches Fault::Field(wire) ==> message == field_error_text(wire, invalid_value_text())
}

/// A record with an identity, which the store can register.
pub trait Identifiable: Sized + View {
    /// The identity of a record.
    spec fn spec_id(record: Self::V) -> Seq<char>;

    /// The world after a record was registered: its identity has a handle,
    /// the handle holds the record in place of any record of the type that
    /// it held, and the same goes for every record with an identity that
    /// the record holds, in the order of its fields.
    spec fn registered(world: WorldView, record: Self::V) -> WorldView;

    /// The identity of this record.
    fn id(&self) -> (id: String)
        ensures
            id@ == Self::spec_id(self@),
    ;

    /// Registers this record, and every record with an identity that it
    /// holds, and flushes.
    fn register(&self, world: &mut World)
        ensures
            final(world)@ == Self::registered(old(world)@, self@),
    ;
}

/// The wire format of a type: its allowlist, its schema and its decoder.
pub trait JsonSchema: Sized + View {
    /// The errors of this type.
    type Err;

    /// The wire names that a payload may use.
    spec fn spec_fields() -> Seq<Seq<char>>;

    /// The JSON Schema of a payload, as JSON text.
    spec fn spec_schema() -> Seq<char>;

    /// The typed value that a parsed payload stands for, or why it stands
    /// for none.
    spec fn decoded(json: JsonView) -> Result<Self::V, Fault>;

    /// What an error of this type reports.
    spec fn fault_of(error: Self::Err) -> Fault;

    /// The wire names that a payload may use.
    fn fields_json() -> (fields: Vec<String>)
        ensures
            fields.deep_view() == Self::spec_fields(),
    ;

    /// The JSON Schema of a payload, as JSON text.
    fn schema_json() -> (schema: String)
        ensures
            schema@ == Self::spec_schema(),
    ;

    /// The error that stands for a payload that validation turned away.
    fn rejected(error: ValidationError) -> (wrapped: Self::Err)
        ensures
            Self::fault_of(wrapped) == Fault::Rejected(error.kind()),
    ;

    /// An error of this type in words.
    spec fn message_of(error: Self::Err) -> Seq<char>;

    /// An error of this type in words.
    fn error_text(error: &Self::Err) -> (text: String)
        ensures
            text@ == Self::message_of(*error),
    ;

    /// Reads the typed value out of a parsed payload. The first field at
    /// fault, in the order of the fields, is the one reported.
    fn from_json(json: &Json) -> (read: Result<Self, Self::Err>)
        ensures
            match Self::decoded(json@) {
                Ok(value) => read is Ok && read->Ok_0@ == value,
                Err(fault) => read is Err && Self::fault_of(read->Err_0) == fault && worded(
                    fault,
                    Self::message_of(read->Err_0),
                ),
            },
    ;

    /// Validates a raw payload and reads the typed value out of it: the
    /// text must parse to an object, use only allowed names and satisfy the
    /// schema; what passes is decoded.
    fn validate_json(json: &str) -> (validated: Result<Self, Self::Err>)
        ensures
            match rejection(json@, Self::spec_fields(), Self::spec_schema()) {
                Some(found) => validated is Err && Self::fault_of(validated->Err_0)
                    == Fault::Rejected(found),
                None => match Self::decoded(json_of_text(json@)->Some_0) {
                    Ok(value) => validated is Ok && validated->Ok_0@ == value,
                    Err(fault) => validated is Err && Self::fault_of(validated->Err_0) == fault
                        && worded(fault, Self::message_of(validated->Err_0)),
                },
            },
    ;
}

/// A record that takes sparse updates.
pub trait Updatable: Sized + View {
    /// The sparse update: every field of the record but its identity, each
    /// present or absent.
    type Updater: JsonSchema;

    /// The record after `updates`: each field that is present in `updates`
    /// replaced, each absent one kept.
    spec fn merged(record: Self::V, updates: <Self::Updater as View>::V) -> Self::V;

    /// Whether every field of `updates` is absent.
    spec fn is_empty_update(updates: <Self::Updater as View>::V) -> bool;

    /// An update with every field absent changes nothing.
    proof fn empty_update_changes_nothing(record: Self::V, updates: <Self::Updater as View>::V)
        requires
            Self::is_empty_update(updates),
        ensures
            Self::merged(record, updates) == record,
    ;

    /// Applies a sparse update.
    fn update(&mut self, updates: Self::Updater)
        ensures
            final(self)@ == Self::merged(old(self)@, updates@),
    ;

    /// Applies the sparse update written in `json`. The text must be JSON
    /// with an object at the top, and every key must be a wire name of the
    /// update; what passes is decoded and applied. Anything else is an
    /// error and leaves the record as it was.
    fn update_from_json(&mut self, json: &str) -> (updated: Result<
        (),
        <Self::Updater as JsonSchema>::Err,
    >)
        ensures
            match json_of_text(json@) {
                None => updated is Err && <Self::Updater as JsonSchema>::fault_of(updated->Err_0)
                    == Fault::Rejected(Rejection::Malformed) && final(self)@ == old(self)@,
                Some(payload) => match shape_rejection(
                    payload,
                    <Self::Updater as JsonSchema>::spec_fields(),
                ) {
                    Some(found) => updated is Err && <Self::Updater as JsonSchema>::fault_of(
                        updated->Err_0,
                    ) == Fault::Rejected(found) && final(self)@ == old(self)@,
                    None => match <Self::Updater as JsonSchema>::decoded(payload) {
                        Ok(updates) => updated is Ok && final(self)@ == Self::merged(
                            old(self)@,
                            updates,
                        ),
                        Err(fault) => updated is Err && <Self::Updater as JsonSchema>::fault_of(
                            updated->Err_0,
                        ) == fault && final(self)@ == old(self)@,
                    },
                },
            },
    ;
}

} // verus!
