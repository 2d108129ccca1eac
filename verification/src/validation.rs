//! Validation of a raw payload before anything is stored.

use vstd::prelude::*;
use vstd::string::StringExecFns;
use crate::extensions::{Fault, JsonSchema};
use crate::json::{
    error_message, json_of_text, json_of_value, parse_value, value_to_json, Json, JsonView,
};
use crate::schema::{check_schema, schema_admits};

verus! {

/// Why a payload was turned away.
#[derive(Debug)]
pub enum ValidationError {
    /// The text is no JSON, or its top level is no object.
    MalformedInput(String),
    /// The payload has a key outside the allowlist; the key is given.
    UnexpectedField(String),
    /// The payload does not satisfy the schema; the details are given.
    SchemaViolation(String),
}

/// The kind of a [`ValidationError`], without its wording.
pub enum Rejection {
    Malformed,
    Unexpected(Seq<char>),
    Violation,
}

impl ValidationError {
    /// The kind of this error.
    pub open spec fn kind(self) -> Rejection {
        match self {
            ValidationError::MalformedInput(_) => Rejection::Malformed,
            ValidationError::UnexpectedField(name) => Rejection::Unexpected(name@),
            ValidationError::SchemaViolation(_) => Rejection::Violation,
        }
    }

    /// The text of [`ValidationError::to_string`].
    pub open spec fn message(self) -> Seq<char> {
        match self {
            ValidationError::MalformedInput(detail) => detail@,
            ValidationError::UnexpectedField(name) => "Unexpected field: "@ + name@,
            ValidationError::SchemaViolation(detail) => "Schema validation failed: "@ + detail@,
        }
    }

    /// The error in words.
    pub fn to_string(&self) -> (text: String)
        ensures
            text@ == self.message(),
    {
        match self {
            ValidationError::MalformedInput(detail) => detail.clone(),
            ValidationError::UnexpectedField(name) => String::from_str("Unexpected field: ").concat(
                name.as_str(),
            ),
            ValidationError::SchemaViolation(detail) => String::from_str(
                "Schema validation failed: ",
            ).concat(detail.as_str()),
        }
    }
}

/// The first of `keys`, from position `from` on, that is not in `allowed`.
pub open spec fn first_unexpected(keys: Seq<Seq<char>>, allowed: Seq<Seq<char>>, from: int) -> Option<
    Seq<char>,
>
    decreases keys.len() - from,
{
    if from < 0 || from >= keys.len() {
        None
    } else if !allowed.contains(keys[from]) {
        Some(keys[from])
    } else {
        first_unexpected(keys, allowed, from + 1)
    }
}

/// What [`first_unexpected`] finds is a key outside the allowlist, and the
/// first one; it finds none only where every key is allowed.
pub proof fn lemma_first_unexpected(keys: Seq<Seq<char>>, allowed: Seq<Seq<char>>, from: int)
    requires
        0 <= from <= keys.len(),
    ensures
        match first_unexpected(keys, allowed, from) {
            Some(name) => !allowed.contains(name) && exists|at: int|
                from <= at < keys.len() && keys[at] == name && forall|earlier: int|
                    from <= earlier < at ==> allowed.contains(#[trigger] keys[earlier]),
            None => forall|at: int| from <= at < keys.len() ==> allowed.contains(#[trigger] keys[at]),
        },
    decreases keys.len() - from,
{
    if from < keys.len() {
        if allowed.contains(keys[from]) {
            lemma_first_unexpected(keys, allowed, from + 1);
            match first_unexpected(keys, allowed, from + 1) {
                Some(name) => {
                    let at = choose|at: int|
                        from + 1 <= at < keys.len() && keys[at] == name && forall|earlier: int|
                            from + 1 <= earlier < at ==> allowed.contains(#[trigger] keys[earlier]);
                    assert(from <= at < keys.len() && keys[at] == name && forall|earlier: int|
                        from <= earlier < at ==> allowed.contains(#[trigger] keys[earlier]));
                },
                None => {},
            }
        } else {
            assert(from <= from < keys.len() && keys[from] == keys[from] && forall|earlier: int|
                from <= earlier < from ==> allowed.contains(#[trigger] keys[earlier]));
        }
    }
}

/// An object with a key outside the allowlist fails the check of its
/// shape for an unexpected field, whatever else it holds.
pub proof fn lemma_unexpected_key_fails_shape(payload: JsonView, allowed: Seq<Seq<char>>, at: int)
    requires
        payload is Object,
        0 <= at < payload.keys().len(),
        !allowed.contains(payload.keys()[at]),
    ensures
        shape_rejection(payload, allowed) matches Some(Rejection::Unexpected(name))
            && !allowed.contains(name),
{
    lemma_first_unexpected(payload.keys(), allowed, 0);
}

/// A payload with a key outside the allowlist is turned away for an
/// unexpected field, whatever else it holds and whatever the schema says.
pub proof fn lemma_unexpected_key_is_rejected(
    payload: JsonView,
    allowed: Seq<Seq<char>>,
    schema: Seq<char>,
    at: int,
)
    requires
        payload is Object,
        0 <= at < payload.keys().len(),
        !allowed.contains(payload.keys()[at]),
    ensures
        value_rejection(payload, allowed, schema) matches Some(Rejection::Unexpected(name))
            && !allowed.contains(name),
{
    lemma_first_unexpected(payload.keys(), allowed, 0);
}

/// What is wrong with the shape of a parsed payload: it must be an object,
/// and each of its keys must be in the allowlist.
pub open spec fn shape_rejection(payload: JsonView, allowed: Seq<Seq<char>>) -> Option<Rejection> {
    if !(payload is Object) {
        Some(Rejection::Malformed)
    } else {
        match first_unexpected(payload.keys(), allowed, 0) {
            Some(name) => Some(Rejection::Unexpected(name)),
            None => None,
        }
    }
}

/// Whether the schema written in `schema` is a JSON Schema that accepts
/// `payload`.
pub open spec fn schema_accepts(schema: Seq<char>, payload: JsonView) -> bool {
    match json_of_text(schema) {
        Some(parsed) => schema_admits(parsed, payload),
        None => false,
    }
}

/// Why a parsed payload is turned away, given the allowlist and the
/// schema; `None` where it passes.
pub open spec fn value_rejection(payload: JsonView, allowed: Seq<Seq<char>>, schema: Seq<char>) -> Option<
    Rejection,
> {
    match shape_rejection(payload, allowed) {
        Some(found) => Some(found),
        None => if schema_accepts(schema, payload) {
            None
        } else {
            Some(Rejection::Violation)
        },
    }
}

/// Why the text `raw` is turned away, given the allowlist and the schema;
/// `None` where it passes.
pub open spec fn rejection(raw: Seq<char>, allowed: Seq<Seq<char>>, schema: Seq<char>) -> Option<
    Rejection,
> {
    match json_of_text(raw) {
        None => Some(Rejection::Malformed),
        Some(payload) => value_rejection(payload, allowed, schema),
    }
}

/// Whether `name` is in the allowlist.
pub fn contains_name(allowed: &Vec<String>, name: &String) -> (found: bool)
    ensures
        found == allowed.deep_view().contains(name@),
{
    let mut i: usize = 0;
    while i < allowed.len()
        invariant
            i <= allowed.len(),
            forall|k: int| 0 <= k < i ==> allowed.deep_view()[k] != name@,
        decreases allowed.len() - i,
    {
        if allowed[i] == *name {
            assert(allowed.deep_view()[i as int] == name@);
            return true;
        }
        i += 1;
    }
    false
}

/// Checks the shape of a parsed payload: an object whose keys are all in the
/// allowlist. The first key outside it is the one reported.
pub fn check_shape(payload: &Json, allowed: &Vec<String>) -> (checked: Result<(), ValidationError>)
    ensures
        match shape_rejection(payload@, allowed.deep_view()) {
            None => checked is Ok,
            Some(found) => checked is Err && checked->Err_0.kind() == found,
        },
{
    match payload {
        Json::Object(members) => {
            let mut i: usize = 0;
            while i < members.len()
                invariant
                    i <= members.len(),
                    payload@.keys().len() == members.len(),
                    forall|k: int|
                        0 <= k < members.len() ==> payload@.keys()[k] == (#[trigger] members[k]).0@,
                    first_unexpected(payload@.keys(), allowed.deep_view(), 0) == first_unexpected(
                        payload@.keys(),
                        allowed.deep_view(),
                        i as int,
                    ),
                decreases members.len() - i,
            {
                if !contains_name(allowed, &members[i].0) {
                    return Err(ValidationError::UnexpectedField(members[i].0.clone()));
                }
                i += 1;
            }
            Ok(())
        },
        _ => Err(
            ValidationError::MalformedInput(String::from_str("JSON input must be an object")),
        ),
    }
}

/// Validates a parsed payload: it must be an object, every key must be in
/// the allowlist, and the object must satisfy the schema. Returns the
/// payload as plain data, or the first failure in that order. A schema
/// that is no JSON Schema is satisfied by nothing.
pub fn validate_value(value: &serde_json::Value, allowed: &Vec<String>, schema: &str) -> (validated:
    Result<Json, ValidationError>)
    ensures
        match value_rejection(json_of_value(*value), allowed.deep_view(), schema@) {
            None => validated is Ok && validated->Ok_0@ == json_of_value(*value),
            Some(found) => validated is Err && validated->Err_0.kind() == found,
        },
{
    let payload = value_to_json(value);
    match check_shape(&payload, allowed) {
        Ok(()) => {},
        Err(error) => {
            return Err(error);
        },
    }
    let schema_value = match parse_value(schema) {
        Ok(schema_value) => schema_value,
        Err(error) => {
            return Err(ValidationError::SchemaViolation(error_message(&error)));
        },
    };
    match check_schema(&schema_value, value) {
        Ok(()) => Ok(payload),
        Err(details) => Err(ValidationError::SchemaViolation(details)),
    }
}

/// Validates a raw payload: the text must be JSON with an object at the top,
/// every key must be in the allowlist, and the object must satisfy the
/// schema. Returns the parsed payload, or the first failure in that order.
pub fn validate_payload(raw: &str, allowed: &Vec<String>, schema: &str) -> (validated: Result<
    Json,
    ValidationError,
>)
    ensures
        match rejection(raw@, allowed.deep_view(), schema@) {
            None => validated is Ok && json_of_text(raw@) == Some(validated->Ok_0@),
            Some(found) => validated is Err && validated->Err_0.kind() == found,
        },
{
    match parse_value(raw) {
        Ok(value) => validate_value(&value, allowed, schema),
        Err(error) => Err(ValidationError::MalformedInput(error_message(&error))),
    }
}

/// The typed value that a parsed payload stands for once it has passed
/// validation, or why it stands for none.
pub open spec fn validated_value<T: JsonSchema>(payload: JsonView) -> Result<T::V, Fault> {
    match value_rejection(payload, T::spec_fields(), T::spec_schema()) {
        Some(found) => Err(Fault::Rejected(found)),
        None => T::decoded(payload),
    }
}

/// Validates a parsed payload against the wire format of `T` and reads the
/// typed value out of it.
pub fn validate_value_as<T: JsonSchema>(value: &serde_json::Value) -> (validated: Result<T, T::Err>)
    ensures
        match validated_value::<T>(json_of_value(*value)) {
            Ok(typed) => validated is Ok && validated->Ok_0@ == typed,
            Err(fault) => validated is Err && T::fault_of(validated->Err_0) == fault,
        },
{
    let fields = T::fields_json();
    let schema = T::schema_json();
    match validate_value(value, &fields, schema.as_str()) {
        Ok(payload) => T::from_json(&payload),
        Err(error) => Err(T::rejected(error)),
    }
}

/// Validates a raw payload against the wire format of `T` and reads the
/// typed value out of it.
pub fn validate_json<T: JsonSchema>(json: &str) -> (validated: Result<T, T::Err>)
    ensures
        match rejection(json@, T::spec_fields(), T::spec_schema()) {
            Some(found) => validated is Err && T::fault_of(validated->Err_0) == Fault::Rejected(
                found,
            ),
            None => match T::decoded(json_of_text(json@)->Some_0) {
                Ok(typed) => validated is Ok && validated->Ok_0@ == typed,
                Err(fault) => validated is Err && T::fault_of(validated->Err_0) == fault,
            },
        },
{
    T::validate_json(json)
}

} // verus!
