//! A current limit that a line may hold for a bounded time.

use vstd::prelude::*;
use vstd::string::StringExecFns;
use crate::decode::{
    date_error_message, date_error_text, i32_to_json, invalid_value, number_of_i32, number_of_real,
    optional_i32, optional_real, optional_text, read_optional_i32, read_optional_real,
    read_optional_string, read_required_i32, read_required_real, read_required_string, real_to_json,
    required_i32, required_real, required_text, text_to_json, Real,
};
use crate::extensions::{field_error, field_error_text, Fault, JsonSchema, Updatable};
use crate::json::{
    lemma_find_member_is, lemma_object_view, member_views, parse_json, Json, JsonView,
};
use crate::validation::{check_shape, validate_payload, Rejection, ValidationError};

verus! {

/// A temporary limit.
#[derive(Debug)]
pub struct TemporaryLimit {
    pub name: String,
    pub acceptable_duration: i32,
    pub value: Real,
}

/// The mathematical value of a [`TemporaryLimit`].
pub struct TemporaryLimitView {
    pub name: Seq<char>,
    pub acceptable_duration: i32,
    pub value: Real,
}

impl View for TemporaryLimit {
    type V = TemporaryLimitView;

    open spec fn view(&self) -> TemporaryLimitView {
        TemporaryLimitView {
            name: self.name@,
            acceptable_duration: self.acceptable_duration,
            value: self.value,
        }
    }
}

impl Clone for TemporaryLimit {
    fn clone(&self) -> (copy: TemporaryLimit)
        ensures
            copy@ == self@,
    {
        TemporaryLimit {
            name: self.name.clone(),
            acceptable_duration: self.acceptable_duration,
            value: self.value,
        }
    }
}

/// A sparse update of a [`TemporaryLimit`].
#[derive(Clone, Debug)]
pub struct TemporaryLimitUpdater {
    pub name: Option<String>,
    pub acceptable_duration: Option<i32>,
    pub value: Option<Real>,
}

/// The mathematical value of a [`TemporaryLimitUpdater`].
pub struct TemporaryLimitUpdaterView {
    pub name: Option<Seq<char>>,
    pub acceptable_duration: Option<i32>,
    pub value: Option<Real>,
}

impl View for TemporaryLimitUpdater {
    type V = TemporaryLimitUpdaterView;

    open spec fn view(&self) -> TemporaryLimitUpdaterView {
        TemporaryLimitUpdaterView {
            name: match self.name {
                Some(name) => Some(name@),
                None => None,
            },
            acceptable_duration: self.acceptable_duration,
            value: self.value,
        }
    }
}

impl Default for TemporaryLimitUpdater {
    /// The update that changes nothing.
    fn default() -> (updates: TemporaryLimitUpdater)
        ensures
            updates@ == (TemporaryLimitUpdaterView {
                name: None,
                acceptable_duration: None,
                value: None,
            }),
    {
        TemporaryLimitUpdater { name: None, acceptable_duration: None, value: None }
    }
}

/// What can go wrong with a [`TemporaryLimit`]: one case for each field,
/// one for a payload that validation turned away, one for a date, and one
/// for the rest.
#[derive(Debug)]
pub enum TemporaryLimitError {
    Name(String),
    AcceptableDuration(String),
    Value(String),
    Deserialization(ValidationError),
    DateParse(chrono::ParseError),
    Unknown(String),
}

impl TemporaryLimitError {
    /// What this error reports.
    pub open spec fn fault(self) -> Fault {
        match self {
            TemporaryLimitError::Name(_) => Fault::Field("name"@),
            TemporaryLimitError::AcceptableDuration(_) => Fault::Field("acceptableDuration"@),
            TemporaryLimitError::Value(_) => Fault::Field("value"@),
            TemporaryLimitError::Deserialization(error) => Fault::Rejected(error.kind()),
            TemporaryLimitError::DateParse(_) => Fault::Date,
            TemporaryLimitError::Unknown(_) => Fault::Unknown,
        }
    }

    /// The text of [`TemporaryLimitError::to_string`].
    pub open spec fn message(self) -> Seq<char> {
        match self {
            TemporaryLimitError::Name(detail) => field_error_text("name"@, detail@),
            TemporaryLimitError::AcceptableDuration(detail) => field_error_text("acceptableDuration"@, detail@),
            TemporaryLimitError::Value(detail) => field_error_text("value"@, detail@),
            TemporaryLimitError::Deserialization(error) => "Deserialization error: "@
                + error.message(),
            TemporaryLimitError::DateParse(error) => "Date parsing error: "@ + date_error_text(error),
            TemporaryLimitError::Unknown(detail) => "Unknown error: "@ + detail@,
        }
    }

    /// The error in words.
    pub fn to_string(&self) -> (text: String)
        ensures
            text@ == self.message(),
    {
        match self {
            TemporaryLimitError::Name(detail) => field_error("name", detail.as_str()),
            TemporaryLimitError::AcceptableDuration(detail) => field_error("acceptableDuration", detail.as_str()),
            TemporaryLimitError::Value(detail) => field_error("value", detail.as_str()),
            TemporaryLimitError::Deserialization(error) => String::from_str(
                "Deserialization error: ",
            ).concat(error.to_string().as_str()),
            TemporaryLimitError::DateParse(detail) => String::from_str("Date parsing error: ").concat(
                date_error_message(detail).as_str(),
            ),
            TemporaryLimitError::Unknown(detail) => String::from_str("Unknown error: ").concat(
                detail.as_str(),
            ),
        }
    }
}

/// The wire names of a temporary limit.
pub open spec fn temporary_limit_fields() -> Seq<Seq<char>> {
    seq!["name"@, "acceptableDuration"@, "value"@]
}

fn wire_names() -> (fields: Vec<String>)
    ensures
        fields.deep_view() == temporary_limit_fields(),
{
    let mut fields: Vec<String> = Vec::new();
    fields.push(String::from_str("name"));
    fields.push(String::from_str("acceptableDuration"));
    fields.push(String::from_str("value"));
    fields
}

impl TemporaryLimit {
    /// The JSON object that stands for a limit.
    pub open spec fn encoded(limit: TemporaryLimitView) -> JsonView {
        JsonView::Object(
            seq![
                ("name"@, JsonView::String(limit.name)),
                ("acceptableDuration"@, number_of_i32(limit.acceptable_duration)),
                ("value"@, number_of_real(limit.value)),
            ],
        )
    }

    /// The JSON object that stands for this limit.
    pub fn to_json(&self) -> (json: Json)
        ensures
            json@ == TemporaryLimit::encoded(self@),
    {
        let mut members: Vec<(String, Json)> = Vec::new();
        members.push((String::from_str("name"), text_to_json(&self.name)));
        members.push((String::from_str("acceptableDuration"), i32_to_json(self.acceptable_duration)));
        members.push((String::from_str("value"), real_to_json(self.value)));
        proof {
            lemma_object_view(members);
            assert(member_views(members@) =~= TemporaryLimit::encoded(self@)->Object_0);
        }
        Json::Object(members)
    }
}

/// The wire names of a temporary limit differ from one another.
pub proof fn lemma_temporary_limit_names_differ()
    ensures
        "name"@ != "acceptableDuration"@,
        "name"@ != "value"@,
        "acceptableDuration"@ != "value"@,
{
    reveal_strlit("name");
    reveal_strlit("acceptableDuration");
    reveal_strlit("value");
    assert("name"@.len() == 4);
    assert("acceptableDuration"@.len() == 18);
}

/// A limit that was written as JSON reads back as it was.
pub proof fn lemma_temporary_limit_reads_back(limit: TemporaryLimitView)
    ensures
        TemporaryLimit::decoded(TemporaryLimit::encoded(limit)) == Ok::<TemporaryLimitView, Fault>(
            limit,
        ),
{
    lemma_temporary_limit_names_differ();
    let json = TemporaryLimit::encoded(limit);
    let members = json->Object_0;
    lemma_find_member_is(members, "acceptableDuration"@, 0, 1);
    lemma_find_member_is(members, "value"@, 0, 2);
}

impl JsonSchema for TemporaryLimit {
    type Err = TemporaryLimitError;

    open spec fn spec_fields() -> Seq<Seq<char>> {
        temporary_limit_fields()
    }

    open spec fn spec_schema() -> Seq<char> {
        "{\"type\":\"object\",\"required\":[\"name\",\"acceptableDuration\",\"value\"],\"properties\":{\"name\":{\"type\":\"string\"},\"acceptableDuration\":{\"type\":\"integer\"},\"value\":{\"type\":\"number\"}}}"@
    }

    open spec fn decoded(json: JsonView) -> Result<TemporaryLimitView, Fault> {
        if !(json is Object) {
            Err(Fault::Rejected(Rejection::Malformed))
        } else if required_text(json, "name"@) is None {
            Err(Fault::Field("name"@))
        } else if required_i32(json, "acceptableDuration"@) is None {
            Err(Fault::Field("acceptableDuration"@))
        } else if required_real(json, "value"@) is None {
            Err(Fault::Field("value"@))
        } else {
            Ok(
                TemporaryLimitView {
                    name: required_text(json, "name"@)->Some_0,
                    acceptable_duration: required_i32(json, "acceptableDuration"@)->Some_0,
                    value: required_real(json, "value"@)->Some_0,
                },
            )
        }
    }

    open spec fn fault_of(error: TemporaryLimitError) -> Fault {
        error.fault()
    }

    open spec fn message_of(error: TemporaryLimitError) -> Seq<char> {
        error.message()
    }

    fn fields_json() -> (fields: Vec<String>) {
        wire_names()
    }

    fn schema_json() -> (schema: String) {
        String::from_str(
            "{\"type\":\"object\",\"required\":[\"name\",\"acceptableDuration\",\"value\"],\"properties\":{\"name\":{\"type\":\"string\"},\"acceptableDuration\":{\"type\":\"integer\"},\"value\":{\"type\":\"number\"}}}",
        )
    }

    fn rejected(error: ValidationError) -> (wrapped: TemporaryLimitError) {
        TemporaryLimitError::Deserialization(error)
    }

    fn error_text(error: &TemporaryLimitError) -> (text: String) {
        error.to_string()
    }

    fn from_json(json: &Json) -> (read: Result<TemporaryLimit, TemporaryLimitError>) {
        if !json.is_object() {
            return Err(
                TemporaryLimitError::Deserialization(
                    ValidationError::MalformedInput(String::from_str("JSON input must be an object")),
                ),
            );
        }
        let name = match read_required_string(json, "name") {
            Some(name) => name,
            None => {
                return Err(TemporaryLimitError::Name(invalid_value()));
            },
        };
        let acceptable_duration = match read_required_i32(json, "acceptableDuration") {
            Some(acceptable_duration) => acceptable_duration,
            None => {
                return Err(TemporaryLimitError::AcceptableDuration(invalid_value()));
            },
        };
        let value = match read_required_real(json, "value") {
            Some(value) => value,
            None => {
                return Err(TemporaryLimitError::Value(invalid_value()));
            },
        };
        Ok(TemporaryLimit { name, acceptable_duration, value })
    }

    fn validate_json(json: &str) -> (validated: Result<TemporaryLimit, TemporaryLimitError>) {
        let fields = Self::fields_json();
        let schema = Self::schema_json();
        match validate_payload(json, &fields, schema.as_str()) {
            Ok(payload) => Self::from_json(&payload),
            Err(error) => Err(TemporaryLimitError::Deserialization(error)),
        }
    }
}

impl JsonSchema for TemporaryLimitUpdater {
    type Err = TemporaryLimitError;

    open spec fn spec_fields() -> Seq<Seq<char>> {
        temporary_limit_fields()
    }

    open spec fn spec_schema() -> Seq<char> {
        "{\"type\":\"object\",\"properties\":{\"name\":{\"type\":[\"string\",\"null\"]},\"acceptableDuration\":{\"type\":[\"integer\",\"null\"]},\"value\":{\"type\":[\"number\",\"null\"]}}}"@
    }

    open spec fn decoded(json: JsonView) -> Result<TemporaryLimitUpdaterView, Fault> {
        if !(json is Object) {
            Err(Fault::Rejected(Rejection::Malformed))
        } else if optional_text(json, "name"@) is Err {
            Err(Fault::Field("name"@))
        } else if optional_i32(json, "acceptableDuration"@) is Err {
            Err(Fault::Field("acceptableDuration"@))
        } else if optional_real(json, "value"@) is Err {
            Err(Fault::Field("value"@))
        } else {
            Ok(
                TemporaryLimitUpdaterView {
                    name: optional_text(json, "name"@)->Ok_0,
                    acceptable_duration: optional_i32(json, "acceptableDuration"@)->Ok_0,
                    value: optional_real(json, "value"@)->Ok_0,
                },
            )
        }
    }

    open spec fn fault_of(error: TemporaryLimitError) -> Fault {
        error.fault()
    }

    open spec fn message_of(error: TemporaryLimitError) -> Seq<char> {
        error.message()
    }

    fn fields_json() -> (fields: Vec<String>) {
        wire_names()
    }

    fn schema_json() -> (schema: String) {
        String::from_str(
            "{\"type\":\"object\",\"properties\":{\"name\":{\"type\":[\"string\",\"null\"]},\"acceptableDuration\":{\"type\":[\"integer\",\"null\"]},\"value\":{\"type\":[\"number\",\"null\"]}}}",
        )
    }

    fn rejected(error: ValidationError) -> (wrapped: TemporaryLimitError) {
        TemporaryLimitError::Deserialization(error)
    }

    fn error_text(error: &TemporaryLimitError) -> (text: String) {
        error.to_string()
    }

    fn from_json(json: &Json) -> (read: Result<TemporaryLimitUpdater, TemporaryLimitError>) {
        if !json.is_object() {
            return Err(
                TemporaryLimitError::Deserialization(
                    ValidationError::MalformedInput(String::from_str("JSON input must be an object")),
                ),
            );
        }
        let name = match read_optional_string(json, "name") {
            Ok(name) => name,
            Err(_) => {
                return Err(TemporaryLimitError::Name(invalid_value()));
            },
        };
        let acceptable_duration = match read_optional_i32(json, "acceptableDuration") {
            Ok(acceptable_duration) => acceptable_duration,
            Err(_) => {
                return Err(TemporaryLimitError::AcceptableDuration(invalid_value()));
            },
        };
        let value = match read_optional_real(json, "value") {
            Ok(value) => value,
            Err(_) => {
                return Err(TemporaryLimitError::Value(invalid_value()));
            },
        };
        Ok(TemporaryLimitUpdater { name, acceptable_duration, value })
    }

    fn validate_json(json: &str) -> (validated: Result<TemporaryLimitUpdater, TemporaryLimitError>) {
        let fields = Self::fields_json();
        let schema = Self::schema_json();
        match validate_payload(json, &fields, schema.as_str()) {
            Ok(payload) => Self::from_json(&payload),
            Err(error) => Err(TemporaryLimitError::Deserialization(error)),
        }
    }
}

impl Updatable for TemporaryLimit {
    type Updater = TemporaryLimitUpdater;

    open spec fn merged(
        record: TemporaryLimitView,
        updates: TemporaryLimitUpdaterView,
    ) -> TemporaryLimitView {
        TemporaryLimitView {
            name: match updates.name {
                Some(name) => name,
                None => record.name,
            },
            acceptable_duration: match updates.acceptable_duration {
                Some(acceptable_duration) => acceptable_duration,
                None => record.acceptable_duration,
            },
            value: match updates.value {
                Some(value) => value,
                None => record.value,
            },
        }
    }

    open spec fn is_empty_update(updates: TemporaryLimitUpdaterView) -> bool {
        updates.name is None && updates.acceptable_duration is None && updates.value is None
    }

    proof fn empty_update_changes_nothing(
        record: TemporaryLimitView,
        updates: TemporaryLimitUpdaterView,
    ) {
    }

    fn update(&mut self, updates: TemporaryLimitUpdater) {
        if let Some(name) = updates.name {
            self.name = name;
        }
        if let Some(acceptable_duration) = updates.acceptable_duration {
            self.acceptable_duration = acceptable_duration;
        }
        if let Some(value) = updates.value {
            self.value = value;
        }
    }

    fn update_from_json(&mut self, json: &str) -> (updated: Result<(), TemporaryLimitError>) {
        let payload = match parse_json(json) {
            Ok(payload) => payload,
            Err(detail) => {
                return Err(TemporaryLimitError::Deserialization(ValidationError::MalformedInput(detail)));
            },
        };
        let fields = TemporaryLimitUpdater::fields_json();
        match check_shape(&payload, &fields) {
            Ok(()) => {},
            Err(error) => {
                return Err(TemporaryLimitError::Deserialization(error));
            },
        }
        match TemporaryLimitUpdater::from_json(&payload) {
            Ok(updates) => {
                self.update(updates);
                Ok(())
            },
            Err(error) => Err(error),
        }
    }
}

/// Of two updates applied one after the other, the later one decides each
/// field that it carries, and the earlier one each field that only it
/// carries; a field that neither carries stays as it was.
pub proof fn lemma_temporary_limit_last_write_wins(
    record: TemporaryLimitView,
    first: TemporaryLimitUpdaterView,
    second: TemporaryLimitUpdaterView,
)
    ensures
        TemporaryLimit::merged(TemporaryLimit::merged(record, first), second).name == (match second.name {
            Some(name) => name,
            None => match first.name {
                Some(name) => name,
                None => record.name,
            },
        }),
        TemporaryLimit::merged(
            TemporaryLimit::merged(record, first),
            second,
        ).acceptable_duration == (match second.acceptable_duration {
            Some(acceptable_duration) => acceptable_duration,
            None => match first.acceptable_duration {
                Some(acceptable_duration) => acceptable_duration,
                None => record.acceptable_duration,
            },
        }),
        TemporaryLimit::merged(TemporaryLimit::merged(record, first), second).value == (match second.value {
            Some(value) => value,
            None => match first.value {
                Some(value) => value,
                None => record.value,
            },
        }),
{
}

} // verus!
