//! The current limits of one side of a line.

use vstd::prelude::*;
use vstd::string::StringExecFns;
use crate::decode::{
    clone_list, date_error_message, date_error_text, invalid_value, list_of, list_views, listed,
    number_of_real, optional_list, optional_real, read_listed, read_optional_list,
    read_optional_real, read_required_real, real_to_json, required_real, Real,
};
use crate::entities::temporary_limit::{
    lemma_temporary_limit_reads_back, TemporaryLimit, TemporaryLimitView,
};
use crate::extensions::{field_error, field_error_text, Fault, JsonSchema, Updatable};
use crate::json::{
    item_views, lemma_array_view, lemma_find_member_is, lemma_object_view, member_views, parse_json,
    Json, JsonView,
};
use crate::validation::{check_shape, validate_payload, Rejection, ValidationError};

verus! {

/// The current limits of one side of a line: the limit that holds at all
/// times, and the limits that hold for a bounded time.
#[derive(Debug)]
pub struct CurrentLimits {
    pub permanent_limit: Real,
    pub temporary_limits: Vec<TemporaryLimit>,
}

/// The mathematical value of a [`CurrentLimits`].
pub struct CurrentLimitsView {
    pub permanent_limit: Real,
    pub temporary_limits: Seq<TemporaryLimitView>,
}

impl View for CurrentLimits {
    type V = CurrentLimitsView;

    open spec fn view(&self) -> CurrentLimitsView {
        CurrentLimitsView {
            permanent_limit: self.permanent_limit,
            temporary_limits: list_views(self.temporary_limits@),
        }
    }
}

impl Clone for CurrentLimits {
    fn clone(&self) -> (copy: CurrentLimits)
        ensures
            copy@ == self@,
    {
        CurrentLimits {
            permanent_limit: self.permanent_limit,
            temporary_limits: clone_list(&self.temporary_limits),
        }
    }
}

/// A sparse update of a [`CurrentLimits`].
#[derive(Clone, Debug)]
pub struct CurrentLimitsUpdater {
    pub permanent_limit: Option<Real>,
    pub temporary_limits: Option<Vec<TemporaryLimit>>,
}

/// The mathematical value of a [`CurrentLimitsUpdater`].
pub struct CurrentLimitsUpdaterView {
    pub permanent_limit: Option<Real>,
    pub temporary_limits: Option<Seq<TemporaryLimitView>>,
}

impl View for CurrentLimitsUpdater {
    type V = CurrentLimitsUpdaterView;

    open spec fn view(&self) -> CurrentLimitsUpdaterView {
        CurrentLimitsUpdaterView {
            permanent_limit: self.permanent_limit,
            temporary_limits: match self.temporary_limits {
                Some(limits) => Some(list_views(limits@)),
                None => None,
            },
        }
    }
}

impl Default for CurrentLimitsUpdater {
    /// The update that changes nothing.
    fn default() -> (updates: CurrentLimitsUpdater)
        ensures
            updates@ == (CurrentLimitsUpdaterView { permanent_limit: None, temporary_limits: None }),
    {
        CurrentLimitsUpdater { permanent_limit: None, temporary_limits: None }
    }
}

/// What can go wrong with a [`CurrentLimits`]: one case for each field,
/// one for a payload that validation turned away, one for a date, and one
/// for the rest.
#[derive(Debug)]
pub enum CurrentLimitsError {
    PermanentLimit(String),
    TemporaryLimits(String),
    Deserialization(ValidationError),
    DateParse(chrono::ParseError),
    Unknown(String),
}

impl CurrentLimitsError {
    /// What this error reports.
    pub open spec fn fault(self) -> Fault {
        match self {
            CurrentLimitsError::PermanentLimit(_) => Fault::Field("permanentLimit"@),
            CurrentLimitsError::TemporaryLimits(_) => Fault::Field("temporaryLimits"@),
            CurrentLimitsError::Deserialization(error) => Fault::Rejected(error.kind()),
            CurrentLimitsError::DateParse(_) => Fault::Date,
            CurrentLimitsError::Unknown(_) => Fault::Unknown,
        }
    }

    /// The text of [`CurrentLimitsError::to_string`].
    pub open spec fn message(self) -> Seq<char> {
        match self {
            CurrentLimitsError::PermanentLimit(detail) => field_error_text("permanentLimit"@, detail@),
            CurrentLimitsError::TemporaryLimits(detail) => field_error_text("temporaryLimits"@, detail@),
            CurrentLimitsError::Deserialization(error) => "Deserialization error: "@
                + error.message(),
            CurrentLimitsError::DateParse(error) => "Date parsing error: "@ + date_error_text(error),
            CurrentLimitsError::Unknown(detail) => "Unknown error: "@ + detail@,
        }
    }

    /// The error in words.
    pub fn to_string(&self) -> (text: String)
        ensures
            text@ == self.message(),
    {
        match self {
            CurrentLimitsError::PermanentLimit(detail) => field_error("permanentLimit", detail.as_str()),
            CurrentLimitsError::TemporaryLimits(detail) => field_error("temporaryLimits", detail.as_str()),
            CurrentLimitsError::Deserialization(error) => String::from_str(
                "Deserialization error: ",
            ).concat(error.to_string().as_str()),
            CurrentLimitsError::DateParse(detail) => String::from_str("Date parsing error: ").concat(
                date_error_message(detail).as_str(),
            ),
            CurrentLimitsError::Unknown(detail) => String::from_str("Unknown error: ").concat(
                detail.as_str(),
            ),
        }
    }
}

/// The wire names of current limits.
pub open spec fn current_limits_fields() -> Seq<Seq<char>> {
    seq!["permanentLimit"@, "temporaryLimits"@]
}

fn wire_names() -> (fields: Vec<String>)
    ensures
        fields.deep_view() == current_limits_fields(),
{
    let mut fields: Vec<String> = Vec::new();
    fields.push(String::from_str("permanentLimit"));
    fields.push(String::from_str("temporaryLimits"));
    fields
}

/// The JSON objects that stand for a list of temporary limits.
pub open spec fn encoded_limits(limits: Seq<TemporaryLimitView>) -> Seq<JsonView> {
    Seq::new(limits.len(), |i: int| TemporaryLimit::encoded(limits[i]))
}

/// The JSON array that stands for a list of temporary limits.
pub fn temporary_limits_to_json(limits: &Vec<TemporaryLimit>) -> (json: Json)
    ensures
        json@ == JsonView::Array(encoded_limits(list_views(limits@))),
{
    let mut items: Vec<Json> = Vec::new();
    let mut i: usize = 0;
    while i < limits.len()
        invariant
            i <= limits.len(),
            items.len() == i,
            forall|k: int| 0 <= k < i ==> (#[trigger] items[k])@ == TemporaryLimit::encoded(limits[k]@),
        decreases limits.len() - i,
    {
        items.push(limits[i].to_json());
        i += 1;
    }
    proof {
        lemma_array_view(items);
        assert(item_views(items@) =~= encoded_limits(list_views(limits@)));
    }
    Json::Array(items)
}

/// Temporary limits that were written as a JSON array read back as they
/// were.
pub proof fn lemma_temporary_limits_read_back(limits: Seq<TemporaryLimitView>)
    ensures
        list_of::<TemporaryLimit>(JsonView::Array(encoded_limits(limits))) == Some(limits),
{
    let items = encoded_limits(limits);
    assert forall|i: int| 0 <= i < items.len() implies (#[trigger] TemporaryLimit::decoded(
        items[i],
    )) == Ok::<TemporaryLimitView, Fault>(limits[i]) by {
        lemma_temporary_limit_reads_back(limits[i]);
    }
}

impl CurrentLimits {
    /// The JSON object that stands for current limits.
    pub open spec fn encoded(limits: CurrentLimitsView) -> JsonView {
        JsonView::Object(
            seq![
                ("permanentLimit"@, number_of_real(limits.permanent_limit)),
                ("temporaryLimits"@, JsonView::Array(encoded_limits(limits.temporary_limits))),
            ],
        )
    }

    /// The JSON object that stands for these limits.
    pub fn to_json(&self) -> (json: Json)
        ensures
            json@ == CurrentLimits::encoded(self@),
    {
        let mut members: Vec<(String, Json)> = Vec::new();
        members.push((String::from_str("permanentLimit"), real_to_json(self.permanent_limit)));
        members.push(
            (String::from_str("temporaryLimits"), temporary_limits_to_json(&self.temporary_limits)),
        );
        proof {
            lemma_object_view(members);
            assert(member_views(members@) =~= CurrentLimits::encoded(self@)->Object_0);
        }
        Json::Object(members)
    }

    /// The current limits that a parsed payload stands for.
    pub open spec fn spec_decoded(json: JsonView) -> Result<CurrentLimitsView, Fault> {
        if !(json is Object) {
            Err(Fault::Rejected(Rejection::Malformed))
        } else if required_real(json, "permanentLimit"@) is None {
            Err(Fault::Field("permanentLimit"@))
        } else if listed::<TemporaryLimit>(json, "temporaryLimits"@) is None {
            Err(Fault::Field("temporaryLimits"@))
        } else {
            Ok(
                CurrentLimitsView {
                    permanent_limit: required_real(json, "permanentLimit"@)->Some_0,
                    temporary_limits: listed::<TemporaryLimit>(json, "temporaryLimits"@)->Some_0,
                },
            )
        }
    }
}

/// Current limits that were written as JSON read back as they were.
pub proof fn lemma_current_limits_read_back(limits: CurrentLimitsView)
    ensures
        CurrentLimits::spec_decoded(CurrentLimits::encoded(limits)) == Ok::<CurrentLimitsView, Fault>(
            limits,
        ),
{
    reveal_strlit("permanentLimit");
    reveal_strlit("temporaryLimits");
    assert("permanentLimit"@.len() == 14);
    let json = CurrentLimits::encoded(limits);
    let members = json->Object_0;
    lemma_find_member_is(members, "temporaryLimits"@, 0, 1);
    lemma_temporary_limits_read_back(limits.temporary_limits);
}

impl JsonSchema for CurrentLimits {
    type Err = CurrentLimitsError;

    open spec fn spec_fields() -> Seq<Seq<char>> {
        current_limits_fields()
    }

    open spec fn spec_schema() -> Seq<char> {
        "{\"type\":\"object\",\"required\":[\"permanentLimit\"],\"properties\":{\"permanentLimit\":{\"type\":\"number\"},\"temporaryLimits\":{\"type\":[\"array\",\"null\"],\"items\":{\"type\":\"object\",\"required\":[\"name\",\"acceptableDuration\",\"value\"],\"properties\":{\"name\":{\"type\":\"string\"},\"acceptableDuration\":{\"type\":\"integer\"},\"value\":{\"type\":\"number\"}}}}}}"@
    }

    open spec fn decoded(json: JsonView) -> Result<CurrentLimitsView, Fault> {
        CurrentLimits::spec_decoded(json)
    }

    open spec fn fault_of(error: CurrentLimitsError) -> Fault {
        error.fault()
    }

    open spec fn message_of(error: CurrentLimitsError) -> Seq<char> {
        error.message()
    }

    fn fields_json() -> (fields: Vec<String>) {
        wire_names()
    }

    fn schema_json() -> (schema: String) {
        String::from_str(
            "{\"type\":\"object\",\"required\":[\"permanentLimit\"],\"properties\":{\"permanentLimit\":{\"type\":\"number\"},\"temporaryLimits\":{\"type\":[\"array\",\"null\"],\"items\":{\"type\":\"object\",\"required\":[\"name\",\"acceptableDuration\",\"value\"],\"properties\":{\"name\":{\"type\":\"string\"},\"acceptableDuration\":{\"type\":\"integer\"},\"value\":{\"type\":\"number\"}}}}}}",
        )
    }

    fn rejected(error: ValidationError) -> (wrapped: CurrentLimitsError) {
        CurrentLimitsError::Deserialization(error)
    }

    fn error_text(error: &CurrentLimitsError) -> (text: String) {
        error.to_string()
    }

    fn from_json(json: &Json) -> (read: Result<CurrentLimits, CurrentLimitsError>) {
        if !json.is_object() {
            return Err(
                CurrentLimitsError::Deserialization(
                    ValidationError::MalformedInput(String::from_str("JSON input must be an object")),
                ),
            );
        }
        let permanent_limit = match read_required_real(json, "permanentLimit") {
            Some(permanent_limit) => permanent_limit,
            None => {
                return Err(CurrentLimitsError::PermanentLimit(invalid_value()));
            },
        };
        let temporary_limits = match read_listed::<TemporaryLimit>(json, "temporaryLimits") {
            Some(temporary_limits) => temporary_limits,
            None => {
                return Err(CurrentLimitsError::TemporaryLimits(invalid_value()));
            },
        };
        Ok(CurrentLimits { permanent_limit, temporary_limits })
    }

    fn validate_json(json: &str) -> (validated: Result<CurrentLimits, CurrentLimitsError>) {
        let fields = Self::fields_json();
        let schema = Self::schema_json();
        match validate_payload(json, &fields, schema.as_str()) {
            Ok(payload) => Self::from_json(&payload),
            Err(error) => Err(CurrentLimitsError::Deserialization(error)),
        }
    }
}

impl JsonSchema for CurrentLimitsUpdater {
    type Err = CurrentLimitsError;

    open spec fn spec_fields() -> Seq<Seq<char>> {
        current_limits_fields()
    }

    open spec fn spec_schema() -> Seq<char> {
        "{\"type\":\"object\",\"properties\":{\"permanentLimit\":{\"type\":[\"number\",\"null\"]},\"temporaryLimits\":{\"type\":[\"array\",\"null\"],\"items\":{\"type\":\"object\",\"required\":[\"name\",\"acceptableDuration\",\"value\"],\"properties\":{\"name\":{\"type\":\"string\"},\"acceptableDuration\":{\"type\":\"integer\"},\"value\":{\"type\":\"number\"}}}}}}"@
    }

    open spec fn decoded(json: JsonView) -> Result<CurrentLimitsUpdaterView, Fault> {
        if !(json is Object) {
            Err(Fault::Rejected(Rejection::Malformed))
        } else if optional_real(json, "permanentLimit"@) is Err {
            Err(Fault::Field("permanentLimit"@))
        } else if optional_list::<TemporaryLimit>(json, "temporaryLimits"@) is Err {
            Err(Fault::Field("temporaryLimits"@))
        } else {
            Ok(
                CurrentLimitsUpdaterView {
                    permanent_limit: optional_real(json, "permanentLimit"@)->Ok_0,
                    temporary_limits: optional_list::<TemporaryLimit>(json, "temporaryLimits"@)->Ok_0,
                },
            )
        }
    }

    open spec fn fault_of(error: CurrentLimitsError) -> Fault {
        error.fault()
    }

    open spec fn message_of(error: CurrentLimitsError) -> Seq<char> {
        error.message()
    }

    fn fields_json() -> (fields: Vec<String>) {
        wire_names()
    }

    fn schema_json() -> (schema: String) {
        String::from_str(
            "{\"type\":\"object\",\"properties\":{\"permanentLimit\":{\"type\":[\"number\",\"null\"]},\"temporaryLimits\":{\"type\":[\"array\",\"null\"],\"items\":{\"type\":\"object\",\"required\":[\"name\",\"acceptableDuration\",\"value\"],\"properties\":{\"name\":{\"type\":\"string\"},\"acceptableDuration\":{\"type\":\"integer\"},\"value\":{\"type\":\"number\"}}}}}}",
        )
    }

    fn rejected(error: ValidationError) -> (wrapped: CurrentLimitsError) {
        CurrentLimitsError::Deserialization(error)
    }

    fn error_text(error: &CurrentLimitsError) -> (text: String) {
        error.to_string()
    }

    fn from_json(json: &Json) -> (read: Result<CurrentLimitsUpdater, CurrentLimitsError>) {
        if !json.is_object() {
            return Err(
                CurrentLimitsError::Deserialization(
                    ValidationError::MalformedInput(String::from_str("JSON input must be an object")),
                ),
            );
        }
        let permanent_limit = match read_optional_real(json, "permanentLimit") {
            Ok(permanent_limit) => permanent_limit,
            Err(_) => {
                return Err(CurrentLimitsError::PermanentLimit(invalid_value()));
            },
        };
        let temporary_limits = match read_optional_list::<TemporaryLimit>(
            json,
            "temporaryLimits",
        ) {
            Ok(temporary_limits) => temporary_limits,
            Err(_) => {
                return Err(CurrentLimitsError::TemporaryLimits(invalid_value()));
            },
        };
        Ok(CurrentLimitsUpdater { permanent_limit, temporary_limits })
    }

    fn validate_json(json: &str) -> (validated: Result<CurrentLimitsUpdater, CurrentLimitsError>) {
        let fields = Self::fields_json();
        let schema = Self::schema_json();
        match validate_payload(json, &fields, schema.as_str()) {
            Ok(payload) => Self::from_json(&payload),
            Err(error) => Err(CurrentLimitsError::Deserialization(error)),
        }
    }
}

impl Updatable for CurrentLimits {
    type Updater = CurrentLimitsUpdater;

    open spec fn merged(
        record: CurrentLimitsView,
        updates: CurrentLimitsUpdaterView,
    ) -> CurrentLimitsView {
        CurrentLimitsView {
            permanent_limit: match updates.permanent_limit {
                Some(permanent_limit) => permanent_limit,
                None => record.permanent_limit,
            },
            temporary_limits: match updates.temporary_limits {
                Some(temporary_limits) => temporary_limits,
                None => record.temporary_limits,
            },
        }
    }

    open spec fn is_empty_update(updates: CurrentLimitsUpdaterView) -> bool {
        updates.permanent_limit is None && updates.temporary_limits is None
    }

    proof fn empty_update_changes_nothing(
        record: CurrentLimitsView,
        updates: CurrentLimitsUpdaterView,
    ) {
    }

    fn update(&mut self, updates: CurrentLimitsUpdater) {
        if let Some(permanent_limit) = updates.permanent_limit {
            self.permanent_limit = permanent_limit;
        }
        if let Some(temporary_limits) = updates.temporary_limits {
            self.temporary_limits = temporary_limits;
        }
    }

    fn update_from_json(&mut self, json: &str) -> (updated: Result<(), CurrentLimitsError>) {
        let payload = match parse_json(json) {
            Ok(payload) => payload,
            Err(detail) => {
                return Err(CurrentLimitsError::Deserialization(ValidationError::MalformedInput(detail)));
            },
        };
        let fields = CurrentLimitsUpdater::fields_json();
        match check_shape(&payload, &fields) {
            Ok(()) => {},
            Err(error) => {
                return Err(CurrentLimitsError::Deserialization(error));
            },
        }
        match CurrentLimitsUpdater::from_json(&payload) {
            Ok(updates) => {
                self.update(updates);
                Ok(())
            },
            Err(error) => Err(error),
        }
    }
}

/// Of two updates applied one after the other, the later one decides each
/// field that it carries, and the earlier one each field that only it
/// carries; a field that neither carries stays as it was.
pub proof fn lemma_current_limits_last_write_wins(
    record: CurrentLimitsView,
    first: CurrentLimitsUpdaterView,
    second: CurrentLimitsUpdaterView,
)
    ensures
        CurrentLimits::merged(
            CurrentLimits::merged(record, first),
            second,
        ).permanent_limit == (match second.permanent_limit {
            Some(permanent_limit) => permanent_limit,
            None => match first.permanent_limit {
                Some(permanent_limit) => permanent_limit,
                None => record.permanent_limit,
            },
        }),
        CurrentLimits::merged(
            CurrentLimits::merged(record, first),
            second,
        ).temporary_limits == (match second.temporary_limits {
            Some(temporary_limits) => temporary_limits,
            None => match first.temporary_limits {
                Some(temporary_limits) => temporary_limits,
                None => record.temporary_limits,
            },
        }),
{
}

} // verus!
