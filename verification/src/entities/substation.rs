//! A substation of the network.

use vstd::prelude::*;
use vstd::string::StringExecFns;
use crate::decode::{
    clone_texts, date_error_message, date_error_text, invalid_value, listed_texts, optional_text,
    optional_texts, read_listed_texts, read_optional_string, read_optional_texts,
    read_required_string, required_text, text_view, texts_view,
};
use crate::ecs::{World, WorldView};
use crate::extensions::{field_error, field_error_text, Fault, Identifiable, JsonSchema, Updatable};
use crate::json::{json_of_text, parse_json, Json, JsonView};
use crate::plugins;
use crate::plugins::{apply_register, RegisterEvent, RegisterEventView, TypedWorld};
use crate::validation::{check_shape, validate_payload, Rejection, ValidationError};

verus! {

/// A substation.
#[derive(Debug)]
pub struct Substation {
    pub id: String,
    pub country: String,
    pub tso: String,
    pub geographical_tags: Vec<String>,
}

/// The mathematical value of a [`Substation`].
pub struct SubstationView {
    pub id: Seq<char>,
    pub country: Seq<char>,
    pub tso: Seq<char>,
    pub geographical_tags: Seq<Seq<char>>,
}

impl View for Substation {
    type V = SubstationView;

    open spec fn view(&self) -> SubstationView {
        SubstationView {
            id: self.id@,
            country: self.country@,
            tso: self.tso@,
            geographical_tags: self.geographical_tags.deep_view(),
        }
    }
}

impl Clone for Substation {
    fn clone(&self) -> (copy: Substation)
        ensures
            copy@ == self@,
    {
        Substation {
            id: self.id.clone(),
            country: self.country.clone(),
            tso: self.tso.clone(),
            geographical_tags: clone_texts(&self.geographical_tags),
        }
    }
}

/// A sparse update of a [`Substation`].
#[derive(Clone, Debug)]
pub struct SubstationUpdater {
    pub country: Option<String>,
    pub tso: Option<String>,
    pub geographical_tags: Option<Vec<String>>,
}

/// The mathematical value of a [`SubstationUpdater`].
pub struct SubstationUpdaterView {
    pub country: Option<Seq<char>>,
    pub tso: Option<Seq<char>>,
    pub geographical_tags: Option<Seq<Seq<char>>>,
}

impl View for SubstationUpdater {
    type V = SubstationUpdaterView;

    open spec fn view(&self) -> SubstationUpdaterView {
        SubstationUpdaterView {
            country: text_view(self.country),
            tso: text_view(self.tso),
            geographical_tags: texts_view(self.geographical_tags),
        }
    }
}

impl SubstationUpdaterView {
    /// The update that changes nothing.
    pub open spec fn empty() -> SubstationUpdaterView {
        SubstationUpdaterView {
            country: None,
            tso: None,
            geographical_tags: None,
        }
    }
}

impl Default for SubstationUpdater {
    /// The update that changes nothing.
    fn default() -> (updates: SubstationUpdater)
        ensures
            updates@ == SubstationUpdaterView::empty(),
    {
        let updates = SubstationUpdater {
            country: None,
            tso: None,
            geographical_tags: None,
        };
        updates
    }
}

/// What can go wrong with a [`Substation`]: one case for each field, one for a
/// payload that validation turned away, one for a date, and one for the
/// rest.
#[derive(Debug)]
pub enum SubstationError {
    Id(String),
    Country(String),
    Tso(String),
    GeographicalTags(String),
    Deserialization(ValidationError),
    DateParse(chrono::ParseError),
    Unknown(String),
}

impl SubstationError {
    /// What this error reports.
    pub open spec fn fault(self) -> Fault {
        match self {
            SubstationError::Id(_) => Fault::Field("id"@),
            SubstationError::Country(_) => Fault::Field("country"@),
            SubstationError::Tso(_) => Fault::Field("tso"@),
            SubstationError::GeographicalTags(_) => Fault::Field("geographicalTags"@),
            SubstationError::Deserialization(error) => Fault::Rejected(error.kind()),
            SubstationError::DateParse(_) => Fault::Date,
            SubstationError::Unknown(_) => Fault::Unknown,
        }
    }

    /// The text of [`SubstationError::to_string`].
    pub open spec fn message(self) -> Seq<char> {
        match self {
            SubstationError::Id(detail) => field_error_text("id"@, detail@),
            SubstationError::Country(detail) => field_error_text("country"@, detail@),
            SubstationError::Tso(detail) => field_error_text("tso"@, detail@),
            SubstationError::GeographicalTags(detail) => field_error_text("geographicalTags"@, detail@),
            SubstationError::Deserialization(error) => "Deserialization error: "@ + error.message(),
            SubstationError::DateParse(error) => "Date parsing error: "@ + date_error_text(error),
            SubstationError::Unknown(detail) => "Unknown error: "@ + detail@,
        }
    }

    /// The error in words.
    pub fn to_string(&self) -> (text: String)
        ensures
            text@ == self.message(),
    {
        match self {
            SubstationError::Id(detail) => field_error("id", detail.as_str()),
            SubstationError::Country(detail) => field_error("country", detail.as_str()),
            SubstationError::Tso(detail) => field_error("tso", detail.as_str()),
            SubstationError::GeographicalTags(detail) => field_error("geographicalTags", detail.as_str()),
            SubstationError::Deserialization(error) => String::from_str(
                "Deserialization error: ",
            ).concat(error.to_string().as_str()),
            SubstationError::DateParse(error) => String::from_str("Date parsing error: ").concat(
                date_error_message(error).as_str(),
            ),
            SubstationError::Unknown(detail) => String::from_str("Unknown error: ").concat(
                detail.as_str(),
            ),
        }
    }
}

/// The wire names of a substation.
pub open spec fn substation_fields() -> Seq<Seq<char>> {
    seq![
        "id"@,
        "country"@,
        "tso"@,
        "geographicalTags"@,
    ]
}

/// The wire names of a sparse update of a substation: those of a substation but its
/// identity.
pub open spec fn substation_updater_fields() -> Seq<Seq<char>> {
    seq![
        "country"@,
        "tso"@,
        "geographicalTags"@,
    ]
}

/// A sparse update of a substation takes every field of a substation but its
/// identity, under the same wire name.
pub proof fn lemma_substation_updater_fields()
    ensures
        substation_fields()[0] == "id"@,
        substation_updater_fields() == substation_fields().remove(0),
{
}

impl Substation {
    /// The substation that a parsed payload stands for.
    pub open spec fn spec_decoded(json: JsonView) -> Result<SubstationView, Fault> {
        if !(json is Object) {
            Err(Fault::Rejected(Rejection::Malformed))
        } else if required_text(json, "id"@) is None {
            Err(Fault::Field("id"@))
        } else if required_text(json, "country"@) is None {
            Err(Fault::Field("country"@))
        } else if required_text(json, "tso"@) is None {
            Err(Fault::Field("tso"@))
        } else if listed_texts(json, "geographicalTags"@) is None {
            Err(Fault::Field("geographicalTags"@))
        } else {
            Ok(
                SubstationView {
                    id: required_text(json, "id"@)->Some_0,
                    country: required_text(json, "country"@)->Some_0,
                    tso: required_text(json, "tso"@)->Some_0,
                    geographical_tags: listed_texts(json, "geographicalTags"@)->Some_0,
                },
            )
        }
    }

    /// The sparse update that a parsed payload stands for.
    pub open spec fn spec_decoded_update(json: JsonView) -> Result<SubstationUpdaterView, Fault> {
        if !(json is Object) {
            Err(Fault::Rejected(Rejection::Malformed))
        } else if optional_text(json, "country"@) is Err {
            Err(Fault::Field("country"@))
        } else if optional_text(json, "tso"@) is Err {
            Err(Fault::Field("tso"@))
        } else if optional_texts(json, "geographicalTags"@) is Err {
            Err(Fault::Field("geographicalTags"@))
        } else {
            Ok(
                SubstationUpdaterView {
                    country: optional_text(json, "country"@)->Ok_0,
                    tso: optional_text(json, "tso"@)->Ok_0,
                    geographical_tags: optional_texts(json, "geographicalTags"@)->Ok_0,
                },
            )
        }
    }

    /// The substation after `updates`: each field that is present in `updates`
    /// replaced, each absent one kept.
    pub open spec fn spec_merged(record: SubstationView, updates: SubstationUpdaterView) -> SubstationView {
        SubstationView {
            id: record.id,
            country: match updates.country {
                Some(country) => country,
                None => record.country,
            },
            tso: match updates.tso {
                Some(tso) => tso,
                None => record.tso,
            },
            geographical_tags: match updates.geographical_tags {
                Some(geographical_tags) => geographical_tags,
                None => record.geographical_tags,
            },
        }
    }

    /// Reads a substation out of a JSON text. Keys that a substation does not have are
    /// passed over.
    pub fn from_json_str(json: &str) -> (read: Result<Substation, SubstationError>)
        ensures
            match json_of_text(json@) {
                None => read is Err && read->Err_0.fault() == Fault::Rejected(Rejection::Malformed),
                Some(payload) => match Substation::spec_decoded(payload) {
                    Ok(record) => read is Ok && read->Ok_0@ == record,
                    Err(fault) => read is Err && read->Err_0.fault() == fault,
                },
            },
    {
        match parse_json(json) {
            Ok(payload) => Substation::from_json(&payload),
            Err(detail) => Err(SubstationError::Deserialization(ValidationError::MalformedInput(detail))),
        }
    }
}

fn wire_names() -> (fields: Vec<String>)
    ensures
        fields.deep_view() == substation_fields(),
{
    let mut fields: Vec<String> = Vec::new();
    fields.push(String::from_str("id"));
    fields.push(String::from_str("country"));
    fields.push(String::from_str("tso"));
    fields.push(String::from_str("geographicalTags"));
    fields
}

fn updater_wire_names() -> (fields: Vec<String>)
    ensures
        fields.deep_view() == substation_updater_fields(),
{
    let mut fields: Vec<String> = Vec::new();
    fields.push(String::from_str("country"));
    fields.push(String::from_str("tso"));
    fields.push(String::from_str("geographicalTags"));
    fields
}

impl JsonSchema for Substation {
    type Err = SubstationError;

    open spec fn spec_fields() -> Seq<Seq<char>> {
        substation_fields()
    }

    open spec fn spec_schema() -> Seq<char> {
        "{\"type\":\"object\",\"required\":[\"id\",\"country\",\"tso\"],\"properties\":{\"id\":{\"type\":\"string\"},\"country\":{\"type\":\"string\"},\"tso\":{\"type\":\"string\"},\"geographicalTags\":{\"type\":[\"array\",\"null\"],\"items\":{\"type\":\"string\"}}}}"@
    }

    open spec fn decoded(json: JsonView) -> Result<SubstationView, Fault> {
        Substation::spec_decoded(json)
    }

    open spec fn fault_of(error: SubstationError) -> Fault {
        error.fault()
    }

    open spec fn message_of(error: SubstationError) -> Seq<char> {
        error.message()
    }

    fn fields_json() -> (fields: Vec<String>) {
        wire_names()
    }

    fn schema_json() -> (schema: String) {
        String::from_str(
            "{\"type\":\"object\",\"required\":[\"id\",\"country\",\"tso\"],\"properties\":{\"id\":{\"type\":\"string\"},\"country\":{\"type\":\"string\"},\"tso\":{\"type\":\"string\"},\"geographicalTags\":{\"type\":[\"array\",\"null\"],\"items\":{\"type\":\"string\"}}}}",
        )
    }

    fn rejected(error: ValidationError) -> (wrapped: SubstationError) {
        SubstationError::Deserialization(error)
    }

    fn error_text(error: &SubstationError) -> (text: String) {
        error.to_string()
    }

    fn from_json(json: &Json) -> (read: Result<Substation, SubstationError>) {
        if !json.is_object() {
            return Err(
                SubstationError::Deserialization(
                    ValidationError::MalformedInput(String::from_str("JSON input must be an object")),
                ),
            );
        }
        let id = match read_required_string(json, "id") {
            Some(id) => id,
            None => {
                return Err(SubstationError::Id(invalid_value()));
            },
        };
        let country = match read_required_string(json, "country") {
            Some(country) => country,
            None => {
                return Err(SubstationError::Country(invalid_value()));
            },
        };
        let tso = match read_required_string(json, "tso") {
            Some(tso) => tso,
            None => {
                return Err(SubstationError::Tso(invalid_value()));
            },
        };
        let geographical_tags = match read_listed_texts(json, "geographicalTags") {
            Some(geographical_tags) => geographical_tags,
            None => {
                return Err(SubstationError::GeographicalTags(invalid_value()));
            },
        };
        Ok(
            Substation {
                id,
                country,
                tso,
                geographical_tags,
            },
        )
    }

    fn validate_json(json: &str) -> (validated: Result<Substation, SubstationError>) {
        let fields = Self::fields_json();
        let schema = Self::schema_json();
        match validate_payload(json, &fields, schema.as_str()) {
            Ok(payload) => Self::from_json(&payload),
            Err(error) => Err(SubstationError::Deserialization(error)),
        }
    }
}

impl JsonSchema for SubstationUpdater {
    type Err = SubstationError;

    open spec fn spec_fields() -> Seq<Seq<char>> {
        substation_updater_fields()
    }

    open spec fn spec_schema() -> Seq<char> {
        "{\"type\":\"object\",\"properties\":{\"country\":{\"type\":[\"string\",\"null\"]},\"tso\":{\"type\":[\"string\",\"null\"]},\"geographicalTags\":{\"type\":[\"array\",\"null\"],\"items\":{\"type\":\"string\"}}}}"@
    }

    open spec fn decoded(json: JsonView) -> Result<SubstationUpdaterView, Fault> {
        Substation::spec_decoded_update(json)
    }

    open spec fn fault_of(error: SubstationError) -> Fault {
        error.fault()
    }

    open spec fn message_of(error: SubstationError) -> Seq<char> {
        error.message()
    }

    fn fields_json() -> (fields: Vec<String>) {
        updater_wire_names()
    }

    fn schema_json() -> (schema: String) {
        String::from_str(
            "{\"type\":\"object\",\"properties\":{\"country\":{\"type\":[\"string\",\"null\"]},\"tso\":{\"type\":[\"string\",\"null\"]},\"geographicalTags\":{\"type\":[\"array\",\"null\"],\"items\":{\"type\":\"string\"}}}}",
        )
    }

    fn rejected(error: ValidationError) -> (wrapped: SubstationError) {
        SubstationError::Deserialization(error)
    }

    fn error_text(error: &SubstationError) -> (text: String) {
        error.to_string()
    }

    fn from_json(json: &Json) -> (read: Result<SubstationUpdater, SubstationError>) {
        if !json.is_object() {
            return Err(
                SubstationError::Deserialization(
                    ValidationError::MalformedInput(String::from_str("JSON input must be an object")),
                ),
            );
        }
        let country = match read_optional_string(json, "country") {
            Ok(country) => country,
            Err(_) => {
                return Err(SubstationError::Country(invalid_value()));
            },
        };
        let tso = match read_optional_string(json, "tso") {
            Ok(tso) => tso,
            Err(_) => {
                return Err(SubstationError::Tso(invalid_value()));
            },
        };
        let geographical_tags = match read_optional_texts(json, "geographicalTags") {
            Ok(geographical_tags) => geographical_tags,
            Err(_) => {
                return Err(SubstationError::GeographicalTags(invalid_value()));
            },
        };
        Ok(
            SubstationUpdater {
                country,
                tso,
                geographical_tags,
            },
        )
    }

    fn validate_json(json: &str) -> (validated: Result<SubstationUpdater, SubstationError>) {
        let fields = Self::fields_json();
        let schema = Self::schema_json();
        match validate_payload(json, &fields, schema.as_str()) {
            Ok(payload) => Self::from_json(&payload),
            Err(error) => Err(SubstationError::Deserialization(error)),
        }
    }
}

impl Updatable for Substation {
    type Updater = SubstationUpdater;

    open spec fn merged(record: SubstationView, updates: SubstationUpdaterView) -> SubstationView {
        Substation::spec_merged(record, updates)
    }

    open spec fn is_empty_update(updates: SubstationUpdaterView) -> bool {
        updates == SubstationUpdaterView::empty()
    }

    proof fn empty_update_changes_nothing(record: SubstationView, updates: SubstationUpdaterView) {
    }

    fn update(&mut self, updates: SubstationUpdater) {
        if let Some(country) = updates.country {
            self.country = country;
        }
        if let Some(tso) = updates.tso {
            self.tso = tso;
        }
        if let Some(geographical_tags) = updates.geographical_tags {
            self.geographical_tags = geographical_tags;
        }
    }

    fn update_from_json(&mut self, json: &str) -> (updated: Result<(), SubstationError>) {
        let payload = match parse_json(json) {
            Ok(payload) => payload,
            Err(detail) => {
                return Err(SubstationError::Deserialization(ValidationError::MalformedInput(detail)));
            },
        };
        let fields = SubstationUpdater::fields_json();
        match check_shape(&payload, &fields) {
            Ok(()) => {},
            Err(error) => {
                return Err(SubstationError::Deserialization(error));
            },
        }
        match SubstationUpdater::from_json(&payload) {
            Ok(updates) => {
                self.update(updates);
                Ok(())
            },
            Err(error) => Err(error),
        }
    }
}

/// Of two updates applied one after the other, the later one decides each
/// field that it carries, and the earlier one each field that only it
/// carries; a field that neither carries stays as it was.
pub proof fn lemma_substation_last_write_wins(
    record: SubstationView,
    first: SubstationUpdaterView,
    second: SubstationUpdaterView,
)
    ensures
        Substation::spec_merged(Substation::spec_merged(record, first), second).id == record.id,
        Substation::spec_merged(Substation::spec_merged(record, first), second).country == (match second.country {
            Some(country) => country,
            None => match first.country {
                Some(country) => country,
                None => record.country,
            },
        }),
        Substation::spec_merged(Substation::spec_merged(record, first), second).tso == (match second.tso {
            Some(tso) => tso,
            None => match first.tso {
                Some(tso) => tso,
                None => record.tso,
            },
        }),
        Substation::spec_merged(Substation::spec_merged(record, first), second).geographical_tags == (match second.geographical_tags {
            Some(geographical_tags) => geographical_tags,
            None => match first.geographical_tags {
                Some(geographical_tags) => geographical_tags,
                None => record.geographical_tags,
            },
        }),
{
}

impl Identifiable for Substation {
    open spec fn spec_id(record: SubstationView) -> Seq<char> {
        record.id
    }

    open spec fn registered(world: WorldView, record: SubstationView) -> WorldView {
        let after = plugins::registered(
            TypedWorld { registry: world.registry, records: world.substations },
            RegisterEventView { id: record.id, component: record },
        );
        WorldView { registry: after.registry, substations: after.records, ..world }
    }

    fn id(&self) -> (id: String) {
        self.id.clone()
    }

    fn register(&self, world: &mut World) {
        let event = RegisterEvent { id: self.id(), component: self.clone() };
        apply_register(event, &mut world.registry, &mut world.substations);
    }
}

} // verus!
