//! A network: the root of the model.

use vstd::prelude::*;
use vstd::string::StringExecFns;
use crate::decode::{
    clone_list, date_error_message, date_error_text, invalid_value, list_views, listed,
    optional_i32, optional_list, optional_list_views, optional_text, optional_timestamp,
    read_listed, read_optional_i32, read_optional_list, read_optional_string,
    read_optional_timestamp, read_required_i32, read_required_string, read_required_timestamp,
    required_i32, required_text, required_timestamp, text_view, DateField, Timestamp,
};
use crate::ecs::{World, WorldView};
use crate::entities::line::{Line, LineView};
use crate::entities::substation::{Substation, SubstationView};
use crate::extensions::{field_error, field_error_text, Fault, Identifiable, JsonSchema, Updatable};
use crate::json::{json_of_text, parse_json, Json, JsonView};
use crate::plugins;
use crate::plugins::{apply_register, RegisterEvent, RegisterEventView, TypedWorld};
use crate::validation::{check_shape, validate_payload, Rejection, ValidationError};

verus! {

/// A network, with its substations and its lines.
#[derive(Debug)]
pub struct Network {
    pub version: String,
    pub id: String,
    pub case_date: Timestamp,
    pub forecast_distance: i32,
    pub source_format: String,
    pub minimum_validation_level: String,
    pub substations: Vec<Substation>,
    pub lines: Vec<Line>,
}

/// The mathematical value of a [`Network`].
pub struct NetworkView {
    pub version: Seq<char>,
    pub id: Seq<char>,
    pub case_date: Timestamp,
    pub forecast_distance: i32,
    pub source_format: Seq<char>,
    pub minimum_validation_level: Seq<char>,
    pub substations: Seq<SubstationView>,
    pub lines: Seq<LineView>,
}

impl View for Network {
    type V = NetworkView;

    open spec fn view(&self) -> NetworkView {
        NetworkView {
            version: self.version@,
            id: self.id@,
            case_date: self.case_date,
            forecast_distance: self.forecast_distance,
            source_format: self.source_format@,
            minimum_validation_level: self.minimum_validation_level@,
            substations: list_views(self.substations@),
            lines: list_views(self.lines@),
        }
    }
}

impl Clone for Network {
    fn clone(&self) -> (copy: Network)
        ensures
            copy@ == self@,
    {
        Network {
            version: self.version.clone(),
            id: self.id.clone(),
            case_date: self.case_date,
            forecast_distance: self.forecast_distance,
            source_format: self.source_format.clone(),
            minimum_validation_level: self.minimum_validation_level.clone(),
            substations: clone_list(&self.substations),
            lines: clone_list(&self.lines),
        }
    }
}

/// A sparse update of a [`Network`].
#[derive(Clone, Debug)]
pub struct NetworkUpdater {
    pub version: Option<String>,
    pub case_date: Option<Timestamp>,
    pub forecast_distance: Option<i32>,
    pub source_format: Option<String>,
    pub minimum_validation_level: Option<String>,
    pub substations: Option<Vec<Substation>>,
    pub lines: Option<Vec<Line>>,
}

/// The mathematical value of a [`NetworkUpdater`].
pub struct NetworkUpdaterView {
    pub version: Option<Seq<char>>,
    pub case_date: Option<Timestamp>,
    pub forecast_distance: Option<i32>,
    pub source_format: Option<Seq<char>>,
    pub minimum_validation_level: Option<Seq<char>>,
    pub substations: Option<Seq<SubstationView>>,
    pub lines: Option<Seq<LineView>>,
}

impl View for NetworkUpdater {
    type V = NetworkUpdaterView;

    open spec fn view(&self) -> NetworkUpdaterView {
        NetworkUpdaterView {
            version: text_view(self.version),
            case_date: self.case_date,
            forecast_distance: self.forecast_distance,
            source_format: text_view(self.source_format),
            minimum_validation_level: text_view(self.minimum_validation_level),
            substations: optional_list_views(self.substations),
            lines: optional_list_views(self.lines),
        }
    }
}

impl NetworkUpdaterView {
    /// The update that changes nothing.
    pub open spec fn empty() -> NetworkUpdaterView {
        NetworkUpdaterView {
            version: None,
            case_date: None,
            forecast_distance: None,
            source_format: None,
            minimum_validation_level: None,
            substations: None,
            lines: None,
        }
    }
}

impl Default for NetworkUpdater {
    /// The update that changes nothing.
    fn default() -> (updates: NetworkUpdater)
        ensures
            updates@ == NetworkUpdaterView::empty(),
    {
        let updates = NetworkUpdater {
            version: None,
            case_date: None,
            forecast_distance: None,
            source_format: None,
            minimum_validation_level: None,
            substations: None,
            lines: None,
        };
        updates
    }
}

/// What can go wrong with a [`Network`]: one case for each field, one for a
/// payload that validation turned away, one for a date, and one for the
/// rest.
#[derive(Debug)]
pub enum NetworkError {
    Version(String),
    Id(String),
    CaseDate(String),
    ForecastDistance(String),
    SourceFormat(String),
    MinimumValidationLevel(String),
    Substations(String),
    Lines(String),
    Deserialization(ValidationError),
    DateParse(chrono::ParseError),
    Unknown(String),
}

impl NetworkError {
    /// What this error reports.
    pub open spec fn fault(self) -> Fault {
        match self {
            NetworkError::Version(_) => Fault::Field("version"@),
            NetworkError::Id(_) => Fault::Field("id"@),
            NetworkError::CaseDate(_) => Fault::Field("caseDate"@),
            NetworkError::ForecastDistance(_) => Fault::Field("forecastDistance"@),
            NetworkError::SourceFormat(_) => Fault::Field("sourceFormat"@),
            NetworkError::MinimumValidationLevel(_) => Fault::Field("minimumValidationLevel"@),
            NetworkError::Substations(_) => Fault::Field("substations"@),
            NetworkError::Lines(_) => Fault::Field("lines"@),
            NetworkError::Deserialization(error) => Fault::Rejected(error.kind()),
            NetworkError::DateParse(_) => Fault::Date,
            NetworkError::Unknown(_) => Fault::Unknown,
        }
    }

    /// The text of [`NetworkError::to_string`].
    pub open spec fn message(self) -> Seq<char> {
        match self {
            NetworkError::Version(detail) => field_error_text("version"@, detail@),
            NetworkError::Id(detail) => field_error_text("id"@, detail@),
            NetworkError::CaseDate(detail) => field_error_text("caseDate"@, detail@),
            NetworkError::ForecastDistance(detail) => field_error_text("forecastDistance"@, detail@),
            NetworkError::SourceFormat(detail) => field_error_text("sourceFormat"@, detail@),
            NetworkError::MinimumValidationLevel(detail) => field_error_text("minimumValidationLevel"@, detail@),
            NetworkError::Substations(detail) => field_error_text("substations"@, detail@),
            NetworkError::Lines(detail) => field_error_text("lines"@, detail@),
            NetworkError::Deserialization(error) => "Deserialization error: "@ + error.message(),
            NetworkError::DateParse(error) => "Date parsing error: "@ + date_error_text(error),
            NetworkError::Unknown(detail) => "Unknown error: "@ + detail@,
        }
    }

    /// The error in words.
    pub fn to_string(&self) -> (text: String)
        ensures
            text@ == self.message(),
    {
        match self {
            NetworkError::Version(detail) => field_error("version", detail.as_str()),
            NetworkError::Id(detail) => field_error("id", detail.as_str()),
            NetworkError::CaseDate(detail) => field_error("caseDate", detail.as_str()),
            NetworkError::ForecastDistance(detail) => field_error("forecastDistance", detail.as_str()),
            NetworkError::SourceFormat(detail) => field_error("sourceFormat", detail.as_str()),
            NetworkError::MinimumValidationLevel(detail) => field_error("minimumValidationLevel", detail.as_str()),
            NetworkError::Substations(detail) => field_error("substations", detail.as_str()),
            NetworkError::Lines(detail) => field_error("lines", detail.as_str()),
            NetworkError::Deserialization(error) => String::from_str(
                "Deserialization error: ",
            ).concat(error.to_string().as_str()),
            NetworkError::DateParse(error) => String::from_str("Date parsing error: ").concat(
                date_error_message(error).as_str(),
            ),
            NetworkError::Unknown(detail) => String::from_str("Unknown error: ").concat(
                detail.as_str(),
            ),
        }
    }
}

/// The wire names of a network.
pub open spec fn network_fields() -> Seq<Seq<char>> {
    seq![
        "version"@,
        "id"@,
        "caseDate"@,
        "forecastDistance"@,
        "sourceFormat"@,
        "minimumValidationLevel"@,
        "substations"@,
        "lines"@,
    ]
}

/// The wire names of a sparse update of a network: those of a network but its
/// identity.
pub open spec fn network_updater_fields() -> Seq<Seq<char>> {
    seq![
        "version"@,
        "caseDate"@,
        "forecastDistance"@,
        "sourceFormat"@,
        "minimumValidationLevel"@,
        "substations"@,
        "lines"@,
    ]
}

/// A sparse update of a network takes every field of a network but its
/// identity, under the same wire name.
pub proof fn lemma_network_updater_fields()
    ensures
        network_fields()[1] == "id"@,
        network_updater_fields() == network_fields().remove(1),
{
}

impl Network {
    /// The network that a parsed payload stands for.
    pub open spec fn spec_decoded(json: JsonView) -> Result<NetworkView, Fault> {
        if !(json is Object) {
            Err(Fault::Rejected(Rejection::Malformed))
        } else if required_text(json, "version"@) is None {
            Err(Fault::Field("version"@))
        } else if required_text(json, "id"@) is None {
            Err(Fault::Field("id"@))
        } else if required_timestamp(json, "caseDate"@) is Missing {
            Err(Fault::Field("caseDate"@))
        } else if required_timestamp(json, "caseDate"@) is Invalid {
            Err(Fault::Date)
        } else if required_i32(json, "forecastDistance"@) is None {
            Err(Fault::Field("forecastDistance"@))
        } else if required_text(json, "sourceFormat"@) is None {
            Err(Fault::Field("sourceFormat"@))
        } else if required_text(json, "minimumValidationLevel"@) is None {
            Err(Fault::Field("minimumValidationLevel"@))
        } else if listed::<Substation>(json, "substations"@) is None {
            Err(Fault::Field("substations"@))
        } else if listed::<Line>(json, "lines"@) is None {
            Err(Fault::Field("lines"@))
        } else {
            Ok(
                NetworkView {
                    version: required_text(json, "version"@)->Some_0,
                    id: required_text(json, "id"@)->Some_0,
                    case_date: required_timestamp(json, "caseDate"@)->Instant_0,
                    forecast_distance: required_i32(json, "forecastDistance"@)->Some_0,
                    source_format: required_text(json, "sourceFormat"@)->Some_0,
                    minimum_validation_level: required_text(json, "minimumValidationLevel"@)->Some_0,
                    substations: listed::<Substation>(json, "substations"@)->Some_0,
                    lines: listed::<Line>(json, "lines"@)->Some_0,
                },
            )
        }
    }

    /// The sparse update that a parsed payload stands for.
    pub open spec fn spec_decoded_update(json: JsonView) -> Result<NetworkUpdaterView, Fault> {
        if !(json is Object) {
            Err(Fault::Rejected(Rejection::Malformed))
        } else if optional_text(json, "version"@) is Err {
            Err(Fault::Field("version"@))
        } else if optional_timestamp(json, "caseDate"@) == Err::<Option<Timestamp>, DateField>(
            DateField::Missing,
        ) {
            Err(Fault::Field("caseDate"@))
        } else if optional_timestamp(json, "caseDate"@) is Err {
            Err(Fault::Date)
        } else if optional_i32(json, "forecastDistance"@) is Err {
            Err(Fault::Field("forecastDistance"@))
        } else if optional_text(json, "sourceFormat"@) is Err {
            Err(Fault::Field("sourceFormat"@))
        } else if optional_text(json, "minimumValidationLevel"@) is Err {
            Err(Fault::Field("minimumValidationLevel"@))
        } else if optional_list::<Substation>(json, "substations"@) is Err {
            Err(Fault::Field("substations"@))
        } else if optional_list::<Line>(json, "lines"@) is Err {
            Err(Fault::Field("lines"@))
        } else {
            Ok(
                NetworkUpdaterView {
                    version: optional_text(json, "version"@)->Ok_0,
                    case_date: optional_timestamp(json, "caseDate"@)->Ok_0,
                    forecast_distance: optional_i32(json, "forecastDistance"@)->Ok_0,
                    source_format: optional_text(json, "sourceFormat"@)->Ok_0,
                    minimum_validation_level: optional_text(json, "minimumValidationLevel"@)->Ok_0,
                    substations: optional_list::<Substation>(json, "substations"@)->Ok_0,
                    lines: optional_list::<Line>(json, "lines"@)->Ok_0,
                },
            )
        }
    }

    /// The network after `updates`: each field that is present in `updates`
    /// replaced, each absent one kept.
    pub open spec fn spec_merged(record: NetworkView, updates: NetworkUpdaterView) -> NetworkView {
        NetworkView {
            id: record.id,
            version: match updates.version {
                Some(version) => version,
                None => record.version,
            },
            case_date: match updates.case_date {
                Some(case_date) => case_date,
                None => record.case_date,
            },
            forecast_distance: match updates.forecast_distance {
                Some(forecast_distance) => forecast_distance,
                None => record.forecast_distance,
            },
            source_format: match updates.source_format {
                Some(source_format) => source_format,
                None => record.source_format,
            },
            minimum_validation_level: match updates.minimum_validation_level {
                Some(minimum_validation_level) => minimum_validation_level,
                None => record.minimum_validation_level,
            },
            substations: match updates.substations {
                Some(substations) => substations,
                None => record.substations,
            },
            lines: match updates.lines {
                Some(lines) => lines,
                None => record.lines,
            },
        }
    }

    /// Reads a network out of a JSON text. Keys that a network does not have are
    /// passed over.
    pub fn from_json_str(json: &str) -> (read: Result<Network, NetworkError>)
        ensures
            match json_of_text(json@) {
                None => read is Err && read->Err_0.fault() == Fault::Rejected(Rejection::Malformed),
                Some(payload) => match Network::spec_decoded(payload) {
                    Ok(record) => read is Ok && read->Ok_0@ == record,
                    Err(fault) => read is Err && read->Err_0.fault() == fault,
                },
            },
    {
        match parse_json(json) {
            Ok(payload) => Network::from_json(&payload),
            Err(detail) => Err(NetworkError::Deserialization(ValidationError::MalformedInput(detail))),
        }
    }
}

fn wire_names() -> (fields: Vec<String>)
    ensures
        fields.deep_view() == network_fields(),
{
    let mut fields: Vec<String> = Vec::new();
    fields.push(String::from_str("version"));
    fields.push(String::from_str("id"));
    fields.push(String::from_str("caseDate"));
    fields.push(String::from_str("forecastDistance"));
    fields.push(String::from_str("sourceFormat"));
    fields.push(String::from_str("minimumValidationLevel"));
    fields.push(String::from_str("substations"));
    fields.push(String::from_str("lines"));
    fields
}

fn updater_wire_names() -> (fields: Vec<String>)
    ensures
        fields.deep_view() == network_updater_fields(),
{
    let mut fields: Vec<String> = Vec::new();
    fields.push(String::from_str("version"));
    fields.push(String::from_str("caseDate"));
    fields.push(String::from_str("forecastDistance"));
    fields.push(String::from_str("sourceFormat"));
    fields.push(String::from_str("minimumValidationLevel"));
    fields.push(String::from_str("substations"));
    fields.push(String::from_str("lines"));
    fields
}

impl JsonSchema for Network {
    type Err = NetworkError;

    open spec fn spec_fields() -> Seq<Seq<char>> {
        network_fields()
    }

    open spec fn spec_schema() -> Seq<char> {
        "{\"type\":\"object\",\"required\":[\"version\",\"id\",\"caseDate\",\"forecastDistance\",\"sourceFormat\",\"minimumValidationLevel\"],\"properties\":{\"version\":{\"type\":\"string\"},\"id\":{\"type\":\"string\"},\"caseDate\":{\"type\":\"string\"},\"forecastDistance\":{\"type\":\"integer\"},\"sourceFormat\":{\"type\":\"string\"},\"minimumValidationLevel\":{\"type\":\"string\"},\"substations\":{\"type\":[\"array\",\"null\"],\"items\":{\"type\":\"object\",\"required\":[\"id\",\"country\",\"tso\"],\"properties\":{\"id\":{\"type\":\"string\"},\"country\":{\"type\":\"string\"},\"tso\":{\"type\":\"string\"},\"geographicalTags\":{\"type\":[\"array\",\"null\"],\"items\":{\"type\":\"string\"}}}}},\"lines\":{\"type\":[\"array\",\"null\"],\"items\":{\"type\":\"object\",\"required\":[\"id\",\"r\",\"x\",\"g1\",\"b1\",\"g2\",\"b2\",\"voltageLevelId1\",\"bus1\",\"connectableBus1\",\"voltageLevelId2\",\"bus2\",\"connectableBus2\"],\"properties\":{\"id\":{\"type\":\"string\"},\"r\":{\"type\":\"number\"},\"x\":{\"type\":\"number\"},\"g1\":{\"type\":\"number\"},\"b1\":{\"type\":\"number\"},\"g2\":{\"type\":\"number\"},\"b2\":{\"type\":\"number\"},\"voltageLevelId1\":{\"type\":\"string\"},\"bus1\":{\"type\":\"string\"},\"connectableBus1\":{\"type\":\"string\"},\"voltageLevelId2\":{\"type\":\"string\"},\"bus2\":{\"type\":\"string\"},\"connectableBus2\":{\"type\":\"string\"},\"currentLimits1\":{\"anyOf\":[{\"type\":\"null\"},{\"type\":\"object\",\"required\":[\"permanentLimit\"],\"properties\":{\"permanentLimit\":{\"type\":\"number\"},\"temporaryLimits\":{\"type\":[\"array\",\"null\"],\"items\":{\"type\":\"object\",\"required\":[\"name\",\"acceptableDuration\",\"value\"],\"properties\":{\"name\":{\"type\":\"string\"},\"acceptableDuration\":{\"type\":\"integer\"},\"value\":{\"type\":\"number\"}}}}}}]},\"currentLimits2\":{\"anyOf\":[{\"type\":\"null\"},{\"type\":\"object\",\"required\":[\"permanentLimit\"],\"properties\":{\"permanentLimit\":{\"type\":\"number\"},\"temporaryLimits\":{\"type\":[\"array\",\"null\"],\"items\":{\"type\":\"object\",\"required\":[\"name\",\"acceptableDuration\",\"value\"],\"properties\":{\"name\":{\"type\":\"string\"},\"acceptableDuration\":{\"type\":\"integer\"},\"value\":{\"type\":\"number\"}}}}}}]}}}}}}"@
    }

    open spec fn decoded(json: JsonView) -> Result<NetworkView, Fault> {
        Network::spec_decoded(json)
    }

    open spec fn fault_of(error: NetworkError) -> Fault {
        error.fault()
    }

    open spec fn message_of(error: NetworkError) -> Seq<char> {
        error.message()
    }

    fn fields_json() -> (fields: Vec<String>) {
        wire_names()
    }

    fn schema_json() -> (schema: String) {
        String::from_str(
            "{\"type\":\"object\",\"required\":[\"version\",\"id\",\"caseDate\",\"forecastDistance\",\"sourceFormat\",\"minimumValidationLevel\"],\"properties\":{\"version\":{\"type\":\"string\"},\"id\":{\"type\":\"string\"},\"caseDate\":{\"type\":\"string\"},\"forecastDistance\":{\"type\":\"integer\"},\"sourceFormat\":{\"type\":\"string\"},\"minimumValidationLevel\":{\"type\":\"string\"},\"substations\":{\"type\":[\"array\",\"null\"],\"items\":{\"type\":\"object\",\"required\":[\"id\",\"country\",\"tso\"],\"properties\":{\"id\":{\"type\":\"string\"},\"country\":{\"type\":\"string\"},\"tso\":{\"type\":\"string\"},\"geographicalTags\":{\"type\":[\"array\",\"null\"],\"items\":{\"type\":\"string\"}}}}},\"lines\":{\"type\":[\"array\",\"null\"],\"items\":{\"type\":\"object\",\"required\":[\"id\",\"r\",\"x\",\"g1\",\"b1\",\"g2\",\"b2\",\"voltageLevelId1\",\"bus1\",\"connectableBus1\",\"voltageLevelId2\",\"bus2\",\"connectableBus2\"],\"properties\":{\"id\":{\"type\":\"string\"},\"r\":{\"type\":\"number\"},\"x\":{\"type\":\"number\"},\"g1\":{\"type\":\"number\"},\"b1\":{\"type\":\"number\"},\"g2\":{\"type\":\"number\"},\"b2\":{\"type\":\"number\"},\"voltageLevelId1\":{\"type\":\"string\"},\"bus1\":{\"type\":\"string\"},\"connectableBus1\":{\"type\":\"string\"},\"voltageLevelId2\":{\"type\":\"string\"},\"bus2\":{\"type\":\"string\"},\"connectableBus2\":{\"type\":\"string\"},\"currentLimits1\":{\"anyOf\":[{\"type\":\"null\"},{\"type\":\"object\",\"required\":[\"permanentLimit\"],\"properties\":{\"permanentLimit\":{\"type\":\"number\"},\"temporaryLimits\":{\"type\":[\"array\",\"null\"],\"items\":{\"type\":\"object\",\"required\":[\"name\",\"acceptableDuration\",\"value\"],\"properties\":{\"name\":{\"type\":\"string\"},\"acceptableDuration\":{\"type\":\"integer\"},\"value\":{\"type\":\"number\"}}}}}}]},\"currentLimits2\":{\"anyOf\":[{\"type\":\"null\"},{\"type\":\"object\",\"required\":[\"permanentLimit\"],\"properties\":{\"permanentLimit\":{\"type\":\"number\"},\"temporaryLimits\":{\"type\":[\"array\",\"null\"],\"items\":{\"type\":\"object\",\"required\":[\"name\",\"acceptableDuration\",\"value\"],\"properties\":{\"name\":{\"type\":\"string\"},\"acceptableDuration\":{\"type\":\"integer\"},\"value\":{\"type\":\"number\"}}}}}}]}}}}}}",
        )
    }

    fn rejected(error: ValidationError) -> (wrapped: NetworkError) {
        NetworkError::Deserialization(error)
    }

    fn error_text(error: &NetworkError) -> (text: String) {
        error.to_string()
    }

    fn from_json(json: &Json) -> (read: Result<Network, NetworkError>) {
        if !json.is_object() {
            return Err(
                NetworkError::Deserialization(
                    ValidationError::MalformedInput(String::from_str("JSON input must be an object")),
                ),
            );
        }
        let version = match read_required_string(json, "version") {
            Some(version) => version,
            None => {
                return Err(NetworkError::Version(invalid_value()));
            },
        };
        let id = match read_required_string(json, "id") {
            Some(id) => id,
            None => {
                return Err(NetworkError::Id(invalid_value()));
            },
        };
        let case_date = match read_required_timestamp(json, "caseDate") {
            Ok(case_date) => case_date,
            Err(None) => {
                return Err(NetworkError::CaseDate(invalid_value()));
            },
            Err(Some(error)) => {
                return Err(NetworkError::DateParse(error));
            },
        };
        let forecast_distance = match read_required_i32(json, "forecastDistance") {
            Some(forecast_distance) => forecast_distance,
            None => {
                return Err(NetworkError::ForecastDistance(invalid_value()));
            },
        };
        let source_format = match read_required_string(json, "sourceFormat") {
            Some(source_format) => source_format,
            None => {
                return Err(NetworkError::SourceFormat(invalid_value()));
            },
        };
        let minimum_validation_level = match read_required_string(json, "minimumValidationLevel") {
            Some(minimum_validation_level) => minimum_validation_level,
            None => {
                return Err(NetworkError::MinimumValidationLevel(invalid_value()));
            },
        };
        let substations = match read_listed::<Substation>(json, "substations") {
            Some(substations) => substations,
            None => {
                return Err(NetworkError::Substations(invalid_value()));
            },
        };
        let lines = match read_listed::<Line>(json, "lines") {
            Some(lines) => lines,
            None => {
                return Err(NetworkError::Lines(invalid_value()));
            },
        };
        Ok(
            Network {
                version,
                id,
                case_date,
                forecast_distance,
                source_format,
                minimum_validation_level,
                substations,
                lines,
            },
        )
    }

    fn validate_json(json: &str) -> (validated: Result<Network, NetworkError>) {
        let fields = Self::fields_json();
        let schema = Self::schema_json();
        match validate_payload(json, &fields, schema.as_str()) {
            Ok(payload) => Self::from_json(&payload),
            Err(error) => Err(NetworkError::Deserialization(error)),
        }
    }
}

impl JsonSchema for NetworkUpdater {
    type Err = NetworkError;

    open spec fn spec_fields() -> Seq<Seq<char>> {
        network_updater_fields()
    }

    open spec fn spec_schema() -> Seq<char> {
        "{\"type\":\"object\",\"properties\":{\"version\":{\"type\":[\"string\",\"null\"]},\"caseDate\":{\"type\":[\"string\",\"null\"]},\"forecastDistance\":{\"type\":[\"integer\",\"null\"]},\"sourceFormat\":{\"type\":[\"string\",\"null\"]},\"minimumValidationLevel\":{\"type\":[\"string\",\"null\"]},\"substations\":{\"type\":[\"array\",\"null\"],\"items\":{\"type\":\"object\",\"required\":[\"id\",\"country\",\"tso\"],\"properties\":{\"id\":{\"type\":\"string\"},\"country\":{\"type\":\"string\"},\"tso\":{\"type\":\"string\"},\"geographicalTags\":{\"type\":[\"array\",\"null\"],\"items\":{\"type\":\"string\"}}}}},\"lines\":{\"type\":[\"array\",\"null\"],\"items\":{\"type\":\"object\",\"required\":[\"id\",\"r\",\"x\",\"g1\",\"b1\",\"g2\",\"b2\",\"voltageLevelId1\",\"bus1\",\"connectableBus1\",\"voltageLevelId2\",\"bus2\",\"connectableBus2\"],\"properties\":{\"id\":{\"type\":\"string\"},\"r\":{\"type\":\"number\"},\"x\":{\"type\":\"number\"},\"g1\":{\"type\":\"number\"},\"b1\":{\"type\":\"number\"},\"g2\":{\"type\":\"number\"},\"b2\":{\"type\":\"number\"},\"voltageLevelId1\":{\"type\":\"string\"},\"bus1\":{\"type\":\"string\"},\"connectableBus1\":{\"type\":\"string\"},\"voltageLevelId2\":{\"type\":\"string\"},\"bus2\":{\"type\":\"string\"},\"connectableBus2\":{\"type\":\"string\"},\"currentLimits1\":{\"anyOf\":[{\"type\":\"null\"},{\"type\":\"object\",\"required\":[\"permanentLimit\"],\"properties\":{\"permanentLimit\":{\"type\":\"number\"},\"temporaryLimits\":{\"type\":[\"array\",\"null\"],\"items\":{\"type\":\"object\",\"required\":[\"name\",\"acceptableDuration\",\"value\"],\"properties\":{\"name\":{\"type\":\"string\"},\"acceptableDuration\":{\"type\":\"integer\"},\"value\":{\"type\":\"number\"}}}}}}]},\"currentLimits2\":{\"anyOf\":[{\"type\":\"null\"},{\"type\":\"object\",\"required\":[\"permanentLimit\"],\"properties\":{\"permanentLimit\":{\"type\":\"number\"},\"temporaryLimits\":{\"type\":[\"array\",\"null\"],\"items\":{\"type\":\"object\",\"required\":[\"name\",\"acceptableDuration\",\"value\"],\"properties\":{\"name\":{\"type\":\"string\"},\"acceptableDuration\":{\"type\":\"integer\"},\"value\":{\"type\":\"number\"}}}}}}]}}}}}}"@
    }

    open spec fn decoded(json: JsonView) -> Result<NetworkUpdaterView, Fault> {
        Network::spec_decoded_update(json)
    }

    open spec fn fault_of(error: NetworkError) -> Fault {
        error.fault()
    }

    open spec fn message_of(error: NetworkError) -> Seq<char> {
        error.message()
    }

    fn fields_json() -> (fields: Vec<String>) {
        updater_wire_names()
    }

    fn schema_json() -> (schema: String) {
        String::from_str(
            "{\"type\":\"object\",\"properties\":{\"version\":{\"type\":[\"string\",\"null\"]},\"caseDate\":{\"type\":[\"string\",\"null\"]},\"forecastDistance\":{\"type\":[\"integer\",\"null\"]},\"sourceFormat\":{\"type\":[\"string\",\"null\"]},\"minimumValidationLevel\":{\"type\":[\"string\",\"null\"]},\"substations\":{\"type\":[\"array\",\"null\"],\"items\":{\"type\":\"object\",\"required\":[\"id\",\"country\",\"tso\"],\"properties\":{\"id\":{\"type\":\"string\"},\"country\":{\"type\":\"string\"},\"tso\":{\"type\":\"string\"},\"geographicalTags\":{\"type\":[\"array\",\"null\"],\"items\":{\"type\":\"string\"}}}}},\"lines\":{\"type\":[\"array\",\"null\"],\"items\":{\"type\":\"object\",\"required\":[\"id\",\"r\",\"x\",\"g1\",\"b1\",\"g2\",\"b2\",\"voltageLevelId1\",\"bus1\",\"connectableBus1\",\"voltageLevelId2\",\"bus2\",\"connectableBus2\"],\"properties\":{\"id\":{\"type\":\"string\"},\"r\":{\"type\":\"number\"},\"x\":{\"type\":\"number\"},\"g1\":{\"type\":\"number\"},\"b1\":{\"type\":\"number\"},\"g2\":{\"type\":\"number\"},\"b2\":{\"type\":\"number\"},\"voltageLevelId1\":{\"type\":\"string\"},\"bus1\":{\"type\":\"string\"},\"connectableBus1\":{\"type\":\"string\"},\"voltageLevelId2\":{\"type\":\"string\"},\"bus2\":{\"type\":\"string\"},\"connectableBus2\":{\"type\":\"string\"},\"currentLimits1\":{\"anyOf\":[{\"type\":\"null\"},{\"type\":\"object\",\"required\":[\"permanentLimit\"],\"properties\":{\"permanentLimit\":{\"type\":\"number\"},\"temporaryLimits\":{\"type\":[\"array\",\"null\"],\"items\":{\"type\":\"object\",\"required\":[\"name\",\"acceptableDuration\",\"value\"],\"properties\":{\"name\":{\"type\":\"string\"},\"acceptableDuration\":{\"type\":\"integer\"},\"value\":{\"type\":\"number\"}}}}}}]},\"currentLimits2\":{\"anyOf\":[{\"type\":\"null\"},{\"type\":\"object\",\"required\":[\"permanentLimit\"],\"properties\":{\"permanentLimit\":{\"type\":\"number\"},\"temporaryLimits\":{\"type\":[\"array\",\"null\"],\"items\":{\"type\":\"object\",\"required\":[\"name\",\"acceptableDuration\",\"value\"],\"properties\":{\"name\":{\"type\":\"string\"},\"acceptableDuration\":{\"type\":\"integer\"},\"value\":{\"type\":\"number\"}}}}}}]}}}}}}",
        )
    }

    fn rejected(error: ValidationError) -> (wrapped: NetworkError) {
        NetworkError::Deserialization(error)
    }

    fn error_text(error: &NetworkError) -> (text: String) {
        error.to_string()
    }

    fn from_json(json: &Json) -> (read: Result<NetworkUpdater, NetworkError>) {
        if !json.is_object() {
            return Err(
                NetworkError::Deserialization(
                    ValidationError::MalformedInput(String::from_str("JSON input must be an object")),
                ),
            );
        }
        let version = match read_optional_string(json, "version") {
            Ok(version) => version,
            Err(_) => {
                return Err(NetworkError::Version(invalid_value()));
            },
        };
        let case_date = match read_optional_timestamp(json, "caseDate") {
            Ok(case_date) => case_date,
            Err(None) => {
                return Err(NetworkError::CaseDate(invalid_value()));
            },
            Err(Some(error)) => {
                return Err(NetworkError::DateParse(error));
            },
        };
        let forecast_distance = match read_optional_i32(json, "forecastDistance") {
            Ok(forecast_distance) => forecast_distance,
            Err(_) => {
                return Err(NetworkError::ForecastDistance(invalid_value()));
            },
        };
        let source_format = match read_optional_string(json, "sourceFormat") {
            Ok(source_format) => source_format,
            Err(_) => {
                return Err(NetworkError::SourceFormat(invalid_value()));
            },
        };
        let minimum_validation_level = match read_optional_string(json, "minimumValidationLevel") {
            Ok(minimum_validation_level) => minimum_validation_level,
            Err(_) => {
                return Err(NetworkError::MinimumValidationLevel(invalid_value()));
            },
        };
        let substations = match read_optional_list::<Substation>(json, "substations") {
            Ok(substations) => substations,
            Err(_) => {
                return Err(NetworkError::Substations(invalid_value()));
            },
        };
        let lines = match read_optional_list::<Line>(json, "lines") {
            Ok(lines) => lines,
            Err(_) => {
                return Err(NetworkError::Lines(invalid_value()));
            },
        };
        Ok(
            NetworkUpdater {
                version,
                case_date,
                forecast_distance,
                source_format,
                minimum_validation_level,
                substations,
                lines,
            },
        )
    }

    fn validate_json(json: &str) -> (validated: Result<NetworkUpdater, NetworkError>) {
        let fields = Self::fields_json();
        let schema = Self::schema_json();
        match validate_payload(json, &fields, schema.as_str()) {
            Ok(payload) => Self::from_json(&payload),
            Err(error) => Err(NetworkError::Deserialization(error)),
        }
    }
}

impl Updatable for Network {
    type Updater = NetworkUpdater;

    open spec fn merged(record: NetworkView, updates: NetworkUpdaterView) -> NetworkView {
        Network::spec_merged(record, updates)
    }

    open spec fn is_empty_update(updates: NetworkUpdaterView) -> bool {
        updates == NetworkUpdaterView::empty()
    }

    proof fn empty_update_changes_nothing(record: NetworkView, updates: NetworkUpdaterView) {
    }

    fn update(&mut self, updates: NetworkUpdater) {
        if let Some(version) = updates.version {
            self.version = version;
        }
        if let Some(case_date) = updates.case_date {
            self.case_date = case_date;
        }
        if let Some(forecast_distance) = updates.forecast_distance {
            self.forecast_distance = forecast_distance;
        }
        if let Some(source_format) = updates.source_format {
            self.source_format = source_format;
        }
        if let Some(minimum_validation_level) = updates.minimum_validation_level {
            self.minimum_validation_level = minimum_validation_level;
        }
        if let Some(substations) = updates.substations {
            self.substations = substations;
        }
        if let Some(lines) = updates.lines {
            self.lines = lines;
        }
    }

    fn update_from_json(&mut self, json: &str) -> (updated: Result<(), NetworkError>) {
        let payload = match parse_json(json) {
            Ok(payload) => payload,
            Err(detail) => {
                return Err(NetworkError::Deserialization(ValidationError::MalformedInput(detail)));
            },
        };
        let fields = NetworkUpdater::fields_json();
        match check_shape(&payload, &fields) {
            Ok(()) => {},
            Err(error) => {
                return Err(NetworkError::Deserialization(error));
            },
        }
        match NetworkUpdater::from_json(&payload) {
            Ok(updates) => {
                self.update(updates);
                Ok(())
            },
            Err(error) => Err(error),
        }
    }
}

/// Of two updates applied one after the other, the later one decides each
/// field that it carries, and the earlier one each field that only it
/// carries; a field that neither carries stays as it was.
pub proof fn lemma_network_last_write_wins(
    record: NetworkView,
    first: NetworkUpdaterView,
    second: NetworkUpdaterView,
)
    ensures
        Network::spec_merged(Network::spec_merged(record, first), second).id == record.id,
        Network::spec_merged(Network::spec_merged(record, first), second).version == (match second.version {
            Some(version) => version,
            None => match first.version {
                Some(version) => version,
                None => record.version,
            },
        }),
        Network::spec_merged(Network::spec_merged(record, first), second).case_date == (match second.case_date {
            Some(case_date) => case_date,
            None => match first.case_date {
                Some(case_date) => case_date,
                None => record.case_date,
            },
        }),
        Network::spec_merged(Network::spec_merged(record, first), second).forecast_distance == (match second.forecast_distance {
            Some(forecast_distance) => forecast_distance,
            None => match first.forecast_distance {
                Some(forecast_distance) => forecast_distance,
                None => record.forecast_distance,
            },
        }),
        Network::spec_merged(Network::spec_merged(record, first), second).source_format == (match second.source_format {
            Some(source_format) => source_format,
            None => match first.source_format {
                Some(source_format) => source_format,
                None => record.source_format,
            },
        }),
        Network::spec_merged(Network::spec_merged(record, first), second).minimum_validation_level == (match second.minimum_validation_level {
            Some(minimum_validation_level) => minimum_validation_level,
            None => match first.minimum_validation_level {
                Some(minimum_validation_level) => minimum_validation_level,
                None => record.minimum_validation_level,
            },
        }),
        Network::spec_merged(Network::spec_merged(record, first), second).substations == (match second.substations {
            Some(substations) => substations,
            None => match first.substations {
                Some(substations) => substations,
                None => record.substations,
            },
        }),
        Network::spec_merged(Network::spec_merged(record, first), second).lines == (match second.lines {
            Some(lines) => lines,
            None => match first.lines {
                Some(lines) => lines,
                None => record.lines,
            },
        }),
{
}

/// The world after each of `substations` was registered, in order.
pub open spec fn substations_registered(world: WorldView, substations: Seq<SubstationView>) -> WorldView
    decreases substations.len(),
{
    if substations.len() == 0 {
        world
    } else {
        Substation::registered(
            substations_registered(world, substations.drop_last()),
            substations.last(),
        )
    }
}

/// The world after each of `lines` was registered, in order.
pub open spec fn lines_registered(world: WorldView, lines: Seq<LineView>) -> WorldView
    decreases lines.len(),
{
    if lines.len() == 0 {
        world
    } else {
        Line::registered(lines_registered(world, lines.drop_last()), lines.last())
    }
}

impl Identifiable for Network {
    open spec fn spec_id(record: NetworkView) -> Seq<char> {
        record.id
    }

    open spec fn registered(world: WorldView, record: NetworkView) -> WorldView {
        let after = plugins::registered(
            TypedWorld { registry: world.registry, records: world.networks },
            RegisterEventView { id: record.id, component: record },
        );
        lines_registered(
            substations_registered(
                WorldView { registry: after.registry, networks: after.records, ..world },
                record.substations,
            ),
            record.lines,
        )
    }

    fn id(&self) -> (id: String) {
        self.id.clone()
    }

    fn register(&self, world: &mut World) {
        let event = RegisterEvent { id: self.id(), component: self.clone() };
        apply_register(event, &mut world.registry, &mut world.networks);
        let ghost start = world@;
        let ghost substations = list_views(self.substations@);
        let mut i: usize = 0;
        while i < self.substations.len()
            invariant
                i <= self.substations.len(),
                substations == list_views(self.substations@),
                world@ == substations_registered(start, substations.take(i as int)),
            decreases self.substations.len() - i,
        {
            proof {
                assert(substations.take(i + 1).drop_last() =~= substations.take(i as int));
            }
            self.substations[i].register(world);
            i += 1;
        }
        let ghost middle = world@;
        let ghost lines = list_views(self.lines@);
        proof {
            assert(substations.take(substations.len() as int) =~= substations);
        }
        let mut k: usize = 0;
        while k < self.lines.len()
            invariant
                k <= self.lines.len(),
                lines == list_views(self.lines@),
                world@ == lines_registered(middle, lines.take(k as int)),
            decreases self.lines.len() - k,
        {
            proof {
                assert(lines.take(k + 1).drop_last() =~= lines.take(k as int));
            }
            self.lines[k].register(world);
            k += 1;
        }
        proof {
            assert(lines.take(lines.len() as int) =~= lines);
        }
    }
}

} // verus!
