//! A line between two voltage levels.

use vstd::prelude::*;
use vstd::string::StringExecFns;
use crate::decode::{
    date_error_message, date_error_text, invalid_value, number_of_real, optional_real,
    optional_text, present, read_optional_real, read_optional_string, read_present,
    read_required_real, read_required_string, real_to_json, required_real, required_text,
    text_to_json, text_view, Real,
};
use crate::entities::current_limits::{
    lemma_current_limits_read_back, CurrentLimits, CurrentLimitsView,
};
use crate::ecs::{World, WorldView};
use crate::extensions::{field_error, field_error_text, Fault, Identifiable, JsonSchema, Updatable};
use crate::plugins;
use crate::plugins::{apply_register, RegisterEvent, RegisterEventView, TypedWorld};
use crate::json::{
    find_member, json_of_text, lemma_find_member_is, lemma_object_view, lemma_overlay, member_views,
    overlay, overlay_members, parse_json, Json, JsonView,
};
use crate::resources::{PhysicalAssetRegistry, RecordHandle};
use crate::validation::{
    check_shape, lemma_first_unexpected, shape_rejection, validate_payload, Rejection,
    ValidationError,
};

verus! {

/// A line.
#[derive(Debug)]
pub struct Line {
    pub id: String,
    pub r: Real,
    pub x: Real,
    pub g1: Real,
    pub b1: Real,
    pub g2: Real,
    pub b2: Real,
    pub voltage_level_id1: String,
    pub bus1: String,
    pub connectable_bus1: String,
    pub voltage_level_id2: String,
    pub bus2: String,
    pub connectable_bus2: String,
    pub current_limits1: Option<CurrentLimits>,
    pub current_limits2: Option<CurrentLimits>,
}

/// The mathematical value of a [`Line`].
pub struct LineView {
    pub id: Seq<char>,
    pub r: Real,
    pub x: Real,
    pub g1: Real,
    pub b1: Real,
    pub g2: Real,
    pub b2: Real,
    pub voltage_level_id1: Seq<char>,
    pub bus1: Seq<char>,
    pub connectable_bus1: Seq<char>,
    pub voltage_level_id2: Seq<char>,
    pub bus2: Seq<char>,
    pub connectable_bus2: Seq<char>,
    pub current_limits1: Option<CurrentLimitsView>,
    pub current_limits2: Option<CurrentLimitsView>,
}

/// The value of current limits that may be absent.
pub open spec fn limits_view(limits: Option<CurrentLimits>) -> Option<CurrentLimitsView> {
    match limits {
        Some(limits) => Some(limits@),
        None => None,
    }
}

impl View for Line {
    type V = LineView;

    open spec fn view(&self) -> LineView {
        LineView {
            id: self.id@,
            r: self.r,
            x: self.x,
            g1: self.g1,
            b1: self.b1,
            g2: self.g2,
            b2: self.b2,
            voltage_level_id1: self.voltage_level_id1@,
            bus1: self.bus1@,
            connectable_bus1: self.connectable_bus1@,
            voltage_level_id2: self.voltage_level_id2@,
            bus2: self.bus2@,
            connectable_bus2: self.connectable_bus2@,
            current_limits1: limits_view(self.current_limits1),
            current_limits2: limits_view(self.current_limits2),
        }
    }
}

/// A copy of current limits that may be absent.
pub fn clone_limits(limits: &Option<CurrentLimits>) -> (copy: Option<CurrentLimits>)
    ensures
        limits_view(copy) == limits_view(*limits),
{
    match limits {
        Some(limits) => Some(limits.clone()),
        None => None,
    }
}

impl Clone for Line {
    fn clone(&self) -> (copy: Line)
        ensures
            copy@ == self@,
    {
        Line {
            id: self.id.clone(),
            r: self.r,
            x: self.x,
            g1: self.g1,
            b1: self.b1,
            g2: self.g2,
            b2: self.b2,
            voltage_level_id1: self.voltage_level_id1.clone(),
            bus1: self.bus1.clone(),
            connectable_bus1: self.connectable_bus1.clone(),
            voltage_level_id2: self.voltage_level_id2.clone(),
            bus2: self.bus2.clone(),
            connectable_bus2: self.connectable_bus2.clone(),
            current_limits1: clone_limits(&self.current_limits1),
            current_limits2: clone_limits(&self.current_limits2),
        }
    }
}

/// A sparse update of a [`Line`]. The current limits of a side are absent,
/// present and empty (which clears them), or present with a value.
#[derive(Clone, Debug)]
pub struct LineUpdater {
    pub r: Option<Real>,
    pub x: Option<Real>,
    pub g1: Option<Real>,
    pub b1: Option<Real>,
    pub g2: Option<Real>,
    pub b2: Option<Real>,
    pub voltage_level_id1: Option<String>,
    pub bus1: Option<String>,
    pub connectable_bus1: Option<String>,
    pub voltage_level_id2: Option<String>,
    pub bus2: Option<String>,
    pub connectable_bus2: Option<String>,
    pub current_limits1: Option<Option<CurrentLimits>>,
    pub current_limits2: Option<Option<CurrentLimits>>,
}

/// The mathematical value of a [`LineUpdater`].
pub struct LineUpdaterView {
    pub r: Option<Real>,
    pub x: Option<Real>,
    pub g1: Option<Real>,
    pub b1: Option<Real>,
    pub g2: Option<Real>,
    pub b2: Option<Real>,
    pub voltage_level_id1: Option<Seq<char>>,
    pub bus1: Option<Seq<char>>,
    pub connectable_bus1: Option<Seq<char>>,
    pub voltage_level_id2: Option<Seq<char>>,
    pub bus2: Option<Seq<char>>,
    pub connectable_bus2: Option<Seq<char>>,
    pub current_limits1: Option<Option<CurrentLimitsView>>,
    pub current_limits2: Option<Option<CurrentLimitsView>>,
}

impl View for LineUpdater {
    type V = LineUpdaterView;

    open spec fn view(&self) -> LineUpdaterView {
        LineUpdaterView {
            r: self.r,
            x: self.x,
            g1: self.g1,
            b1: self.b1,
            g2: self.g2,
            b2: self.b2,
            voltage_level_id1: text_view(self.voltage_level_id1),
            bus1: text_view(self.bus1),
            connectable_bus1: text_view(self.connectable_bus1),
            voltage_level_id2: text_view(self.voltage_level_id2),
            bus2: text_view(self.bus2),
            connectable_bus2: text_view(self.connectable_bus2),
            current_limits1: match self.current_limits1 {
                Some(limits) => Some(limits_view(limits)),
                None => None,
            },
            current_limits2: match self.current_limits2 {
                Some(limits) => Some(limits_view(limits)),
                None => None,
            },
        }
    }
}

impl LineUpdaterView {
    /// The update that changes nothing.
    pub open spec fn empty() -> LineUpdaterView {
        LineUpdaterView {
            r: None,
            x: None,
            g1: None,
            b1: None,
            g2: None,
            b2: None,
            voltage_level_id1: None,
            bus1: None,
            connectable_bus1: None,
            voltage_level_id2: None,
            bus2: None,
            connectable_bus2: None,
            current_limits1: None,
            current_limits2: None,
        }
    }
}

impl Default for LineUpdater {
    /// The update that changes nothing.
    fn default() -> (updates: LineUpdater)
        ensures
            updates@ == LineUpdaterView::empty(),
    {
        LineUpdater {
            r: None,
            x: None,
            g1: None,
            b1: None,
            g2: None,
            b2: None,
            voltage_level_id1: None,
            bus1: None,
            connectable_bus1: None,
            voltage_level_id2: None,
            bus2: None,
            connectable_bus2: None,
            current_limits1: None,
            current_limits2: None,
        }
    }
}

/// What can go wrong with a [`Line`]: one case for each field, one for a
/// payload that validation turned away, one for a date, and one for the
/// rest.
#[derive(Debug)]
pub enum LineError {
    Id(String),
    R(String),
    X(String),
    G1(String),
    B1(String),
    G2(String),
    B2(String),
    VoltageLevelId1(String),
    Bus1(String),
    ConnectableBus1(String),
    VoltageLevelId2(String),
    Bus2(String),
    ConnectableBus2(String),
    CurrentLimits1(String),
    CurrentLimits2(String),
    Deserialization(ValidationError),
    DateParse(chrono::ParseError),
    Unknown(String),
}

impl LineError {
    /// What this error reports.
    pub open spec fn fault(self) -> Fault {
        match self {
            LineError::Id(_) => Fault::Field("id"@),
            LineError::R(_) => Fault::Field("r"@),
            LineError::X(_) => Fault::Field("x"@),
            LineError::G1(_) => Fault::Field("g1"@),
            LineError::B1(_) => Fault::Field("b1"@),
            LineError::G2(_) => Fault::Field("g2"@),
            LineError::B2(_) => Fault::Field("b2"@),
            LineError::VoltageLevelId1(_) => Fault::Field("voltageLevelId1"@),
            LineError::Bus1(_) => Fault::Field("bus1"@),
            LineError::ConnectableBus1(_) => Fault::Field("connectableBus1"@),
            LineError::VoltageLevelId2(_) => Fault::Field("voltageLevelId2"@),
            LineError::Bus2(_) => Fault::Field("bus2"@),
            LineError::ConnectableBus2(_) => Fault::Field("connectableBus2"@),
            LineError::CurrentLimits1(_) => Fault::Field("currentLimits1"@),
            LineError::CurrentLimits2(_) => Fault::Field("currentLimits2"@),
            LineError::Deserialization(error) => Fault::Rejected(error.kind()),
            LineError::DateParse(_) => Fault::Date,
            LineError::Unknown(_) => Fault::Unknown,
        }
    }

    /// The text of [`LineError::to_string`].
    pub open spec fn message(self) -> Seq<char> {
        match self {
            LineError::Id(detail) => field_error_text("id"@, detail@),
            LineError::R(detail) => field_error_text("r"@, detail@),
            LineError::X(detail) => field_error_text("x"@, detail@),
            LineError::G1(detail) => field_error_text("g1"@, detail@),
            LineError::B1(detail) => field_error_text("b1"@, detail@),
            LineError::G2(detail) => field_error_text("g2"@, detail@),
            LineError::B2(detail) => field_error_text("b2"@, detail@),
            LineError::VoltageLevelId1(detail) => field_error_text("voltageLevelId1"@, detail@),
            LineError::Bus1(detail) => field_error_text("bus1"@, detail@),
            LineError::ConnectableBus1(detail) => field_error_text("connectableBus1"@, detail@),
            LineError::VoltageLevelId2(detail) => field_error_text("voltageLevelId2"@, detail@),
            LineError::Bus2(detail) => field_error_text("bus2"@, detail@),
            LineError::ConnectableBus2(detail) => field_error_text("connectableBus2"@, detail@),
            LineError::CurrentLimits1(detail) => field_error_text("currentLimits1"@, detail@),
            LineError::CurrentLimits2(detail) => field_error_text("currentLimits2"@, detail@),
            LineError::Deserialization(error) => "Deserialization error: "@ + error.message(),
            LineError::DateParse(error) => "Date parsing error: "@ + date_error_text(error),
            LineError::Unknown(detail) => "Unknown error: "@ + detail@,
        }
    }

    /// The error in words.
    pub fn to_string(&self) -> (text: String)
        ensures
            text@ == self.message(),
    {
        match self {
            LineError::Id(detail) => field_error("id", detail.as_str()),
            LineError::R(detail) => field_error("r", detail.as_str()),
            LineError::X(detail) => field_error("x", detail.as_str()),
            LineError::G1(detail) => field_error("g1", detail.as_str()),
            LineError::B1(detail) => field_error("b1", detail.as_str()),
            LineError::G2(detail) => field_error("g2", detail.as_str()),
            LineError::B2(detail) => field_error("b2", detail.as_str()),
            LineError::VoltageLevelId1(detail) => field_error("voltageLevelId1", detail.as_str()),
            LineError::Bus1(detail) => field_error("bus1", detail.as_str()),
            LineError::ConnectableBus1(detail) => field_error("connectableBus1", detail.as_str()),
            LineError::VoltageLevelId2(detail) => field_error("voltageLevelId2", detail.as_str()),
            LineError::Bus2(detail) => field_error("bus2", detail.as_str()),
            LineError::ConnectableBus2(detail) => field_error("connectableBus2", detail.as_str()),
            LineError::CurrentLimits1(detail) => field_error("currentLimits1", detail.as_str()),
            LineError::CurrentLimits2(detail) => field_error("currentLimits2", detail.as_str()),
            LineError::Deserialization(error) => String::from_str("Deserialization error: ").concat(
                error.to_string().as_str(),
            ),
            LineError::DateParse(detail) => String::from_str("Date parsing error: ").concat(
                date_error_message(detail).as_str(),
            ),
            LineError::Unknown(detail) => String::from_str("Unknown error: ").concat(
                detail.as_str(),
            ),
        }
    }
}

/// The wire names of a line.
pub open spec fn line_fields() -> Seq<Seq<char>> {
    seq![
        "id"@,
        "r"@,
        "x"@,
        "g1"@,
        "b1"@,
        "g2"@,
        "b2"@,
        "voltageLevelId1"@,
        "bus1"@,
        "connectableBus1"@,
        "voltageLevelId2"@,
        "bus2"@,
        "connectableBus2"@,
        "currentLimits1"@,
        "currentLimits2"@,
    ]
}

/// The wire names of a sparse update of a line: those of a line but its
/// identity.
pub open spec fn line_updater_fields() -> Seq<Seq<char>> {
    seq![
        "r"@,
        "x"@,
        "g1"@,
        "b1"@,
        "g2"@,
        "b2"@,
        "voltageLevelId1"@,
        "bus1"@,
        "connectableBus1"@,
        "voltageLevelId2"@,
        "bus2"@,
        "connectableBus2"@,
        "currentLimits1"@,
        "currentLimits2"@,
    ]
}

/// A sparse update of a line takes every field of a line but its
/// identity, under the same wire name.
pub proof fn lemma_line_updater_fields()
    ensures
        line_fields()[0] == "id"@,
        line_updater_fields() == line_fields().remove(0),
{
}

/// The current limits under `key` of a full record: none where the key is
/// missing or holds `null`.
pub open spec fn side_limits(json: JsonView, key: Seq<char>) -> Result<Option<CurrentLimitsView>, ()> {
    match present(json, key) {
        None => Ok(None),
        Some(value) => match CurrentLimits::spec_decoded(value) {
            Ok(limits) => Ok(Some(limits)),
            Err(_) => Err(()),
        },
    }
}

/// The current limits that a sparse update carries under `key`: nothing
/// where the key is missing, the order to clear them where it holds
/// `null`, new limits otherwise.
pub open spec fn side_limits_update(json: JsonView, key: Seq<char>) -> Result<
    Option<Option<CurrentLimitsView>>,
    (),
> {
    match json.member(key) {
        None => Ok(None),
        Some(value) => if value is Null {
            Ok(Some(None))
        } else {
            match CurrentLimits::spec_decoded(value) {
                Ok(limits) => Ok(Some(Some(limits))),
                Err(_) => Err(()),
            }
        },
    }
}

/// Reads the current limits under `key` of a full record.
pub fn read_side_limits(json: &Json, key: &str) -> (read: Result<Option<CurrentLimits>, ()>)
    ensures
        match read {
            Ok(limits) => side_limits(json@, key@) == Ok::<Option<CurrentLimitsView>, ()>(
                limits_view(limits),
            ),
            Err(_) => side_limits(json@, key@) is Err,
        },
{
    match read_present(json, key) {
        None => Ok(None),
        Some(value) => match CurrentLimits::from_json(value) {
            Ok(limits) => Ok(Some(limits)),
            Err(_) => Err(()),
        },
    }
}

/// Reads the current limits that a sparse update carries under `key`.
pub fn read_side_limits_update(json: &Json, key: &str) -> (read: Result<
    Option<Option<CurrentLimits>>,
    (),
>)
    ensures
        match read {
            Ok(Some(limits)) => side_limits_update(json@, key@) == Ok::<
                Option<Option<CurrentLimitsView>>,
                (),
            >(Some(limits_view(limits))),
            Ok(None) => side_limits_update(json@, key@) == Ok::<
                Option<Option<CurrentLimitsView>>,
                (),
            >(None),
            Err(_) => side_limits_update(json@, key@) is Err,
        },
{
    match json.get(key) {
        None => Ok(None),
        Some(value) => if value.is_null() {
            Ok(Some(None))
        } else {
            match CurrentLimits::from_json(value) {
                Ok(limits) => Ok(Some(Some(limits))),
                Err(_) => Err(()),
            }
        },
    }
}

impl Line {
    /// The line that a parsed payload stands for.
    pub open spec fn spec_decoded(json: JsonView) -> Result<LineView, Fault> {
        if !(json is Object) {
            Err(Fault::Rejected(Rejection::Malformed))
        } else if required_text(json, "id"@) is None {
            Err(Fault::Field("id"@))
        } else if required_real(json, "r"@) is None {
            Err(Fault::Field("r"@))
        } else if required_real(json, "x"@) is None {
            Err(Fault::Field("x"@))
        } else if required_real(json, "g1"@) is None {
            Err(Fault::Field("g1"@))
        } else if required_real(json, "b1"@) is None {
            Err(Fault::Field("b1"@))
        } else if required_real(json, "g2"@) is None {
            Err(Fault::Field("g2"@))
        } else if required_real(json, "b2"@) is None {
            Err(Fault::Field("b2"@))
        } else if required_text(json, "voltageLevelId1"@) is None {
            Err(Fault::Field("voltageLevelId1"@))
        } else if required_text(json, "bus1"@) is None {
            Err(Fault::Field("bus1"@))
        } else if required_text(json, "connectableBus1"@) is None {
            Err(Fault::Field("connectableBus1"@))
        } else if required_text(json, "voltageLevelId2"@) is None {
            Err(Fault::Field("voltageLevelId2"@))
        } else if required_text(json, "bus2"@) is None {
            Err(Fault::Field("bus2"@))
        } else if required_text(json, "connectableBus2"@) is None {
            Err(Fault::Field("connectableBus2"@))
        } else if side_limits(json, "currentLimits1"@) is Err {
            Err(Fault::Field("currentLimits1"@))
        } else if side_limits(json, "currentLimits2"@) is Err {
            Err(Fault::Field("currentLimits2"@))
        } else {
            Ok(
                LineView {
                    id: required_text(json, "id"@)->Some_0,
                    r: required_real(json, "r"@)->Some_0,
                    x: required_real(json, "x"@)->Some_0,
                    g1: required_real(json, "g1"@)->Some_0,
                    b1: required_real(json, "b1"@)->Some_0,
                    g2: required_real(json, "g2"@)->Some_0,
                    b2: required_real(json, "b2"@)->Some_0,
                    voltage_level_id1: required_text(json, "voltageLevelId1"@)->Some_0,
                    bus1: required_text(json, "bus1"@)->Some_0,
                    connectable_bus1: required_text(json, "connectableBus1"@)->Some_0,
                    voltage_level_id2: required_text(json, "voltageLevelId2"@)->Some_0,
                    bus2: required_text(json, "bus2"@)->Some_0,
                    connectable_bus2: required_text(json, "connectableBus2"@)->Some_0,
                    current_limits1: side_limits(json, "currentLimits1"@)->Ok_0,
                    current_limits2: side_limits(json, "currentLimits2"@)->Ok_0,
                },
            )
        }
    }

    /// The sparse update that a parsed payload stands for.
    pub open spec fn spec_decoded_update(json: JsonView) -> Result<LineUpdaterView, Fault> {
        if !(json is Object) {
            Err(Fault::Rejected(Rejection::Malformed))
        } else if optional_real(json, "r"@) is Err {
            Err(Fault::Field("r"@))
        } else if optional_real(json, "x"@) is Err {
            Err(Fault::Field("x"@))
        } else if optional_real(json, "g1"@) is Err {
            Err(Fault::Field("g1"@))
        } else if optional_real(json, "b1"@) is Err {
            Err(Fault::Field("b1"@))
        } else if optional_real(json, "g2"@) is Err {
            Err(Fault::Field("g2"@))
        } else if optional_real(json, "b2"@) is Err {
            Err(Fault::Field("b2"@))
        } else if optional_text(json, "voltageLevelId1"@) is Err {
            Err(Fault::Field("voltageLevelId1"@))
        } else if optional_text(json, "bus1"@) is Err {
            Err(Fault::Field("bus1"@))
        } else if optional_text(json, "connectableBus1"@) is Err {
            Err(Fault::Field("connectableBus1"@))
        } else if optional_text(json, "voltageLevelId2"@) is Err {
            Err(Fault::Field("voltageLevelId2"@))
        } else if optional_text(json, "bus2"@) is Err {
            Err(Fault::Field("bus2"@))
        } else if optional_text(json, "connectableBus2"@) is Err {
            Err(Fault::Field("connectableBus2"@))
        } else if side_limits_update(json, "currentLimits1"@) is Err {
            Err(Fault::Field("currentLimits1"@))
        } else if side_limits_update(json, "currentLimits2"@) is Err {
            Err(Fault::Field("currentLimits2"@))
        } else {
            Ok(
                LineUpdaterView {
                    r: optional_real(json, "r"@)->Ok_0,
                    x: optional_real(json, "x"@)->Ok_0,
                    g1: optional_real(json, "g1"@)->Ok_0,
                    b1: optional_real(json, "b1"@)->Ok_0,
                    g2: optional_real(json, "g2"@)->Ok_0,
                    b2: optional_real(json, "b2"@)->Ok_0,
                    voltage_level_id1: optional_text(json, "voltageLevelId1"@)->Ok_0,
                    bus1: optional_text(json, "bus1"@)->Ok_0,
                    connectable_bus1: optional_text(json, "connectableBus1"@)->Ok_0,
                    voltage_level_id2: optional_text(json, "voltageLevelId2"@)->Ok_0,
                    bus2: optional_text(json, "bus2"@)->Ok_0,
                    connectable_bus2: optional_text(json, "connectableBus2"@)->Ok_0,
                    current_limits1: side_limits_update(json, "currentLimits1"@)->Ok_0,
                    current_limits2: side_limits_update(json, "currentLimits2"@)->Ok_0,
                },
            )
        }
    }

    /// The line after `updates`: each field that is present in `updates`
    /// replaced, each absent one kept.
    pub open spec fn spec_merged(record: LineView, updates: LineUpdaterView) -> LineView {
        LineView {
            id: record.id,
            r: match updates.r {
                Some(r) => r,
                None => record.r,
            },
            x: match updates.x {
                Some(x) => x,
                None => record.x,
            },
            g1: match updates.g1 {
                Some(g1) => g1,
                None => record.g1,
            },
            b1: match updates.b1 {
                Some(b1) => b1,
                None => record.b1,
            },
            g2: match updates.g2 {
                Some(g2) => g2,
                None => record.g2,
            },
            b2: match updates.b2 {
                Some(b2) => b2,
                None => record.b2,
            },
            voltage_level_id1: match updates.voltage_level_id1 {
                Some(voltage_level_id1) => voltage_level_id1,
                None => record.voltage_level_id1,
            },
            bus1: match updates.bus1 {
                Some(bus1) => bus1,
                None => record.bus1,
            },
            connectable_bus1: match updates.connectable_bus1 {
                Some(connectable_bus1) => connectable_bus1,
                None => record.connectable_bus1,
            },
            voltage_level_id2: match updates.voltage_level_id2 {
                Some(voltage_level_id2) => voltage_level_id2,
                None => record.voltage_level_id2,
            },
            bus2: match updates.bus2 {
                Some(bus2) => bus2,
                None => record.bus2,
            },
            connectable_bus2: match updates.connectable_bus2 {
                Some(connectable_bus2) => connectable_bus2,
                None => record.connectable_bus2,
            },
            current_limits1: match updates.current_limits1 {
                Some(current_limits1) => current_limits1,
                None => record.current_limits1,
            },
            current_limits2: match updates.current_limits2 {
                Some(current_limits2) => current_limits2,
                None => record.current_limits2,
            },
        }
    }

    /// Reads a line out of a JSON text. Keys that a line does not have are
    /// passed over.
    pub fn from_json_str(json: &str) -> (read: Result<Line, LineError>)
        ensures
            match json_of_text(json@) {
                None => read is Err && read->Err_0.fault() == Fault::Rejected(Rejection::Malformed),
                Some(payload) => match Line::spec_decoded(payload) {
                    Ok(line) => read is Ok && read->Ok_0@ == line,
                    Err(fault) => read is Err && read->Err_0.fault() == fault,
                },
            },
    {
        match parse_json(json) {
            Ok(payload) => Line::from_json(&payload),
            Err(detail) => Err(LineError::Deserialization(ValidationError::MalformedInput(detail))),
        }
    }

    /// Gives this line a handle in `registry`, whether or not it had one.
    pub fn load_in_registery(&self, registry: &mut PhysicalAssetRegistry) -> (minted: RecordHandle)
        ensures
            final(registry)@ == old(registry)@.spawned(self.id@),
            PhysicalAssetRegistry::spec_find(final(registry)@, self.id@) == Some(minted),
            PhysicalAssetRegistry::is_fresh(old(registry)@, minted),
    {
        registry.spawn_physical_asset(self.id.clone())
    }
}

impl Identifiable for Line {
    open spec fn spec_id(record: LineView) -> Seq<char> {
        record.id
    }

    open spec fn registered(world: WorldView, record: LineView) -> WorldView {
        let after = plugins::registered(
            TypedWorld { registry: world.registry, records: world.lines },
            RegisterEventView { id: record.id, component: record },
        );
        WorldView { registry: after.registry, lines: after.records, ..world }
    }

    fn id(&self) -> (id: String) {
        self.id.clone()
    }

    fn register(&self, world: &mut World) {
        let event = RegisterEvent { id: self.id(), component: self.clone() };
        apply_register(event, &mut world.registry, &mut world.lines);
    }
}

fn wire_names() -> (fields: Vec<String>)
    ensures
        fields.deep_view() == line_fields(),
{
    let mut fields: Vec<String> = Vec::new();
    fields.push(String::from_str("id"));
    fields.push(String::from_str("r"));
    fields.push(String::from_str("x"));
    fields.push(String::from_str("g1"));
    fields.push(String::from_str("b1"));
    fields.push(String::from_str("g2"));
    fields.push(String::from_str("b2"));
    fields.push(String::from_str("voltageLevelId1"));
    fields.push(String::from_str("bus1"));
    fields.push(String::from_str("connectableBus1"));
    fields.push(String::from_str("voltageLevelId2"));
    fields.push(String::from_str("bus2"));
    fields.push(String::from_str("connectableBus2"));
    fields.push(String::from_str("currentLimits1"));
    fields.push(String::from_str("currentLimits2"));
    fields
}

fn updater_wire_names() -> (fields: Vec<String>)
    ensures
        fields.deep_view() == line_updater_fields(),
{
    let mut fields: Vec<String> = Vec::new();
    fields.push(String::from_str("r"));
    fields.push(String::from_str("x"));
    fields.push(String::from_str("g1"));
    fields.push(String::from_str("b1"));
    fields.push(String::from_str("g2"));
    fields.push(String::from_str("b2"));
    fields.push(String::from_str("voltageLevelId1"));
    fields.push(String::from_str("bus1"));
    fields.push(String::from_str("connectableBus1"));
    fields.push(String::from_str("voltageLevelId2"));
    fields.push(String::from_str("bus2"));
    fields.push(String::from_str("connectableBus2"));
    fields.push(String::from_str("currentLimits1"));
    fields.push(String::from_str("currentLimits2"));
    fields
}

impl JsonSchema for Line {
    type Err = LineError;

    open spec fn spec_fields() -> Seq<Seq<char>> {
        line_fields()
    }

    open spec fn spec_schema() -> Seq<char> {
        "{\"type\":\"object\",\"required\":[\"id\",\"r\",\"x\",\"g1\",\"b1\",\"g2\",\"b2\",\"voltageLevelId1\",\"bus1\",\"connectableBus1\",\"voltageLevelId2\",\"bus2\",\"connectableBus2\"],\"properties\":{\"id\":{\"type\":\"string\"},\"r\":{\"type\":\"number\"},\"x\":{\"type\":\"number\"},\"g1\":{\"type\":\"number\"},\"b1\":{\"type\":\"number\"},\"g2\":{\"type\":\"number\"},\"b2\":{\"type\":\"number\"},\"voltageLevelId1\":{\"type\":\"string\"},\"bus1\":{\"type\":\"string\"},\"connectableBus1\":{\"type\":\"string\"},\"voltageLevelId2\":{\"type\":\"string\"},\"bus2\":{\"type\":\"string\"},\"connectableBus2\":{\"type\":\"string\"},\"currentLimits1\":{\"anyOf\":[{\"type\":\"null\"},{\"type\":\"object\",\"required\":[\"permanentLimit\"],\"properties\":{\"permanentLimit\":{\"type\":\"number\"},\"temporaryLimits\":{\"type\":[\"array\",\"null\"],\"items\":{\"type\":\"object\",\"required\":[\"name\",\"acceptableDuration\",\"value\"],\"properties\":{\"name\":{\"type\":\"string\"},\"acceptableDuration\":{\"type\":\"integer\"},\"value\":{\"type\":\"number\"}}}}}}]},\"currentLimits2\":{\"anyOf\":[{\"type\":\"null\"},{\"type\":\"object\",\"required\":[\"permanentLimit\"],\"properties\":{\"permanentLimit\":{\"type\":\"number\"},\"temporaryLimits\":{\"type\":[\"array\",\"null\"],\"items\":{\"type\":\"object\",\"required\":[\"name\",\"acceptableDuration\",\"value\"],\"properties\":{\"name\":{\"type\":\"string\"},\"acceptableDuration\":{\"type\":\"integer\"},\"value\":{\"type\":\"number\"}}}}}}]}}}"@
    }

    open spec fn decoded(json: JsonView) -> Result<LineView, Fault> {
        Line::spec_decoded(json)
    }

    open spec fn fault_of(error: LineError) -> Fault {
        error.fault()
    }

    open spec fn message_of(error: LineError) -> Seq<char> {
        error.message()
    }

    fn fields_json() -> (fields: Vec<String>) {
        wire_names()
    }

    fn schema_json() -> (schema: String) {
        String::from_str(
            "{\"type\":\"object\",\"required\":[\"id\",\"r\",\"x\",\"g1\",\"b1\",\"g2\",\"b2\",\"voltageLevelId1\",\"bus1\",\"connectableBus1\",\"voltageLevelId2\",\"bus2\",\"connectableBus2\"],\"properties\":{\"id\":{\"type\":\"string\"},\"r\":{\"type\":\"number\"},\"x\":{\"type\":\"number\"},\"g1\":{\"type\":\"number\"},\"b1\":{\"type\":\"number\"},\"g2\":{\"type\":\"number\"},\"b2\":{\"type\":\"number\"},\"voltageLevelId1\":{\"type\":\"string\"},\"bus1\":{\"type\":\"string\"},\"connectableBus1\":{\"type\":\"string\"},\"voltageLevelId2\":{\"type\":\"string\"},\"bus2\":{\"type\":\"string\"},\"connectableBus2\":{\"type\":\"string\"},\"currentLimits1\":{\"anyOf\":[{\"type\":\"null\"},{\"type\":\"object\",\"required\":[\"permanentLimit\"],\"properties\":{\"permanentLimit\":{\"type\":\"number\"},\"temporaryLimits\":{\"type\":[\"array\",\"null\"],\"items\":{\"type\":\"object\",\"required\":[\"name\",\"acceptableDuration\",\"value\"],\"properties\":{\"name\":{\"type\":\"string\"},\"acceptableDuration\":{\"type\":\"integer\"},\"value\":{\"type\":\"number\"}}}}}}]},\"currentLimits2\":{\"anyOf\":[{\"type\":\"null\"},{\"type\":\"object\",\"required\":[\"permanentLimit\"],\"properties\":{\"permanentLimit\":{\"type\":\"number\"},\"temporaryLimits\":{\"type\":[\"array\",\"null\"],\"items\":{\"type\":\"object\",\"required\":[\"name\",\"acceptableDuration\",\"value\"],\"properties\":{\"name\":{\"type\":\"string\"},\"acceptableDuration\":{\"type\":\"integer\"},\"value\":{\"type\":\"number\"}}}}}}]}}}",
        )
    }

    fn rejected(error: ValidationError) -> (wrapped: LineError) {
        LineError::Deserialization(error)
    }

    fn error_text(error: &LineError) -> (text: String) {
        error.to_string()
    }

    fn from_json(json: &Json) -> (read: Result<Line, LineError>) {
        if !json.is_object() {
            return Err(
                LineError::Deserialization(
                    ValidationError::MalformedInput(String::from_str("JSON input must be an object")),
                ),
            );
        }
        let id = match read_required_string(json, "id") {
            Some(id) => id,
            None => {
                return Err(LineError::Id(invalid_value()));
            },
        };
        let r = match read_required_real(json, "r") {
            Some(r) => r,
            None => {
                return Err(LineError::R(invalid_value()));
            },
        };
        let x = match read_required_real(json, "x") {
            Some(x) => x,
            None => {
                return Err(LineError::X(invalid_value()));
            },
        };
        let g1 = match read_required_real(json, "g1") {
            Some(g1) => g1,
            None => {
                return Err(LineError::G1(invalid_value()));
            },
        };
        let b1 = match read_required_real(json, "b1") {
            Some(b1) => b1,
            None => {
                return Err(LineError::B1(invalid_value()));
            },
        };
        let g2 = match read_required_real(json, "g2") {
            Some(g2) => g2,
            None => {
                return Err(LineError::G2(invalid_value()));
            },
        };
        let b2 = match read_required_real(json, "b2") {
            Some(b2) => b2,
            None => {
                return Err(LineError::B2(invalid_value()));
            },
        };
        let voltage_level_id1 = match read_required_string(json, "voltageLevelId1") {
            Some(voltage_level_id1) => voltage_level_id1,
            None => {
                return Err(LineError::VoltageLevelId1(invalid_value()));
            },
        };
        let bus1 = match read_required_string(json, "bus1") {
            Some(bus1) => bus1,
            None => {
                return Err(LineError::Bus1(invalid_value()));
            },
        };
        let connectable_bus1 = match read_required_string(json, "connectableBus1") {
            Some(connectable_bus1) => connectable_bus1,
            None => {
                return Err(LineError::ConnectableBus1(invalid_value()));
            },
        };
        let voltage_level_id2 = match read_required_string(json, "voltageLevelId2") {
            Some(voltage_level_id2) => voltage_level_id2,
            None => {
                return Err(LineError::VoltageLevelId2(invalid_value()));
            },
        };
        let bus2 = match read_required_string(json, "bus2") {
            Some(bus2) => bus2,
            None => {
                return Err(LineError::Bus2(invalid_value()));
            },
        };
        let connectable_bus2 = match read_required_string(json, "connectableBus2") {
            Some(connectable_bus2) => connectable_bus2,
            None => {
                return Err(LineError::ConnectableBus2(invalid_value()));
            },
        };
        let current_limits1 = match read_side_limits(json, "currentLimits1") {
            Ok(current_limits1) => current_limits1,
            Err(_) => {
                return Err(LineError::CurrentLimits1(invalid_value()));
            },
        };
        let current_limits2 = match read_side_limits(json, "currentLimits2") {
            Ok(current_limits2) => current_limits2,
            Err(_) => {
                return Err(LineError::CurrentLimits2(invalid_value()));
            },
        };
        Ok(
            Line {
                id,
                r,
                x,
                g1,
                b1,
                g2,
                b2,
                voltage_level_id1,
                bus1,
                connectable_bus1,
                voltage_level_id2,
                bus2,
                connectable_bus2,
                current_limits1,
                current_limits2,
            },
        )
    }

    fn validate_json(json: &str) -> (validated: Result<Line, LineError>) {
        let fields = Self::fields_json();
        let schema = Self::schema_json();
        match validate_payload(json, &fields, schema.as_str()) {
            Ok(payload) => Self::from_json(&payload),
            Err(error) => Err(LineError::Deserialization(error)),
        }
    }
}

impl JsonSchema for LineUpdater {
    type Err = LineError;

    open spec fn spec_fields() -> Seq<Seq<char>> {
        line_updater_fields()
    }

    open spec fn spec_schema() -> Seq<char> {
        "{\"type\":\"object\",\"properties\":{\"r\":{\"type\":[\"number\",\"null\"]},\"x\":{\"type\":[\"number\",\"null\"]},\"g1\":{\"type\":[\"number\",\"null\"]},\"b1\":{\"type\":[\"number\",\"null\"]},\"g2\":{\"type\":[\"number\",\"null\"]},\"b2\":{\"type\":[\"number\",\"null\"]},\"voltageLevelId1\":{\"type\":[\"string\",\"null\"]},\"bus1\":{\"type\":[\"string\",\"null\"]},\"connectableBus1\":{\"type\":[\"string\",\"null\"]},\"voltageLevelId2\":{\"type\":[\"string\",\"null\"]},\"bus2\":{\"type\":[\"string\",\"null\"]},\"connectableBus2\":{\"type\":[\"string\",\"null\"]},\"currentLimits1\":{\"anyOf\":[{\"type\":\"null\"},{\"type\":\"object\",\"required\":[\"permanentLimit\"],\"properties\":{\"permanentLimit\":{\"type\":\"number\"},\"temporaryLimits\":{\"type\":[\"array\",\"null\"],\"items\":{\"type\":\"object\",\"required\":[\"name\",\"acceptableDuration\",\"value\"],\"properties\":{\"name\":{\"type\":\"string\"},\"acceptableDuration\":{\"type\":\"integer\"},\"value\":{\"type\":\"number\"}}}}}}]},\"currentLimits2\":{\"anyOf\":[{\"type\":\"null\"},{\"type\":\"object\",\"required\":[\"permanentLimit\"],\"properties\":{\"permanentLimit\":{\"type\":\"number\"},\"temporaryLimits\":{\"type\":[\"array\",\"null\"],\"items\":{\"type\":\"object\",\"required\":[\"name\",\"acceptableDuration\",\"value\"],\"properties\":{\"name\":{\"type\":\"string\"},\"acceptableDuration\":{\"type\":\"integer\"},\"value\":{\"type\":\"number\"}}}}}}]}}}"@
    }

    open spec fn decoded(json: JsonView) -> Result<LineUpdaterView, Fault> {
        Line::spec_decoded_update(json)
    }

    open spec fn fault_of(error: LineError) -> Fault {
        error.fault()
    }

    open spec fn message_of(error: LineError) -> Seq<char> {
        error.message()
    }

    fn fields_json() -> (fields: Vec<String>) {
        updater_wire_names()
    }

    fn schema_json() -> (schema: String) {
        String::from_str(
            "{\"type\":\"object\",\"properties\":{\"r\":{\"type\":[\"number\",\"null\"]},\"x\":{\"type\":[\"number\",\"null\"]},\"g1\":{\"type\":[\"number\",\"null\"]},\"b1\":{\"type\":[\"number\",\"null\"]},\"g2\":{\"type\":[\"number\",\"null\"]},\"b2\":{\"type\":[\"number\",\"null\"]},\"voltageLevelId1\":{\"type\":[\"string\",\"null\"]},\"bus1\":{\"type\":[\"string\",\"null\"]},\"connectableBus1\":{\"type\":[\"string\",\"null\"]},\"voltageLevelId2\":{\"type\":[\"string\",\"null\"]},\"bus2\":{\"type\":[\"string\",\"null\"]},\"connectableBus2\":{\"type\":[\"string\",\"null\"]},\"currentLimits1\":{\"anyOf\":[{\"type\":\"null\"},{\"type\":\"object\",\"required\":[\"permanentLimit\"],\"properties\":{\"permanentLimit\":{\"type\":\"number\"},\"temporaryLimits\":{\"type\":[\"array\",\"null\"],\"items\":{\"type\":\"object\",\"required\":[\"name\",\"acceptableDuration\",\"value\"],\"properties\":{\"name\":{\"type\":\"string\"},\"acceptableDuration\":{\"type\":\"integer\"},\"value\":{\"type\":\"number\"}}}}}}]},\"currentLimits2\":{\"anyOf\":[{\"type\":\"null\"},{\"type\":\"object\",\"required\":[\"permanentLimit\"],\"properties\":{\"permanentLimit\":{\"type\":\"number\"},\"temporaryLimits\":{\"type\":[\"array\",\"null\"],\"items\":{\"type\":\"object\",\"required\":[\"name\",\"acceptableDuration\",\"value\"],\"properties\":{\"name\":{\"type\":\"string\"},\"acceptableDuration\":{\"type\":\"integer\"},\"value\":{\"type\":\"number\"}}}}}}]}}}",
        )
    }

    fn rejected(error: ValidationError) -> (wrapped: LineError) {
        LineError::Deserialization(error)
    }

    fn error_text(error: &LineError) -> (text: String) {
        error.to_string()
    }

    fn from_json(json: &Json) -> (read: Result<LineUpdater, LineError>) {
        if !json.is_object() {
            return Err(
                LineError::Deserialization(
                    ValidationError::MalformedInput(String::from_str("JSON input must be an object")),
                ),
            );
        }
        let r = match read_optional_real(json, "r") {
            Ok(r) => r,
            Err(_) => {
                return Err(LineError::R(invalid_value()));
            },
        };
        let x = match read_optional_real(json, "x") {
            Ok(x) => x,
            Err(_) => {
                return Err(LineError::X(invalid_value()));
            },
        };
        let g1 = match read_optional_real(json, "g1") {
            Ok(g1) => g1,
            Err(_) => {
                return Err(LineError::G1(invalid_value()));
            },
        };
        let b1 = match read_optional_real(json, "b1") {
            Ok(b1) => b1,
            Err(_) => {
                return Err(LineError::B1(invalid_value()));
            },
        };
        let g2 = match read_optional_real(json, "g2") {
            Ok(g2) => g2,
            Err(_) => {
                return Err(LineError::G2(invalid_value()));
            },
        };
        let b2 = match read_optional_real(json, "b2") {
            Ok(b2) => b2,
            Err(_) => {
                return Err(LineError::B2(invalid_value()));
            },
        };
        let voltage_level_id1 = match read_optional_string(json, "voltageLevelId1") {
            Ok(voltage_level_id1) => voltage_level_id1,
            Err(_) => {
                return Err(LineError::VoltageLevelId1(invalid_value()));
            },
        };
        let bus1 = match read_optional_string(json, "bus1") {
            Ok(bus1) => bus1,
            Err(_) => {
                return Err(LineError::Bus1(invalid_value()));
            },
        };
        let connectable_bus1 = match read_optional_string(json, "connectableBus1") {
            Ok(connectable_bus1) => connectable_bus1,
            Err(_) => {
                return Err(LineError::ConnectableBus1(invalid_value()));
            },
        };
        let voltage_level_id2 = match read_optional_string(json, "voltageLevelId2") {
            Ok(voltage_level_id2) => voltage_level_id2,
            Err(_) => {
                return Err(LineError::VoltageLevelId2(invalid_value()));
            },
        };
        let bus2 = match read_optional_string(json, "bus2") {
            Ok(bus2) => bus2,
            Err(_) => {
                return Err(LineError::Bus2(invalid_value()));
            },
        };
        let connectable_bus2 = match read_optional_string(json, "connectableBus2") {
            Ok(connectable_bus2) => connectable_bus2,
            Err(_) => {
                return Err(LineError::ConnectableBus2(invalid_value()));
            },
        };
        let current_limits1 = match read_side_limits_update(json, "currentLimits1") {
            Ok(current_limits1) => current_limits1,
            Err(_) => {
                return Err(LineError::CurrentLimits1(invalid_value()));
            },
        };
        let current_limits2 = match read_side_limits_update(json, "currentLimits2") {
            Ok(current_limits2) => current_limits2,
            Err(_) => {
                return Err(LineError::CurrentLimits2(invalid_value()));
            },
        };
        Ok(
            LineUpdater {
                r,
                x,
                g1,
                b1,
                g2,
                b2,
                voltage_level_id1,
                bus1,
                connectable_bus1,
                voltage_level_id2,
                bus2,
                connectable_bus2,
                current_limits1,
                current_limits2,
            },
        )
    }

    fn validate_json(json: &str) -> (validated: Result<LineUpdater, LineError>) {
        let fields = Self::fields_json();
        let schema = Self::schema_json();
        match validate_payload(json, &fields, schema.as_str()) {
            Ok(payload) => Self::from_json(&payload),
            Err(error) => Err(LineError::Deserialization(error)),
        }
    }
}

impl Updatable for Line {
    type Updater = LineUpdater;

    open spec fn merged(record: LineView, updates: LineUpdaterView) -> LineView {
        Line::spec_merged(record, updates)
    }

    open spec fn is_empty_update(updates: LineUpdaterView) -> bool {
        updates == LineUpdaterView::empty()
    }

    proof fn empty_update_changes_nothing(record: LineView, updates: LineUpdaterView) {
    }

    fn update(&mut self, updates: LineUpdater) {
        if let Some(r) = updates.r {
            self.r = r;
        }
        if let Some(x) = updates.x {
            self.x = x;
        }
        if let Some(g1) = updates.g1 {
            self.g1 = g1;
        }
        if let Some(b1) = updates.b1 {
            self.b1 = b1;
        }
        if let Some(g2) = updates.g2 {
            self.g2 = g2;
        }
        if let Some(b2) = updates.b2 {
            self.b2 = b2;
        }
        if let Some(voltage_level_id1) = updates.voltage_level_id1 {
            self.voltage_level_id1 = voltage_level_id1;
        }
        if let Some(bus1) = updates.bus1 {
            self.bus1 = bus1;
        }
        if let Some(connectable_bus1) = updates.connectable_bus1 {
            self.connectable_bus1 = connectable_bus1;
        }
        if let Some(voltage_level_id2) = updates.voltage_level_id2 {
            self.voltage_level_id2 = voltage_level_id2;
        }
        if let Some(bus2) = updates.bus2 {
            self.bus2 = bus2;
        }
        if let Some(connectable_bus2) = updates.connectable_bus2 {
            self.connectable_bus2 = connectable_bus2;
        }
        if let Some(current_limits1) = updates.current_limits1 {
            self.current_limits1 = current_limits1;
        }
        if let Some(current_limits2) = updates.current_limits2 {
            self.current_limits2 = current_limits2;
        }
    }

    fn update_from_json(&mut self, json: &str) -> (updated: Result<(), LineError>) {
        let payload = match parse_json(json) {
            Ok(payload) => payload,
            Err(detail) => {
                return Err(LineError::Deserialization(ValidationError::MalformedInput(detail)));
            },
        };
        let fields = LineUpdater::fields_json();
        match check_shape(&payload, &fields) {
            Ok(()) => {},
            Err(error) => {
                return Err(LineError::Deserialization(error));
            },
        }
        match LineUpdater::from_json(&payload) {
            Ok(updates) => {
                Updatable::update(self, updates);
                Ok(())
            },
            Err(error) => Err(error),
        }
    }
}

/// Of two updates applied one after the other, the later one decides each
/// field that it carries, and the earlier one each field that only it
/// carries; a field that neither carries stays as it was.
pub proof fn lemma_line_last_write_wins(
    record: LineView,
    first: LineUpdaterView,
    second: LineUpdaterView,
)
    ensures
        Line::spec_merged(Line::spec_merged(record, first), second).id == record.id,
        Line::spec_merged(Line::spec_merged(record, first), second).r == (match second.r {
            Some(r) => r,
            None => match first.r {
                Some(r) => r,
                None => record.r,
            },
        }),
        Line::spec_merged(Line::spec_merged(record, first), second).x == (match second.x {
            Some(x) => x,
            None => match first.x {
                Some(x) => x,
                None => record.x,
            },
        }),
        Line::spec_merged(Line::spec_merged(record, first), second).g1 == (match second.g1 {
            Some(g1) => g1,
            None => match first.g1 {
                Some(g1) => g1,
                None => record.g1,
            },
        }),
        Line::spec_merged(Line::spec_merged(record, first), second).b1 == (match second.b1 {
            Some(b1) => b1,
            None => match first.b1 {
                Some(b1) => b1,
                None => record.b1,
            },
        }),
        Line::spec_merged(Line::spec_merged(record, first), second).g2 == (match second.g2 {
            Some(g2) => g2,
            None => match first.g2 {
                Some(g2) => g2,
                None => record.g2,
            },
        }),
        Line::spec_merged(Line::spec_merged(record, first), second).b2 == (match second.b2 {
            Some(b2) => b2,
            None => match first.b2 {
                Some(b2) => b2,
                None => record.b2,
            },
        }),
        Line::spec_merged(Line::spec_merged(record, first), second).voltage_level_id1 == (match second.voltage_level_id1 {
            Some(voltage_level_id1) => voltage_level_id1,
            None => match first.voltage_level_id1 {
                Some(voltage_level_id1) => voltage_level_id1,
                None => record.voltage_level_id1,
            },
        }),
        Line::spec_merged(Line::spec_merged(record, first), second).bus1 == (match second.bus1 {
            Some(bus1) => bus1,
            None => match first.bus1 {
                Some(bus1) => bus1,
                None => record.bus1,
            },
        }),
        Line::spec_merged(Line::spec_merged(record, first), second).connectable_bus1 == (match second.connectable_bus1 {
            Some(connectable_bus1) => connectable_bus1,
            None => match first.connectable_bus1 {
                Some(connectable_bus1) => connectable_bus1,
                None => record.connectable_bus1,
            },
        }),
        Line::spec_merged(Line::spec_merged(record, first), second).voltage_level_id2 == (match second.voltage_level_id2 {
            Some(voltage_level_id2) => voltage_level_id2,
            None => match first.voltage_level_id2 {
                Some(voltage_level_id2) => voltage_level_id2,
                None => record.voltage_level_id2,
            },
        }),
        Line::spec_merged(Line::spec_merged(record, first), second).bus2 == (match second.bus2 {
            Some(bus2) => bus2,
            None => match first.bus2 {
                Some(bus2) => bus2,
                None => record.bus2,
            },
        }),
        Line::spec_merged(Line::spec_merged(record, first), second).connectable_bus2 == (match second.connectable_bus2 {
            Some(connectable_bus2) => connectable_bus2,
            None => match first.connectable_bus2 {
                Some(connectable_bus2) => connectable_bus2,
                None => record.connectable_bus2,
            },
        }),
        Line::spec_merged(Line::spec_merged(record, first), second).current_limits1 == (match second.current_limits1 {
            Some(current_limits1) => current_limits1,
            None => match first.current_limits1 {
                Some(current_limits1) => current_limits1,
                None => record.current_limits1,
            },
        }),
        Line::spec_merged(Line::spec_merged(record, first), second).current_limits2 == (match second.current_limits2 {
            Some(current_limits2) => current_limits2,
            None => match first.current_limits2 {
                Some(current_limits2) => current_limits2,
                None => record.current_limits2,
            },
        }),
{
}

impl Line {
    /// The JSON object that stands for a line. Current limits that a side
    /// does not have are written as `null`.
    pub open spec fn encoded(line: LineView) -> JsonView {
        JsonView::Object(
            seq![
                ("id"@, JsonView::String(line.id)),
                ("r"@, number_of_real(line.r)),
                ("x"@, number_of_real(line.x)),
                ("g1"@, number_of_real(line.g1)),
                ("b1"@, number_of_real(line.b1)),
                ("g2"@, number_of_real(line.g2)),
                ("b2"@, number_of_real(line.b2)),
                ("voltageLevelId1"@, JsonView::String(line.voltage_level_id1)),
                ("bus1"@, JsonView::String(line.bus1)),
                ("connectableBus1"@, JsonView::String(line.connectable_bus1)),
                ("voltageLevelId2"@, JsonView::String(line.voltage_level_id2)),
                ("bus2"@, JsonView::String(line.bus2)),
                ("connectableBus2"@, JsonView::String(line.connectable_bus2)),
                ("currentLimits1"@, encoded_side(line.current_limits1)),
                ("currentLimits2"@, encoded_side(line.current_limits2)),
            ],
        )
    }

    /// The members of the JSON object that stands for this line.
    fn members(&self) -> (members: Vec<(String, Json)>)
        ensures
            member_views(members@) == Line::encoded(self@).members(),
    {
        let mut members: Vec<(String, Json)> = Vec::new();
        members.push((String::from_str("id"), text_to_json(&self.id)));
        members.push((String::from_str("r"), real_to_json(self.r)));
        members.push((String::from_str("x"), real_to_json(self.x)));
        members.push((String::from_str("g1"), real_to_json(self.g1)));
        members.push((String::from_str("b1"), real_to_json(self.b1)));
        members.push((String::from_str("g2"), real_to_json(self.g2)));
        members.push((String::from_str("b2"), real_to_json(self.b2)));
        members.push((String::from_str("voltageLevelId1"), text_to_json(&self.voltage_level_id1)));
        members.push((String::from_str("bus1"), text_to_json(&self.bus1)));
        members.push((String::from_str("connectableBus1"), text_to_json(&self.connectable_bus1)));
        members.push((String::from_str("voltageLevelId2"), text_to_json(&self.voltage_level_id2)));
        members.push((String::from_str("bus2"), text_to_json(&self.bus2)));
        members.push((String::from_str("connectableBus2"), text_to_json(&self.connectable_bus2)));
        members.push((String::from_str("currentLimits1"), side_to_json(&self.current_limits1)));
        members.push((String::from_str("currentLimits2"), side_to_json(&self.current_limits2)));
        assert(member_views(members@) =~= Line::encoded(self@)->Object_0);
        members
    }

    /// The JSON object that stands for this line.
    pub fn to_json(&self) -> (json: Json)
        ensures
            json@ == Line::encoded(self@),
    {
        let members = self.members();
        proof {
            lemma_object_view(members);
        }
        Json::Object(members)
    }

    /// The line after the JSON object `updates` was laid over it: each key
    /// of `updates` replaces the field of that name, and `null` clears
    /// current limits. `Err` where the outcome is no line.
    pub open spec fn spec_overlaid(line: LineView, updates: JsonView) -> Result<LineView, Fault> {
        Line::spec_decoded(
            JsonView::Object(overlay(Line::encoded(line).members(), updates.members())),
        )
    }

    /// Lays the JSON object written in `update_json` over this line. The
    /// text must be JSON with an object at the top, and every key must be a
    /// wire name of a sparse update of a line, so the identity is no part
    /// of it and stays as it is. An object that would leave no line is an
    /// error. Every error leaves the line as it was.
    pub fn update(&mut self, update_json: &str) -> (updated: Result<(), LineError>)
        ensures
            match json_of_text(update_json@) {
                None => updated is Err && updated->Err_0.fault() == Fault::Rejected(
                    Rejection::Malformed,
                ) && final(self)@ == old(self)@,
                Some(updates) => match shape_rejection(updates, line_updater_fields()) {
                    Some(found) => updated is Err && updated->Err_0.fault() == Fault::Rejected(
                        found,
                    ) && final(self)@ == old(self)@,
                    None => match Line::spec_overlaid(old(self)@, updates) {
                        Ok(line) => updated is Ok && final(self)@ == line && final(self)@.id
                            == old(self)@.id,
                        Err(fault) => updated is Err && updated->Err_0.fault() == fault
                            && final(self)@ == old(self)@,
                    },
                },
            },
    {
        let updates = match parse_json(update_json) {
            Ok(updates) => updates,
            Err(detail) => {
                return Err(LineError::Deserialization(ValidationError::MalformedInput(detail)));
            },
        };
        let fields = LineUpdater::fields_json();
        match check_shape(&updates, &fields) {
            Ok(()) => {},
            Err(error) => {
                return Err(LineError::Deserialization(error));
            },
        }
        proof {
            lemma_overlay_keeps_identity(self@, updates@);
        }
        match updates {
            Json::Object(changes) => {
                let mut members = self.members();
                proof {
                    lemma_object_view(changes);
                }
                overlay_members(&mut members, changes);
                proof {
                    lemma_object_view(members);
                }
                match Line::from_json(&Json::Object(members)) {
                    Ok(line) => {
                        *self = line;
                        Ok(())
                    },
                    Err(error) => Err(error),
                }
            },
            _ => Err(
                LineError::Deserialization(
                    ValidationError::MalformedInput(String::from_str("JSON input must be an object")),
                ),
            ),
        }
    }
}

/// The JSON value that stands for the current limits of a side.
pub open spec fn encoded_side(limits: Option<CurrentLimitsView>) -> JsonView {
    match limits {
        Some(limits) => CurrentLimits::encoded(limits),
        None => JsonView::Null,
    }
}

/// The JSON value that stands for the current limits of a side.
pub fn side_to_json(limits: &Option<CurrentLimits>) -> (json: Json)
    ensures
        json@ == encoded_side(limits_view(*limits)),
{
    match limits {
        Some(limits) => limits.to_json(),
        None => Json::Null,
    }
}

/// The wire names of a line differ from one another.
pub proof fn lemma_line_names_differ()
    ensures
        line_fields().no_duplicates(),
{
    reveal_strlit("id");
    reveal_strlit("r");
    reveal_strlit("x");
    reveal_strlit("g1");
    reveal_strlit("b1");
    reveal_strlit("g2");
    reveal_strlit("b2");
    reveal_strlit("voltageLevelId1");
    reveal_strlit("bus1");
    reveal_strlit("connectableBus1");
    reveal_strlit("voltageLevelId2");
    reveal_strlit("bus2");
    reveal_strlit("connectableBus2");
    reveal_strlit("currentLimits1");
    reveal_strlit("currentLimits2");
    assert("x"@.len() == 1);
    assert("b2"@.len() == 2);
    assert("connectableBus1"@.len() == 15);
    assert("bus2"@.len() == 4);
    assert("connectableBus2"@.len() == 15);
    assert("id"@[0] == 'i');
    assert("g1"@[0] == 'g');
    assert("g1"@[1] == '1');
    assert("b1"@[1] == '1');
    assert("g2"@[0] == 'g');
    assert("r"@[0] == 'r');
    assert("voltageLevelId1"@[0] == 'v');
    assert("voltageLevelId1"@[14] == '1');
    assert("connectableBus1"@[14] == '1');
    assert("voltageLevelId2"@[0] == 'v');
    assert("bus1"@[3] == '1');
    assert("currentLimits1"@[13] == '1');
}

/// A line that was written as JSON reads back as it was.
pub proof fn lemma_line_reads_back(line: LineView)
    ensures
        Line::spec_decoded(Line::encoded(line)) == Ok::<LineView, Fault>(line),
{
    lemma_line_names_differ();
    let members = Line::encoded(line)->Object_0;
    let names = line_fields();
    assert forall|at: int| 0 <= at < names.len() implies find_member(members, names[at], 0)
        == Some(members[at].1) by {
        lemma_find_member_is(members, names[at], 0, at);
    }
    if line.current_limits1 is Some {
        lemma_current_limits_read_back(line.current_limits1->Some_0);
    }
    if line.current_limits2 is Some {
        lemma_current_limits_read_back(line.current_limits2->Some_0);
    }
}

/// The identity is no field of a sparse update of a line.
pub proof fn lemma_identity_is_no_update_field()
    ensures
        !line_updater_fields().contains("id"@),
{
    lemma_line_names_differ();
    lemma_line_updater_fields();
    let allowed = line_updater_fields();
    assert forall|k: int| 0 <= k < allowed.len() implies allowed[k] != "id"@ by {
        assert(allowed[k] == line_fields()[k + 1]);
    }
}

/// Laying an object over a line leaves the identity of the line as it
/// is, where every key of the object is a wire name of a sparse update.
pub proof fn lemma_overlay_keeps_identity(line: LineView, updates: JsonView)
    requires
        shape_rejection(updates, line_updater_fields()) is None,
    ensures
        Line::spec_overlaid(line, updates) matches Ok(after) ==> after.id == line.id,
{
    lemma_identity_is_no_update_field();
    let allowed = line_updater_fields();
    let changes = updates.members();
    let base = Line::encoded(line).members();
    lemma_first_unexpected(updates.keys(), allowed, 0);
    assert forall|at: int| 0 <= at < changes.len() implies changes[at].0 != "id"@ by {
        assert(allowed.contains(updates.keys()[at]));
    }
    lemma_overlay(base, changes, "id"@);
    lemma_find_member_is(base, "id"@, 0, 0);
}

/// Laying an object without members over a line leaves the line as it
/// was.
pub proof fn lemma_empty_overlay_changes_nothing(line: LineView)
    ensures
        Line::spec_overlaid(line, JsonView::Object(Seq::empty())) == Ok::<LineView, Fault>(line),
{
    lemma_line_reads_back(line);
}

} // verus!
