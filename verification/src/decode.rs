//! Reading typed values out of parsed JSON.

use vstd::prelude::*;
use vstd::string::StringExecFns;
use crate::extensions::{invalid_value_text, Fault, JsonSchema};
use crate::json::{Json, JsonNumber, JsonView};

verus! {

/// A real number, held as the bits of the double that carries it.
#[derive(Clone, Copy, Debug, Default, PartialEq, Eq, Structural)]
pub struct Real {
    pub bits: u64,
}

/// An instant with its offset from universal time: the seconds since the
/// first second of 1970, the nanoseconds within the second, and the offset
/// of the local time in seconds.
#[derive(Clone, Copy, Debug, PartialEq, Eq, Structural)]
pub struct Timestamp {
    pub seconds: i64,
    pub nanos: u32,
    pub offset: i32,
}

/// The error that `chrono` reports for a text that is no date.
#[verifier::external_type_specification]
#[verifier::external_body]
pub struct ExParseError(chrono::ParseError);

/// The instant that `chrono` reads out of a text in the relaxed form of
/// RFC 3339: `None` where the text is no such date.
pub uninterp spec fn timestamp_of_text(text: Seq<char>) -> Option<Timestamp>;

/// `str::parse` for `chrono::DateTime<chrono::FixedOffset>`: the text is
/// read as a date and time with an offset, and the instant is handed back
/// by `DateTime::timestamp`, `DateTime::timestamp_subsec_nanos` and
/// `FixedOffset::local_minus_utc`. The text parses exactly when
/// [`timestamp_of_text`] is defined on it.
#[verifier::external_body]
pub(crate) fn parse_timestamp(text: &str) -> (parsed: Result<Timestamp, chrono::ParseError>)
    ensures
        match parsed {
            Ok(instant) => timestamp_of_text(text@) == Some(instant),
            Err(_) => timestamp_of_text(text@) is None,
        },
{
    let parsed = text.parse::<chrono::DateTime<chrono::FixedOffset>>()?;
    Ok(
        Timestamp {
            seconds: parsed.timestamp(),
            nanos: parsed.timestamp_subsec_nanos(),
            offset: parsed.offset().local_minus_utc(),
        },
    )
}

/// The words of a `chrono::ParseError`.
pub uninterp spec fn date_error_text(error: chrono::ParseError) -> Seq<char>;

/// `Display` of a `chrono::ParseError`: the words of the error.
#[verifier::external_body]
pub(crate) fn date_error_message(error: &chrono::ParseError) -> (message: String)
    ensures
        message@ == date_error_text(*error),
{
    error.to_string()
}

/// The real that a JSON number stands for.
pub open spec fn real_of(json: JsonView) -> Option<Real> {
    match json {
        JsonView::Number(number) => match number.bits {
            Some(bits) => Some(Real { bits }),
            None => None,
        },
        _ => None,
    }
}

/// The 32-bit integer that a JSON number stands for: an integer, written
/// without fraction or exponent, within the range of `i32`.
pub open spec fn i32_of(json: JsonView) -> Option<i32> {
    match json {
        JsonView::Number(number) => match number.signed {
            Some(whole) => if i32::MIN <= whole <= i32::MAX {
                Some(whole as i32)
            } else {
                None
            },
            None => None,
        },
        _ => None,
    }
}

/// The characters of a JSON string.
pub open spec fn text_of(json: JsonView) -> Option<Seq<char>> {
    match json {
        JsonView::String(text) => Some(text),
        _ => None,
    }
}

/// The value under `key` that a sparse update carries: `None` where the key
/// is missing, and where it holds `null`.
pub open spec fn present(json: JsonView, key: Seq<char>) -> Option<JsonView> {
    match json.member(key) {
        Some(value) => if value is Null {
            None
        } else {
            Some(value)
        },
        None => None,
    }
}

/// Reads a real.
pub fn read_real(json: &Json) -> (read: Option<Real>)
    ensures
        read == real_of(json@),
{
    match json {
        Json::Number(number) => match number.bits {
            Some(bits) => Some(Real { bits }),
            None => None,
        },
        _ => None,
    }
}

/// Reads a 32-bit integer.
pub fn read_i32(json: &Json) -> (read: Option<i32>)
    ensures
        read == i32_of(json@),
{
    match json {
        Json::Number(number) => match number.signed {
            Some(whole) => if -2147483648 <= whole && whole <= 2147483647 {
                Some(whole as i32)
            } else {
                None
            },
            None => None,
        },
        _ => None,
    }
}

/// Reads a string.
pub fn read_string(json: &Json) -> (read: Option<String>)
    ensures
        match read {
            Some(text) => text_of(json@) == Some(text@),
            None => text_of(json@) is None,
        },
{
    match json {
        Json::String(text) => Some(text.clone()),
        _ => None,
    }
}

/// The value under `key` that a sparse update carries.
pub fn read_present<'a>(json: &'a Json, key: &str) -> (read: Option<&'a Json>)
    ensures
        match read {
            Some(value) => present(json@, key@) == Some(value@),
            None => present(json@, key@) is None,
        },
{
    match json.get(key) {
        Some(value) => if value.is_null() {
            None
        } else {
            Some(value)
        },
        None => None,
    }
}

/// The string under `key`, which must be there.
pub open spec fn required_text(json: JsonView, key: Seq<char>) -> Option<Seq<char>> {
    match json.member(key) {
        Some(value) => text_of(value),
        None => None,
    }
}

/// The real under `key`, which must be there.
pub open spec fn required_real(json: JsonView, key: Seq<char>) -> Option<Real> {
    match json.member(key) {
        Some(value) => real_of(value),
        None => None,
    }
}

/// The 32-bit integer under `key`, which must be there.
pub open spec fn required_i32(json: JsonView, key: Seq<char>) -> Option<i32> {
    match json.member(key) {
        Some(value) => i32_of(value),
        None => None,
    }
}

/// The string that a sparse update carries under `key`: `Ok(None)` where
/// it carries nothing there, `Err` where it carries something else.
pub open spec fn optional_text(json: JsonView, key: Seq<char>) -> Result<Option<Seq<char>>, ()> {
    match present(json, key) {
        None => Ok(None),
        Some(value) => match text_of(value) {
            Some(text) => Ok(Some(text)),
            None => Err(()),
        },
    }
}

/// The real that a sparse update carries under `key`.
pub open spec fn optional_real(json: JsonView, key: Seq<char>) -> Result<Option<Real>, ()> {
    match present(json, key) {
        None => Ok(None),
        Some(value) => match real_of(value) {
            Some(read) => Ok(Some(read)),
            None => Err(()),
        },
    }
}

/// The 32-bit integer that a sparse update carries under `key`.
pub open spec fn optional_i32(json: JsonView, key: Seq<char>) -> Result<Option<i32>, ()> {
    match present(json, key) {
        None => Ok(None),
        Some(value) => match i32_of(value) {
            Some(read) => Ok(Some(read)),
            None => Err(()),
        },
    }
}

/// Reads the string under `key`, which must be there.
pub fn read_required_string(json: &Json, key: &str) -> (read: Option<String>)
    ensures
        match read {
            Some(text) => required_text(json@, key@) == Some(text@),
            None => required_text(json@, key@) is None,
        },
{
    match json.get(key) {
        Some(value) => read_string(value),
        None => None,
    }
}

/// Reads the real under `key`, which must be there.
pub fn read_required_real(json: &Json, key: &str) -> (read: Option<Real>)
    ensures
        read == required_real(json@, key@),
{
    match json.get(key) {
        Some(value) => read_real(value),
        None => None,
    }
}

/// Reads the 32-bit integer under `key`, which must be there.
pub fn read_required_i32(json: &Json, key: &str) -> (read: Option<i32>)
    ensures
        read == required_i32(json@, key@),
{
    match json.get(key) {
        Some(value) => read_i32(value),
        None => None,
    }
}

/// Reads the string that a sparse update carries under `key`.
pub fn read_optional_string(json: &Json, key: &str) -> (read: Result<Option<String>, ()>)
    ensures
        match read {
            Ok(Some(text)) => optional_text(json@, key@) == Ok::<Option<Seq<char>>, ()>(
                Some(text@),
            ),
            Ok(None) => optional_text(json@, key@) == Ok::<Option<Seq<char>>, ()>(None),
            Err(_) => optional_text(json@, key@) is Err,
        },
{
    match read_present(json, key) {
        None => Ok(None),
        Some(value) => match read_string(value) {
            Some(text) => Ok(Some(text)),
            None => Err(()),
        },
    }
}

/// Reads the real that a sparse update carries under `key`.
pub fn read_optional_real(json: &Json, key: &str) -> (read: Result<Option<Real>, ()>)
    ensures
        read == optional_real(json@, key@),
{
    match read_present(json, key) {
        None => Ok(None),
        Some(value) => match read_real(value) {
            Some(found) => Ok(Some(found)),
            None => Err(()),
        },
    }
}

/// Reads the 32-bit integer that a sparse update carries under `key`.
pub fn read_optional_i32(json: &Json, key: &str) -> (read: Result<Option<i32>, ()>)
    ensures
        read == optional_i32(json@, key@),
{
    match read_present(json, key) {
        None => Ok(None),
        Some(value) => match read_i32(value) {
            Some(found) => Ok(Some(found)),
            None => Err(()),
        },
    }
}

/// The values of a list.
pub open spec fn list_views<T: View>(items: Seq<T>) -> Seq<T::V> {
    Seq::new(items.len(), |i: int| items[i]@)
}

/// The typed values that a JSON array stands for: each item must stand for
/// one.
pub open spec fn list_of<T: JsonSchema>(json: JsonView) -> Option<Seq<T::V>> {
    match json {
        JsonView::Array(items) => if forall|i: int|
            0 <= i < items.len() ==> (#[trigger] T::decoded(items[i])) is Ok {
            Some(Seq::new(items.len(), |i: int| T::decoded(items[i])->Ok_0))
        } else {
            None
        },
        _ => None,
    }
}

/// The list under `key` of a full record: empty where the key is missing
/// or holds `null`.
pub open spec fn listed<T: JsonSchema>(json: JsonView, key: Seq<char>) -> Option<Seq<T::V>> {
    match present(json, key) {
        None => Some(Seq::empty()),
        Some(value) => list_of::<T>(value),
    }
}

/// The list that a sparse update carries under `key`.
pub open spec fn optional_list<T: JsonSchema>(json: JsonView, key: Seq<char>) -> Result<
    Option<Seq<T::V>>,
    (),
> {
    match present(json, key) {
        None => Ok(None),
        Some(value) => match list_of::<T>(value) {
            Some(items) => Ok(Some(items)),
            None => Err(()),
        },
    }
}

/// Reads the typed values that a JSON array stands for.
pub fn read_list<T: JsonSchema>(json: &Json) -> (read: Option<Vec<T>>)
    ensures
        match read {
            Some(items) => list_of::<T>(json@) == Some(list_views(items@)),
            None => list_of::<T>(json@) is None,
        },
{
    match json {
        Json::Array(items) => {
            let ghost views = json@->Array_0;
            let mut read: Vec<T> = Vec::new();
            let mut i: usize = 0;
            while i < items.len()
                invariant
                    i <= items.len(),
                    json@ == JsonView::Array(views),
                    views.len() == items.len(),
                    forall|k: int| 0 <= k < items.len() ==> views[k] == (#[trigger] items[k])@,
                    read.len() == i,
                    forall|k: int|
                        0 <= k < i ==> T::decoded(views[k]) == Ok::<T::V, Fault>(
                            (#[trigger] read[k])@,
                        ),
                decreases items.len() - i,
            {
                match T::from_json(&items[i]) {
                    Ok(item) => {
                        read.push(item);
                    },
                    Err(_) => {
                        return None;
                    },
                }
                i += 1;
            }
            proof {
                assert forall|k: int| 0 <= k < views.len() implies (#[trigger] T::decoded(
                    views[k],
                )) is Ok by {
                    assert(T::decoded(views[k]) == Ok::<T::V, Fault>(read[k]@));
                }
            }
            Some(read)
        },
        _ => None,
    }
}

/// Reads the list under `key` of a full record.
pub fn read_listed<T: JsonSchema>(json: &Json, key: &str) -> (read: Option<Vec<T>>)
    ensures
        match read {
            Some(items) => listed::<T>(json@, key@) == Some(list_views(items@)),
            None => listed::<T>(json@, key@) is None,
        },
{
    match read_present(json, key) {
        None => {
            let none: Vec<T> = Vec::new();
            Some(none)
        },
        Some(value) => read_list(value),
    }
}

/// Reads the list that a sparse update carries under `key`.
pub fn read_optional_list<T: JsonSchema>(json: &Json, key: &str) -> (read: Result<
    Option<Vec<T>>,
    (),
>)
    ensures
        match read {
            Ok(Some(items)) => optional_list::<T>(json@, key@) == Ok::<Option<Seq<T::V>>, ()>(
                Some(list_views(items@)),
            ),
            Ok(None) => optional_list::<T>(json@, key@) == Ok::<Option<Seq<T::V>>, ()>(None),
            Err(_) => optional_list::<T>(json@, key@) is Err,
        },
{
    match read_present(json, key) {
        None => Ok(None),
        Some(value) => match read_list(value) {
            Some(items) => Ok(Some(items)),
            None => Err(()),
        },
    }
}

/// The texts that a JSON array of strings stands for.
pub open spec fn texts_of(json: JsonView) -> Option<Seq<Seq<char>>> {
    match json {
        JsonView::Array(items) => if forall|i: int|
            0 <= i < items.len() ==> (#[trigger] text_of(items[i])) is Some {
            Some(Seq::new(items.len(), |i: int| text_of(items[i])->Some_0))
        } else {
            None
        },
        _ => None,
    }
}

/// Reads the texts that a JSON array of strings stands for.
pub fn read_strings(json: &Json) -> (read: Option<Vec<String>>)
    ensures
        match read {
            Some(texts) => texts_of(json@) == Some(texts.deep_view()),
            None => texts_of(json@) is None,
        },
{
    match json {
        Json::Array(items) => {
            let ghost views = json@->Array_0;
            let mut read: Vec<String> = Vec::new();
            let mut i: usize = 0;
            while i < items.len()
                invariant
                    i <= items.len(),
                    json@ == JsonView::Array(views),
                    views.len() == items.len(),
                    forall|k: int| 0 <= k < items.len() ==> views[k] == (#[trigger] items[k])@,
                    read.len() == i,
                    forall|k: int|
                        0 <= k < i ==> text_of(views[k]) == Some((#[trigger] read[k])@),
                decreases items.len() - i,
            {
                match read_string(&items[i]) {
                    Some(text) => {
                        read.push(text);
                    },
                    None => {
                        return None;
                    },
                }
                i += 1;
            }
            proof {
                assert forall|k: int| 0 <= k < views.len() implies (#[trigger] text_of(
                    views[k],
                )) is Some by {
                    assert(text_of(views[k]) == Some(read[k]@));
                }
            }
            Some(read)
        },
        _ => None,
    }
}

/// A copy of a list, item by item.
pub(crate) fn clone_list<T: Clone + View>(items: &Vec<T>) -> (copy: Vec<T>)
    requires
        forall|item: T, twin: T|
            call_ensures(T::clone, (&item,), twin) ==> twin@ == item@,
    ensures
        list_views(copy@) == list_views(items@),
{
    let mut copy: Vec<T> = Vec::new();
    let mut i: usize = 0;
    while i < items.len()
        invariant
            i <= items.len(),
            copy.len() == i,
            forall|item: T, twin: T|
                call_ensures(T::clone, (&item,), twin) ==> twin@ == item@,
            forall|k: int| 0 <= k < i ==> (#[trigger] copy[k])@ == items[k]@,
        decreases items.len() - i,
    {
        copy.push(items[i].clone());
        i += 1;
    }
    copy
}

/// The characters of a text that may be absent.
pub open spec fn text_view(text: Option<String>) -> Option<Seq<char>> {
    match text {
        Some(text) => Some(text@),
        None => None,
    }
}

/// The characters of a list of texts that may be absent.
pub open spec fn texts_view(texts: Option<Vec<String>>) -> Option<Seq<Seq<char>>> {
    match texts {
        Some(texts) => Some(texts.deep_view()),
        None => None,
    }
}

/// The values of a list that may be absent.
pub open spec fn optional_list_views<T: View>(items: Option<Vec<T>>) -> Option<Seq<T::V>> {
    match items {
        Some(items) => Some(list_views(items@)),
        None => None,
    }
}

/// The texts under `key` of a full record: none where the key is missing
/// or holds `null`.
pub open spec fn listed_texts(json: JsonView, key: Seq<char>) -> Option<Seq<Seq<char>>> {
    match present(json, key) {
        None => Some(Seq::empty()),
        Some(value) => texts_of(value),
    }
}

/// The texts that a sparse update carries under `key`.
pub open spec fn optional_texts(json: JsonView, key: Seq<char>) -> Result<
    Option<Seq<Seq<char>>>,
    (),
> {
    match present(json, key) {
        None => Ok(None),
        Some(value) => match texts_of(value) {
            Some(texts) => Ok(Some(texts)),
            None => Err(()),
        },
    }
}

/// Reads the texts under `key` of a full record.
pub fn read_listed_texts(json: &Json, key: &str) -> (read: Option<Vec<String>>)
    ensures
        match read {
            Some(texts) => listed_texts(json@, key@) == Some(texts.deep_view()),
            None => listed_texts(json@, key@) is None,
        },
{
    match read_present(json, key) {
        None => {
            let none: Vec<String> = Vec::new();
            Some(none)
        },
        Some(value) => read_strings(value),
    }
}

/// Reads the texts that a sparse update carries under `key`.
pub fn read_optional_texts(json: &Json, key: &str) -> (read: Result<Option<Vec<String>>, ()>)
    ensures
        match read {
            Ok(texts) => optional_texts(json@, key@) == Ok::<Option<Seq<Seq<char>>>, ()>(
                texts_view(texts),
            ),
            Err(_) => optional_texts(json@, key@) is Err,
        },
{
    match read_present(json, key) {
        None => Ok(None),
        Some(value) => match read_strings(value) {
            Some(texts) => Ok(Some(texts)),
            None => Err(()),
        },
    }
}

/// A copy of a list of texts.
pub fn clone_texts(texts: &Vec<String>) -> (copy: Vec<String>)
    ensures
        copy.deep_view() == texts.deep_view(),
{
    let mut copy: Vec<String> = Vec::new();
    let mut i: usize = 0;
    while i < texts.len()
        invariant
            i <= texts.len(),
            copy.len() == i,
            forall|k: int| 0 <= k < i ==> (#[trigger] copy[k])@ == texts[k]@,
        decreases texts.len() - i,
    {
        copy.push(texts[i].clone());
        i += 1;
    }
    copy
}

/// What stands under a key that must hold a date.
pub enum DateField {
    /// The key is missing, or holds no string.
    Missing,
    /// The key holds a string that is no date.
    Invalid,
    /// The key holds this instant.
    Instant(Timestamp),
}

/// The instant under `key`, which must be there.
pub open spec fn required_timestamp(json: JsonView, key: Seq<char>) -> DateField {
    match required_text(json, key) {
        None => DateField::Missing,
        Some(text) => match timestamp_of_text(text) {
            Some(instant) => DateField::Instant(instant),
            None => DateField::Invalid,
        },
    }
}

/// The instant that a sparse update carries under `key`: `Ok(None)` where
/// it carries nothing there.
pub open spec fn optional_timestamp(json: JsonView, key: Seq<char>) -> Result<
    Option<Timestamp>,
    DateField,
> {
    match optional_text(json, key) {
        Err(_) => Err(DateField::Missing),
        Ok(None) => Ok(None),
        Ok(Some(text)) => match timestamp_of_text(text) {
            Some(instant) => Ok(Some(instant)),
            None => Err(DateField::Invalid),
        },
    }
}

/// Reads the instant under `key`, which must be there. `Err(None)` where
/// the key is missing or holds no string, `Err` with the error of the
/// parser where it holds a string that is no date.
pub fn read_required_timestamp(json: &Json, key: &str) -> (read: Result<
    Timestamp,
    Option<chrono::ParseError>,
>)
    ensures
        match read {
            Ok(instant) => required_timestamp(json@, key@) == DateField::Instant(instant),
            Err(None) => required_timestamp(json@, key@) == DateField::Missing,
            Err(Some(_)) => required_timestamp(json@, key@) == DateField::Invalid,
        },
{
    match read_required_string(json, key) {
        None => Err(None),
        Some(text) => match parse_timestamp(text.as_str()) {
            Ok(instant) => Ok(instant),
            Err(error) => Err(Some(error)),
        },
    }
}

/// Reads the instant that a sparse update carries under `key`.
pub fn read_optional_timestamp(json: &Json, key: &str) -> (read: Result<
    Option<Timestamp>,
    Option<chrono::ParseError>,
>)
    ensures
        match read {
            Ok(instant) => optional_timestamp(json@, key@) == Ok::<Option<Timestamp>, DateField>(
                instant,
            ),
            Err(None) => optional_timestamp(json@, key@) == Err::<Option<Timestamp>, DateField>(
                DateField::Missing,
            ),
            Err(Some(_)) => optional_timestamp(json@, key@) == Err::<Option<Timestamp>, DateField>(
                DateField::Invalid,
            ),
        },
{
    match read_optional_string(json, key) {
        Err(_) => Err(None),
        Ok(None) => Ok(None),
        Ok(Some(text)) => match parse_timestamp(text.as_str()) {
            Ok(instant) => Ok(Some(instant)),
            Err(error) => Err(Some(error)),
        },
    }
}

/// The detail of a field that is missing or holds a wrong value.
pub fn invalid_value() -> (detail: String)
    ensures
        detail@ == invalid_value_text(),
{
    String::from_str("missing or invalid value")
}

/// A JSON number for a real.
pub open spec fn number_of_real(value: Real) -> JsonView {
    JsonView::Number(JsonNumber { signed: None, unsigned: None, bits: Some(value.bits) })
}

/// A JSON number for a 32-bit integer. Its reading as a real is left out.
pub open spec fn number_of_i32(value: i32) -> JsonView {
    JsonView::Number(
        JsonNumber {
            signed: Some(value as i64),
            unsigned: if value >= 0 {
                Some(value as u64)
            } else {
                None
            },
            bits: None,
        },
    )
}

/// The JSON number for a real.
pub fn real_to_json(value: Real) -> (json: Json)
    ensures
        json@ == number_of_real(value),
{
    Json::Number(JsonNumber { signed: None, unsigned: None, bits: Some(value.bits) })
}

/// The JSON number for a 32-bit integer.
pub fn i32_to_json(value: i32) -> (json: Json)
    ensures
        json@ == number_of_i32(value),
{
    let unsigned = if value >= 0 {
        Some(value as u64)
    } else {
        None
    };
    Json::Number(JsonNumber { signed: Some(value as i64), unsigned, bits: None })
}

/// The JSON string for a text.
pub fn text_to_json(text: &String) -> (json: Json)
    ensures
        json@ == JsonView::String(text@),
{
    Json::String(text.clone())
}

/// A number that was written for a real or for a 32-bit integer reads
/// back as what it was written for.
pub proof fn lemma_numbers_read_back(value: Real, whole: i32)
    ensures
        real_of(number_of_real(value)) == Some(value),
        i32_of(number_of_i32(whole)) == Some(whole),
{
}

} // verus!
