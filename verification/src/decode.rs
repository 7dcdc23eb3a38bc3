//! Decoding of the broker's payloads: a JSON document with a fixed nesting
//! of fourteen fields becomes a reading, or a `DecodeError`.
//!
//! The JSON text itself is read by `serde_json`; what is decided here is
//! which members a payload must have, of which kind each must be, and in
//! which order their absence is reported.

use crate::numeric::Double;
use crate::reading::{
    ElectricityMeter, ElectricityMeterMessage, Energy, EnergyExport, EnergyImport, ImportPrice, Power,
    Reading,
};
use crate::timestamp::Timestamp;
use serde_json::Value;
use vstd::prelude::*;

verus! {

/// The number of fields of a reading.
pub const FIELD_COUNT: usize = 14;

/// The fields of a reading, in the order in which they are checked.
#[derive(Clone, Copy, Debug, PartialEq, Eq, Structural)]
pub enum Field {
    Timestamp,
    ExportCumulative,
    ExportUnits,
    ImportCumulative,
    ImportDay,
    ImportWeek,
    ImportMonth,
    ImportUnits,
    ImportMpan,
    ImportSupplier,
    ImportUnitRate,
    ImportStandingCharge,
    PowerValue,
    PowerUnits,
}

/// What a JSON document holds at one place.
#[derive(Clone, Debug, PartialEq)]
pub enum Leaf {
    /// The document has no such member.
    Missing,
    Null,
    Bool(bool),
    /// A number, as the bits of its double-precision value where it has one.
    Number(Option<u64>),
    Text(String),
    Array,
    Object,
}

/// The content of a [`Leaf`].
pub enum LeafView {
    Missing,
    Null,
    Bool(bool),
    Number(Option<u64>),
    Text(Seq<char>),
    Array,
    Object,
}

impl View for Leaf {
    type V = LeafView;

    open spec fn view(&self) -> LeafView {
        match self {
            Leaf::Missing => LeafView::Missing,
            Leaf::Null => LeafView::Null,
            Leaf::Bool(flag) => LeafView::Bool(*flag),
            Leaf::Number(bits) => LeafView::Number(*bits),
            Leaf::Text(text) => LeafView::Text(text@),
            Leaf::Array => LeafView::Array,
            Leaf::Object => LeafView::Object,
        }
    }
}

/// Why a payload is not a reading.
#[derive(Clone, Debug, PartialEq)]
pub enum DecodeError {
    /// The payload is not a JSON document; the text is the parser's message.
    Syntax(String),
    /// The document lacks this field.
    MissingField(Field),
    /// The document holds something of the wrong kind in this field's place.
    WrongType(Field),
    /// The timestamp is not in the meter's format; the text is the parser's
    /// message.
    Timestamp(String),
}

/// The content of a [`DecodeError`].
pub enum DecodeErrorView {
    Syntax(Seq<char>),
    MissingField(Field),
    WrongType(Field),
    Timestamp(Seq<char>),
}

impl View for DecodeError {
    type V = DecodeErrorView;

    open spec fn view(&self) -> DecodeErrorView {
        match self {
            DecodeError::Syntax(message) => DecodeErrorView::Syntax(message@),
            DecodeError::MissingField(field) => DecodeErrorView::MissingField(*field),
            DecodeError::WrongType(field) => DecodeErrorView::WrongType(*field),
            DecodeError::Timestamp(message) => DecodeErrorView::Timestamp(message@),
        }
    }
}

/// The words that precede the pointer of a missing field.
pub open spec fn missing_field_prefix() -> Seq<char> {
    "missing field "@
}

/// The words that precede the pointer of a field of the wrong kind.
pub open spec fn wrong_type_prefix() -> Seq<char> {
    "invalid type at "@
}

/// The words that precede the message of a timestamp error.
pub open spec fn timestamp_prefix() -> Seq<char> {
    "invalid timestamp: "@
}

impl DecodeErrorView {
    /// The line that reports the error.
    pub open spec fn message(self) -> Seq<char> {
        match self {
            DecodeErrorView::Syntax(message) => message,
            DecodeErrorView::MissingField(field) => missing_field_prefix() + field.pointer_text(),
            DecodeErrorView::WrongType(field) => wrong_type_prefix() + field.pointer_text(),
            DecodeErrorView::Timestamp(message) => timestamp_prefix() + message,
        }
    }
}

impl DecodeError {
    /// The line that reports the error: the parser's message, or the
    /// pointer of the field at fault.
    pub fn message(&self) -> (line: String)
        ensures
            line@ == self@.message(),
    {
        match self {
            DecodeError::Syntax(message) => message.clone(),
            DecodeError::MissingField(field) => "missing field ".to_owned().concat(field.pointer()),
            DecodeError::WrongType(field) => "invalid type at ".to_owned().concat(field.pointer()),
            DecodeError::Timestamp(message) => "invalid timestamp: ".to_owned().concat(message.as_str()),
        }
    }
}

/// What a JSON text holds at each of the given JSON pointers, or the
/// parser's message where the text is no JSON document.
pub uninterp spec fn json_leaves(text: Seq<char>, pointers: Seq<Seq<char>>) -> Result<
    Seq<LeafView>,
    Seq<char>,
>;

/// The characters of each pointer.
pub open spec fn pointer_texts(pointers: Seq<&str>) -> Seq<Seq<char>> {
    pointers.map_values(|pointer: &str| pointer@)
}

/// The content of each leaf, or the message.
pub open spec fn leaves_view(leaves: Result<Vec<Leaf>, String>) -> Result<Seq<LeafView>, Seq<char>> {
    match leaves {
        Ok(found) => Ok(found@.map_values(|leaf: Leaf| leaf@)),
        Err(message) => Err(message@),
    }
}

/// Parses `text` with `serde_json::from_str` into a `serde_json::Value` and
/// resolves each pointer in it with `Value::pointer`. Each place is reported
/// by the variant of the value found there; a number by
/// `Number::as_f64`, as the bits of the double. A text that does not parse
/// yields the message of the parser's error.
///
/// The result is a function of the text and the pointers alone and carries
/// the name `json_leaves`. Claimed besides: there is one leaf per pointer.
#[verifier::external_body]
fn lookup_leaves(text: &str, pointers: &Vec<&str>) -> (leaves: Result<Vec<Leaf>, String>)
    ensures
        leaves_view(leaves) == json_leaves(text@, pointer_texts(pointers@)),
        leaves matches Ok(found) ==> found.len() == pointers.len(),
{
    let document: Value = match serde_json::from_str(text) {
        Ok(document) => document,
        Err(error) => return Err(error.to_string()),
    };
    Ok(pointers.iter().map(|pointer| match document.pointer(pointer) {
        None => Leaf::Missing,
        Some(Value::Null) => Leaf::Null,
        Some(Value::Bool(flag)) => Leaf::Bool(*flag),
        Some(Value::Number(number)) => Leaf::Number(number.as_f64().map(|value| value.to_bits())),
        Some(Value::String(text)) => Leaf::Text(text.clone()),
        Some(Value::Array(_)) => Leaf::Array,
        Some(Value::Object(_)) => Leaf::Object,
    }).collect())
}

impl Field {
    /// The place of the field in the order of checking, from 0.
    pub open spec fn position(self) -> nat {
        match self {
            Field::Timestamp => 0,
            Field::ExportCumulative => 1,
            Field::ExportUnits => 2,
            Field::ImportCumulative => 3,
            Field::ImportDay => 4,
            Field::ImportWeek => 5,
            Field::ImportMonth => 6,
            Field::ImportUnits => 7,
            Field::ImportMpan => 8,
            Field::ImportSupplier => 9,
            Field::ImportUnitRate => 10,
            Field::ImportStandingCharge => 11,
            Field::PowerValue => 12,
            Field::PowerUnits => 13,
        }
    }

    /// The field at a place; past the last place, the last field.
    pub open spec fn at(position: nat) -> Field {
        if position == 0 {
            Field::Timestamp
        } else if position == 1 {
            Field::ExportCumulative
        } else if position == 2 {
            Field::ExportUnits
        } else if position == 3 {
            Field::ImportCumulative
        } else if position == 4 {
            Field::ImportDay
        } else if position == 5 {
            Field::ImportWeek
        } else if position == 6 {
            Field::ImportMonth
        } else if position == 7 {
            Field::ImportUnits
        } else if position == 8 {
            Field::ImportMpan
        } else if position == 9 {
            Field::ImportSupplier
        } else if position == 10 {
            Field::ImportUnitRate
        } else if position == 11 {
            Field::ImportStandingCharge
        } else if position == 12 {
            Field::PowerValue
        } else {
            Field::PowerUnits
        }
    }

    /// True for the fields that hold text, false for those that hold a
    /// number.
    pub open spec fn textual(self) -> bool {
        match self {
            Field::Timestamp => true,
            Field::ExportUnits => true,
            Field::ImportUnits => true,
            Field::ImportMpan => true,
            Field::ImportSupplier => true,
            Field::PowerUnits => true,
            _ => false,
        }
    }

    /// The JSON pointer of the field: the member names from the root of the
    /// document down to it.
    pub open spec fn pointer_text(self) -> Seq<char> {
        match self {
            Field::Timestamp => "/electricitymeter/timestamp"@,
            Field::ExportCumulative => "/electricitymeter/energy/export/cumulative"@,
            Field::ExportUnits => "/electricitymeter/energy/export/units"@,
            Field::ImportCumulative => "/electricitymeter/energy/import/cumulative"@,
            Field::ImportDay => "/electricitymeter/energy/import/day"@,
            Field::ImportWeek => "/electricitymeter/energy/import/week"@,
            Field::ImportMonth => "/electricitymeter/energy/import/month"@,
            Field::ImportUnits => "/electricitymeter/energy/import/units"@,
            Field::ImportMpan => "/electricitymeter/energy/import/mpan"@,
            Field::ImportSupplier => "/electricitymeter/energy/import/supplier"@,
            Field::ImportUnitRate => "/electricitymeter/energy/import/price/unitrate"@,
            Field::ImportStandingCharge => "/electricitymeter/energy/import/price/standingcharge"@,
            Field::PowerValue => "/electricitymeter/power/value"@,
            Field::PowerUnits => "/electricitymeter/power/units"@,
        }
    }

    /// The JSON pointer of the field.
    pub fn pointer(self) -> (pointer: &'static str)
        ensures
            pointer@ == self.pointer_text(),
    {
        match self {
            Field::Timestamp => "/electricitymeter/timestamp",
            Field::ExportCumulative => "/electricitymeter/energy/export/cumulative",
            Field::ExportUnits => "/electricitymeter/energy/export/units",
            Field::ImportCumulative => "/electricitymeter/energy/import/cumulative",
            Field::ImportDay => "/electricitymeter/energy/import/day",
            Field::ImportWeek => "/electricitymeter/energy/import/week",
            Field::ImportMonth => "/electricitymeter/energy/import/month",
            Field::ImportUnits => "/electricitymeter/energy/import/units",
            Field::ImportMpan => "/electricitymeter/energy/import/mpan",
            Field::ImportSupplier => "/electricitymeter/energy/import/supplier",
            Field::ImportUnitRate => "/electricitymeter/energy/import/price/unitrate",
            Field::ImportStandingCharge => "/electricitymeter/energy/import/price/standingcharge",
            Field::PowerValue => "/electricitymeter/power/value",
            Field::PowerUnits => "/electricitymeter/power/units",
        }
    }

    /// The field at a place of the order of checking.
    pub fn nth(position: usize) -> (field: Option<Field>)
        ensures
            field == if position < FIELD_COUNT {
                Some(Field::at(position as nat))
            } else {
                None
            },
            field matches Some(found) ==> found.position() == position,
    {
        match position {
            0 => Some(Field::Timestamp),
            1 => Some(Field::ExportCumulative),
            2 => Some(Field::ExportUnits),
            3 => Some(Field::ImportCumulative),
            4 => Some(Field::ImportDay),
            5 => Some(Field::ImportWeek),
            6 => Some(Field::ImportMonth),
            7 => Some(Field::ImportUnits),
            8 => Some(Field::ImportMpan),
            9 => Some(Field::ImportSupplier),
            10 => Some(Field::ImportUnitRate),
            11 => Some(Field::ImportStandingCharge),
            12 => Some(Field::PowerValue),
            13 => Some(Field::PowerUnits),
            _ => None,
        }
    }
}

/// The pointers of the fourteen fields, in the order of checking.
pub open spec fn field_pointers() -> Seq<Seq<char>> {
    Seq::new(FIELD_COUNT as nat, |position: int| Field::at(position as nat).pointer_text())
}

/// What the leaves hold in a field's place; a field past the end of the
/// leaves is missing.
pub open spec fn leaf_at(leaves: Seq<LeafView>, field: Field) -> LeafView {
    if field.position() < leaves.len() {
        leaves[field.position() as int]
    } else {
        LeafView::Missing
    }
}

/// What is wrong with a field, if anything: it is missing, or its place
/// holds something else than the text or the number that the field is.
pub open spec fn field_fault(leaves: Seq<LeafView>, field: Field) -> Option<DecodeErrorView> {
    match leaf_at(leaves, field) {
        LeafView::Missing => Some(DecodeErrorView::MissingField(field)),
        LeafView::Text(_) => if field.textual() {
            None
        } else {
            Some(DecodeErrorView::WrongType(field))
        },
        LeafView::Number(Some(_)) => if field.textual() {
            Some(DecodeErrorView::WrongType(field))
        } else {
            None
        },
        _ => Some(DecodeErrorView::WrongType(field)),
    }
}

/// The fault of the first faulty field from place `from` on, in the order
/// of checking.
pub open spec fn first_fault(leaves: Seq<LeafView>, from: nat) -> Option<DecodeErrorView>
    decreases FIELD_COUNT - from,
{
    if from >= FIELD_COUNT {
        None
    } else {
        match field_fault(leaves, Field::at(from)) {
            Some(fault) => Some(fault),
            None => first_fault(leaves, from + 1),
        }
    }
}

/// The text in a field's place.
pub open spec fn text_in(leaves: Seq<LeafView>, field: Field) -> Seq<char> {
    leaf_at(leaves, field)->Text_0
}

/// The number in a field's place.
pub open spec fn number_in(leaves: Seq<LeafView>, field: Field) -> Double {
    Double { bits: leaf_at(leaves, field)->Number_0->Some_0 }
}

/// The reading that faultless leaves make up.
pub open spec fn reading_in(leaves: Seq<LeafView>) -> Reading {
    Reading {
        timestamp: text_in(leaves, Field::Timestamp),
        export_cumulative: number_in(leaves, Field::ExportCumulative),
        export_units: text_in(leaves, Field::ExportUnits),
        import_cumulative: number_in(leaves, Field::ImportCumulative),
        import_day: number_in(leaves, Field::ImportDay),
        import_week: number_in(leaves, Field::ImportWeek),
        import_month: number_in(leaves, Field::ImportMonth),
        import_units: text_in(leaves, Field::ImportUnits),
        import_mpan: text_in(leaves, Field::ImportMpan),
        import_supplier: text_in(leaves, Field::ImportSupplier),
        import_unitrate: number_in(leaves, Field::ImportUnitRate),
        import_standingcharge: number_in(leaves, Field::ImportStandingCharge),
        power_value: number_in(leaves, Field::PowerValue),
        power_units: text_in(leaves, Field::PowerUnits),
    }
}

/// The reading that the leaves of a document make up, or the fault of the
/// first field that is missing or of the wrong kind.
pub open spec fn reading_of(leaves: Seq<LeafView>) -> Result<Reading, DecodeErrorView> {
    match first_fault(leaves, 0) {
        Some(fault) => Err(fault),
        None => Ok(reading_in(leaves)),
    }
}

/// What a payload decodes to.
///
/// A text that is no JSON document is refused with the parser's message.
/// A document is checked field by field. Where all fourteen are there
/// and of their kinds, the timestamp must be in the meter's format; then
/// the payload is the reading that the fields make up.
pub open spec fn decoded(payload: Seq<char>) -> Result<Reading, DecodeErrorView> {
    match json_leaves(payload, field_pointers()) {
        Err(message) => Err(DecodeErrorView::Syntax(message)),
        Ok(leaves) => match reading_of(leaves) {
            Err(fault) => Err(fault),
            Ok(reading) => match Timestamp::of_text(reading.timestamp) {
                Err(message) => Err(DecodeErrorView::Timestamp(message)),
                Ok(_) => Ok(reading),
            },
        },
    }
}

/// A decoded message by its content, or the error by its content.
pub open spec fn decode_view(outcome: Result<ElectricityMeterMessage, DecodeError>) -> Result<
    Reading,
    DecodeErrorView,
> {
    match outcome {
        Ok(message) => Ok(message@),
        Err(error) => Err(error@),
    }
}

/// The content of each leaf.
pub open spec fn leaf_views(leaves: Seq<Leaf>) -> Seq<LeafView> {
    leaves.map_values(|leaf: Leaf| leaf@)
}

/// Takes the text out of a field's place.
fn text_at(leaves: &Vec<Leaf>, field: Field) -> (found: Result<String, DecodeError>)
    requires
        field.textual(),
    ensures
        match found {
            Ok(text) => field_fault(leaf_views(leaves@), field) is None && text@ == text_in(
                leaf_views(leaves@),
                field,
            ),
            Err(error) => field_fault(leaf_views(leaves@), field) == Some(error@),
        },
{
    let position = field_position(field);
    if position >= leaves.len() {
        return Err(DecodeError::MissingField(field));
    }
    match &leaves[position] {
        Leaf::Text(text) => Ok(text.clone()),
        Leaf::Missing => Err(DecodeError::MissingField(field)),
        _ => Err(DecodeError::WrongType(field)),
    }
}

/// Takes the number out of a field's place.
fn number_at(leaves: &Vec<Leaf>, field: Field) -> (found: Result<Double, DecodeError>)
    requires
        !field.textual(),
    ensures
        match found {
            Ok(number) => field_fault(leaf_views(leaves@), field) is None && number == number_in(
                leaf_views(leaves@),
                field,
            ),
            Err(error) => field_fault(leaf_views(leaves@), field) == Some(error@),
        },
{
    let position = field_position(field);
    if position >= leaves.len() {
        return Err(DecodeError::MissingField(field));
    }
    match &leaves[position] {
        Leaf::Number(Some(bits)) => Ok(Double { bits: *bits }),
        Leaf::Missing => Err(DecodeError::MissingField(field)),
        _ => Err(DecodeError::WrongType(field)),
    }
}

/// The place of a field in the order of checking.
pub fn field_position(field: Field) -> (position: usize)
    ensures
        position == field.position(),
        position < FIELD_COUNT,
        Field::at(position as nat) == field,
{
    match field {
        Field::Timestamp => 0,
        Field::ExportCumulative => 1,
        Field::ExportUnits => 2,
        Field::ImportCumulative => 3,
        Field::ImportDay => 4,
        Field::ImportWeek => 5,
        Field::ImportMonth => 6,
        Field::ImportUnits => 7,
        Field::ImportMpan => 8,
        Field::ImportSupplier => 9,
        Field::ImportUnitRate => 10,
        Field::ImportStandingCharge => 11,
        Field::PowerValue => 12,
        Field::PowerUnits => 13,
    }
}

/// Builds a reading from what a document holds in the places of the
/// fourteen fields, given in the order of checking.
pub fn reading_from_leaves(leaves: &Vec<Leaf>) -> (outcome: Result<ElectricityMeterMessage, DecodeError>)
    ensures
        decode_view(outcome) == reading_of(leaf_views(leaves@)),
{
    proof {
        reveal_with_fuel(first_fault, 15);
    }
    let timestamp = text_at(leaves, Field::Timestamp)?;
    let export_cumulative = number_at(leaves, Field::ExportCumulative)?;
    let export_units = text_at(leaves, Field::ExportUnits)?;
    let import_cumulative = number_at(leaves, Field::ImportCumulative)?;
    let import_day = number_at(leaves, Field::ImportDay)?;
    let import_week = number_at(leaves, Field::ImportWeek)?;
    let import_month = number_at(leaves, Field::ImportMonth)?;
    let import_units = text_at(leaves, Field::ImportUnits)?;
    let import_mpan = text_at(leaves, Field::ImportMpan)?;
    let import_supplier = text_at(leaves, Field::ImportSupplier)?;
    let import_unitrate = number_at(leaves, Field::ImportUnitRate)?;
    let import_standingcharge = number_at(leaves, Field::ImportStandingCharge)?;
    let power_value = number_at(leaves, Field::PowerValue)?;
    let power_units = text_at(leaves, Field::PowerUnits)?;
    Ok(
        ElectricityMeterMessage {
            electricitymeter: ElectricityMeter {
                timestamp,
                energy: Energy {
                    export: EnergyExport { cumulative: export_cumulative, units: export_units },
                    import: EnergyImport {
                        cumulative: import_cumulative,
                        day: import_day,
                        week: import_week,
                        month: import_month,
                        units: import_units,
                        mpan: import_mpan,
                        supplier: import_supplier,
                        price: ImportPrice { unitrate: import_unitrate, standingcharge: import_standingcharge },
                    },
                },
                power: Power { value: power_value, units: power_units },
            },
        },
    )
}

/// The pointers of the fourteen fields, in the order of checking.
fn pointers_of_fields() -> (pointers: Vec<&'static str>)
    ensures
        pointer_texts(pointers@) == field_pointers(),
{
    let mut pointers: Vec<&'static str> = Vec::new();
    let mut position: usize = 0;
    while position < FIELD_COUNT
        invariant
            position <= FIELD_COUNT,
            pointers.len() == position,
            forall|i: int| 0 <= i < position ==> (#[trigger] pointers[i])@ == Field::at(i as nat).pointer_text(),
        decreases FIELD_COUNT - position,
    {
        match Field::nth(position) {
            Some(field) => {
                pointers.push(field.pointer());
            },
            None => {},
        }
        position += 1;
    }
    assert(pointer_texts(pointers@) =~= field_pointers());
    pointers
}

/// Builds a reading from the result of looking up the fourteen fields in
/// a payload: a payload that is no document is refused with the parser's
/// message, a document yields what its leaves make up.
pub fn reading_from_lookup(found: Result<Vec<Leaf>, String>) -> (outcome: Result<
    ElectricityMeterMessage,
    DecodeError,
>)
    ensures
        decode_view(outcome) == match leaves_view(found) {
            Err(message) => Err(DecodeErrorView::Syntax(message)),
            Ok(leaves) => reading_of(leaves),
        },
{
    match found {
        Ok(leaves) => reading_from_leaves(&leaves),
        Err(message) => Err(DecodeError::Syntax(message)),
    }
}

/// Accepts a reading whose timestamp was parsed with this result: the
/// reading stands where the timestamp was read, otherwise the parser's
/// message is the error.
pub fn accept_timestamp(message: ElectricityMeterMessage, parsed: Result<Timestamp, String>) -> (outcome:
    Result<ElectricityMeterMessage, DecodeError>)
    ensures
        match parsed {
            Ok(_) => outcome == Ok::<ElectricityMeterMessage, DecodeError>(message),
            Err(text) => outcome matches Err(error) && error@ == DecodeErrorView::Timestamp(text@),
        },
{
    match parsed {
        Ok(_) => Ok(message),
        Err(text) => Err(DecodeError::Timestamp(text)),
    }
}

/// Decodes a payload of the broker into a reading.
pub fn decode_reading(payload: &str) -> (outcome: Result<ElectricityMeterMessage, DecodeError>)
    ensures
        decode_view(outcome) == decoded(payload@),
{
    let pointers = pointers_of_fields();
    let message = reading_from_lookup(lookup_leaves(payload, &pointers))?;
    let parsed = Timestamp::parse(message.electricitymeter.timestamp.as_str());
    accept_timestamp(message, parsed)
}

} // verus!
