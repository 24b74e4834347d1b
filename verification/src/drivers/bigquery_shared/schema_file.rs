//! BigQuery schema files.
//!
//! A schema file is a JSON array of columns. A column is an object with a
//! `name`, a `type`, a `mode` and, where it has them, a `description` and
//! nested `fields`. A column without a `mode` is nullable.

use super::column::{columns_model, mode_text, BqColumn, BqColumnModel, Mode};
use super::column_name::{valid_column_name, ColumnName};
use super::data_type::{names_valid_non_array, BqRecordOrNonArrayDataTypeModel};
use super::display::record_or_non_array_text;
use super::grammar::{record_or_non_array_data_type, record_or_non_array_of_text};
use super::round_trip::lemma_record_or_non_array_round_trip;
use crate::error::{ok_view, ParseError};
use crate::json::{
    find_member, items_model, lemma_member_found, lemma_value_of_parts, member, member_from,
    members_model, JsonModel, JsonValue, Member, MemberModel,
};
use crate::text::same_text;
use vstd::prelude::*;

verus! {

/// Why a JSON value is not a schema file.
#[derive(Clone, Copy, Debug, PartialEq, Eq, Structural)]
pub enum SchemaFileError {
    /// The file is not an array.
    NotArray,
    /// A column is not an object.
    ColumnNotObject,
    /// A column's `description` is neither a string nor `null`.
    BadDescription,
    /// A column's `name` is missing, not a string, or not a legal name.
    BadName,
    /// A column's `type` is missing or not a string.
    BadType,
    /// A column's `type` is not the text of a type.
    TypeSyntax(ParseError),
    /// A column's `fields` are not an array.
    BadFields,
    /// A column's `mode` is none of `NULLABLE`, `REPEATED` and `REQUIRED`.
    BadMode,
}

/// The mode that `word` stands for, if it stands for one.
pub open spec fn mode_of_text(word: Seq<char>) -> Option<Mode> {
    if word == "NULLABLE"@ {
        Some(Mode::Nullable)
    } else if word == "REPEATED"@ {
        Some(Mode::Repeated)
    } else if word == "REQUIRED"@ {
        Some(Mode::Required)
    } else {
        None
    }
}

/// The members of a column as JSON that every column has.
pub open spec fn column_members(column: BqColumnModel) -> Seq<MemberModel> {
    seq![
        MemberModel { key: "name"@, value: JsonModel::String(column.name) },
        MemberModel {
            key: "type"@,
            value: JsonModel::String(record_or_non_array_text(column.ty)),
        },
        MemberModel { key: "mode"@, value: JsonModel::String(mode_text(column.mode)) },
    ]
}

/// A column as JSON. A column without a description has no `description`
/// member, and one without nested fields no `fields` member.
pub open spec fn column_json(column: BqColumnModel) -> JsonModel
    decreases column, 0nat,
{
    let described = match column.description {
        Some(text) => column_members(column).push(
            MemberModel { key: "description"@, value: JsonModel::String(text) },
        ),
        None => column_members(column),
    };
    if column.fields.len() > 0 {
        JsonModel::Object(
            described.push(MemberModel { key: "fields"@, value: schema_json(column.fields) }),
        )
    } else {
        JsonModel::Object(described)
    }
}

/// Columns as JSON: a schema file.
pub open spec fn schema_json(columns: Seq<BqColumnModel>) -> JsonModel
    decreases columns, 1nat,
{
    JsonModel::Array(
        Seq::new(
            columns.len(),
            |i: int|
                if 0 <= i < columns.len() {
                    column_json(columns[i])
                } else {
                    arbitrary()
                },
        ),
    )
}

/// The column that a JSON value stands for. Members with other keys than
/// the five of a column are passed over.
pub open spec fn column_of_json(value: JsonModel) -> Result<BqColumnModel, SchemaFileError>
    decreases value, 0nat,
{
    match value {
        JsonModel::Object(members) => match member(members, "description"@) {
            None | Some(JsonModel::Null) | Some(JsonModel::String(_)) => match member(
                members,
                "name"@,
            ) {
                Some(JsonModel::String(name)) => if !valid_column_name(name) {
                    Err(SchemaFileError::BadName)
                } else {
                    match member(members, "type"@) {
                        Some(JsonModel::String(text)) => match record_or_non_array_of_text(text) {
                            Ok(ty) => match member(members, "fields"@) {
                                None => column_with(members, name, ty, Ok(Seq::empty())),
                                Some(JsonModel::Array(items)) => {
                                    proof {
                                        lemma_member_found(members, "fields"@, 0);
                                    }
                                    column_with(
                                        members,
                                        name,
                                        ty,
                                        columns_of_json(items, items.len() as int),
                                    )
                                },
                                _ => Err(SchemaFileError::BadFields),
                            },
                            Err(e) => Err(SchemaFileError::TypeSyntax(e)),
                        },
                        _ => Err(SchemaFileError::BadType),
                    }
                },
                _ => Err(SchemaFileError::BadName),
            },
            _ => Err(SchemaFileError::BadDescription),
        },
        _ => Err(SchemaFileError::ColumnNotObject),
    }
}

/// The column with the name `name`, the type entry `ty` and the nested
/// fields `fields`, whose description and mode are those among `members`.
pub open spec fn column_with(
    members: Seq<MemberModel>,
    name: Seq<char>,
    ty: BqRecordOrNonArrayDataTypeModel,
    fields: Result<Seq<BqColumnModel>, SchemaFileError>,
) -> Result<BqColumnModel, SchemaFileError> {
    match fields {
        Err(e) => Err(e),
        Ok(fields) => {
            let description = match member(members, "description"@) {
                Some(JsonModel::String(text)) => Some(text),
                _ => None,
            };
            match member(members, "mode"@) {
                None => Ok(BqColumnModel { description, name, ty, fields, mode: Mode::Nullable }),
                Some(JsonModel::String(word)) => match mode_of_text(word) {
                    Some(mode) => Ok(BqColumnModel { description, name, ty, fields, mode }),
                    None => Err(SchemaFileError::BadMode),
                },
                _ => Err(SchemaFileError::BadMode),
            }
        },
    }
}

/// The columns that the first `n` of `items` stand for, in the order of the
/// items, or what is wrong with the first item that is not a column.
pub open spec fn columns_of_json(items: Seq<JsonModel>, n: int) -> Result<
    Seq<BqColumnModel>,
    SchemaFileError,
>
    decreases items, n,
{
    if n <= 0 || n > items.len() {
        Ok(Seq::empty())
    } else {
        match columns_of_json(items, n - 1) {
            Ok(columns) => match column_of_json(items[n - 1]) {
                Ok(column) => Ok(columns.push(column)),
                Err(e) => Err(e),
            },
            Err(e) => Err(e),
        }
    }
}

/// The columns that a schema file holds.
pub open spec fn schema_of_json(value: JsonModel) -> Result<Seq<BqColumnModel>, SchemaFileError> {
    match value {
        JsonModel::Array(items) => columns_of_json(items, items.len() as int),
        _ => Err(SchemaFileError::NotArray),
    }
}

/// The mode that `word` stands for, if it stands for one.
fn mode_from_text(word: &str) -> (mode: Option<Mode>)
    ensures
        mode == mode_of_text(word@),
{
    if same_text(word, "NULLABLE") {
        Some(Mode::Nullable)
    } else if same_text(word, "REPEATED") {
        Some(Mode::Repeated)
    } else if same_text(word, "REQUIRED") {
        Some(Mode::Required)
    } else {
        None
    }
}

fn text_member(key: &str, text: &str) -> (member: Member)
    ensures
        member@ == (MemberModel { key: key@, value: JsonModel::String(text@) }),
{
    Member { key: key.to_owned(), value: JsonValue::String(text.to_owned()) }
}

/// Writes a column as JSON.
pub fn column_to_json(column: &BqColumn) -> (json: JsonValue)
    ensures
        json@ == column_json(column@),
    decreases column,
{
    let mut members: Vec<Member> = Vec::new();
    members.push(text_member("name", column.name.as_str()));
    members.push(text_member("type", column.ty.to_string().as_str()));
    members.push(text_member("mode", column.mode.as_str()));
    if let Some(text) = &column.description {
        members.push(text_member("description", text.as_str()));
    }
    if column.fields.len() > 0 {
        members.push(Member { key: "fields".to_owned(), value: schema_to_json(&column.fields) });
    }
    let json = JsonValue::Object(members);
    proof {
        lemma_value_of_parts(json);
        assert(members_model(members@) =~= column_json(column@)->Object_0);
    }
    json
}

/// Writes columns as a schema file.
pub fn schema_to_json(columns: &Vec<BqColumn>) -> (json: JsonValue)
    ensures
        json@ == schema_json(columns_model(columns@)),
    decreases columns,
{
    let mut items: Vec<JsonValue> = Vec::new();
    let mut i: usize = 0;
    while i < columns.len()
        invariant
            i <= columns.len(),
            items.len() == i,
            forall|k: int| 0 <= k < i ==> (#[trigger] items[k])@ == column_json(columns[k]@),
        decreases columns.len() - i,
    {
        items.push(column_to_json(&columns[i]));
        i += 1;
    }
    let json = JsonValue::Array(items);
    proof {
        lemma_value_of_parts(json);
        assert(items_model(items@) =~= schema_json(columns_model(columns@))->Array_0);
    }
    json
}

/// Reads a column from JSON.
pub fn column_from_json(value: &JsonValue) -> (r: Result<BqColumn, SchemaFileError>)
    ensures
        ok_view(r) == column_of_json(value@),
    decreases value,
{
    proof {
        lemma_value_of_parts(*value);
    }
    let members = match value {
        JsonValue::Object(members) => members.as_slice(),
        _ => {
            return Err(SchemaFileError::ColumnNotObject);
        },
    };
    let description = match find_member(members, "description") {
        None | Some(JsonValue::Null) => None,
        Some(JsonValue::String(text)) => Some(text.clone()),
        _ => {
            return Err(SchemaFileError::BadDescription);
        },
    };
    let name = match find_member(members, "name") {
        Some(JsonValue::String(name)) => match ColumnName::try_from(name.as_str()) {
            Ok(name) => name,
            Err(_) => {
                return Err(SchemaFileError::BadName);
            },
        },
        _ => {
            return Err(SchemaFileError::BadName);
        },
    };
    let ty = match find_member(members, "type") {
        Some(JsonValue::String(text)) => match record_or_non_array_data_type(text.as_str()) {
            Ok(ty) => ty,
            Err(e) => {
                return Err(SchemaFileError::TypeSyntax(e));
            },
        },
        _ => {
            return Err(SchemaFileError::BadType);
        },
    };
    let fields = match find_member(members, "fields") {
        None => {
            let fields: Vec<BqColumn> = Vec::new();
            assert(columns_model(fields@) =~= Seq::empty());
            fields
        },
        Some(array) => {
            proof {
                lemma_value_of_parts(*array);
            }
            match array {
                JsonValue::Array(items) => {
                    match columns_from_json(items) {
                        Ok(fields) => fields,
                        Err(e) => {
                            return Err(e);
                        },
                    }
                },
                _ => {
                    return Err(SchemaFileError::BadFields);
                },
            }
        },
    };
    let mode = match find_member(members, "mode") {
        None => Mode::Nullable,
        Some(JsonValue::String(word)) => match mode_from_text(word.as_str()) {
            Some(mode) => mode,
            None => {
                return Err(SchemaFileError::BadMode);
            },
        },
        _ => {
            return Err(SchemaFileError::BadMode);
        },
    };
    Ok(BqColumn { description, name, ty, fields, mode })
}

/// Reads the columns that `items` stand for.
pub fn columns_from_json(items: &Vec<JsonValue>) -> (r: Result<Vec<BqColumn>, SchemaFileError>)
    ensures
        (match r {
            Ok(columns) => columns_of_json(items_model(items@), items@.len() as int) == Ok::<
                Seq<BqColumnModel>,
                SchemaFileError,
            >(columns_model(columns@)),
            Err(e) => columns_of_json(items_model(items@), items@.len() as int) == Err::<
                Seq<BqColumnModel>,
                SchemaFileError,
            >(e),
        }),
    decreases items,
{
    let ghost models = items_model(items@);
    let mut columns: Vec<BqColumn> = Vec::new();
    let mut i: usize = 0;
    assert(columns_model(columns@) =~= Seq::empty());
    while i < items.len()
        invariant
            i <= items.len(),
            models == items_model(items@),
            columns.len() == i,
            columns_of_json(models, i as int) == Ok::<Seq<BqColumnModel>, SchemaFileError>(
                columns_model(columns@),
            ),
        decreases items.len() - i,
    {
        let column = match column_from_json(&items[i]) {
            Ok(column) => column,
            Err(e) => {
                proof {
                    lemma_first_bad_column(models, i as int + 1, models.len() as int);
                }
                return Err(e);
            },
        };
        let ghost before = columns_model(columns@);
        columns.push(column);
        i += 1;
        assert(columns_model(columns@) =~= before.push(column@));
    }
    Ok(columns)
}

/// Reads a schema file.
pub fn schema_from_json(value: &JsonValue) -> (r: Result<Vec<BqColumn>, SchemaFileError>)
    ensures
        (match r {
            Ok(columns) => schema_of_json(value@) == Ok::<Seq<BqColumnModel>, SchemaFileError>(
                columns_model(columns@),
            ),
            Err(e) => schema_of_json(value@) == Err::<Seq<BqColumnModel>, SchemaFileError>(e),
        }),
{
    proof {
        lemma_value_of_parts(*value);
    }
    match value {
        JsonValue::Array(items) => columns_from_json(items),
        _ => Err(SchemaFileError::NotArray),
    }
}

/// Once an item is not a column, reading more items gives the same error.
proof fn lemma_first_bad_column(items: Seq<JsonModel>, n: int, m: int)
    requires
        0 <= n <= m <= items.len(),
        columns_of_json(items, n) is Err,
    ensures
        columns_of_json(items, m) == columns_of_json(items, n),
    decreases m - n,
{
    if n < m {
        lemma_first_bad_column(items, n, m - 1);
    }
}

/// Are the name of `column`, the names in its type and those of its nested
/// fields legal names? This holds of the value of every [`BqColumn`].
pub open spec fn column_names_valid(column: BqColumnModel) -> bool
    decreases column,
{
    &&& valid_column_name(column.name)
    &&& column.ty matches BqRecordOrNonArrayDataTypeModel::DataType(ty) ==> names_valid_non_array(
        ty,
    )
    &&& forall|i: int|
        0 <= i < column.fields.len() ==> column_names_valid(#[trigger] column.fields[i])
}

/// The keys and the words for modes differ from one another.
proof fn lemma_words()
    ensures
        "name"@ != "type"@,
        "name"@ != "mode"@,
        "name"@ != "description"@,
        "name"@ != "fields"@,
        "type"@ != "mode"@,
        "type"@ != "description"@,
        "type"@ != "fields"@,
        "mode"@ != "description"@,
        "mode"@ != "fields"@,
        "description"@ != "fields"@,
        mode_of_text("NULLABLE"@) == Some(Mode::Nullable),
        mode_of_text("REPEATED"@) == Some(Mode::Repeated),
        mode_of_text("REQUIRED"@) == Some(Mode::Required),
{
    reveal_strlit("name");
    reveal_strlit("type");
    reveal_strlit("mode");
    reveal_strlit("description");
    reveal_strlit("fields");
    reveal_strlit("NULLABLE");
    reveal_strlit("REPEATED");
    reveal_strlit("REQUIRED");
    assert("name"@[0] == 'n' && "type"@[0] == 't' && "mode"@[0] == 'm');
    assert("description"@.len() == 11 && "fields"@.len() == 6);
    assert("NULLABLE"@[0] == 'N' && "REPEATED"@[2] == 'P' && "REQUIRED"@[2] == 'Q');
}

/// A column that is written as JSON and read back is the same column.
pub proof fn lemma_column_round_trip(column: BqColumnModel)
    requires
        column_names_valid(column),
    ensures
        column_of_json(column_json(column)) == Ok::<BqColumnModel, SchemaFileError>(column),
    decreases column, 0nat,
{
    lemma_words();
    lemma_record_or_non_array_round_trip(column.ty);
    reveal_with_fuel(member_from, 6);
    if column.fields.len() > 0 {
        lemma_schema_round_trip(column.fields, column.fields.len() as int);
        assert(column.fields.subrange(0, column.fields.len() as int) =~= column.fields);
    } else {
        assert(column.fields =~= Seq::empty());
    }
}

/// The first `n` columns of a schema file that is written and read back
/// are the same columns, in the same order.
pub proof fn lemma_schema_round_trip(columns: Seq<BqColumnModel>, n: int)
    requires
        forall|i: int| 0 <= i < columns.len() ==> column_names_valid(#[trigger] columns[i]),
        0 <= n <= columns.len(),
    ensures
        columns_of_json(schema_json(columns)->Array_0, n) == Ok::<
            Seq<BqColumnModel>,
            SchemaFileError,
        >(columns.subrange(0, n)),
    decreases columns, n,
{
    if n > 0 {
        lemma_schema_round_trip(columns, n - 1);
        lemma_column_round_trip(columns[n - 1]);
        assert(columns.subrange(0, n - 1).push(columns[n - 1]) =~= columns.subrange(0, n));
    } else {
        assert(columns.subrange(0, 0) =~= Seq::empty());
    }
}

} // verus!
