//! The portable schema as JSON.
//!
//! A table is an object with a `name` and `columns`. A column is an object
//! with a `name`, a `data_type`, `is_nullable` and, where it has one, a
//! `comment`. A data type is a word for a plain type, and an object with
//! one member for the others: `{"array": T}`, `{"geo_json": srid}`,
//! `{"other": name}`.
//!
//! Members are found by their keys, so the order in which an object lists
//! them does not matter; the order of the columns is that of the array.

use crate::json::{
    find_member, items_model, lemma_member_found, lemma_value_of_parts, member, member_from,
    members_model, JsonModel, JsonValue, Member, MemberModel,
};
use crate::schema::{Column, ColumnModel, DataType, DataTypeModel, Srid, Table, TableModel};
use crate::error::ok_view;
use crate::text::same_text;
use vstd::prelude::*;

verus! {

/// Why a JSON value is not a portable schema.
#[derive(Clone, Copy, Debug, PartialEq, Eq, Structural)]
pub enum SchemaJsonError {
    /// The table is not an object.
    TableNotObject,
    /// The table's `name` is missing or not a string.
    BadTableName,
    /// The table's `columns` are missing or not an array.
    BadColumns,
    /// A column is not an object.
    ColumnNotObject,
    /// A column's `name` is missing or not a string.
    BadColumnName,
    /// A column has no `data_type`.
    MissingDataType,
    /// A data type is neither a known word nor an object with the one
    /// member `array`, `geo_json` or `other`.
    UnknownDataType,
    /// The value of `geo_json` is not an integer from 0 to 4294967295.
    BadSrid,
    /// The value of `other` is not a string.
    BadOtherName,
    /// A column's `is_nullable` is missing or not a boolean.
    BadIsNullable,
    /// A column's `comment` is neither a string nor `null`.
    BadComment,
}

/// The word for a plain type, and for any other type the empty text.
pub open spec fn plain_word(data_type: DataTypeModel) -> Seq<char> {
    match data_type {
        DataTypeModel::Bool => "bool"@,
        DataTypeModel::Bytes => "bytes"@,
        DataTypeModel::Date => "date"@,
        DataTypeModel::Decimal => "decimal"@,
        DataTypeModel::Float32 => "float32"@,
        DataTypeModel::Float64 => "float64"@,
        DataTypeModel::Int16 => "int16"@,
        DataTypeModel::Int32 => "int32"@,
        DataTypeModel::Int64 => "int64"@,
        DataTypeModel::Json => "json"@,
        DataTypeModel::Text => "text"@,
        DataTypeModel::TimestampWithoutTimeZone => "timestamp_without_time_zone"@,
        DataTypeModel::TimestampWithTimeZone => "timestamp_with_time_zone"@,
        DataTypeModel::Uuid => "uuid"@,
        DataTypeModel::Array(_) | DataTypeModel::GeoJson(_) | DataTypeModel::Other(_) => Seq::empty(),
    }
}

/// The plain type that `word` stands for, if it stands for one.
pub open spec fn plain_type(word: Seq<char>) -> Option<DataTypeModel> {
    if word == "bool"@ {
        Some(DataTypeModel::Bool)
    } else if word == "bytes"@ {
        Some(DataTypeModel::Bytes)
    } else if word == "date"@ {
        Some(DataTypeModel::Date)
    } else if word == "decimal"@ {
        Some(DataTypeModel::Decimal)
    } else if word == "float32"@ {
        Some(DataTypeModel::Float32)
    } else if word == "float64"@ {
        Some(DataTypeModel::Float64)
    } else if word == "int16"@ {
        Some(DataTypeModel::Int16)
    } else if word == "int32"@ {
        Some(DataTypeModel::Int32)
    } else if word == "int64"@ {
        Some(DataTypeModel::Int64)
    } else if word == "json"@ {
        Some(DataTypeModel::Json)
    } else if word == "text"@ {
        Some(DataTypeModel::Text)
    } else if word == "timestamp_without_time_zone"@ {
        Some(DataTypeModel::TimestampWithoutTimeZone)
    } else if word == "timestamp_with_time_zone"@ {
        Some(DataTypeModel::TimestampWithTimeZone)
    } else if word == "uuid"@ {
        Some(DataTypeModel::Uuid)
    } else {
        None
    }
}

/// An object with one member.
pub open spec fn tagged(key: Seq<char>, value: JsonModel) -> JsonModel {
    JsonModel::Object(seq![MemberModel { key, value }])
}

/// A data type as JSON.
pub open spec fn data_type_json(data_type: DataTypeModel) -> JsonModel
    decreases data_type,
{
    match data_type {
        DataTypeModel::Array(element) => tagged("array"@, data_type_json(*element)),
        DataTypeModel::GeoJson(srid) => tagged("geo_json"@, JsonModel::Number(srid.0 as i64)),
        DataTypeModel::Other(name) => tagged("other"@, JsonModel::String(name)),
        plain => JsonModel::String(plain_word(plain)),
    }
}

/// The data type that a JSON value stands for.
pub open spec fn data_type_of_json(value: JsonModel) -> Result<DataTypeModel, SchemaJsonError>
    decreases value,
{
    match value {
        JsonModel::String(word) => match plain_type(word) {
            Some(data_type) => Ok(data_type),
            None => Err(SchemaJsonError::UnknownDataType),
        },
        JsonModel::Object(members) => if members.len() != 1 {
            Err(SchemaJsonError::UnknownDataType)
        } else if members[0].key == "array"@ {
            match data_type_of_json(members[0].value) {
                Ok(element) => Ok(DataTypeModel::Array(Box::new(element))),
                Err(e) => Err(e),
            }
        } else if members[0].key == "geo_json"@ {
            match members[0].value {
                JsonModel::Number(srid) => if 0 <= srid <= u32::MAX {
                    Ok(DataTypeModel::GeoJson(Srid(srid as u32)))
                } else {
                    Err(SchemaJsonError::BadSrid)
                },
                _ => Err(SchemaJsonError::BadSrid),
            }
        } else if members[0].key == "other"@ {
            match members[0].value {
                JsonModel::String(name) => Ok(DataTypeModel::Other(name)),
                _ => Err(SchemaJsonError::BadOtherName),
            }
        } else {
            Err(SchemaJsonError::UnknownDataType)
        },
        _ => Err(SchemaJsonError::UnknownDataType),
    }
}

/// A column as JSON. A column without a comment has no `comment` member.
pub open spec fn column_json(column: ColumnModel) -> JsonModel {
    let members = seq![
        MemberModel { key: "name"@, value: JsonModel::String(column.name) },
        MemberModel { key: "data_type"@, value: data_type_json(column.data_type) },
        MemberModel { key: "is_nullable"@, value: JsonModel::Bool(column.is_nullable) },
    ];
    match column.comment {
        Some(comment) => JsonModel::Object(
            members.push(MemberModel { key: "comment"@, value: JsonModel::String(comment) }),
        ),
        None => JsonModel::Object(members),
    }
}

/// The column that a JSON value stands for. Members with other keys than
/// the four of a column are passed over.
pub open spec fn column_of_json(value: JsonModel) -> Result<ColumnModel, SchemaJsonError> {
    match value {
        JsonModel::Object(members) => match member(members, "name"@) {
            Some(JsonModel::String(name)) => match member(members, "data_type"@) {
                Some(data_type) => match data_type_of_json(data_type) {
                    Ok(data_type) => match member(members, "is_nullable"@) {
                        Some(JsonModel::Bool(is_nullable)) => match member(members, "comment"@) {
                            None | Some(JsonModel::Null) => Ok(
                                ColumnModel { name, data_type, is_nullable, comment: None },
                            ),
                            Some(JsonModel::String(comment)) => Ok(
                                ColumnModel { name, data_type, is_nullable, comment: Some(comment) },
                            ),
                            _ => Err(SchemaJsonError::BadComment),
                        },
                        _ => Err(SchemaJsonError::BadIsNullable),
                    },
                    Err(e) => Err(e),
                },
                None => Err(SchemaJsonError::MissingDataType),
            },
            _ => Err(SchemaJsonError::BadColumnName),
        },
        _ => Err(SchemaJsonError::ColumnNotObject),
    }
}

/// The columns that the first `n` of `items` stand for, in the order of the
/// items, or what is wrong with the first item that is not a column.
pub open spec fn columns_of_json(items: Seq<JsonModel>, n: int) -> Result<
    Seq<ColumnModel>,
    SchemaJsonError,
>
    decreases n,
{
    if n <= 0 {
        Ok(Seq::empty())
    } else {
        match columns_of_json(items, n - 1) {
            Ok(columns) => match column_of_json(items[n - 1]) {
                Ok(column) => Ok(columns.push(column)),
                Err(e) => Err(e),
            },
            Err(e) => Err(e),
        }
    }
}

/// A table as JSON.
pub open spec fn table_json(table: TableModel) -> JsonModel {
    JsonModel::Object(
        seq![
            MemberModel { key: "name"@, value: JsonModel::String(table.name) },
            MemberModel {
                key: "columns"@,
                value: JsonModel::Array(
                    Seq::new(table.columns.len(), |i: int| column_json(table.columns[i])),
                ),
            },
        ],
    )
}

/// The table that a JSON value stands for.
pub open spec fn table_of_json(value: JsonModel) -> Result<TableModel, SchemaJsonError> {
    match value {
        JsonModel::Object(members) => match member(members, "name"@) {
            Some(JsonModel::String(name)) => match member(members, "columns"@) {
                Some(JsonModel::Array(items)) => match columns_of_json(items, items.len() as int) {
                    Ok(columns) => Ok(TableModel { name, columns }),
                    Err(e) => Err(e),
                },
                _ => Err(SchemaJsonError::BadColumns),
            },
            _ => Err(SchemaJsonError::BadTableName),
        },
        _ => Err(SchemaJsonError::TableNotObject),
    }
}

/// The word for a plain type, and for any other type the empty text.
fn word_of(data_type: &DataType) -> (word: &'static str)
    ensures
        word@ == plain_word(data_type@),
{
    match data_type {
        DataType::Bool => "bool",
        DataType::Bytes => "bytes",
        DataType::Date => "date",
        DataType::Decimal => "decimal",
        DataType::Float32 => "float32",
        DataType::Float64 => "float64",
        DataType::Int16 => "int16",
        DataType::Int32 => "int32",
        DataType::Int64 => "int64",
        DataType::Json => "json",
        DataType::Text => "text",
        DataType::TimestampWithoutTimeZone => "timestamp_without_time_zone",
        DataType::TimestampWithTimeZone => "timestamp_with_time_zone",
        DataType::Uuid => "uuid",
        DataType::Array(_) | DataType::GeoJson(_) | DataType::Other(_) => {
            proof {
                reveal_strlit("");
            }
            ""
        },
    }
}

/// The plain type that `word` stands for, if it stands for one.
fn type_of_word(word: &str) -> (data_type: Option<DataType>)
    ensures
        (match data_type {
            Some(data_type) => plain_type(word@) == Some(data_type@),
            None => plain_type(word@) is None,
        }),
{
    if same_text(word, "bool") {
        Some(DataType::Bool)
    } else if same_text(word, "bytes") {
        Some(DataType::Bytes)
    } else if same_text(word, "date") {
        Some(DataType::Date)
    } else if same_text(word, "decimal") {
        Some(DataType::Decimal)
    } else if same_text(word, "float32") {
        Some(DataType::Float32)
    } else if same_text(word, "float64") {
        Some(DataType::Float64)
    } else if same_text(word, "int16") {
        Some(DataType::Int16)
    } else if same_text(word, "int32") {
        Some(DataType::Int32)
    } else if same_text(word, "int64") {
        Some(DataType::Int64)
    } else if same_text(word, "json") {
        Some(DataType::Json)
    } else if same_text(word, "text") {
        Some(DataType::Text)
    } else if same_text(word, "timestamp_without_time_zone") {
        Some(DataType::TimestampWithoutTimeZone)
    } else if same_text(word, "timestamp_with_time_zone") {
        Some(DataType::TimestampWithTimeZone)
    } else if same_text(word, "uuid") {
        Some(DataType::Uuid)
    } else {
        None
    }
}

/// An object with one member.
fn tag(key: &str, value: JsonValue) -> (object: JsonValue)
    ensures
        object@ == tagged(key@, value@),
{
    let mut members: Vec<Member> = Vec::new();
    members.push(Member { key: key.to_owned(), value });
    let object = JsonValue::Object(members);
    proof {
        lemma_value_of_parts(object);
        assert(members_model(members@) =~= tagged(key@, value@)->Object_0);
    }
    object
}

/// Writes a data type as JSON.
pub fn data_type_to_json(data_type: &DataType) -> (json: JsonValue)
    ensures
        json@ == data_type_json(data_type@),
    decreases data_type,
{
    match data_type {
        DataType::Array(element) => tag("array", data_type_to_json(&**element)),
        DataType::GeoJson(srid) => tag("geo_json", JsonValue::Number(srid.to_u32() as i64)),
        DataType::Other(name) => tag("other", JsonValue::String(name.clone())),
        plain => JsonValue::String(word_of(plain).to_owned()),
    }
}

/// Reads a data type from JSON.
pub fn data_type_from_json(value: &JsonValue) -> (r: Result<DataType, SchemaJsonError>)
    ensures
        ok_view(r) == data_type_of_json(value@),
    decreases value,
{
    proof {
        lemma_value_of_parts(*value);
    }
    match value {
        JsonValue::String(word) => match type_of_word(word.as_str()) {
            Some(data_type) => Ok(data_type),
            None => Err(SchemaJsonError::UnknownDataType),
        },
        JsonValue::Object(members) => {
            if members.len() != 1 {
                return Err(SchemaJsonError::UnknownDataType);
            }
            let only = &members[0];
            if same_text(only.key.as_str(), "array") {
                match data_type_from_json(&only.value) {
                    Ok(element) => Ok(DataType::Array(Box::new(element))),
                    Err(e) => Err(e),
                }
            } else if same_text(only.key.as_str(), "geo_json") {
                match &only.value {
                    JsonValue::Number(srid) => {
                        if 0 <= *srid && *srid <= 4294967295 {
                            Ok(DataType::GeoJson(Srid::new(*srid as u32)))
                        } else {
                            Err(SchemaJsonError::BadSrid)
                        }
                    },
                    _ => Err(SchemaJsonError::BadSrid),
                }
            } else if same_text(only.key.as_str(), "other") {
                match &only.value {
                    JsonValue::String(name) => Ok(DataType::Other(name.clone())),
                    _ => Err(SchemaJsonError::BadOtherName),
                }
            } else {
                Err(SchemaJsonError::UnknownDataType)
            }
        },
        _ => Err(SchemaJsonError::UnknownDataType),
    }
}

/// Writes a column as JSON.
pub fn column_to_json(column: &Column) -> (json: JsonValue)
    ensures
        json@ == column_json(column@),
{
    let mut members: Vec<Member> = Vec::new();
    members.push(Member { key: "name".to_owned(), value: JsonValue::String(column.name.clone()) });
    members.push(
        Member { key: "data_type".to_owned(), value: data_type_to_json(&column.data_type) },
    );
    members.push(
        Member { key: "is_nullable".to_owned(), value: JsonValue::Bool(column.is_nullable) },
    );
    if let Some(comment) = &column.comment {
        members.push(
            Member { key: "comment".to_owned(), value: JsonValue::String(comment.clone()) },
        );
    }
    let json = JsonValue::Object(members);
    proof {
        lemma_value_of_parts(json);
        assert(members_model(members@) =~= column_json(column@)->Object_0);
    }
    json
}

/// Reads a column from JSON.
pub fn column_from_json(value: &JsonValue) -> (r: Result<Column, SchemaJsonError>)
    ensures
        ok_view(r) == column_of_json(value@),
{
    proof {
        lemma_value_of_parts(*value);
    }
    let members = match value {
        JsonValue::Object(members) => members.as_slice(),
        _ => {
            return Err(SchemaJsonError::ColumnNotObject);
        },
    };
    let name = match find_member(members, "name") {
        Some(JsonValue::String(name)) => name.clone(),
        _ => {
            return Err(SchemaJsonError::BadColumnName);
        },
    };
    let data_type = match find_member(members, "data_type") {
        Some(data_type) => match data_type_from_json(data_type) {
            Ok(data_type) => data_type,
            Err(e) => {
                return Err(e);
            },
        },
        None => {
            return Err(SchemaJsonError::MissingDataType);
        },
    };
    let is_nullable = match find_member(members, "is_nullable") {
        Some(JsonValue::Bool(is_nullable)) => *is_nullable,
        _ => {
            return Err(SchemaJsonError::BadIsNullable);
        },
    };
    let comment = match find_member(members, "comment") {
        None | Some(JsonValue::Null) => None,
        Some(JsonValue::String(comment)) => Some(comment.clone()),
        _ => {
            return Err(SchemaJsonError::BadComment);
        },
    };
    Ok(Column { name, data_type, is_nullable, comment })
}

/// Writes a table as JSON.
pub fn table_to_json(table: &Table) -> (json: JsonValue)
    ensures
        json@ == table_json(table@),
{
    let mut columns: Vec<JsonValue> = Vec::new();
    let mut i: usize = 0;
    while i < table.columns.len()
        invariant
            i <= table.columns.len(),
            columns.len() == i,
            forall|k: int| 0 <= k < i ==> (#[trigger] columns[k])@ == column_json(table.columns[k]@),
        decreases table.columns.len() - i,
    {
        columns.push(column_to_json(&table.columns[i]));
        i += 1;
    }
    let array = JsonValue::Array(columns);
    proof {
        lemma_value_of_parts(array);
        assert(items_model(columns@) =~= Seq::new(
            table@.columns.len(),
            |i: int| column_json(table@.columns[i]),
        ));
    }
    let mut members: Vec<Member> = Vec::new();
    members.push(Member { key: "name".to_owned(), value: JsonValue::String(table.name.clone()) });
    members.push(Member { key: "columns".to_owned(), value: array });
    let json = JsonValue::Object(members);
    proof {
        lemma_value_of_parts(json);
        assert(members_model(members@) =~= table_json(table@)->Object_0);
    }
    json
}

/// Reads a table from JSON.
pub fn table_from_json(value: &JsonValue) -> (r: Result<Table, SchemaJsonError>)
    ensures
        ok_view(r) == table_of_json(value@),
{
    proof {
        lemma_value_of_parts(*value);
    }
    let members = match value {
        JsonValue::Object(members) => members.as_slice(),
        _ => {
            return Err(SchemaJsonError::TableNotObject);
        },
    };
    let name = match find_member(members, "name") {
        Some(JsonValue::String(name)) => name.clone(),
        _ => {
            return Err(SchemaJsonError::BadTableName);
        },
    };
    let array = match find_member(members, "columns") {
        Some(array) => array,
        None => {
            return Err(SchemaJsonError::BadColumns);
        },
    };
    proof {
        lemma_value_of_parts(*array);
    }
    let items = match array {
        JsonValue::Array(items) => items,
        _ => {
            return Err(SchemaJsonError::BadColumns);
        },
    };
    let ghost models = items_model(items@);
    let mut columns: Vec<Column> = Vec::new();
    let mut i: usize = 0;
    while i < items.len()
        invariant
            i <= items.len(),
            models == items_model(items@),
            table_of_json(value@) == table_named(
                name@,
                columns_of_json(models, models.len() as int),
            ),
            columns.len() == i,
            columns_of_json(models, i as int) is Ok,
            columns_of_json(models, i as int)->Ok_0 == Seq::new(
                columns@.len(),
                |k: int| columns@[k]@,
            ),
        decreases items.len() - i,
    {
        let column = match column_from_json(&items[i]) {
            Ok(column) => column,
            Err(e) => {
                proof {
                    lemma_first_bad_column(models, i as int + 1, models.len() as int);
                }
                return Err(e);
            },
        };
        columns.push(column);
        i += 1;
    }
    Ok(Table { name, columns })
}

/// The table named `name` with the columns `columns`, if there are any.
spec fn table_named(name: Seq<char>, columns: Result<Seq<ColumnModel>, SchemaJsonError>) -> Result<
    TableModel,
    SchemaJsonError,
> {
    match columns {
        Ok(columns) => Ok(TableModel { name, columns }),
        Err(e) => Err(e),
    }
}

/// Once an item is not a column, reading more items gives the same error.
proof fn lemma_first_bad_column(items: Seq<JsonModel>, n: int, m: int)
    requires
        0 <= n <= m,
        columns_of_json(items, n) is Err,
    ensures
        columns_of_json(items, m) == columns_of_json(items, n),
    decreases m - n,
{
    if n < m {
        lemma_first_bad_column(items, n, m - 1);
    }
}

/// The words for the plain types differ from one another and from the
/// empty text.
proof fn lemma_plain_words(data_type: DataTypeModel)
    requires
        !(data_type is Array || data_type is GeoJson || data_type is Other),
    ensures
        plain_type(plain_word(data_type)) == Some(data_type),
{
    reveal_strlit("bool");
    reveal_strlit("bytes");
    reveal_strlit("date");
    reveal_strlit("decimal");
    reveal_strlit("float32");
    reveal_strlit("float64");
    reveal_strlit("int16");
    reveal_strlit("int32");
    reveal_strlit("int64");
    reveal_strlit("json");
    reveal_strlit("text");
    reveal_strlit("timestamp_without_time_zone");
    reveal_strlit("timestamp_with_time_zone");
    reveal_strlit("uuid");
    assert("bool"@.len() == 4 && "bool"@[0] == 'b');
    assert("bytes"@.len() == 5 && "bytes"@[0] == 'b');
    assert("date"@.len() == 4 && "date"@[0] == 'd');
    assert("decimal"@.len() == 7 && "decimal"@[0] == 'd');
    assert("float32"@.len() == 7 && "float32"@[0] == 'f' && "float32"@[5] == '3');
    assert("float64"@.len() == 7 && "float64"@[0] == 'f' && "float64"@[5] == '6');
    assert("int16"@.len() == 5 && "int16"@[0] == 'i' && "int16"@[3] == '1');
    assert("int32"@.len() == 5 && "int32"@[0] == 'i' && "int32"@[3] == '3');
    assert("int64"@.len() == 5 && "int64"@[0] == 'i' && "int64"@[3] == '6');
    assert("json"@.len() == 4 && "json"@[0] == 'j');
    assert("text"@.len() == 4 && "text"@[0] == 't');
    assert("timestamp_without_time_zone"@.len() == 27);
    assert("timestamp_with_time_zone"@.len() == 24);
}

/// The keys of the format differ from one another.
proof fn lemma_keys()
    ensures
        "array"@ != "geo_json"@,
        "array"@ != "other"@,
        "geo_json"@ != "other"@,
        "name"@ != "data_type"@,
        "name"@ != "is_nullable"@,
        "name"@ != "comment"@,
        "name"@ != "columns"@,
        "data_type"@ != "is_nullable"@,
        "data_type"@ != "comment"@,
        "is_nullable"@ != "comment"@,
{
    reveal_strlit("array");
    reveal_strlit("geo_json");
    reveal_strlit("other");
    reveal_strlit("name");
    reveal_strlit("data_type");
    reveal_strlit("is_nullable");
    reveal_strlit("comment");
    reveal_strlit("columns");
    assert("array"@[0] == 'a' && "other"@[0] == 'o');
    assert("name"@.len() == 4 && "data_type"@.len() == 9 && "is_nullable"@.len() == 11);
}

/// A data type that is written as JSON and read back is the same data
/// type.
pub proof fn lemma_data_type_json_round_trip(data_type: DataTypeModel)
    ensures
        data_type_of_json(data_type_json(data_type)) == Ok::<DataTypeModel, SchemaJsonError>(
            data_type,
        ),
    decreases data_type,
{
    lemma_keys();
    match data_type {
        DataTypeModel::Array(element) => {
            lemma_data_type_json_round_trip(*element);
        },
        DataTypeModel::GeoJson(srid) => {},
        DataTypeModel::Other(name) => {},
        plain => {
            lemma_plain_words(plain);
        },
    }
}

/// A column that is written as JSON and read back is the same column.
pub proof fn lemma_column_json_round_trip(column: ColumnModel)
    ensures
        column_of_json(column_json(column)) == Ok::<ColumnModel, SchemaJsonError>(column),
{
    lemma_keys();
    lemma_data_type_json_round_trip(column.data_type);
    reveal_with_fuel(member_from, 5);
}

/// The columns that are written as JSON and read back are the same
/// columns, in the same order.
proof fn lemma_columns_json_round_trip(columns: Seq<ColumnModel>, n: int)
    requires
        0 <= n <= columns.len(),
    ensures
        columns_of_json(Seq::new(columns.len(), |i: int| column_json(columns[i])), n) == Ok::<
            Seq<ColumnModel>,
            SchemaJsonError,
        >(columns.subrange(0, n)),
    decreases n,
{
    if n > 0 {
        lemma_columns_json_round_trip(columns, n - 1);
        lemma_column_json_round_trip(columns[n - 1]);
        assert(columns.subrange(0, n - 1).push(columns[n - 1]) =~= columns.subrange(0, n));
    } else {
        assert(columns.subrange(0, 0) =~= Seq::empty());
    }
}

/// A table that is written as JSON and read back is the same table, with
/// its columns in the same order.
pub proof fn lemma_table_json_round_trip(table: TableModel)
    ensures
        table_of_json(table_json(table)) == Ok::<TableModel, SchemaJsonError>(table),
{
    lemma_keys();
    reveal_with_fuel(member_from, 3);
    lemma_columns_json_round_trip(table.columns, table.columns.len() as int);
    assert(table.columns.subrange(0, table.columns.len() as int) =~= table.columns);
}

/// Do no two of `members` have the same key?
pub open spec fn keys_differ(members: Seq<MemberModel>) -> bool {
    forall|i: int, j: int|
        0 <= i < j < members.len() ==> (#[trigger] members[i]).key != (#[trigger] members[j]).key
}

/// Are `a` and `b` the same JSON value, but for the order in which their
/// objects list their members? Two objects are the same in this sense if
/// neither has two members with one key, and each member of either has a
/// counterpart in the other with the same key and, in this sense, the same
/// value. The items of arrays correspond in order.
pub open spec fn same_but_for_member_order(a: JsonModel, b: JsonModel) -> bool
    decreases a,
{
    match (a, b) {
        (JsonModel::Array(xs), JsonModel::Array(ys)) => {
            &&& xs.len() == ys.len()
            &&& forall|i: int|
                0 <= i < xs.len() ==> same_but_for_member_order(#[trigger] xs[i], ys[i])
        },
        (JsonModel::Object(xs), JsonModel::Object(ys)) => {
            &&& keys_differ(xs)
            &&& keys_differ(ys)
            &&& forall|i: int|
                0 <= i < xs.len() ==> exists|j: int|
                    0 <= j < ys.len() && (#[trigger] ys[j]).key == (#[trigger] xs[i]).key
                        && same_but_for_member_order(xs[i].value, ys[j].value)
            &&& forall|j: int|
                0 <= j < ys.len() ==> exists|i: int|
                    0 <= i < xs.len() && (#[trigger] xs[i]).key == (#[trigger] ys[j]).key
        },
        (JsonModel::Array(_), _) => false,
        (JsonModel::Object(_), _) => false,
        (_, _) => a == b,
    }
}

/// Where no two members have the same key, a member is found by its key.
proof fn lemma_member_present(members: Seq<MemberModel>, at: int, from: int)
    requires
        keys_differ(members),
        0 <= from <= at < members.len(),
    ensures
        member_from(members, members[at].key, from) == Some(members[at].value),
    decreases at - from,
{
    if from < at {
        lemma_member_present(members, at, from + 1);
    }
}

/// Are `a` and `b` both absent, or both present and the same but for the
/// order of members?
pub open spec fn same_if_present(a: Option<JsonModel>, b: Option<JsonModel>) -> bool {
    match (a, b) {
        (None, None) => true,
        (Some(a), Some(b)) => same_but_for_member_order(a, b),
        _ => false,
    }
}

/// Two objects that are the same but for the order of their members have
/// the same value for every key.
pub proof fn lemma_member_order(xs: Seq<MemberModel>, ys: Seq<MemberModel>, key: Seq<char>)
    requires
        same_but_for_member_order(JsonModel::Object(xs), JsonModel::Object(ys)),
    ensures
        same_if_present(member(xs, key), member(ys, key)),
{
    if member(xs, key) is Some {
        let i = lemma_member_found(xs, key, 0);
        let j = choose|j: int|
            0 <= j < ys.len() && (#[trigger] ys[j]).key == xs[i].key && same_but_for_member_order(
                xs[i].value,
                ys[j].value,
            );
        lemma_member_present(ys, j, 0);
    } else {
        if member(ys, key) is Some {
            let j = lemma_member_found(ys, key, 0);
            let i = choose|i: int| 0 <= i < xs.len() && (#[trigger] xs[i]).key == ys[j].key;
            lemma_member_present(xs, i, 0);
        }
    }
}

/// The data type that a JSON value stands for does not depend on the order
/// in which objects list their members.
pub proof fn lemma_data_type_ignores_member_order(a: JsonModel, b: JsonModel)
    requires
        same_but_for_member_order(a, b),
    ensures
        data_type_of_json(a) == data_type_of_json(b),
    decreases a,
{
    match (a, b) {
        (JsonModel::Object(xs), JsonModel::Object(ys)) => {
            if xs.len() == 1 {
                let j = choose|j: int|
                    0 <= j < ys.len() && (#[trigger] ys[j]).key == xs[0].key
                        && same_but_for_member_order(xs[0].value, ys[j].value);
                if ys.len() > 1 {
                    let other = if j == 0 {
                        1
                    } else {
                        0
                    };
                    let i = choose|i: int|
                        0 <= i < xs.len() && (#[trigger] xs[i]).key == ys[other].key;
                }
                lemma_data_type_ignores_member_order(xs[0].value, ys[0].value);
            } else if ys.len() == 1 {
                let i = choose|i: int| 0 <= i < xs.len() && (#[trigger] xs[i]).key == ys[0].key;
                if xs.len() > 1 {
                    let other = if i == 0 {
                        1
                    } else {
                        0
                    };
                    let j = choose|j: int|
                        0 <= j < ys.len() && (#[trigger] ys[j]).key == xs[other].key
                            && same_but_for_member_order(xs[other].value, ys[j].value);
                }
            }
        },
        _ => {},
    }
}

/// The column that a JSON value stands for does not depend on the order in
/// which objects list their members.
pub proof fn lemma_column_ignores_member_order(a: JsonModel, b: JsonModel)
    requires
        same_but_for_member_order(a, b),
    ensures
        column_of_json(a) == column_of_json(b),
{
    match (a, b) {
        (JsonModel::Object(xs), JsonModel::Object(ys)) => {
            lemma_member_order(xs, ys, "name"@);
            lemma_member_order(xs, ys, "data_type"@);
            lemma_member_order(xs, ys, "is_nullable"@);
            lemma_member_order(xs, ys, "comment"@);
            if member(xs, "data_type"@) is Some {
                lemma_data_type_ignores_member_order(
                    member(xs, "data_type"@)->Some_0,
                    member(ys, "data_type"@)->Some_0,
                );
            }
        },
        _ => {},
    }
}

/// The columns that the items of an array stand for do not depend on the
/// order in which objects list their members.
proof fn lemma_columns_ignore_member_order(xs: Seq<JsonModel>, ys: Seq<JsonModel>, n: int)
    requires
        same_but_for_member_order(JsonModel::Array(xs), JsonModel::Array(ys)),
        0 <= n <= xs.len(),
    ensures
        columns_of_json(xs, n) == columns_of_json(ys, n),
    decreases n,
{
    if n > 0 {
        lemma_columns_ignore_member_order(xs, ys, n - 1);
        lemma_column_ignores_member_order(xs[n - 1], ys[n - 1]);
    }
}

/// The table that a JSON value stands for does not depend on the order in
/// which objects list their members: two values that differ in nothing
/// else stand for the same table, or are rejected for the same reason.
pub proof fn lemma_table_ignores_member_order(a: JsonModel, b: JsonModel)
    requires
        same_but_for_member_order(a, b),
    ensures
        table_of_json(a) == table_of_json(b),
{
    match (a, b) {
        (JsonModel::Object(xs), JsonModel::Object(ys)) => {
            lemma_member_order(xs, ys, "name"@);
            lemma_member_order(xs, ys, "columns"@);
            match (member(xs, "columns"@), member(ys, "columns"@)) {
                (Some(JsonModel::Array(items)), Some(JsonModel::Array(others))) => {
                    lemma_columns_ignore_member_order(items, others, items.len() as int);
                },
                _ => {},
            }
        },
        _ => {},
    }
}

/// The columns of the table that a JSON value stands for are what the
/// items of its `columns` stand for, one by one and in their order.
pub proof fn lemma_columns_keep_their_order(items: Seq<JsonModel>, n: int)
    requires
        0 <= n <= items.len(),
        columns_of_json(items, n) is Ok,
    ensures
        columns_of_json(items, n)->Ok_0.len() == n,
        forall|i: int|
            0 <= i < n ==> column_of_json(items[i]) == Ok::<ColumnModel, SchemaJsonError>(
                #[trigger] columns_of_json(items, n)->Ok_0[i],
            ),
    decreases n,
{
    if n > 0 {
        lemma_columns_keep_their_order(items, n - 1);
    }
}

} // verus!
