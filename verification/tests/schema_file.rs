use dbcrossbarlib::drivers::bigquery_shared::column::{
    schema_for_table, table_for_schema, BqColumn, Mode, TableError,
};
use dbcrossbarlib::drivers::bigquery_shared::column_name::ColumnName;
use dbcrossbarlib::drivers::bigquery_shared::data_type::{
    BqDataType, BqNonArrayDataType, BqRecordOrNonArrayDataType, BqStructField, Usage,
};
use dbcrossbarlib::drivers::bigquery_shared::schema_file::{
    column_from_json, column_to_json, schema_from_json, schema_to_json, SchemaFileError,
};
use dbcrossbarlib::error::{Expected, ParseError, ParseErrorKind, Unsupported};
use dbcrossbarlib::json::{JsonValue, Member};
use dbcrossbarlib::schema::{Column, DataType, Srid, Table};

fn text(s: &str) -> JsonValue {
    JsonValue::String(s.to_owned())
}

fn object(members: Vec<(&str, JsonValue)>) -> JsonValue {
    JsonValue::Object(
        members
            .into_iter()
            .map(|(key, value)| Member {
                key: key.to_owned(),
                value,
            })
            .collect(),
    )
}

fn column(name: &str, ty: BqRecordOrNonArrayDataType, mode: Mode, fields: Vec<BqColumn>) -> BqColumn {
    BqColumn {
        description: None,
        name: ColumnName::try_from(name).unwrap(),
        ty,
        fields,
        mode,
    }
}

fn scalar(name: &str, ty: BqNonArrayDataType, mode: Mode) -> BqColumn {
    column(name, BqRecordOrNonArrayDataType::DataType(ty), mode, vec![])
}

fn portable(name: &str, data_type: DataType, is_nullable: bool) -> Column {
    Column {
        name: name.to_owned(),
        data_type,
        is_nullable,
        comment: None,
    }
}

fn example() -> Vec<BqColumn> {
    let mut described = scalar("id", BqNonArrayDataType::Int64, Mode::Required);
    described.description = Some("the key".to_owned());
    vec![
        described,
        column(
            "points",
            BqRecordOrNonArrayDataType::Record,
            Mode::Repeated,
            vec![
                scalar("x", BqNonArrayDataType::Float64, Mode::Nullable),
                scalar("y", BqNonArrayDataType::Float64, Mode::Nullable),
            ],
        ),
        scalar(
            "pair",
            BqNonArrayDataType::Struct(vec![BqStructField {
                name: None,
                ty: BqDataType::Array(BqNonArrayDataType::Int64),
            }]),
            Mode::Repeated,
        ),
    ]
}

#[test]
fn a_schema_file_lists_columns_as_objects() {
    let json = schema_to_json(&example());
    let expected = JsonValue::Array(vec![
        object(vec![
            ("name", text("id")),
            ("type", text("INT64")),
            ("mode", text("REQUIRED")),
            ("description", text("the key")),
        ]),
        object(vec![
            ("name", text("points")),
            ("type", text("RECORD")),
            ("mode", text("REPEATED")),
            (
                "fields",
                JsonValue::Array(vec![
                    object(vec![
                        ("name", text("x")),
                        ("type", text("FLOAT64")),
                        ("mode", text("NULLABLE")),
                    ]),
                    object(vec![
                        ("name", text("y")),
                        ("type", text("FLOAT64")),
                        ("mode", text("NULLABLE")),
                    ]),
                ]),
            ),
        ]),
        object(vec![
            ("name", text("pair")),
            ("type", text("STRUCT<ARRAY<INT64>>")),
            ("mode", text("REPEATED")),
        ]),
    ]);
    assert_eq!(json, expected);
}

#[test]
fn a_schema_file_written_and_read_back_is_the_same() {
    let columns = example();
    assert_eq!(schema_from_json(&schema_to_json(&columns)), Ok(columns));
    assert_eq!(schema_from_json(&schema_to_json(&vec![])), Ok(vec![]));
    for column in example() {
        assert_eq!(
            column_from_json(&column_to_json(&column)).as_ref(),
            Ok(&column)
        );
    }
}

#[test]
fn a_column_without_a_mode_is_nullable() {
    let json = object(vec![
        ("type", text(" STRUCT< x INT64 > ")),
        ("name", text("s")),
        ("description", JsonValue::Null),
        ("policyTags", object(vec![])),
    ]);
    assert_eq!(
        column_from_json(&json),
        Ok(scalar(
            "s",
            BqNonArrayDataType::Struct(vec![BqStructField {
                name: Some(ColumnName::try_from("x").unwrap()),
                ty: BqDataType::NonArray(BqNonArrayDataType::Int64),
            }]),
            Mode::Nullable
        ))
    );
}

#[test]
fn what_is_wrong_with_a_schema_file_is_named() {
    let read = |members: Vec<(&str, JsonValue)>| column_from_json(&object(members));
    assert_eq!(schema_from_json(&object(vec![])), Err(SchemaFileError::NotArray));
    assert_eq!(
        schema_from_json(&JsonValue::Array(vec![JsonValue::Null])),
        Err(SchemaFileError::ColumnNotObject)
    );
    assert_eq!(
        read(vec![("description", JsonValue::Number(1))]),
        Err(SchemaFileError::BadDescription)
    );
    assert_eq!(read(vec![]), Err(SchemaFileError::BadName));
    assert_eq!(read(vec![("name", text("1st"))]), Err(SchemaFileError::BadName));
    assert_eq!(read(vec![("name", JsonValue::Null)]), Err(SchemaFileError::BadName));
    assert_eq!(read(vec![("name", text("a"))]), Err(SchemaFileError::BadType));
    assert_eq!(
        read(vec![("name", text("a")), ("type", text("ARRAY<INT64>"))]),
        Err(SchemaFileError::TypeSyntax(ParseError {
            kind: ParseErrorKind::Syntax,
            position: 0,
            expected: Expected::DataType,
        }))
    );
    assert_eq!(
        read(vec![("name", text("a")), ("type", text("STRUCT<INT64"))]),
        Err(SchemaFileError::TypeSyntax(ParseError {
            kind: ParseErrorKind::Syntax,
            position: 12,
            expected: Expected::CommaOrRightAngle,
        }))
    );
    assert_eq!(
        read(vec![
            ("name", text("a")),
            ("type", text("RECORD")),
            ("fields", text("x")),
        ]),
        Err(SchemaFileError::BadFields)
    );
    assert_eq!(
        read(vec![
            ("name", text("a")),
            ("type", text("RECORD")),
            ("fields", JsonValue::Array(vec![object(vec![("name", text("x"))])])),
        ]),
        Err(SchemaFileError::BadType)
    );
    assert_eq!(
        read(vec![
            ("name", text("a")),
            ("type", text("INT64")),
            ("mode", text("nullable")),
        ]),
        Err(SchemaFileError::BadMode)
    );
    assert_eq!(
        read(vec![
            ("name", text("a")),
            ("type", text("INT64")),
            ("mode", JsonValue::Bool(true)),
        ]),
        Err(SchemaFileError::BadMode)
    );
}

#[test]
fn a_table_becomes_a_schema_file_with_geography_and_repeated() {
    let table = Table {
        name: "places".to_owned(),
        columns: vec![
            portable("id", DataType::Int32, false),
            portable("geom", DataType::GeoJson(Srid::wgs84()), true),
            portable("tags", DataType::Array(Box::new(DataType::Text)), true),
        ],
    };
    let columns = schema_for_table(&table, Usage::FinalTable).unwrap();
    assert_eq!(
        columns,
        vec![
            scalar("id", BqNonArrayDataType::Int64, Mode::Required),
            scalar("geom", BqNonArrayDataType::Geography, Mode::Nullable),
            scalar("tags", BqNonArrayDataType::String, Mode::Repeated),
        ]
    );
    let json = schema_to_json(&columns);
    match &json {
        JsonValue::Array(items) => {
            assert_eq!(items.len(), 3);
            assert_eq!(
                items[1],
                object(vec![
                    ("name", text("geom")),
                    ("type", text("GEOGRAPHY")),
                    ("mode", text("NULLABLE")),
                ])
            );
            assert_eq!(
                items[2],
                object(vec![
                    ("name", text("tags")),
                    ("type", text("STRING")),
                    ("mode", text("REPEATED")),
                ])
            );
        }
        other => panic!("not an array: {:?}", other),
    }
    let csv = schema_for_table(&table, Usage::CsvLoad).unwrap();
    assert_eq!(csv[2], scalar("tags", BqNonArrayDataType::String, Mode::Nullable));
}

#[test]
fn the_first_column_without_a_counterpart_is_named() {
    let table = |columns: Vec<Column>| Table {
        name: "t".to_owned(),
        columns,
    };
    assert_eq!(
        schema_for_table(
            &table(vec![
                portable("ok", DataType::Text, true),
                portable("first name", DataType::Text, true),
                portable("docs", DataType::Array(Box::new(DataType::Json)), true),
            ]),
            Usage::FinalTable
        ),
        Err(TableError::InvalidName { column: 1 })
    );
    assert_eq!(
        schema_for_table(
            &table(vec![
                portable("ok", DataType::Text, true),
                portable("docs", DataType::Array(Box::new(DataType::Json)), true),
                portable("first name", DataType::Text, true),
            ]),
            Usage::FinalTable
        ),
        Err(TableError::Unsupported {
            column: 1,
            reason: Unsupported::ArrayOfJson
        })
    );
    assert_eq!(schema_for_table(&table(vec![]), Usage::FinalTable), Ok(vec![]));
}

#[test]
fn a_schema_file_becomes_a_table() {
    let table = table_for_schema("dataset.points", &example()).unwrap();
    assert_eq!(
        table,
        Table {
            name: "dataset.points".to_owned(),
            columns: vec![
                Column {
                    name: "id".to_owned(),
                    data_type: DataType::Int64,
                    is_nullable: false,
                    comment: Some("the key".to_owned()),
                },
                portable("points", DataType::Json, true),
                portable("pair", DataType::Json, true),
            ],
        }
    );
    let with_bytes = vec![
        scalar("a", BqNonArrayDataType::Bool, Mode::Nullable),
        scalar("b", BqNonArrayDataType::Time, Mode::Nullable),
        scalar("c", BqNonArrayDataType::Bytes, Mode::Nullable),
    ];
    assert_eq!(
        table_for_schema("t", &with_bytes),
        Err(TableError::NoPortableType { column: 1 })
    );
}
