use dbcrossbarlib::drivers::bigquery_shared::column_name::ColumnName;
use dbcrossbarlib::drivers::bigquery_shared::data_type::{
    BqDataType, BqDataType as DT, BqNonArrayDataType as NADT, BqRecordOrNonArrayDataType,
    BqStructField, Usage,
};
use dbcrossbarlib::drivers::bigquery_shared::grammar;
use dbcrossbarlib::error::{Expected, ParseError, ParseErrorKind, Unsupported};
use dbcrossbarlib::schema::{DataType, Srid};

#[test]
fn nested_arrays() {
    let input = DataType::Array(Box::new(DataType::Array(Box::new(DataType::Array(
        Box::new(DataType::Int32),
    )))));

    // What we expect when loading from a CSV file.
    let bq = BqDataType::for_data_type(&input, Usage::CsvLoad).unwrap();
    assert_eq!(bq.to_string(), "STRING");

    // What we expect in the final BigQuery table.
    let bq = BqDataType::for_data_type(&input, Usage::FinalTable).unwrap();
    assert_eq!(
        bq.to_string(),
        "ARRAY<STRUCT<ARRAY<STRUCT<ARRAY<INT64>>>>>"
    );
}

#[test]
fn parsing() {
    let examples = [
        ("BOOL", DT::NonArray(NADT::Bool)),
        // Not documented, but it exists.
        ("BOOLEAN", DT::NonArray(NADT::Bool)),
        ("BYTES", DT::NonArray(NADT::Bytes)),
        ("DATE", DT::NonArray(NADT::Date)),
        ("DATETIME", DT::NonArray(NADT::Datetime)),
        ("FLOAT64", DT::NonArray(NADT::Float64)),
        ("GEOGRAPHY", DT::NonArray(NADT::Geography)),
        ("INT64", DT::NonArray(NADT::Int64)),
        ("NUMERIC", DT::NonArray(NADT::Numeric)),
        ("STRING", DT::NonArray(NADT::String)),
        ("TIME", DT::NonArray(NADT::Time)),
        ("TIMESTAMP", DT::NonArray(NADT::Timestamp)),
        ("ARRAY<STRING>", DT::Array(NADT::String)),
        (
            "STRUCT<FLOAT64, FLOAT64>",
            DT::NonArray(NADT::Struct(vec![
                BqStructField {
                    name: None,
                    ty: DT::NonArray(NADT::Float64),
                },
                BqStructField {
                    name: None,
                    ty: DT::NonArray(NADT::Float64),
                },
            ])),
        ),
        (
            "STRUCT<x FLOAT64, y FLOAT64>",
            DT::NonArray(NADT::Struct(vec![
                BqStructField {
                    name: Some(ColumnName::try_from("x").unwrap()),
                    ty: DT::NonArray(NADT::Float64),
                },
                BqStructField {
                    name: Some(ColumnName::try_from("y").unwrap()),
                    ty: DT::NonArray(NADT::Float64),
                },
            ])),
        ),
        (
            "ARRAY<STRUCT<ARRAY<INT64>>>",
            DT::Array(NADT::Struct(vec![BqStructField {
                name: None,
                ty: DT::Array(NADT::Int64),
            }])),
        ),
    ];
    for (input, expected) in &examples {
        let quoted = format!("\"{}\"", input);
        let raw: String = serde_json::from_str(&quoted).unwrap();
        let parsed: BqDataType = grammar::data_type(&raw).unwrap();
        assert_eq!(&parsed, expected);
    }
}

fn array_of(element: DataType) -> DataType {
    DataType::Array(Box::new(element))
}

fn named(name: &str, ty: BqDataType) -> BqStructField {
    BqStructField {
        name: Some(ColumnName::try_from(name).unwrap()),
        ty,
    }
}

fn unnamed(ty: BqDataType) -> BqStructField {
    BqStructField { name: None, ty }
}

#[test]
fn scalars_map_to_their_bigquery_types_in_both_roles() {
    let cases = vec![
        (DataType::Bool, NADT::Bool),
        (DataType::Bytes, NADT::Bytes),
        (DataType::Date, NADT::Date),
        (DataType::Decimal, NADT::Numeric),
        (DataType::Float32, NADT::Float64),
        (DataType::Float64, NADT::Float64),
        (DataType::GeoJson(Srid::wgs84()), NADT::Geography),
        (DataType::GeoJson(Srid::new(3857)), NADT::String),
        (DataType::Int16, NADT::Int64),
        (DataType::Int32, NADT::Int64),
        (DataType::Int64, NADT::Int64),
        (DataType::Json, NADT::String),
        (DataType::Other("citext".to_owned()), NADT::String),
        (DataType::Text, NADT::String),
        (DataType::TimestampWithoutTimeZone, NADT::Datetime),
        (DataType::TimestampWithTimeZone, NADT::Timestamp),
        (DataType::Uuid, NADT::String),
    ];
    for (portable, native) in cases {
        for usage in [Usage::CsvLoad, Usage::FinalTable] {
            assert_eq!(
                BqDataType::for_data_type(&portable, usage),
                Ok(DT::NonArray(native.clone()))
            );
            assert_eq!(
                NADT::for_data_type(&portable, usage),
                Ok(native.clone())
            );
        }
    }
}

#[test]
fn top_level_array_is_string_in_csv_load() {
    for element in [
        DataType::Int32,
        DataType::Json,
        DataType::Text,
        array_of(DataType::Bool),
    ] {
        assert_eq!(
            BqDataType::for_data_type(&array_of(element), Usage::CsvLoad),
            Ok(DT::NonArray(NADT::String))
        );
    }
}

#[test]
fn array_in_final_table_is_array_of_the_element() {
    assert_eq!(
        BqDataType::for_data_type(&array_of(DataType::Text), Usage::FinalTable),
        Ok(DT::Array(NADT::String))
    );
    assert_eq!(
        BqDataType::for_data_type(&array_of(DataType::Int16), Usage::FinalTable),
        Ok(DT::Array(NADT::Int64))
    );
}

#[test]
fn nested_array_in_final_table_is_wrapped_in_a_struct() {
    assert_eq!(
        BqDataType::for_data_type(&array_of(array_of(DataType::Date)), Usage::FinalTable),
        Ok(DT::Array(NADT::Struct(vec![unnamed(DT::Array(NADT::Date))])))
    );
    assert_eq!(
        NADT::for_data_type(&array_of(DataType::Date), Usage::FinalTable),
        Ok(NADT::Struct(vec![unnamed(DT::Array(NADT::Date))]))
    );
}

#[test]
fn nested_array_in_csv_load_is_an_error() {
    assert_eq!(
        NADT::for_data_type(&array_of(DataType::Date), Usage::CsvLoad),
        Err(Unsupported::NestedArrayInCsv)
    );
}

#[test]
fn array_of_json_is_unsupported_in_final_table_only() {
    let input = array_of(DataType::Json);
    assert_eq!(
        BqDataType::for_data_type(&input, Usage::FinalTable),
        Err(Unsupported::ArrayOfJson)
    );
    assert_eq!(
        BqDataType::for_data_type(&input, Usage::CsvLoad),
        Ok(DT::NonArray(NADT::String))
    );
    // Below the top level, JSON is an ordinary string.
    assert_eq!(
        BqDataType::for_data_type(&array_of(array_of(DataType::Json)), Usage::FinalTable),
        Ok(DT::Array(NADT::Struct(vec![unnamed(DT::Array(NADT::String))])))
    );
}

#[test]
fn bigquery_types_map_back_to_portable_types() {
    let cases = vec![
        (NADT::Bool, DataType::Bool),
        (NADT::Date, DataType::Date),
        (NADT::Numeric, DataType::Decimal),
        (NADT::Float64, DataType::Float64),
        (NADT::Geography, DataType::GeoJson(Srid::wgs84())),
        (NADT::Int64, DataType::Int64),
        (NADT::String, DataType::Text),
        (NADT::Datetime, DataType::TimestampWithoutTimeZone),
        (NADT::Timestamp, DataType::TimestampWithTimeZone),
        (
            NADT::Struct(vec![named("x", DT::NonArray(NADT::Int64))]),
            DataType::Json,
        ),
    ];
    for (native, portable) in cases {
        assert_eq!(native.to_data_type().as_ref(), Ok(&portable));
        assert_eq!(DT::NonArray(native.clone()).to_data_type().as_ref(), Ok(&portable));
    }
}

#[test]
fn bytes_and_time_have_no_portable_type() {
    let expected = ParseError {
        kind: ParseErrorKind::Unsupported,
        position: 0,
        expected: Expected::PortableType,
    };
    for native in [NADT::Bytes, NADT::Time] {
        assert_eq!(native.to_data_type(), Err(expected));
        assert_eq!(DT::NonArray(native.clone()).to_data_type(), Err(expected));
        assert_eq!(DT::Array(native.clone()).to_data_type(), Err(expected));
    }
}

#[test]
fn array_of_structs_collapses_to_json() {
    let structs = DT::Array(NADT::Struct(vec![named("x", DT::NonArray(NADT::Bytes))]));
    assert_eq!(structs.to_data_type(), Ok(DataType::Json));
    assert_eq!(
        DT::Array(NADT::Int64).to_data_type(),
        Ok(array_of(DataType::Int64))
    );
}

#[test]
fn final_table_round_trip_keeps_the_types_bigquery_holds_as_they_are() {
    let kept = vec![
        DataType::Bool,
        DataType::Date,
        DataType::Decimal,
        DataType::Float64,
        DataType::GeoJson(Srid::wgs84()),
        DataType::Int64,
        DataType::Text,
        DataType::TimestampWithoutTimeZone,
        DataType::TimestampWithTimeZone,
    ];
    for portable in kept {
        let native = BqDataType::for_data_type(&portable, Usage::FinalTable).unwrap();
        assert_eq!(native.to_data_type().as_ref(), Ok(&portable));
        let array = array_of(portable.clone());
        let native = BqDataType::for_data_type(&array, Usage::FinalTable).unwrap();
        assert_eq!(native.to_data_type().as_ref(), Ok(&array));
    }
    let coerced = vec![
        (DataType::Uuid, DataType::Text),
        (DataType::Int32, DataType::Int64),
        (DataType::Float32, DataType::Float64),
        (DataType::Json, DataType::Text),
        (DataType::Other("inet".to_owned()), DataType::Text),
        (DataType::GeoJson(Srid::new(3857)), DataType::Text),
        (array_of(array_of(DataType::Int64)), DataType::Json),
    ];
    for (portable, back) in coerced {
        let native = BqDataType::for_data_type(&portable, Usage::FinalTable).unwrap();
        assert_eq!(native.to_data_type(), Ok(back));
    }
}

#[test]
fn every_type_but_an_array_can_be_imported_from_csv() {
    assert!(!DT::Array(NADT::Int64).bigquery_can_import_from_csv());
    assert!(DT::NonArray(NADT::Int64).bigquery_can_import_from_csv());
    assert!(DT::NonArray(NADT::Struct(vec![unnamed(DT::Array(NADT::Int64))]))
        .bigquery_can_import_from_csv());
    assert_eq!(array_of(DataType::Text).bigquery_can_import_from_csv(), Ok(false));
    assert_eq!(
        array_of(array_of(DataType::Text)).bigquery_can_import_from_csv(),
        Ok(false)
    );
    assert_eq!(DataType::Text.bigquery_can_import_from_csv(), Ok(true));
    assert_eq!(DataType::Json.bigquery_can_import_from_csv(), Ok(true));
    assert_eq!(
        array_of(DataType::Json).bigquery_can_import_from_csv(),
        Err(Unsupported::ArrayOfJson)
    );
}

#[test]
fn json_safety_needs_names_that_differ() {
    let int = || DT::NonArray(NADT::Int64);
    assert!(NADT::Int64.is_json_safe());
    assert!(DT::Array(NADT::Bytes).is_json_safe());
    assert!(NADT::Struct(vec![]).is_json_safe());
    assert!(NADT::Struct(vec![named("x", int()), named("y", int())]).is_json_safe());
    // A field without a name.
    assert!(!NADT::Struct(vec![named("x", int()), unnamed(int())]).is_json_safe());
    // Two fields with one name.
    assert!(!NADT::Struct(vec![named("x", int()), named("y", int()), named("x", int())])
        .is_json_safe());
    // Names are compared letter for letter.
    assert!(NADT::Struct(vec![named("x", int()), named("X", int())]).is_json_safe());
    // A child that is not safe.
    let unsafe_child = DT::Array(NADT::Struct(vec![unnamed(int())]));
    assert!(!NADT::Struct(vec![named("x", unsafe_child.clone())]).is_json_safe());
    assert!(!unsafe_child.is_json_safe());
    let safe_child = DT::NonArray(NADT::Struct(vec![named("x", int())]));
    assert!(DT::NonArray(NADT::Struct(vec![named("outer", safe_child)])).is_json_safe());
}

#[test]
fn struct_with_named_fields_parses_to_two_float_fields() {
    let parsed = grammar::data_type("STRUCT<x FLOAT64, y FLOAT64>").unwrap();
    match parsed {
        DT::NonArray(NADT::Struct(fields)) => {
            assert_eq!(fields.len(), 2);
            assert_eq!(fields[0].name.as_ref().unwrap().as_str(), "x");
            assert_eq!(fields[1].name.as_ref().unwrap().as_str(), "y");
            assert_eq!(fields[0].ty, DT::NonArray(NADT::Float64));
            assert_eq!(fields[1].ty, DT::NonArray(NADT::Float64));
        }
        other => panic!("not a struct: {:?}", other),
    }
}

#[test]
fn printing_uses_no_optional_white_space() {
    let ty = DT::Array(NADT::Struct(vec![
        named("x", DT::NonArray(NADT::Float64)),
        unnamed(DT::Array(NADT::Struct(vec![]))),
        named("ARRAY", DT::NonArray(NADT::Timestamp)),
    ]));
    assert_eq!(
        ty.to_string(),
        "ARRAY<STRUCT<x FLOAT64,ARRAY<STRUCT<>>,ARRAY TIMESTAMP>>"
    );
    assert_eq!(named("x", DT::NonArray(NADT::Bool)).to_string(), "x BOOL");
    assert_eq!(unnamed(DT::NonArray(NADT::Bool)).to_string(), "BOOL");
    assert_eq!(NADT::Geography.to_string(), "GEOGRAPHY");
    assert_eq!(BqRecordOrNonArrayDataType::Record.to_string(), "RECORD");
    assert_eq!(
        BqRecordOrNonArrayDataType::DataType(NADT::Numeric).to_string(),
        "NUMERIC"
    );
}

#[test]
fn every_scalar_prints_as_its_keyword() {
    let cases = vec![
        (NADT::Bool, "BOOL"),
        (NADT::Bytes, "BYTES"),
        (NADT::Date, "DATE"),
        (NADT::Datetime, "DATETIME"),
        (NADT::Float64, "FLOAT64"),
        (NADT::Geography, "GEOGRAPHY"),
        (NADT::Int64, "INT64"),
        (NADT::Numeric, "NUMERIC"),
        (NADT::String, "STRING"),
        (NADT::Time, "TIME"),
        (NADT::Timestamp, "TIMESTAMP"),
    ];
    for (ty, text) in cases {
        assert_eq!(ty.to_string(), text);
        assert_eq!(grammar::non_array_data_type(text), Ok(ty));
    }
}

#[test]
fn what_is_printed_parses_back() {
    let types = vec![
        DT::NonArray(NADT::Int64),
        DT::Array(NADT::String),
        DT::NonArray(NADT::Struct(vec![])),
        DT::Array(NADT::Struct(vec![
            named("x", DT::NonArray(NADT::Float64)),
            unnamed(DT::Array(NADT::Struct(vec![named("STRUCT", DT::Array(NADT::Time))]))),
            named("ARRAY", DT::NonArray(NADT::Timestamp)),
            named("_1", DT::NonArray(NADT::Struct(vec![unnamed(DT::NonArray(NADT::Bytes))]))),
        ])),
        BqDataType::for_data_type(
            &array_of(array_of(array_of(DataType::Int32))),
            Usage::FinalTable,
        )
        .unwrap(),
    ];
    for ty in types {
        assert_eq!(grammar::data_type(&ty.to_string()).as_ref(), Ok(&ty));
        let entry = match &ty {
            DT::Array(inner) => inner.clone(),
            DT::NonArray(inner) => inner.clone(),
        };
        assert_eq!(grammar::non_array_data_type(&entry.to_string()).as_ref(), Ok(&entry));
        let entry = BqRecordOrNonArrayDataType::DataType(entry);
        assert_eq!(
            grammar::record_or_non_array_data_type(&entry.to_string()).as_ref(),
            Ok(&entry)
        );
    }
    assert_eq!(
        grammar::record_or_non_array_data_type("RECORD"),
        Ok(BqRecordOrNonArrayDataType::Record)
    );
}

#[test]
fn printed_types_never_nest_arrays_directly() {
    let mut portable = DataType::Int32;
    for _ in 0..6 {
        portable = array_of(portable);
        let text = BqDataType::for_data_type(&portable, Usage::FinalTable)
            .unwrap()
            .to_string();
        assert!(!text.contains("ARRAY<ARRAY<"));
    }
}

#[test]
fn white_space_may_stand_around_words_and_signs() {
    assert_eq!(
        grammar::data_type("  ARRAY <\tSTRUCT < x\n INT64 ,\r\n y ARRAY< BOOL > > >  "),
        Ok(DT::Array(NADT::Struct(vec![
            named("x", DT::NonArray(NADT::Int64)),
            named("y", DT::Array(NADT::Bool)),
        ])))
    );
    assert_eq!(
        grammar::data_type("STRUCT< >"),
        Ok(DT::NonArray(NADT::Struct(vec![])))
    );
}

#[test]
fn record_is_a_word_of_schema_files_only() {
    assert_eq!(
        grammar::record_or_non_array_data_type(" RECORD "),
        Ok(BqRecordOrNonArrayDataType::Record)
    );
    assert_eq!(
        grammar::record_or_non_array_data_type("STRING"),
        Ok(BqRecordOrNonArrayDataType::DataType(NADT::String))
    );
    assert_eq!(
        grammar::data_type("RECORD"),
        Err(syntax(0, Expected::DataType))
    );
    // An array cannot stand as a schema file's type entry.
    assert_eq!(
        grammar::record_or_non_array_data_type("ARRAY<INT64>"),
        Err(syntax(0, Expected::DataType))
    );
    assert_eq!(
        grammar::non_array_data_type("ARRAY<INT64>"),
        Err(syntax(0, Expected::DataType))
    );
}

fn syntax(position: usize, expected: Expected) -> ParseError {
    ParseError {
        kind: ParseErrorKind::Syntax,
        position,
        expected,
    }
}

#[test]
fn parse_errors_say_where_and_what() {
    let cases = vec![
        ("", syntax(0, Expected::DataType)),
        ("   ", syntax(3, Expected::DataType)),
        ("64", syntax(0, Expected::DataType)),
        ("bool", syntax(0, Expected::DataType)),
        ("BOOLX", syntax(0, Expected::DataType)),
        ("INTEGER", syntax(0, Expected::DataType)),
        (" FOO", syntax(1, Expected::DataType)),
        ("BOOL BOOL", syntax(5, Expected::EndOfInput)),
        ("BOOL>", syntax(4, Expected::EndOfInput)),
        ("ARRAY", syntax(5, Expected::LeftAngle)),
        ("ARRAY INT64", syntax(6, Expected::LeftAngle)),
        ("ARRAY<", syntax(6, Expected::DataType)),
        ("ARRAY<INT64", syntax(11, Expected::RightAngle)),
        ("ARRAY<INT64,", syntax(11, Expected::RightAngle)),
        ("ARRAY<ARRAY<INT64>>", syntax(6, Expected::DataType)),
        ("STRUCT", syntax(6, Expected::LeftAngle)),
        ("STRUCT<", syntax(7, Expected::DataType)),
        ("STRUCT<,>", syntax(7, Expected::DataType)),
        ("STRUCT<INT64", syntax(12, Expected::CommaOrRightAngle)),
        ("STRUCT<INT64;", syntax(12, Expected::CommaOrRightAngle)),
        ("STRUCT<INT64,>", syntax(13, Expected::DataType)),
        ("STRUCT<x y INT64>", syntax(9, Expected::DataType)),
        ("STRUCT<x>", syntax(7, Expected::DataType)),
        ("STRUCT<x FLOAT64, y FLOAT65>", syntax(20, Expected::DataType)),
        ("B\u{d6}\u{d6}L", syntax(0, Expected::DataType)),
        ("\u{e9} BOOL", syntax(0, Expected::DataType)),
        ("STRUCT<\u{e9} BOOL>", syntax(7, Expected::DataType)),
        ("STRUCT<x\u{e9} BOOL>", syntax(7, Expected::DataType)),
    ];
    for (text, error) in cases {
        assert_eq!(grammar::data_type(text), Err(error), "{:?}", text);
    }
}

#[test]
fn field_names_are_held_to_the_rules_for_column_names() {
    let long = "n".repeat(128);
    let text = format!("STRUCT<{} INT64>", long);
    assert_eq!(
        grammar::data_type(&text),
        Ok(DT::NonArray(NADT::Struct(vec![named(&long, DT::NonArray(NADT::Int64))])))
    );
    let too_long = "n".repeat(129);
    let text = format!("STRUCT< {} INT64>", too_long);
    assert_eq!(
        grammar::data_type(&text),
        Err(ParseError {
            kind: ParseErrorKind::InvalidName,
            position: 8 + 128,
            expected: Expected::ColumnName,
        })
    );
}

#[test]
fn column_names_are_letters_digits_and_underscores() {
    for name in ["x", "_", "_1", "first_name", "ARRAY", "a1B2_c3"] {
        let parsed = ColumnName::try_from(name).unwrap();
        assert_eq!(parsed.as_str(), name);
        assert_eq!(parsed.clone(), parsed);
    }
    let invalid = |position: usize| ParseError {
        kind: ParseErrorKind::InvalidName,
        position,
        expected: Expected::ColumnName,
    };
    assert_eq!(ColumnName::try_from(""), Err(invalid(0)));
    assert_eq!(ColumnName::try_from("1x"), Err(invalid(0)));
    assert_eq!(ColumnName::try_from(" x"), Err(invalid(0)));
    assert_eq!(ColumnName::try_from("x y"), Err(invalid(1)));
    assert_eq!(ColumnName::try_from("first-name"), Err(invalid(5)));
    assert_eq!(ColumnName::try_from("caf\u{e9}"), Err(invalid(3)));
    assert_eq!(ColumnName::try_from(&"x".repeat(128)).unwrap().as_str().len(), 128);
    assert_eq!(ColumnName::try_from(&"x".repeat(129)), Err(invalid(128)));
    let x = ColumnName::try_from("x").unwrap();
    assert!(x.same_as(&ColumnName::try_from("x").unwrap()));
    assert!(!x.same_as(&ColumnName::try_from("X").unwrap()));
}

#[test]
fn clones_are_equal_to_what_they_copy() {
    let ty = DT::Array(NADT::Struct(vec![
        named("x", DT::NonArray(NADT::Float64)),
        unnamed(DT::Array(NADT::Struct(vec![]))),
    ]));
    assert_eq!(ty.clone(), ty);
    let entry = BqRecordOrNonArrayDataType::DataType(NADT::Struct(vec![named(
        "x",
        DT::NonArray(NADT::Int64),
    )]));
    assert_eq!(entry.clone(), entry);
    let portable = array_of(DataType::Other("hstore".to_owned()));
    assert_eq!(portable.clone(), portable);
}
