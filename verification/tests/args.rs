use dbcrossbarlib::args::{
    ArgumentError, DestinationArguments, DestinationArgumentsFeatures, Features,
    IfExists, IfExistsFeatures, LocatorFeatures, SharedArguments, SourceArguments,
    SourceArgumentsFeatures,
};
use dbcrossbarlib::schema::{Column, DataType, Table};
use dbcrossbarlib::text::{same_text, starts_with};

fn features(source: (bool, bool), dest_driver_args: bool, if_exists: [bool; 4]) -> Features {
    Features {
        locator: LocatorFeatures {
            schema: true,
            write_schema: true,
            local_data: true,
            write_local_data: true,
            count: true,
        },
        write_schema_if_exists: IfExistsFeatures {
            error: true,
            append: false,
            overwrite: true,
            upsert: false,
        },
        source_args: SourceArgumentsFeatures {
            driver_args: source.0,
            where_clause: source.1,
        },
        dest_args: DestinationArgumentsFeatures {
            driver_args: dest_driver_args,
        },
        dest_if_exists: IfExistsFeatures {
            error: if_exists[0],
            append: if_exists[1],
            overwrite: if_exists[2],
            upsert: if_exists[3],
        },
    }
}

fn table() -> Table {
    Table {
        name: "t".to_owned(),
        columns: vec![Column {
            name: "id".to_owned(),
            data_type: DataType::Int64,
            is_nullable: false,
            comment: None,
        }],
    }
}

#[test]
fn source_arguments_pass_where_the_driver_supports_them() {
    let all = features((true, true), true, [true; 4]);
    let args = SourceArguments::new(vec!["a=1".to_owned()], Some("id > 1".to_owned()));
    let verified = args.verify(all).unwrap();
    assert_eq!(verified.driver_args(), &vec!["a=1".to_owned()]);
    assert_eq!(verified.where_clause(), Some(&"id > 1".to_owned()));
    let none = features((false, false), false, [false; 4]);
    let verified = SourceArguments::for_temporary().verify(none).unwrap();
    assert!(verified.driver_args().is_empty());
    assert_eq!(verified.where_clause(), None);
}

#[test]
fn unsupported_source_arguments_are_named() {
    let no_where = features((true, false), true, [true; 4]);
    let args = SourceArguments::new(vec![], Some("id > 1".to_owned()));
    assert_eq!(args.verify(no_where).err(), Some(ArgumentError::WhereClause));
    let no_driver_args = features((false, true), true, [true; 4]);
    let args = SourceArguments::new(vec!["a=1".to_owned()], None);
    assert_eq!(args.verify(no_driver_args).err(), Some(ArgumentError::SourceDriverArgs));
    // The driver arguments are held against the features first.
    let nothing = features((false, false), true, [true; 4]);
    let args = SourceArguments::new(vec!["a=1".to_owned()], Some("x".to_owned()));
    assert_eq!(args.verify(nothing).err(), Some(ArgumentError::SourceDriverArgs));
}

#[test]
fn destination_arguments_are_held_against_if_exists_features() {
    let append_only = features((true, true), true, [false, true, false, false]);
    let args = DestinationArguments::new(vec![], IfExists::Append);
    let verified = args.verify(append_only).unwrap();
    assert_eq!(verified.if_exists(), &IfExists::Append);
    assert!(verified.driver_args().is_empty());
    for if_exists in [
        IfExists::Error,
        IfExists::Overwrite,
        IfExists::Upsert(vec!["id".to_owned()]),
    ] {
        let args = DestinationArguments::new(vec![], if_exists);
        assert_eq!(args.verify(append_only).err(), Some(ArgumentError::IfExists));
    }
    let upsert = features((true, true), true, [false, false, false, true]);
    let args = DestinationArguments::new(vec![], IfExists::Upsert(vec!["id".to_owned()]));
    assert!(args.verify(upsert).is_ok());
    assert!(IfExists::Error.supported_by(features((true, true), true, [true, false, false, false]).dest_if_exists));
    assert!(!IfExists::Error.supported_by(upsert.dest_if_exists));
}

#[test]
fn unsupported_destination_driver_arguments_are_named() {
    let no_driver_args = features((true, true), false, [true; 4]);
    let args = DestinationArguments::new(vec!["k=v".to_owned()], IfExists::Error);
    assert_eq!(
        args.verify(no_driver_args).err(),
        Some(ArgumentError::DestinationDriverArgs)
    );
    let temporary = DestinationArguments::for_temporary()
        .verify(features((false, false), false, [false, false, true, false]))
        .unwrap();
    assert_eq!(temporary.if_exists(), &IfExists::Overwrite);
}

#[test]
fn shared_arguments_always_pass() {
    let temporaries = vec!["gs://bucket/tmp".to_owned(), "s3://bucket/a".to_owned(), "s3://bucket/b".to_owned()];
    let args = SharedArguments::new(table(), temporaries.clone(), 4);
    let copy = args.to_unverified();
    let verified = args.verify(features((false, false), false, [false; 4])).unwrap();
    assert_eq!(verified.schema(), &table());
    assert_eq!(verified.max_streams(), 4);
    assert_eq!(verified.temporary_storage(), &temporaries);
    assert_eq!(verified.find_scheme("s3://"), Some(&"s3://bucket/a".to_owned()));
    assert_eq!(verified.find_scheme("gs://"), Some(&"gs://bucket/tmp".to_owned()));
    assert_eq!(verified.find_scheme("bigquery:"), None);
    let verified = copy.verify(features((true, true), true, [true; 4])).unwrap();
    assert_eq!(verified.temporary_storage(), &temporaries);
    assert_eq!(verified.max_streams(), 4);
}

#[test]
fn prefixes_are_compared_character_by_character() {
    assert!(starts_with("s3://bucket", "s3://"));
    assert!(starts_with("s3://", "s3://"));
    assert!(starts_with("anything", ""));
    assert!(!starts_with("s3:/", "s3://"));
    assert!(!starts_with("S3://bucket", "s3://"));
    assert!(!starts_with("", "s"));
    assert!(starts_with("\u{e9}t\u{e9}", "\u{e9}t"));
}

#[test]
fn texts_are_the_same_if_every_character_is() {
    assert!(same_text("", ""));
    assert!(same_text("name", "name"));
    assert!(!same_text("name", "Name"));
    assert!(!same_text("name", "names"));
    assert!(!same_text("names", "name"));
    assert!(same_text("\u{e9}", "\u{e9}"));
    assert!(!same_text("\u{e9}", "e"));
}
