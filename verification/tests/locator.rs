use dbcrossbarlib::locator::{Locator, LocatorError, Scheme};

fn locator(scheme: Scheme, rest: &str) -> Locator {
    Locator {
        scheme,
        rest: rest.to_owned(),
    }
}

#[test]
fn a_locator_is_a_scheme_and_the_rest() {
    let cases = vec![
        ("postgres://host/db#table", Scheme::Postgres, "//host/db#table"),
        ("bigquery:proj:ds.tbl", Scheme::BigQuery, "proj:ds.tbl"),
        ("s3://bucket/prefix/", Scheme::S3, "//bucket/prefix/"),
        ("gs://bucket/", Scheme::Gs, "//bucket/"),
        ("csv:path.csv", Scheme::Csv, "path.csv"),
        ("postgres-sql:-", Scheme::PostgresSql, "-"),
        ("bigquery-schema:table.json", Scheme::BigQuerySchema, "table.json"),
        ("dbcrossbar-schema:-", Scheme::DbcrossbarSchema, "-"),
        ("redshift://host/db#t", Scheme::Redshift, "//host/db#t"),
        ("csv:", Scheme::Csv, ""),
    ];
    for (text, scheme, rest) in cases {
        let parsed = Locator::parse(text).unwrap();
        assert_eq!(parsed, locator(scheme, rest));
        assert_eq!(parsed.to_string(), text);
    }
}

#[test]
fn a_text_without_a_known_scheme_is_no_locator() {
    assert_eq!(Locator::parse(""), Err(LocatorError::NoScheme));
    assert_eq!(Locator::parse("path.csv"), Err(LocatorError::NoScheme));
    assert_eq!(Locator::parse("-"), Err(LocatorError::NoScheme));
    assert_eq!(Locator::parse(":"), Err(LocatorError::UnknownScheme));
    assert_eq!(Locator::parse("mysql://host/db"), Err(LocatorError::UnknownScheme));
    assert_eq!(Locator::parse("CSV:path.csv"), Err(LocatorError::UnknownScheme));
    assert_eq!(Locator::parse(" csv:path.csv"), Err(LocatorError::UnknownScheme));
    assert_eq!(Locator::parse("postgres-sql"), Err(LocatorError::NoScheme));
}

#[test]
fn a_dash_names_the_standard_streams() {
    assert!(Locator::parse("bigquery-schema:-").unwrap().is_stdio());
    assert!(!Locator::parse("bigquery-schema:--").unwrap().is_stdio());
    assert!(!Locator::parse("bigquery-schema:").unwrap().is_stdio());
    assert!(!Locator::parse("bigquery-schema:./-").unwrap().is_stdio());
}

#[test]
fn schemes_have_their_texts() {
    let all = [
        (Scheme::BigQuery, "bigquery:"),
        (Scheme::BigQuerySchema, "bigquery-schema:"),
        (Scheme::Csv, "csv:"),
        (Scheme::DbcrossbarSchema, "dbcrossbar-schema:"),
        (Scheme::Gs, "gs:"),
        (Scheme::Postgres, "postgres:"),
        (Scheme::PostgresSql, "postgres-sql:"),
        (Scheme::Redshift, "redshift:"),
        (Scheme::S3, "s3:"),
    ];
    for (scheme, text) in all {
        assert_eq!(scheme.as_str(), text);
        assert_eq!(Scheme::from_text(text), Some(scheme));
        assert_eq!(
            scheme.is_schema_file(),
            text.ends_with("-schema:") || text.ends_with("-sql:")
        );
    }
    assert_eq!(Scheme::from_text("csv"), None);
    assert_eq!(Scheme::from_text(""), None);
}
