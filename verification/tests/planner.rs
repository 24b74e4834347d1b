use dbcrossbarlib::locator::Scheme;
use dbcrossbarlib::planner::{can_fetch, plan, NoRoute, Plan, Unsupported};

#[test]
fn a_warehouse_fetches_from_the_store_of_its_cloud() {
    assert_eq!(plan(Scheme::S3, Scheme::Redshift, &[]), Ok(Plan::Remote));
    assert_eq!(plan(Scheme::Gs, Scheme::BigQuery, &[]), Ok(Plan::Remote));
    assert_eq!(plan(Scheme::Redshift, Scheme::S3, &[]), Ok(Plan::Remote));
    assert_eq!(plan(Scheme::BigQuery, Scheme::Gs, &[Scheme::S3]), Ok(Plan::Remote));
    assert!(can_fetch(Scheme::Redshift, Scheme::S3));
    assert!(!can_fetch(Scheme::Redshift, Scheme::Gs));
    assert!(!can_fetch(Scheme::Postgres, Scheme::S3));
}

#[test]
fn data_is_staged_where_the_destination_can_fetch() {
    assert_eq!(
        plan(Scheme::Csv, Scheme::Redshift, &[Scheme::Gs, Scheme::S3, Scheme::S3]),
        Ok(Plan::Staged { temporary: 1 })
    );
    assert_eq!(
        plan(Scheme::Postgres, Scheme::BigQuery, &[Scheme::Gs]),
        Ok(Plan::Staged { temporary: 0 })
    );
    // Storage of the other cloud is of no use.
    assert_eq!(
        plan(Scheme::Postgres, Scheme::BigQuery, &[Scheme::S3]),
        Ok(Plan::Local)
    );
}

#[test]
fn data_is_streamed_where_nothing_else_works() {
    assert_eq!(plan(Scheme::Csv, Scheme::Postgres, &[]), Ok(Plan::Local));
    assert_eq!(
        plan(Scheme::Csv, Scheme::Postgres, &[Scheme::S3, Scheme::Gs]),
        Ok(Plan::Local)
    );
    assert_eq!(plan(Scheme::S3, Scheme::Gs, &[]), Ok(Plan::Local));
    assert_eq!(plan(Scheme::Csv, Scheme::Redshift, &[]), Ok(Plan::Local));
}

#[test]
fn schema_files_hold_no_data() {
    assert_eq!(
        plan(Scheme::PostgresSql, Scheme::Postgres, &[Scheme::S3]),
        Err(Unsupported {
            source: Scheme::PostgresSql,
            destination: Scheme::Postgres,
            reason: NoRoute::SourceCannotStream,
        })
    );
    assert_eq!(
        plan(Scheme::Csv, Scheme::BigQuerySchema, &[Scheme::Gs]),
        Err(Unsupported {
            source: Scheme::Csv,
            destination: Scheme::BigQuerySchema,
            reason: NoRoute::DestinationCannotStream,
        })
    );
    assert_eq!(
        plan(Scheme::DbcrossbarSchema, Scheme::BigQuerySchema, &[]),
        Err(Unsupported {
            source: Scheme::DbcrossbarSchema,
            destination: Scheme::BigQuerySchema,
            reason: NoRoute::SourceCannotStream,
        })
    );
}
