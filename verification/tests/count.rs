use dbcrossbarlib::args::{
    ArgumentError, SharedArguments, SourceArguments, Unverified, Verified,
};
use dbcrossbarlib::drivers::postgres::count::{
    count_from_rows, count_query, count_sql, features, CountError,
};
use dbcrossbarlib::schema::Table;

fn verified(where_clause: Option<&str>) -> SourceArguments<Verified> {
    SourceArguments::new(vec![], where_clause.map(|w| w.to_owned()))
        .verify(features())
        .unwrap()
}

fn shared() -> SharedArguments<Unverified> {
    let table = Table {
        name: "t".to_owned(),
        columns: vec![],
    };
    SharedArguments::new(table, vec![], 4)
}

#[test]
fn one_row_with_a_count_is_the_count() {
    assert_eq!(count_from_rows(&[0]), Ok(0));
    assert_eq!(count_from_rows(&[42]), Ok(42));
    assert_eq!(count_from_rows(&[i64::from(u32::MAX)]), Ok(4294967295));
}

#[test]
fn a_negative_count_is_out_of_range() {
    assert_eq!(count_from_rows(&[-1]), Err(CountError::CountOutOfRange));
    assert_eq!(count_from_rows(&[i64::MIN]), Err(CountError::CountOutOfRange));
}

#[test]
fn the_largest_count_fits_where_the_machine_allows() {
    let expected = match usize::try_from(i64::MAX) {
        Ok(count) => Ok(count),
        Err(_) => Err(CountError::CountOutOfRange),
    };
    assert_eq!(count_from_rows(&[i64::MAX]), expected);
}

#[test]
fn any_other_number_of_rows_is_an_error() {
    assert_eq!(count_from_rows(&[]), Err(CountError::UnexpectedRows(0)));
    assert_eq!(count_from_rows(&[1, 2]), Err(CountError::UnexpectedRows(2)));
    assert_eq!(count_from_rows(&[-1, -1, -1]), Err(CountError::UnexpectedRows(3)));
}

#[test]
fn count_query_names_the_table() {
    assert_eq!(count_sql("t", &verified(None)), "SELECT COUNT(*) FROM \"t\"");
    assert_eq!(
        count_sql("public.my table", &verified(None)),
        "SELECT COUNT(*) FROM \"public\".\"my table\""
    );
    assert_eq!(
        count_sql("a.b.c", &verified(None)),
        "SELECT COUNT(*) FROM \"a\".\"b.c\""
    );
    assert_eq!(count_sql("", &verified(None)), "SELECT COUNT(*) FROM \"\"");
    assert_eq!(count_sql(".", &verified(None)), "SELECT COUNT(*) FROM \"\".\"\"");
}

#[test]
fn count_query_doubles_quotes_in_names() {
    assert_eq!(
        count_sql("we\"ird.\"t\"", &verified(None)),
        "SELECT COUNT(*) FROM \"we\"\"ird\".\"\"\"t\"\"\""
    );
}

#[test]
fn count_query_carries_the_where_clause() {
    assert_eq!(
        count_sql("t", &verified(Some("id > 10 AND name <> ''"))),
        "SELECT COUNT(*) FROM \"t\" WHERE (id > 10 AND name <> '')"
    );
    assert_eq!(count_sql("t", &verified(Some(""))), "SELECT COUNT(*) FROM \"t\" WHERE ()");
}

#[test]
fn postgres_counts_with_a_where_clause_but_without_driver_arguments() {
    let features = features();
    assert!(features.locator.count);
    let args = SourceArguments::new(vec![], Some("id > 1".to_owned()));
    let verified = args.verify(features).unwrap();
    assert_eq!(
        count_sql("t", &verified),
        "SELECT COUNT(*) FROM \"t\" WHERE (id > 1)"
    );
    let args = SourceArguments::new(vec!["x=1".to_owned()], None);
    assert_eq!(args.verify(features).err(), Some(ArgumentError::SourceDriverArgs));
}

#[test]
fn the_count_query_is_written_for_verified_arguments_only() {
    assert_eq!(
        count_query("public.t", shared(), SourceArguments::new(vec![], None)),
        Ok("SELECT COUNT(*) FROM \"public\".\"t\"".to_owned())
    );
    assert_eq!(
        count_query(
            "t",
            shared(),
            SourceArguments::new(vec![], Some("id > 1".to_owned()))
        ),
        Ok("SELECT COUNT(*) FROM \"t\" WHERE (id > 1)".to_owned())
    );
    assert_eq!(
        count_query(
            "t",
            shared(),
            SourceArguments::new(vec!["x=1".to_owned()], Some("id > 1".to_owned()))
        ),
        Err(ArgumentError::SourceDriverArgs)
    );
    assert_eq!(
        count_query("t", shared(), SourceArguments::for_temporary()),
        Ok("SELECT COUNT(*) FROM \"t\"".to_owned())
    );
}
