use dbcrossbarlib::schema::{Column, DataType, Srid, Table};

fn column(name: &str) -> Column {
    Column {
        name: name.to_owned(),
        data_type: DataType::Text,
        is_nullable: true,
        comment: Some("note".to_owned()),
    }
}

#[test]
fn wgs84_is_4326() {
    assert_eq!(Srid::wgs84(), Srid::new(4326));
    assert_eq!(Srid::wgs84().to_u32(), 4326);
    assert_eq!(Srid::new(3857).to_u32(), 3857);
    assert_ne!(Srid::new(3857), Srid::wgs84());
}

#[test]
fn column_names_are_compared_letter_for_letter() {
    let table = |names: &[&str]| Table {
        name: "t".to_owned(),
        columns: names.iter().map(|n| column(n)).collect(),
    };
    assert!(table(&[]).has_distinct_column_names());
    assert!(table(&["id"]).has_distinct_column_names());
    assert!(table(&["id", "name", "Name"]).has_distinct_column_names());
    assert!(!table(&["id", "name", "id"]).has_distinct_column_names());
    assert!(!table(&["a", "b", "c", "c"]).has_distinct_column_names());
}

#[test]
fn clones_keep_columns_in_order() {
    let table = Table {
        name: "public.people".to_owned(),
        columns: vec![column("id"), column("first_name"), column("last_name")],
    };
    let copy = table.clone();
    assert_eq!(copy, table);
    assert_eq!(copy.columns[1].name, "first_name");
    assert_eq!(column("x").clone(), column("x"));
}
