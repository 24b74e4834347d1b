//! What holds of the mapping between portable and BigQuery types, whatever
//! the type.

use super::data_type::{
    bq_for, bq_non_array_for, can_import_from_csv, portable_for, BqDataTypeModel,
    BqNonArrayDataTypeModel, Usage,
};
use crate::error::Unsupported;
use crate::schema::{DataTypeModel, Srid};
use vstd::prelude::*;

verus! {

/// The portable types that are not arrays and that BigQuery holds without
/// coercion: each has a BigQuery type of its own that no other portable
/// type maps to and that maps back to it.
pub open spec fn kept_as_is(data_type: DataTypeModel) -> bool {
    match data_type {
        DataTypeModel::Bool => true,
        DataTypeModel::Date => true,
        DataTypeModel::Decimal => true,
        DataTypeModel::Float64 => true,
        DataTypeModel::GeoJson(srid) => srid == Srid::wgs84(),
        DataTypeModel::Int64 => true,
        DataTypeModel::Text => true,
        DataTypeModel::TimestampWithoutTimeZone => true,
        DataTypeModel::TimestampWithTimeZone => true,
        _ => false,
    }
}

/// The portable types that come back unchanged from a BigQuery table: those
/// that BigQuery holds without coercion, and arrays of them.
pub open spec fn survives_final_table(data_type: DataTypeModel) -> bool {
    match data_type {
        DataTypeModel::Array(element) => kept_as_is(*element),
        other => kept_as_is(other),
    }
}

/// A portable type that goes into a final table and is read back from it
/// comes back unchanged exactly if it is one of those that BigQuery holds
/// without coercion or an array of one of them. Every other type either
/// cannot go in, cannot come out, or comes out as another type.
pub proof fn lemma_final_table_round_trip(data_type: DataTypeModel)
    ensures
        survives_final_table(data_type) <==> (bq_for(data_type, Usage::FinalTable) is Ok
            && portable_for(bq_for(data_type, Usage::FinalTable)->Ok_0) == Ok::<
            DataTypeModel,
            crate::error::ParseError,
        >(data_type)),
{
    match data_type {
        DataTypeModel::Array(element) => {
            match *element {
                DataTypeModel::Array(_) => {},
                _ => {},
            }
        },
        _ => {},
    }
}

/// Whatever its elements are, an array is a `STRING` while it is loaded
/// from CSV.
pub proof fn lemma_array_loads_as_string(element: DataTypeModel)
    ensures
        bq_for(DataTypeModel::Array(Box::new(element)), Usage::CsvLoad) == Ok::<
            BqDataTypeModel,
            Unsupported,
        >(BqDataTypeModel::NonArray(BqNonArrayDataTypeModel::String)),
{
}

/// Every portable type has a BigQuery type under which it is loaded from
/// CSV, and that type is never an array.
pub proof fn lemma_csv_load_never_fails(data_type: DataTypeModel)
    ensures
        bq_for(data_type, Usage::CsvLoad) is Ok,
        bq_for(data_type, Usage::CsvLoad)->Ok_0 is NonArray,
{
}

/// Where no array is loaded from CSV, every portable type has a BigQuery
/// type that can stand inside an array.
pub proof fn lemma_element_of_final_table(data_type: DataTypeModel)
    ensures
        bq_non_array_for(data_type, Usage::FinalTable) is Ok,
    decreases data_type,
{
    match data_type {
        DataTypeModel::Array(nested) => lemma_element_of_final_table(*nested),
        _ => {},
    }
}

/// A portable type has a place in a final table unless it is an array of
/// JSON values.
pub proof fn lemma_final_table_fails_only_on_array_of_json(data_type: DataTypeModel)
    ensures
        bq_for(data_type, Usage::FinalTable) is Err <==> data_type == DataTypeModel::Array(
            Box::new(DataTypeModel::Json),
        ),
        bq_for(data_type, Usage::FinalTable) is Err ==> bq_for(data_type, Usage::FinalTable)
            == Err::<BqDataTypeModel, Unsupported>(Unsupported::ArrayOfJson),
{
    lemma_element_of_final_table(data_type);
}

/// In a final table a portable type is an array exactly if it is an array
/// itself, and an array below the top level is a struct.
pub proof fn lemma_final_table_keeps_arrays(data_type: DataTypeModel)
    requires
        bq_for(data_type, Usage::FinalTable) is Ok,
    ensures
        bq_for(data_type, Usage::FinalTable)->Ok_0 is Array <==> data_type is Array,
        data_type matches DataTypeModel::Array(element) && *element is Array ==> bq_for(
            data_type,
            Usage::FinalTable,
        )->Ok_0->Array_0 is Struct,
{
    match data_type {
        DataTypeModel::Array(nested) => {
            match *nested {
                DataTypeModel::Array(inner) => lemma_element_of_final_table(*inner),
                _ => {},
            }
        },
        _ => {},
    }
}

/// A portable type that has a place in a final table can be imported from
/// CSV as it stands exactly if it is no array, and that is exactly if it
/// has the same BigQuery type while it is loaded as in the final table.
pub proof fn lemma_importable_from_csv(data_type: DataTypeModel)
    requires
        bq_for(data_type, Usage::FinalTable) is Ok,
    ensures
        can_import_from_csv(data_type) == Ok::<bool, Unsupported>(!(data_type is Array)),
        can_import_from_csv(data_type) == Ok::<bool, Unsupported>(
            bq_for(data_type, Usage::CsvLoad) == bq_for(data_type, Usage::FinalTable),
        ),
{
    lemma_element_of_final_table(data_type);
    if let DataTypeModel::Array(nested) = data_type {
        lemma_element_of_final_table(*nested);
    }
}

} // verus!
