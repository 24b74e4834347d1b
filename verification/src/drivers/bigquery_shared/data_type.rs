//! The data types of BigQuery, and how they correspond to portable types.
//!
//! BigQuery does not allow an array directly inside an array. The native
//! types here are split into [`BqDataType`], which may be an array, and
//! [`BqNonArrayDataType`], which may not, so that no value can break that
//! rule: the element of an array is always a [`BqNonArrayDataType`].

use super::column_name::{valid_column_name, ColumnName};
use crate::error::{ok_view, Expected, ParseError, ParseErrorKind, Unsupported};
use crate::schema::{DataType, DataTypeModel, Srid};
use vstd::prelude::*;

verus! {

/// The role a BigQuery type plays for a column.
#[derive(Clone, Copy, Debug, PartialEq, Eq, Structural)]
pub enum Usage {
    /// The type under which BigQuery reads the column from a CSV file.
    /// BigQuery cannot read arrays from CSV, so they travel as `STRING`.
    CsvLoad,
    /// The type of the column in the table where the data ends up.
    FinalTable,
}

/// A BigQuery data type.
#[derive(Debug, PartialEq, Eq)]
pub enum BqDataType {
    /// An array. Its element cannot itself be an array; an array of arrays
    /// is written as an array of one-field structs that hold arrays.
    Array(BqNonArrayDataType),
    /// Any other type.
    NonArray(BqNonArrayDataType),
}

/// Any BigQuery type except `ARRAY`.
#[derive(Debug, PartialEq, Eq)]
pub enum BqNonArrayDataType {
    Bool,
    Bytes,
    Date,
    Datetime,
    Float64,
    Geography,
    Int64,
    Numeric,
    String,
    Struct(Vec<BqStructField>),
    Time,
    Timestamp,
}

/// A field of a `STRUCT`.
#[derive(Debug, PartialEq, Eq)]
pub struct BqStructField {
    /// The field's name. BigQuery structs are tuples whose positions may
    /// carry names; the names need not differ from one another.
    pub name: Option<ColumnName>,
    /// The field's type.
    pub ty: BqDataType,
}

/// What the `type` entry of a column in a BigQuery schema file holds: a
/// type that is not an array, or the word `RECORD`, which stands for a
/// `STRUCT` whose fields the column lists separately.
#[derive(Debug, PartialEq, Eq)]
pub enum BqRecordOrNonArrayDataType {
    Record,
    DataType(BqNonArrayDataType),
}

/// The mathematical value of a [`BqRecordOrNonArrayDataType`].
pub enum BqRecordOrNonArrayDataTypeModel {
    Record,
    DataType(BqNonArrayDataTypeModel),
}

impl View for BqRecordOrNonArrayDataType {
    type V = BqRecordOrNonArrayDataTypeModel;

    open spec fn view(&self) -> BqRecordOrNonArrayDataTypeModel {
        match self {
            BqRecordOrNonArrayDataType::Record => BqRecordOrNonArrayDataTypeModel::Record,
            BqRecordOrNonArrayDataType::DataType(ty) => BqRecordOrNonArrayDataTypeModel::DataType(
                ty@,
            ),
        }
    }
}

impl Clone for BqRecordOrNonArrayDataType {
    fn clone(&self) -> (copy: BqRecordOrNonArrayDataType)
        ensures
            copy@ == self@,
    {
        match self {
            BqRecordOrNonArrayDataType::Record => BqRecordOrNonArrayDataType::Record,
            BqRecordOrNonArrayDataType::DataType(ty) => BqRecordOrNonArrayDataType::DataType(
                ty.clone(),
            ),
        }
    }
}

/// The mathematical value of a [`BqDataType`].
pub enum BqDataTypeModel {
    Array(BqNonArrayDataTypeModel),
    NonArray(BqNonArrayDataTypeModel),
}

/// The mathematical value of a [`BqNonArrayDataType`].
pub enum BqNonArrayDataTypeModel {
    Bool,
    Bytes,
    Date,
    Datetime,
    Float64,
    Geography,
    Int64,
    Numeric,
    String,
    Struct(Seq<BqStructFieldModel>),
    Time,
    Timestamp,
}

/// The mathematical value of a [`BqStructField`].
pub struct BqStructFieldModel {
    pub name: Option<Seq<char>>,
    pub ty: BqDataTypeModel,
}

impl View for BqDataType {
    type V = BqDataTypeModel;

    open spec fn view(&self) -> BqDataTypeModel
        decreases self,
    {
        match self {
            BqDataType::Array(element) => BqDataTypeModel::Array(element@),
            BqDataType::NonArray(ty) => BqDataTypeModel::NonArray(ty@),
        }
    }
}

impl View for BqNonArrayDataType {
    type V = BqNonArrayDataTypeModel;

    open spec fn view(&self) -> BqNonArrayDataTypeModel
        decreases self,
    {
        match self {
            BqNonArrayDataType::Bool => BqNonArrayDataTypeModel::Bool,
            BqNonArrayDataType::Bytes => BqNonArrayDataTypeModel::Bytes,
            BqNonArrayDataType::Date => BqNonArrayDataTypeModel::Date,
            BqNonArrayDataType::Datetime => BqNonArrayDataTypeModel::Datetime,
            BqNonArrayDataType::Float64 => BqNonArrayDataTypeModel::Float64,
            BqNonArrayDataType::Geography => BqNonArrayDataTypeModel::Geography,
            BqNonArrayDataType::Int64 => BqNonArrayDataTypeModel::Int64,
            BqNonArrayDataType::Numeric => BqNonArrayDataTypeModel::Numeric,
            BqNonArrayDataType::String => BqNonArrayDataTypeModel::String,
            BqNonArrayDataType::Struct(fields) => BqNonArrayDataTypeModel::Struct(
                Seq::new(
                    fields.len() as nat,
                    |i: int|
                        if 0 <= i < fields.len() {
                            fields[i]@
                        } else {
                            arbitrary()
                        },
                ),
            ),
            BqNonArrayDataType::Time => BqNonArrayDataTypeModel::Time,
            BqNonArrayDataType::Timestamp => BqNonArrayDataTypeModel::Timestamp,
        }
    }
}

impl View for BqStructField {
    type V = BqStructFieldModel;

    open spec fn view(&self) -> BqStructFieldModel
        decreases self,
    {
        BqStructFieldModel {
            name: match self.name {
                Some(name) => Some(name@),
                None => None,
            },
            ty: self.ty@,
        }
    }
}

impl Clone for BqDataType {
    fn clone(&self) -> (copy: BqDataType)
        ensures
            copy@ == self@,
    {
        copy_data_type(self)
    }
}

impl Clone for BqNonArrayDataType {
    fn clone(&self) -> (copy: BqNonArrayDataType)
        ensures
            copy@ == self@,
    {
        copy_non_array(self)
    }
}

impl Clone for BqStructField {
    fn clone(&self) -> (copy: BqStructField)
        ensures
            copy@ == self@,
    {
        copy_field(self)
    }
}

fn copy_data_type(ty: &BqDataType) -> (copy: BqDataType)
    ensures
        copy@ == ty@,
    decreases ty,
{
    match ty {
        BqDataType::Array(element) => BqDataType::Array(copy_non_array(element)),
        BqDataType::NonArray(ty) => BqDataType::NonArray(copy_non_array(ty)),
    }
}

fn copy_field(field: &BqStructField) -> (copy: BqStructField)
    ensures
        copy@ == field@,
    decreases field,
{
    let name = match &field.name {
        Some(name) => Some(name.clone()),
        None => None,
    };
    BqStructField { name, ty: copy_data_type(&field.ty) }
}

fn copy_non_array(ty: &BqNonArrayDataType) -> (copy: BqNonArrayDataType)
    ensures
        copy@ == ty@,
    decreases ty,
{
    match ty {
        BqNonArrayDataType::Bool => BqNonArrayDataType::Bool,
        BqNonArrayDataType::Bytes => BqNonArrayDataType::Bytes,
        BqNonArrayDataType::Date => BqNonArrayDataType::Date,
        BqNonArrayDataType::Datetime => BqNonArrayDataType::Datetime,
        BqNonArrayDataType::Float64 => BqNonArrayDataType::Float64,
        BqNonArrayDataType::Geography => BqNonArrayDataType::Geography,
        BqNonArrayDataType::Int64 => BqNonArrayDataType::Int64,
        BqNonArrayDataType::Numeric => BqNonArrayDataType::Numeric,
        BqNonArrayDataType::String => BqNonArrayDataType::String,
        BqNonArrayDataType::Struct(fields) => {
            let mut copies: Vec<BqStructField> = Vec::new();
            let mut i: usize = 0;
            while i < fields.len()
                invariant
                    ty is Struct,
                    ty->Struct_0 == *fields,
                    i <= fields.len(),
                    copies.len() == i,
                    forall|k: int| 0 <= k < i ==> (#[trigger] copies[k])@ == fields[k]@,
                decreases fields.len() - i,
            {
                copies.push(copy_field(&fields[i]));
                i += 1;
            }
            let copy = BqNonArrayDataType::Struct(copies);
            assert(copy@->Struct_0 =~= ty@->Struct_0);
            copy
        },
        BqNonArrayDataType::Time => BqNonArrayDataType::Time,
        BqNonArrayDataType::Timestamp => BqNonArrayDataType::Timestamp,
    }
}

/// Is every field name in `ty` a legal column name? This holds of the value
/// of every [`BqNonArrayDataType`].
pub open spec fn names_valid_non_array(ty: BqNonArrayDataTypeModel) -> bool
    decreases ty,
{
    match ty {
        BqNonArrayDataTypeModel::Struct(fields) => forall|i: int|
            0 <= i < fields.len() ==> names_valid_field(#[trigger] fields[i]),
        _ => true,
    }
}

/// Is the name of `field`, if it has one, and every field name in its type
/// a legal column name? This holds of the value of every [`BqStructField`].
pub open spec fn names_valid_field(field: BqStructFieldModel) -> bool
    decreases field,
{
    &&& field.name matches Some(name) ==> valid_column_name(name)
    &&& names_valid(field.ty)
}

/// Is every field name in `ty` a legal column name? This holds of the value
/// of every [`BqDataType`].
pub open spec fn names_valid(ty: BqDataTypeModel) -> bool
    decreases ty,
{
    match ty {
        BqDataTypeModel::Array(element) => names_valid_non_array(element),
        BqDataTypeModel::NonArray(ty) => names_valid_non_array(ty),
    }
}

/// The error for a BigQuery type that has no portable counterpart.
pub open spec fn no_portable_type() -> ParseError {
    ParseError {
        kind: ParseErrorKind::Unsupported,
        position: 0,
        expected: Expected::PortableType,
    }
}

/// The BigQuery type that stands for the portable type `data_type` where an
/// array cannot stand: as the element of an array, or as a whole column that
/// is not an array.
///
/// An array in such a place is the inner array of a nested array. In a final
/// table it is wrapped in a struct with one unnamed field, which BigQuery
/// accepts as an array element. In a CSV load it cannot occur, because the
/// outermost array has already become a `STRING`.
pub open spec fn bq_non_array_for(data_type: DataTypeModel, usage: Usage) -> Result<
    BqNonArrayDataTypeModel,
    Unsupported,
>
    decreases data_type,
{
    match data_type {
        DataTypeModel::Array(nested) => match usage {
            Usage::CsvLoad => Err(Unsupported::NestedArrayInCsv),
            Usage::FinalTable => match bq_non_array_for(*nested, usage) {
                Ok(element) => Ok(
                    BqNonArrayDataTypeModel::Struct(
                        seq![BqStructFieldModel { name: None, ty: BqDataTypeModel::Array(element) }],
                    ),
                ),
                Err(e) => Err(e),
            },
        },
        DataTypeModel::Bool => Ok(BqNonArrayDataTypeModel::Bool),
        DataTypeModel::Bytes => Ok(BqNonArrayDataTypeModel::Bytes),
        DataTypeModel::Date => Ok(BqNonArrayDataTypeModel::Date),
        DataTypeModel::Decimal => Ok(BqNonArrayDataTypeModel::Numeric),
        DataTypeModel::Float32 => Ok(BqNonArrayDataTypeModel::Float64),
        DataTypeModel::Float64 => Ok(BqNonArrayDataTypeModel::Float64),
        DataTypeModel::GeoJson(srid) => if srid == Srid::wgs84() {
            Ok(BqNonArrayDataTypeModel::Geography)
        } else {
            Ok(BqNonArrayDataTypeModel::String)
        },
        DataTypeModel::Int16 => Ok(BqNonArrayDataTypeModel::Int64),
        DataTypeModel::Int32 => Ok(BqNonArrayDataTypeModel::Int64),
        DataTypeModel::Int64 => Ok(BqNonArrayDataTypeModel::Int64),
        DataTypeModel::Json => Ok(BqNonArrayDataTypeModel::String),
        DataTypeModel::Other(_) => Ok(BqNonArrayDataTypeModel::String),
        DataTypeModel::Text => Ok(BqNonArrayDataTypeModel::String),
        DataTypeModel::TimestampWithoutTimeZone => Ok(BqNonArrayDataTypeModel::Datetime),
        DataTypeModel::TimestampWithTimeZone => Ok(BqNonArrayDataTypeModel::Timestamp),
        DataTypeModel::Uuid => Ok(BqNonArrayDataTypeModel::String),
    }
}

/// The BigQuery type of a column whose portable type is `data_type`.
///
/// A column that is an array is a `STRING` while it is loaded from CSV, and
/// an array of what stands for its elements in the final table; but BigQuery
/// has no array of JSON values. Any other column has the type that
/// [`bq_non_array_for`] gives.
pub open spec fn bq_for(data_type: DataTypeModel, usage: Usage) -> Result<
    BqDataTypeModel,
    Unsupported,
> {
    match data_type {
        DataTypeModel::Array(nested) => match usage {
            Usage::CsvLoad => Ok(BqDataTypeModel::NonArray(BqNonArrayDataTypeModel::String)),
            Usage::FinalTable => if *nested == DataTypeModel::Json {
                Err(Unsupported::ArrayOfJson)
            } else {
                match bq_non_array_for(*nested, usage) {
                    Ok(element) => Ok(BqDataTypeModel::Array(element)),
                    Err(e) => Err(e),
                }
            },
        },
        other => match bq_non_array_for(other, usage) {
            Ok(ty) => Ok(BqDataTypeModel::NonArray(ty)),
            Err(e) => Err(e),
        },
    }
}

/// The portable type closest to the BigQuery type `ty`, which is not an
/// array. A struct becomes JSON. `BYTES` and `TIME` have no counterpart.
pub open spec fn portable_for_non_array(ty: BqNonArrayDataTypeModel) -> Result<
    DataTypeModel,
    ParseError,
> {
    match ty {
        BqNonArrayDataTypeModel::Bool => Ok(DataTypeModel::Bool),
        BqNonArrayDataTypeModel::Bytes => Err(no_portable_type()),
        BqNonArrayDataTypeModel::Date => Ok(DataTypeModel::Date),
        BqNonArrayDataTypeModel::Datetime => Ok(DataTypeModel::TimestampWithoutTimeZone),
        BqNonArrayDataTypeModel::Float64 => Ok(DataTypeModel::Float64),
        BqNonArrayDataTypeModel::Geography => Ok(DataTypeModel::GeoJson(Srid::wgs84())),
        BqNonArrayDataTypeModel::Int64 => Ok(DataTypeModel::Int64),
        BqNonArrayDataTypeModel::Numeric => Ok(DataTypeModel::Decimal),
        BqNonArrayDataTypeModel::String => Ok(DataTypeModel::Text),
        BqNonArrayDataTypeModel::Struct(_) => Ok(DataTypeModel::Json),
        BqNonArrayDataTypeModel::Time => Err(no_portable_type()),
        BqNonArrayDataTypeModel::Timestamp => Ok(DataTypeModel::TimestampWithTimeZone),
    }
}

/// The portable type closest to the BigQuery type `ty`. An array of structs
/// becomes one JSON value, not an array of JSON values; any other array
/// becomes an array of what its element becomes.
pub open spec fn portable_for(ty: BqDataTypeModel) -> Result<DataTypeModel, ParseError> {
    match ty {
        BqDataTypeModel::Array(BqNonArrayDataTypeModel::Struct(_)) => Ok(DataTypeModel::Json),
        BqDataTypeModel::Array(element) => match portable_for_non_array(element) {
            Ok(portable) => Ok(DataTypeModel::Array(Box::new(portable))),
            Err(e) => Err(e),
        },
        BqDataTypeModel::NonArray(ty) => portable_for_non_array(ty),
    }
}

/// Can a value of the type `ty`, which is not an array, be written as JSON
/// without loss? A struct can if each of its fields has a name, no two
/// fields share a name, and each field's type can. Every other type can.
pub open spec fn json_safe_non_array(ty: BqNonArrayDataTypeModel) -> bool
    decreases ty,
{
    match ty {
        BqNonArrayDataTypeModel::Struct(fields) => {
            &&& forall|i: int|
                0 <= i < fields.len() ==> (#[trigger] fields[i]).name is Some && json_safe(
                    fields[i].ty,
                )
            &&& forall|i: int, j: int|
                0 <= i < j < fields.len() ==> (#[trigger] fields[i]).name != (
                #[trigger] fields[j]).name
        },
        _ => true,
    }
}

/// Can a value of the type `ty` be written as JSON without loss? An array
/// can if its element can.
pub open spec fn json_safe(ty: BqDataTypeModel) -> bool
    decreases ty,
{
    match ty {
        BqDataTypeModel::Array(element) => json_safe_non_array(element),
        BqDataTypeModel::NonArray(ty) => json_safe_non_array(ty),
    }
}

/// Does BigQuery take a column of the portable type `data_type` from a CSV
/// file as it stands? It does unless the column is an array in the final
/// table, which has to travel as a `STRING`. A type that has no place in a
/// final table leaves the question without an answer.
pub open spec fn can_import_from_csv(data_type: DataTypeModel) -> Result<bool, Unsupported> {
    match bq_for(data_type, Usage::FinalTable) {
        Ok(ty) => Ok(!(ty is Array)),
        Err(e) => Err(e),
    }
}

impl DataType {
    /// Can BigQuery import this type from a CSV file? The answer is that of
    /// the type's counterpart in a final table.
    pub fn bigquery_can_import_from_csv(&self) -> (r: Result<bool, Unsupported>)
        ensures
            r == can_import_from_csv(self@),
    {
        match BqDataType::for_data_type(self, Usage::FinalTable) {
            Ok(bq_data_type) => Ok(bq_data_type.bigquery_can_import_from_csv()),
            Err(e) => Err(e),
        }
    }
}

impl BqDataType {
    /// Maps a portable type, and the role the result is to play, to the
    /// BigQuery type of a column.
    pub fn for_data_type(data_type: &DataType, usage: Usage) -> (r: Result<BqDataType, Unsupported>)
        ensures
            ok_view(r) == bq_for(data_type@, usage),
    {
        match data_type {
            DataType::Array(nested) => {
                let nested: &DataType = &**nested;
                match usage {
                    Usage::CsvLoad => Ok(BqDataType::NonArray(BqNonArrayDataType::String)),
                    Usage::FinalTable => {
                        if let DataType::Json = nested {
                            assert(nested@ == DataTypeModel::Json);
                            return Err(Unsupported::ArrayOfJson);
                        }
                        match BqNonArrayDataType::for_data_type(nested, usage) {
                            Ok(element) => Ok(BqDataType::Array(element)),
                            Err(e) => Err(e),
                        }
                    },
                }
            },
            other => match BqNonArrayDataType::for_data_type(other, usage) {
                Ok(ty) => Ok(BqDataType::NonArray(ty)),
                Err(e) => Err(e),
            },
        }
    }

    /// Maps this type to the closest portable type.
    pub fn to_data_type(&self) -> (r: Result<DataType, ParseError>)
        ensures
            ok_view(r) == portable_for(self@),
    {
        match self {
            BqDataType::Array(BqNonArrayDataType::Struct(_)) => Ok(DataType::Json),
            BqDataType::Array(element) => match element.to_data_type() {
                Ok(portable) => Ok(DataType::Array(Box::new(portable))),
                Err(e) => Err(e),
            },
            BqDataType::NonArray(ty) => ty.to_data_type(),
        }
    }

    /// Can BigQuery import this type from a CSV file? It can import every
    /// type but an array.
    pub fn bigquery_can_import_from_csv(&self) -> (r: bool)
        ensures
            r == !(self@ is Array),
    {
        match self {
            BqDataType::Array(_) => false,
            _ => true,
        }
    }

    /// Can a value of this type be written as JSON without loss?
    pub fn is_json_safe(&self) -> (safe: bool)
        ensures
            safe == json_safe(self@),
        decreases self,
    {
        match self {
            BqDataType::Array(element) => element.is_json_safe(),
            BqDataType::NonArray(ty) => ty.is_json_safe(),
        }
    }
}

impl BqNonArrayDataType {
    /// Maps a portable type, and the role the result is to play, to the
    /// BigQuery type that stands for it where an array cannot stand.
    pub fn for_data_type(data_type: &DataType, usage: Usage) -> (r: Result<
        BqNonArrayDataType,
        Unsupported,
    >)
        ensures
            ok_view(r) == bq_non_array_for(data_type@, usage),
        decreases data_type,
    {
        match data_type {
            DataType::Array(nested) => match usage {
                Usage::CsvLoad => Err(Unsupported::NestedArrayInCsv),
                Usage::FinalTable => match BqNonArrayDataType::for_data_type(&**nested, usage) {
                    Ok(element) => {
                        let field = BqStructField { name: None, ty: BqDataType::Array(element) };
                        let mut fields: Vec<BqStructField> = Vec::new();
                        fields.push(field);
                        let wrapped = BqNonArrayDataType::Struct(fields);
                        assert(wrapped@->Struct_0 =~= seq![field@]);
                        Ok(wrapped)
                    },
                    Err(e) => Err(e),
                },
            },
            DataType::Bool => Ok(BqNonArrayDataType::Bool),
            DataType::Bytes => Ok(BqNonArrayDataType::Bytes),
            DataType::Date => Ok(BqNonArrayDataType::Date),
            DataType::Decimal => Ok(BqNonArrayDataType::Numeric),
            DataType::Float32 => Ok(BqNonArrayDataType::Float64),
            DataType::Float64 => Ok(BqNonArrayDataType::Float64),
            DataType::GeoJson(srid) => if *srid == Srid::wgs84() {
                Ok(BqNonArrayDataType::Geography)
            } else {
                Ok(BqNonArrayDataType::String)
            },
            DataType::Int16 => Ok(BqNonArrayDataType::Int64),
            DataType::Int32 => Ok(BqNonArrayDataType::Int64),
            DataType::Int64 => Ok(BqNonArrayDataType::Int64),
            DataType::Json => Ok(BqNonArrayDataType::String),
            DataType::Other(_) => Ok(BqNonArrayDataType::String),
            DataType::Text => Ok(BqNonArrayDataType::String),
            DataType::TimestampWithoutTimeZone => Ok(BqNonArrayDataType::Datetime),
            DataType::TimestampWithTimeZone => Ok(BqNonArrayDataType::Timestamp),
            DataType::Uuid => Ok(BqNonArrayDataType::String),
        }
    }

    /// Maps this type to the closest portable type.
    pub fn to_data_type(&self) -> (r: Result<DataType, ParseError>)
        ensures
            ok_view(r) == portable_for_non_array(self@),
    {
        match self {
            BqNonArrayDataType::Bool => Ok(DataType::Bool),
            BqNonArrayDataType::Date => Ok(DataType::Date),
            BqNonArrayDataType::Numeric => Ok(DataType::Decimal),
            BqNonArrayDataType::Float64 => Ok(DataType::Float64),
            BqNonArrayDataType::Geography => Ok(DataType::GeoJson(Srid::wgs84())),
            BqNonArrayDataType::Int64 => Ok(DataType::Int64),
            BqNonArrayDataType::String => Ok(DataType::Text),
            BqNonArrayDataType::Datetime => Ok(DataType::TimestampWithoutTimeZone),
            BqNonArrayDataType::Struct(_) => Ok(DataType::Json),
            BqNonArrayDataType::Timestamp => Ok(DataType::TimestampWithTimeZone),
            BqNonArrayDataType::Bytes | BqNonArrayDataType::Time => Err(
                ParseError {
                    kind: ParseErrorKind::Unsupported,
                    position: 0,
                    expected: Expected::PortableType,
                },
            ),
        }
    }

    /// Can a value of this type be written as JSON without loss?
    pub fn is_json_safe(&self) -> (safe: bool)
        ensures
            safe == json_safe_non_array(self@),
        decreases self,
    {
        match self {
            BqNonArrayDataType::Struct(fields) => {
                let ghost model = self@->Struct_0;
                let mut i: usize = 0;
                while i < fields.len()
                    invariant
                        self is Struct,
                        self->Struct_0 == *fields,
                        model == self@->Struct_0,
                        i <= fields.len(),
                        forall|k: int|
                            0 <= k < i ==> (#[trigger] model[k]).name is Some && json_safe(
                                model[k].ty,
                            ),
                        forall|k: int, l: int|
                            0 <= k < l < i ==> (#[trigger] model[k]).name != (
                            #[trigger] model[l]).name,
                    decreases fields.len() - i,
                {
                    let field = &fields[i];
                    match &field.name {
                        None => {
                            return false;
                        },
                        Some(name) => {
                            if !field.ty.is_json_safe() {
                                return false;
                            }
                            let mut j: usize = 0;
                            while j < i
                                invariant
                                    self@ == BqNonArrayDataTypeModel::Struct(model),
                                    j <= i < fields.len(),
                                    model.len() == fields.len(),
                                    forall|k: int| 0 <= k < fields.len() ==> model[k] == (
                                    #[trigger] fields[k])@,
                                    model[i as int].name == Some(name@),
                                    forall|k: int|
                                        0 <= k < j ==> (#[trigger] model[k]).name != Some(name@),
                                decreases i - j,
                            {
                                if let Some(earlier) = &fields[j].name {
                                    if earlier.same_as(name) {
                                        return false;
                                    }
                                }
                                j += 1;
                            }
                        },
                    }
                    i += 1;
                }
                true
            },
            _ => true,
        }
    }
}

} // verus!
