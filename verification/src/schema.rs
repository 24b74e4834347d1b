//! The portable data model: the types that every driver maps its own to and from.

use vstd::prelude::*;

verus! {

/// A spatial reference identifier, naming the coordinate system of
/// geographic data.
#[derive(Clone, Copy, Debug, PartialEq, Eq, Structural)]
pub struct Srid(pub u32);

impl Srid {
    /// The identifier of WGS 84, the coordinate system used by GPS and the
    /// default for geographic data.
    pub open spec fn spec_wgs84() -> Srid {
        Srid(4326)
    }

    /// The identifier of WGS 84.
    #[verifier::when_used_as_spec(spec_wgs84)]
    pub fn wgs84() -> (srid: Srid)
        ensures
            srid == Srid::spec_wgs84(),
    {
        Srid(4326)
    }

    /// Wraps a raw identifier.
    pub fn new(srid: u32) -> (r: Srid)
        ensures
            r == Srid(srid),
    {
        Srid(srid)
    }

    /// The raw identifier.
    pub fn to_u32(self) -> (r: u32)
        ensures
            r == self.0,
    {
        self.0
    }
}

/// A portable data type, independent of any one database.
///
/// Arrays may nest to any depth here; each driver reshapes them as its
/// backend requires.
#[derive(Debug, PartialEq, Eq)]
pub enum DataType {
    /// An array of another type.
    Array(Box<DataType>),
    /// A boolean.
    Bool,
    /// A sequence of raw bytes.
    Bytes,
    /// A calendar date.
    Date,
    /// An exact decimal number.
    Decimal,
    /// A 4-byte floating point number.
    Float32,
    /// An 8-byte floating point number.
    Float64,
    /// Geographic data in GeoJSON form, in the given coordinate system.
    GeoJson(Srid),
    /// A 2-byte integer.
    Int16,
    /// A 4-byte integer.
    Int32,
    /// An 8-byte integer.
    Int64,
    /// A JSON value.
    Json,
    /// A type that only the source database knows, by its native name.
    Other(String),
    /// A text string.
    Text,
    /// A timestamp without a time zone.
    TimestampWithoutTimeZone,
    /// A timestamp with a time zone.
    TimestampWithTimeZone,
    /// A UUID.
    Uuid,
}

/// The mathematical value of a [`DataType`].
pub enum DataTypeModel {
    Array(Box<DataTypeModel>),
    Bool,
    Bytes,
    Date,
    Decimal,
    Float32,
    Float64,
    GeoJson(Srid),
    Int16,
    Int32,
    Int64,
    Json,
    Other(Seq<char>),
    Text,
    TimestampWithoutTimeZone,
    TimestampWithTimeZone,
    Uuid,
}

impl View for DataType {
    type V = DataTypeModel;

    open spec fn view(&self) -> DataTypeModel
        decreases self,
    {
        match self {
            DataType::Array(element) => DataTypeModel::Array(Box::new((**element).view())),
            DataType::Bool => DataTypeModel::Bool,
            DataType::Bytes => DataTypeModel::Bytes,
            DataType::Date => DataTypeModel::Date,
            DataType::Decimal => DataTypeModel::Decimal,
            DataType::Float32 => DataTypeModel::Float32,
            DataType::Float64 => DataTypeModel::Float64,
            DataType::GeoJson(srid) => DataTypeModel::GeoJson(*srid),
            DataType::Int16 => DataTypeModel::Int16,
            DataType::Int32 => DataTypeModel::Int32,
            DataType::Int64 => DataTypeModel::Int64,
            DataType::Json => DataTypeModel::Json,
            DataType::Other(name) => DataTypeModel::Other(name@),
            DataType::Text => DataTypeModel::Text,
            DataType::TimestampWithoutTimeZone => DataTypeModel::TimestampWithoutTimeZone,
            DataType::TimestampWithTimeZone => DataTypeModel::TimestampWithTimeZone,
            DataType::Uuid => DataTypeModel::Uuid,
        }
    }
}

impl Clone for DataType {
    fn clone(&self) -> (copy: DataType)
        ensures
            copy@ == self@,
        decreases self,
    {
        match self {
            DataType::Array(element) => {
                let inner: &DataType = &**element;
                DataType::Array(Box::new(inner.clone()))
            },
            DataType::Bool => DataType::Bool,
            DataType::Bytes => DataType::Bytes,
            DataType::Date => DataType::Date,
            DataType::Decimal => DataType::Decimal,
            DataType::Float32 => DataType::Float32,
            DataType::Float64 => DataType::Float64,
            DataType::GeoJson(srid) => DataType::GeoJson(*srid),
            DataType::Int16 => DataType::Int16,
            DataType::Int32 => DataType::Int32,
            DataType::Int64 => DataType::Int64,
            DataType::Json => DataType::Json,
            DataType::Other(name) => DataType::Other(name.clone()),
            DataType::Text => DataType::Text,
            DataType::TimestampWithoutTimeZone => DataType::TimestampWithoutTimeZone,
            DataType::TimestampWithTimeZone => DataType::TimestampWithTimeZone,
            DataType::Uuid => DataType::Uuid,
        }
    }
}

impl DataTypeModel {
    /// How many array layers wrap the innermost element type.
    pub open spec fn array_depth(self) -> nat
        decreases self,
    {
        match self {
            DataTypeModel::Array(element) => 1 + element.array_depth(),
            _ => 0,
        }
    }
}

/// A column of a table.
#[derive(Debug, PartialEq, Eq)]
pub struct Column {
    /// The column's name.
    pub name: String,
    /// The type of the column's values.
    pub data_type: DataType,
    /// May the column hold missing values?
    pub is_nullable: bool,
    /// What the column is for, in words.
    pub comment: Option<String>,
}

/// The mathematical value of a [`Column`].
pub struct ColumnModel {
    pub name: Seq<char>,
    pub data_type: DataTypeModel,
    pub is_nullable: bool,
    pub comment: Option<Seq<char>>,
}

impl View for Column {
    type V = ColumnModel;

    open spec fn view(&self) -> ColumnModel {
        ColumnModel {
            name: self.name@,
            data_type: self.data_type@,
            is_nullable: self.is_nullable,
            comment: match self.comment {
                Some(text) => Some(text@),
                None => None,
            },
        }
    }
}

impl Clone for Column {
    fn clone(&self) -> (copy: Column)
        ensures
            copy@ == self@,
    {
        Column {
            name: self.name.clone(),
            data_type: self.data_type.clone(),
            is_nullable: self.is_nullable,
            comment: match &self.comment {
                Some(text) => Some(text.clone()),
                None => None,
            },
        }
    }
}

/// A table: a name and columns. The order of the columns is part of the
/// table: it is the order of the fields in each row of its data.
#[derive(Debug, PartialEq, Eq)]
pub struct Table {
    /// The table's name, with the name of its schema or dataset before a
    /// `.` where it has one.
    pub name: String,
    /// The table's columns, in order.
    pub columns: Vec<Column>,
}

/// The mathematical value of a [`Table`].
pub struct TableModel {
    pub name: Seq<char>,
    pub columns: Seq<ColumnModel>,
}

impl View for Table {
    type V = TableModel;

    open spec fn view(&self) -> TableModel {
        TableModel {
            name: self.name@,
            columns: Seq::new(self.columns@.len(), |i: int| self.columns@[i]@),
        }
    }
}

impl Clone for Table {
    fn clone(&self) -> (copy: Table)
        ensures
            copy@ == self@,
    {
        let mut columns: Vec<Column> = Vec::new();
        let mut i: usize = 0;
        while i < self.columns.len()
            invariant
                i <= self.columns.len(),
                columns.len() == i,
                forall|k: int| 0 <= k < i ==> (#[trigger] columns[k])@ == self.columns[k]@,
            decreases self.columns.len() - i,
        {
            columns.push(self.columns[i].clone());
            i += 1;
        }
        let copy = Table { name: self.name.clone(), columns };
        assert(copy@.columns =~= self@.columns);
        copy
    }
}

/// Do the columns of a table have names that differ from one another,
/// letter for letter?
pub open spec fn column_names_differ(columns: Seq<ColumnModel>) -> bool {
    forall|i: int, j: int|
        0 <= i < j < columns.len() ==> (#[trigger] columns[i]).name != (#[trigger] columns[j]).name
}

impl Table {
    /// Do the columns of this table have names that differ from one another?
    pub fn has_distinct_column_names(&self) -> (distinct: bool)
        ensures
            distinct == column_names_differ(self@.columns),
    {
        let ghost model = self@.columns;
        let mut j: usize = 0;
        while j < self.columns.len()
            invariant
                j <= self.columns.len(),
                model == self@.columns,
                forall|k: int, l: int|
                    0 <= k < l < j ==> (#[trigger] model[k]).name != (#[trigger] model[l]).name,
            decreases self.columns.len() - j,
        {
            let mut i: usize = 0;
            while i < j
                invariant
                    i <= j < self.columns.len(),
                    model == self@.columns,
                    forall|k: int| 0 <= k < i ==> (#[trigger] model[k]).name != model[j as int].name,
                decreases j - i,
            {
                if self.columns[i].name == self.columns[j].name {
                    assert(model[i as int].name == model[j as int].name);
                    return false;
                }
                i += 1;
            }
            j += 1;
        }
        true
    }
}

} // verus!
