//! Columns as BigQuery schema files describe them.
//!
//! A schema file is a list of columns, each with a `name`, a `type`, a
//! `mode` and, for a `RECORD`, nested `fields`. The type of a column is
//! spread over three of these: `REPEATED` as the mode makes it an array,
//! and `RECORD` as the type makes it a struct of the nested fields.

use super::column_name::{valid_column_name, ColumnName};
use super::data_type::{
    bq_for, portable_for, BqDataType, BqDataTypeModel, BqNonArrayDataType,
    BqNonArrayDataTypeModel, BqRecordOrNonArrayDataType, BqRecordOrNonArrayDataTypeModel,
    BqStructField, BqStructFieldModel, Usage,
};
use crate::error::{ok_view, ParseError, Unsupported};
use crate::schema::{Column, ColumnModel, Table};
use vstd::prelude::*;

verus! {

/// The `mode` of a column.
#[derive(Clone, Copy, Debug, PartialEq, Eq, Structural)]
pub enum Mode {
    /// The column may hold `NULL`. A column without a mode is nullable.
    Nullable,
    /// The column holds an array of its type.
    Repeated,
    /// The column may not hold `NULL`.
    Required,
}

impl Default for Mode {
    fn default() -> (mode: Mode)
        ensures
            mode == Mode::Nullable,
    {
        Mode::Nullable
    }
}

/// The word that stands for `mode` in a schema file.
pub open spec fn mode_text(mode: Mode) -> Seq<char> {
    match mode {
        Mode::Nullable => "NULLABLE"@,
        Mode::Repeated => "REPEATED"@,
        Mode::Required => "REQUIRED"@,
    }
}

impl Mode {
    /// The word that stands for this mode in a schema file.
    pub fn as_str(&self) -> (text: &'static str)
        ensures
            text@ == mode_text(*self),
    {
        match self {
            Mode::Nullable => "NULLABLE",
            Mode::Repeated => "REPEATED",
            Mode::Required => "REQUIRED",
        }
    }
}

/// A column of a BigQuery schema file.
#[derive(Debug, PartialEq, Eq)]
pub struct BqColumn {
    /// What the column is for, in words.
    pub description: Option<String>,
    /// The column's name.
    pub name: ColumnName,
    /// The column's type, but for what `mode` and `fields` add to it.
    pub ty: BqRecordOrNonArrayDataType,
    /// The fields of the struct, where `ty` is `RECORD`.
    pub fields: Vec<BqColumn>,
    /// The column's mode.
    pub mode: Mode,
}

/// The mathematical value of a [`BqColumn`].
pub struct BqColumnModel {
    pub description: Option<Seq<char>>,
    pub name: Seq<char>,
    pub ty: BqRecordOrNonArrayDataTypeModel,
    pub fields: Seq<BqColumnModel>,
    pub mode: Mode,
}

/// The values of the columns `columns`, in order.
pub open spec fn columns_model(columns: Seq<BqColumn>) -> Seq<BqColumnModel>
    decreases columns,
{
    Seq::new(
        columns.len(),
        |i: int|
            if 0 <= i < columns.len() {
                columns[i]@
            } else {
                arbitrary()
            },
    )
}

impl View for BqColumn {
    type V = BqColumnModel;

    open spec fn view(&self) -> BqColumnModel
        decreases self,
    {
        BqColumnModel {
            description: match self.description {
                Some(text) => Some(text@),
                None => None,
            },
            name: self.name@,
            ty: self.ty@,
            fields: columns_model(self.fields@),
            mode: self.mode,
        }
    }
}

/// The type that a `type` entry and nested fields stand for, before the
/// mode is taken into account: the entry itself, or for `RECORD` a struct
/// with one named field for each nested column.
pub open spec fn non_array_of_entry(
    ty: BqRecordOrNonArrayDataTypeModel,
    fields: Seq<BqColumnModel>,
) -> BqNonArrayDataTypeModel
    decreases fields, 0nat,
{
    match ty {
        BqRecordOrNonArrayDataTypeModel::Record => BqNonArrayDataTypeModel::Struct(
            Seq::new(
                fields.len(),
                |i: int|
                    if 0 <= i < fields.len() {
                        struct_field_of(fields[i])
                    } else {
                        arbitrary()
                    },
            ),
        ),
        BqRecordOrNonArrayDataTypeModel::DataType(ty) => ty,
    }
}

/// The type that a `type` entry, a mode and nested fields stand for: an
/// array of what the entry and the fields stand for if the mode is
/// `REPEATED`, and that type itself if not.
pub open spec fn data_type_of_entry(
    ty: BqRecordOrNonArrayDataTypeModel,
    mode: Mode,
    fields: Seq<BqColumnModel>,
) -> BqDataTypeModel
    decreases fields, 1nat,
{
    match mode {
        Mode::Repeated => BqDataTypeModel::Array(non_array_of_entry(ty, fields)),
        Mode::Nullable | Mode::Required => BqDataTypeModel::NonArray(non_array_of_entry(ty, fields)),
    }
}

/// The type of a column.
pub open spec fn data_type_of_column(column: BqColumnModel) -> BqDataTypeModel
    decreases column, 0nat,
{
    data_type_of_entry(column.ty, column.mode, column.fields)
}

/// The struct field that a nested column stands for: it has the column's
/// name and the column's type.
pub open spec fn struct_field_of(column: BqColumnModel) -> BqStructFieldModel
    decreases column, 1nat,
{
    BqStructFieldModel { name: Some(column.name), ty: data_type_of_column(column) }
}

impl BqRecordOrNonArrayDataType {
    /// The type of a column that has this `type` entry, the mode `mode` and
    /// the nested fields `fields`.
    pub fn to_bq_data_type(&self, mode: Mode, fields: &[BqColumn]) -> (r: Result<
        BqDataType,
        ParseError,
    >)
        ensures
            ok_view(r) == Ok::<BqDataTypeModel, ParseError>(
                data_type_of_entry(self@, mode, columns_model(fields@)),
            ),
        decreases fields@, 1nat,
    {
        let ty = match self.to_bq_non_array_data_type(fields) {
            Ok(ty) => ty,
            Err(e) => {
                return Err(e);
            },
        };
        match mode {
            Mode::Repeated => Ok(BqDataType::Array(ty)),
            Mode::Nullable | Mode::Required => Ok(BqDataType::NonArray(ty)),
        }
    }

    /// The type that this `type` entry and the nested fields `fields` stand
    /// for, before a mode is taken into account.
    pub fn to_bq_non_array_data_type(&self, fields: &[BqColumn]) -> (r: Result<
        BqNonArrayDataType,
        ParseError,
    >)
        ensures
            ok_view(r) == Ok::<BqNonArrayDataTypeModel, ParseError>(
                non_array_of_entry(self@, columns_model(fields@)),
            ),
        decreases fields@, 0nat,
    {
        match self {
            BqRecordOrNonArrayDataType::Record => {
                let mut struct_fields: Vec<BqStructField> = Vec::new();
                let mut i: usize = 0;
                while i < fields.len()
                    invariant
                        i <= fields.len(),
                        struct_fields.len() == i,
                        forall|k: int|
                            0 <= k < i ==> (#[trigger] struct_fields[k])@ == struct_field_of(
                                fields[k]@,
                            ),
                    decreases fields.len() - i,
                {
                    let field = match fields[i].to_struct_field() {
                        Ok(field) => field,
                        Err(e) => {
                            return Err(e);
                        },
                    };
                    struct_fields.push(field);
                    i += 1;
                }
                let ty = BqNonArrayDataType::Struct(struct_fields);
                assert(ty@->Struct_0 =~= non_array_of_entry(
                    self@,
                    columns_model(fields@),
                )->Struct_0);
                Ok(ty)
            },
            BqRecordOrNonArrayDataType::DataType(ty) => Ok(ty.clone()),
        }
    }
}

impl BqColumn {
    /// The type of this column.
    pub fn bq_data_type(&self) -> (r: Result<BqDataType, ParseError>)
        ensures
            ok_view(r) == Ok::<BqDataTypeModel, ParseError>(data_type_of_column(self@)),
        decreases self, 0nat,
    {
        self.ty.to_bq_data_type(self.mode, self.fields.as_slice())
    }

    /// The struct field that this column stands for when it is nested in a
    /// `RECORD`.
    pub fn to_struct_field(&self) -> (r: Result<BqStructField, ParseError>)
        ensures
            ok_view(r) == Ok::<BqStructFieldModel, ParseError>(struct_field_of(self@)),
        decreases self, 1nat,
    {
        match self.bq_data_type() {
            Ok(ty) => Ok(BqStructField { name: Some(self.name.clone()), ty }),
            Err(e) => Err(e),
        }
    }
}

/// The mode of a column that holds `ty`: an array is repeated; anything
/// else is nullable or required as the portable column says.
pub open spec fn mode_for(ty: BqDataTypeModel, is_nullable: bool) -> Mode {
    match ty {
        BqDataTypeModel::Array(_) => Mode::Repeated,
        BqDataTypeModel::NonArray(_) => if is_nullable {
            Mode::Nullable
        } else {
            Mode::Required
        },
    }
}

/// The schema-file column named `name` that holds the BigQuery type `ty`.
/// The type is written out in the `type` entry, not listed as nested
/// fields, and there is no description.
pub open spec fn column_holding(name: Seq<char>, ty: BqDataTypeModel, is_nullable: bool) -> BqColumnModel {
    BqColumnModel {
        description: None,
        name,
        ty: BqRecordOrNonArrayDataTypeModel::DataType(
            match ty {
                BqDataTypeModel::Array(element) => element,
                BqDataTypeModel::NonArray(ty) => ty,
            },
        ),
        fields: Seq::empty(),
        mode: mode_for(ty, is_nullable),
    }
}

/// The schema-file column named `name` for the portable column `column`
/// in the role `usage`.
pub open spec fn column_for(name: Seq<char>, column: ColumnModel, usage: Usage) -> Result<
    BqColumnModel,
    Unsupported,
> {
    match bq_for(column.data_type, usage) {
        Ok(ty) => Ok(column_holding(name, ty, column.is_nullable)),
        Err(e) => Err(e),
    }
}

/// The portable column that the schema-file column `column` stands for. It
/// may hold missing values unless the column is required.
pub open spec fn portable_column(column: BqColumnModel) -> Result<ColumnModel, ParseError> {
    match portable_for(data_type_of_column(column)) {
        Ok(data_type) => Ok(
            ColumnModel {
                name: column.name,
                data_type,
                is_nullable: column.mode != Mode::Required,
                comment: column.description,
            },
        ),
        Err(e) => Err(e),
    }
}

impl BqColumn {
    /// The schema-file column named `name` for the portable column
    /// `column` in the role `usage`.
    pub fn for_column(name: ColumnName, column: &Column, usage: Usage) -> (r: Result<
        BqColumn,
        Unsupported,
    >)
        ensures
            ok_view(r) == column_for(name@, column@, usage),
    {
        let (ty, mode) = match BqDataType::for_data_type(&column.data_type, usage) {
            Ok(BqDataType::Array(ty)) => (ty, Mode::Repeated),
            Ok(BqDataType::NonArray(ty)) => if column.is_nullable {
                (ty, Mode::Nullable)
            } else {
                (ty, Mode::Required)
            },
            Err(e) => {
                return Err(e);
            },
        };
        let bq_column = BqColumn {
            description: None,
            name,
            ty: BqRecordOrNonArrayDataType::DataType(ty),
            fields: Vec::new(),
            mode,
        };
        assert(bq_column@.fields =~= Seq::empty());
        Ok(bq_column)
    }

    /// The portable column that this column stands for.
    pub fn to_column(&self) -> (r: Result<Column, ParseError>)
        ensures
            ok_view(r) == portable_column(self@),
    {
        let bq_data_type = match self.bq_data_type() {
            Ok(ty) => ty,
            Err(e) => {
                return Err(e);
            },
        };
        let data_type = match bq_data_type.to_data_type() {
            Ok(data_type) => data_type,
            Err(e) => {
                return Err(e);
            },
        };
        Ok(
            Column {
                name: self.name.as_str().to_owned(),
                data_type,
                is_nullable: match self.mode {
                    Mode::Nullable | Mode::Repeated => true,
                    Mode::Required => false,
                },
                comment: match &self.description {
                    Some(text) => Some(text.clone()),
                    None => None,
                },
            },
        )
    }
}

/// A schema-file column made for a portable column has the BigQuery type
/// that the portable column's type maps to.
pub proof fn lemma_column_keeps_type(name: Seq<char>, column: ColumnModel, usage: Usage)
    requires
        bq_for(column.data_type, usage) is Ok,
    ensures
        column_for(name, column, usage) is Ok,
        data_type_of_column(column_for(name, column, usage)->Ok_0) == bq_for(
            column.data_type,
            usage,
        )->Ok_0,
{
}

/// Why a table and a schema file cannot stand for one another.
#[derive(Clone, Copy, Debug, PartialEq, Eq, Structural)]
pub enum TableError {
    /// The name of the column at this index is not a legal BigQuery name.
    InvalidName { column: usize },
    /// BigQuery cannot hold the type of the column at this index.
    Unsupported { column: usize, reason: Unsupported },
    /// The type of the column at this index has no portable counterpart.
    NoPortableType { column: usize },
}

/// The schema-file column for the portable column `column`, which is the
/// column at index `at` of its table, in the role `usage`.
pub open spec fn column_for_table(column: ColumnModel, at: int, usage: Usage) -> Result<
    BqColumnModel,
    TableError,
> {
    if !valid_column_name(column.name) {
        Err(TableError::InvalidName { column: at as usize })
    } else {
        match column_for(column.name, column, usage) {
            Ok(bq_column) => Ok(bq_column),
            Err(reason) => Err(TableError::Unsupported { column: at as usize, reason }),
        }
    }
}

/// The schema-file columns for the first `n` of the portable columns
/// `columns`, in their order, or what is wrong with the first column that
/// has no counterpart.
pub open spec fn columns_for_table(columns: Seq<ColumnModel>, usage: Usage, n: int) -> Result<
    Seq<BqColumnModel>,
    TableError,
>
    decreases n,
{
    if n <= 0 {
        Ok(Seq::empty())
    } else {
        match columns_for_table(columns, usage, n - 1) {
            Ok(done) => match column_for_table(columns[n - 1], n - 1, usage) {
                Ok(column) => Ok(done.push(column)),
                Err(e) => Err(e),
            },
            Err(e) => Err(e),
        }
    }
}

/// The portable columns that the first `n` of the schema-file columns
/// `columns` stand for, in their order, or the first column whose type has
/// no portable counterpart.
pub open spec fn portable_columns(columns: Seq<BqColumnModel>, n: int) -> Result<
    Seq<ColumnModel>,
    TableError,
>
    decreases n,
{
    if n <= 0 {
        Ok(Seq::empty())
    } else {
        match portable_columns(columns, n - 1) {
            Ok(done) => match portable_column(columns[n - 1]) {
                Ok(column) => Ok(done.push(column)),
                Err(_) => Err(TableError::NoPortableType { column: (n - 1) as usize }),
            },
            Err(e) => Err(e),
        }
    }
}

/// Once a column has no counterpart, looking at more columns gives the
/// same error.
proof fn lemma_first_unsupported(columns: Seq<ColumnModel>, usage: Usage, n: int, m: int)
    requires
        0 <= n <= m,
        columns_for_table(columns, usage, n) is Err,
    ensures
        columns_for_table(columns, usage, m) == columns_for_table(columns, usage, n),
    decreases m - n,
{
    if n < m {
        lemma_first_unsupported(columns, usage, n, m - 1);
    }
}

/// Once a column has no portable counterpart, looking at more columns
/// gives the same error.
proof fn lemma_first_not_portable(columns: Seq<BqColumnModel>, n: int, m: int)
    requires
        0 <= n <= m,
        portable_columns(columns, n) is Err,
    ensures
        portable_columns(columns, m) == portable_columns(columns, n),
    decreases m - n,
{
    if n < m {
        lemma_first_not_portable(columns, n, m - 1);
    }
}

/// The schema-file columns for the table `table` in the role `usage`.
pub fn schema_for_table(table: &Table, usage: Usage) -> (r: Result<Vec<BqColumn>, TableError>)
    ensures
        (match r {
            Ok(columns) => columns_for_table(table@.columns, usage, table@.columns.len() as int)
                == Ok::<Seq<BqColumnModel>, TableError>(columns_model(columns@)),
            Err(e) => columns_for_table(table@.columns, usage, table@.columns.len() as int)
                == Err::<Seq<BqColumnModel>, TableError>(e),
        }),
{
    let ghost models = table@.columns;
    let mut columns: Vec<BqColumn> = Vec::new();
    let mut i: usize = 0;
    assert(columns_model(columns@) =~= Seq::empty());
    while i < table.columns.len()
        invariant
            i <= table.columns.len(),
            models == table@.columns,
            columns.len() == i,
            columns_for_table(models, usage, i as int) == Ok::<Seq<BqColumnModel>, TableError>(
                columns_model(columns@),
            ),
        decreases table.columns.len() - i,
    {
        let column = &table.columns[i];
        let name = match ColumnName::try_from(column.name.as_str()) {
            Ok(name) => name,
            Err(_) => {
                proof {
                    lemma_first_unsupported(models, usage, i as int + 1, models.len() as int);
                }
                return Err(TableError::InvalidName { column: i });
            },
        };
        let bq_column = match BqColumn::for_column(name, column, usage) {
            Ok(bq_column) => bq_column,
            Err(reason) => {
                proof {
                    lemma_first_unsupported(models, usage, i as int + 1, models.len() as int);
                }
                return Err(TableError::Unsupported { column: i, reason });
            },
        };
        let ghost before = columns_model(columns@);
        columns.push(bq_column);
        i += 1;
        assert(columns_model(columns@) =~= before.push(bq_column@));
    }
    Ok(columns)
}

/// The table named `name` that the schema-file columns `columns` stand
/// for.
pub fn table_for_schema(name: &str, columns: &Vec<BqColumn>) -> (r: Result<Table, TableError>)
    ensures
        (match r {
            Ok(table) => table@.name == name@ && portable_columns(
                columns_model(columns@),
                columns@.len() as int,
            ) == Ok::<Seq<ColumnModel>, TableError>(table@.columns),
            Err(e) => portable_columns(columns_model(columns@), columns@.len() as int) == Err::<
                Seq<ColumnModel>,
                TableError,
            >(e),
        }),
{
    let ghost models = columns_model(columns@);
    let mut portable: Vec<Column> = Vec::new();
    let mut i: usize = 0;
    assert(Seq::new(portable@.len(), |k: int| portable@[k]@) =~= Seq::<ColumnModel>::empty());
    while i < columns.len()
        invariant
            i <= columns.len(),
            models == columns_model(columns@),
            portable.len() == i,
            portable_columns(models, i as int) == Ok::<Seq<ColumnModel>, TableError>(
                Seq::new(portable@.len(), |k: int| portable@[k]@),
            ),
        decreases columns.len() - i,
    {
        let column = match columns[i].to_column() {
            Ok(column) => column,
            Err(_) => {
                proof {
                    lemma_first_not_portable(models, i as int + 1, models.len() as int);
                }
                return Err(TableError::NoPortableType { column: i });
            },
        };
        let ghost before = Seq::new(portable@.len(), |k: int| portable@[k]@);
        portable.push(column);
        i += 1;
        assert(Seq::new(portable@.len(), |k: int| portable@[k]@) =~= before.push(column@));
    }
    Ok(Table { name: name.to_owned(), columns: portable })
}

} // verus!
