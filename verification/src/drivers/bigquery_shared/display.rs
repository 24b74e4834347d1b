//! How BigQuery types are written as text.
//!
//! The text is the one BigQuery itself uses in schemas and in SQL, with no
//! optional white space: `ARRAY<STRUCT<x FLOAT64,y FLOAT64>>`.

use super::data_type::{
    names_valid, names_valid_field, names_valid_non_array, BqDataType, BqDataTypeModel,
    BqNonArrayDataType, BqNonArrayDataTypeModel, BqRecordOrNonArrayDataType,
    BqRecordOrNonArrayDataTypeModel, BqStructField, BqStructFieldModel,
};
use super::grammar::{data_type_of_text, non_array_of_text, record_or_non_array_of_text};
use super::round_trip::{
    lemma_data_type_round_trip, lemma_non_array_round_trip, lemma_record_or_non_array_round_trip,
};
use crate::error::ParseError;
use vstd::prelude::*;
use vstd::string::StringExecFns;

verus! {

/// The text of a type that is not an array.
pub open spec fn non_array_text(ty: BqNonArrayDataTypeModel) -> Seq<char>
    decreases ty, 0nat,
{
    match ty {
        BqNonArrayDataTypeModel::Bool => "BOOL"@,
        BqNonArrayDataTypeModel::Bytes => "BYTES"@,
        BqNonArrayDataTypeModel::Date => "DATE"@,
        BqNonArrayDataTypeModel::Datetime => "DATETIME"@,
        BqNonArrayDataTypeModel::Float64 => "FLOAT64"@,
        BqNonArrayDataTypeModel::Geography => "GEOGRAPHY"@,
        BqNonArrayDataTypeModel::Int64 => "INT64"@,
        BqNonArrayDataTypeModel::Numeric => "NUMERIC"@,
        BqNonArrayDataTypeModel::String => "STRING"@,
        BqNonArrayDataTypeModel::Struct(fields) => "STRUCT<"@ + fields_text(fields, 0) + ">"@,
        BqNonArrayDataTypeModel::Time => "TIME"@,
        BqNonArrayDataTypeModel::Timestamp => "TIMESTAMP"@,
    }
}

/// The text of the fields of a struct from the one at index `from` on, with
/// a comma between each two.
pub open spec fn fields_text(fields: Seq<BqStructFieldModel>, from: int) -> Seq<char>
    decreases fields, fields.len() - from,
{
    if 0 <= from < fields.len() {
        if from + 1 < fields.len() {
            field_text(fields[from]) + ","@ + fields_text(fields, from + 1)
        } else {
            field_text(fields[from])
        }
    } else {
        Seq::empty()
    }
}

/// The text of one field of a struct: its name and a space, if it has a
/// name, then its type.
pub open spec fn field_text(field: BqStructFieldModel) -> Seq<char>
    decreases field, 0nat,
{
    match field.name {
        Some(name) => name + " "@ + data_type_text(field.ty),
        None => data_type_text(field.ty),
    }
}

/// The text of a type.
pub open spec fn data_type_text(ty: BqDataTypeModel) -> Seq<char>
    decreases ty, 0nat,
{
    match ty {
        BqDataTypeModel::Array(element) => "ARRAY<"@ + non_array_text(element) + ">"@,
        BqDataTypeModel::NonArray(ty) => non_array_text(ty),
    }
}

/// The text of a schema file's `type` entry.
pub open spec fn record_or_non_array_text(ty: BqRecordOrNonArrayDataTypeModel) -> Seq<char> {
    match ty {
        BqRecordOrNonArrayDataTypeModel::Record => "RECORD"@,
        BqRecordOrNonArrayDataTypeModel::DataType(ty) => non_array_text(ty),
    }
}

/// What remains to be written of a struct's fields once the first `done` of
/// them are written: a comma, unless nothing or everything is written, and
/// the other fields.
spec fn fields_text_left(fields: Seq<BqStructFieldModel>, done: int) -> Seq<char> {
    if 0 < done < fields.len() {
        ","@ + fields_text(fields, done)
    } else {
        fields_text(fields, done)
    }
}

impl BqDataType {
    /// This type as text. Every field name in it is a legal name, so the
    /// text reads back as this type.
    pub fn to_string(&self) -> (text: String)
        ensures
            text@ == data_type_text(self@),
            names_valid(self@),
            data_type_of_text(text@) == Ok::<BqDataTypeModel, ParseError>(self@),
    {
        let mut text = String::new();
        self.write_text(&mut text);
        proof {
            lemma_data_type_round_trip(self@);
        }
        text
    }

    /// Appends this type's text to `out`.
    pub fn write_text(&self, out: &mut String)
        ensures
            final(out)@ == old(out)@ + data_type_text(self@),
            names_valid(self@),
        decreases self,
    {
        match self {
            BqDataType::Array(element) => {
                out.append("ARRAY<");
                element.write_text(out);
                out.append(">");
            },
            BqDataType::NonArray(ty) => ty.write_text(out),
        }
    }
}

impl BqStructField {
    /// This field as text. Its name and every field name in its type is a
    /// legal name.
    pub fn to_string(&self) -> (text: String)
        ensures
            text@ == field_text(self@),
            names_valid_field(self@),
    {
        let mut text = String::new();
        self.write_text(&mut text);
        text
    }

    /// Appends this field's text to `out`.
    pub fn write_text(&self, out: &mut String)
        ensures
            final(out)@ == old(out)@ + field_text(self@),
            names_valid_field(self@),
        decreases self,
    {
        if let Some(name) = &self.name {
            out.append(name.as_str());
            out.append(" ");
        }
        self.ty.write_text(out);
    }
}

impl BqNonArrayDataType {
    /// This type as text. Every field name in it is a legal name, so the
    /// text reads back as this type.
    pub fn to_string(&self) -> (text: String)
        ensures
            text@ == non_array_text(self@),
            names_valid_non_array(self@),
            non_array_of_text(text@) == Ok::<BqNonArrayDataTypeModel, ParseError>(self@),
    {
        let mut text = String::new();
        self.write_text(&mut text);
        proof {
            lemma_non_array_round_trip(self@);
        }
        text
    }

    /// Appends this type's text to `out`.
    pub fn write_text(&self, out: &mut String)
        ensures
            final(out)@ == old(out)@ + non_array_text(self@),
            names_valid_non_array(self@),
        decreases self,
    {
        match self {
            BqNonArrayDataType::Bool => out.append("BOOL"),
            BqNonArrayDataType::Bytes => out.append("BYTES"),
            BqNonArrayDataType::Date => out.append("DATE"),
            BqNonArrayDataType::Datetime => out.append("DATETIME"),
            BqNonArrayDataType::Float64 => out.append("FLOAT64"),
            BqNonArrayDataType::Geography => out.append("GEOGRAPHY"),
            BqNonArrayDataType::Int64 => out.append("INT64"),
            BqNonArrayDataType::Numeric => out.append("NUMERIC"),
            BqNonArrayDataType::String => out.append("STRING"),
            BqNonArrayDataType::Struct(fields) => {
                let ghost model = self@->Struct_0;
                out.append("STRUCT<");
                let ghost opened = out@;
                let mut i: usize = 0;
                while i < fields.len()
                    invariant
                        self is Struct,
                        self->Struct_0 == *fields,
                        model == self@->Struct_0,
                        i <= fields.len(),
                        forall|k: int| 0 <= k < i ==> names_valid_field(#[trigger] model[k]),
                        out@ + fields_text_left(model, i as int) == opened + fields_text(model, 0),
                    decreases fields.len() - i,
                {
                    if i > 0 {
                        out.append(",");
                    }
                    fields[i].write_text(out);
                    i += 1;
                }
                out.append(">");
            },
            BqNonArrayDataType::Time => out.append("TIME"),
            BqNonArrayDataType::Timestamp => out.append("TIMESTAMP"),
        }
    }
}

impl BqRecordOrNonArrayDataType {
    /// This entry as text. Every field name in it is a legal name, so the
    /// text reads back as this entry.
    pub fn to_string(&self) -> (text: String)
        ensures
            text@ == record_or_non_array_text(self@),
            self@ matches BqRecordOrNonArrayDataTypeModel::DataType(ty) ==> names_valid_non_array(
                ty,
            ),
            record_or_non_array_of_text(text@) == Ok::<
                BqRecordOrNonArrayDataTypeModel,
                ParseError,
            >(self@),
    {
        let mut text = String::new();
        match self {
            BqRecordOrNonArrayDataType::Record => text.append("RECORD"),
            BqRecordOrNonArrayDataType::DataType(ty) => ty.write_text(&mut text),
        }
        proof {
            lemma_record_or_non_array_round_trip(self@);
        }
        text
    }
}

} // verus!
