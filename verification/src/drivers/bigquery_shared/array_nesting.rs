//! No array directly inside an array.
//!
//! BigQuery rejects `ARRAY<ARRAY<...>>`. The types of this library cannot
//! hold such a value, and so their text never names one: this module proves
//! that of the text itself, which is what BigQuery gets to see.

use super::data_type::{
    names_valid, names_valid_field, names_valid_non_array, BqDataTypeModel,
    BqNonArrayDataTypeModel, BqStructFieldModel,
};
use super::display::{data_type_text, field_text, fields_text, non_array_text};
use super::round_trip::has_text;
use vstd::prelude::*;

verus! {

/// Does `<A` never follow a `Y` in `t`? The only `<` that follows a `Y` in
/// the text of a type is that of `ARRAY<`, and the only `A` that follows a
/// `<` begins a name or `ARRAY`.
pub open spec fn no_array_after_array(t: Seq<char>) -> bool {
    forall|j: int|
        0 < j && j + 1 < t.len() && #[trigger] t[j] == '<' && t[j - 1] == 'Y' ==> t[j + 1] != 'A'
}

/// Is `t` empty, or does it begin with something other than `<`?
spec fn no_sign_first(t: Seq<char>) -> bool {
    t.len() > 0 ==> t[0] != '<'
}

/// Does `t` end in `Y<`?
spec fn ends_in_array_sign(t: Seq<char>) -> bool {
    t.len() >= 2 && t[t.len() - 1] == '<' && t[t.len() - 2] == 'Y'
}

/// What the signs and words are made of, as far as this proof needs it.
proof fn lemma_pieces()
    ensures
        no_array_after_array("STRUCT<"@),
        no_sign_first("STRUCT<"@),
        !ends_in_array_sign("STRUCT<"@),
        "STRUCT<"@.len() == 7,
        "STRUCT<"@[0] == 'S',
        no_array_after_array("ARRAY<"@),
        no_sign_first("ARRAY<"@),
        "ARRAY<"@.len() == 6,
        no_array_after_array(">"@),
        no_sign_first(">"@),
        !ends_in_array_sign(">"@),
        ">"@.len() == 1,
        ">"@[0] == '>',
        no_array_after_array(","@),
        no_sign_first(","@),
        !ends_in_array_sign(","@),
        ","@.len() == 1,
        ","@[0] == ',',
        no_array_after_array(" "@),
        no_sign_first(" "@),
        !ends_in_array_sign(" "@),
        " "@.len() == 1,
        " "@[0] == ' ',
{
    reveal_strlit("STRUCT<");
    reveal_strlit("ARRAY<");
    reveal_strlit(">");
    reveal_strlit(",");
    reveal_strlit(" ");
}

/// The text of a type that is written as one word holds no `<` and does
/// not begin with `A`.
proof fn lemma_keyword(ty: BqNonArrayDataTypeModel)
    requires
        !(ty is Struct),
    ensures
        no_array_after_array(non_array_text(ty)),
        non_array_text(ty).len() > 0,
        non_array_text(ty)[0] != 'A',
        non_array_text(ty)[0] != '<',
        !ends_in_array_sign(non_array_text(ty)),
{
    reveal_strlit("BOOL");
    reveal_strlit("BYTES");
    reveal_strlit("DATE");
    reveal_strlit("DATETIME");
    reveal_strlit("FLOAT64");
    reveal_strlit("GEOGRAPHY");
    reveal_strlit("INT64");
    reveal_strlit("NUMERIC");
    reveal_strlit("STRING");
    reveal_strlit("TIME");
    reveal_strlit("TIMESTAMP");
}

/// In the text of a type that is not an array, `<A` never follows a `Y`;
/// the text begins with neither `A` nor `<` and does not end in `<`.
proof fn lemma_non_array(ty: BqNonArrayDataTypeModel)
    requires
        names_valid_non_array(ty),
    ensures
        no_array_after_array(non_array_text(ty)),
        non_array_text(ty).len() > 0,
        non_array_text(ty)[0] != 'A',
        non_array_text(ty)[0] != '<',
        !ends_in_array_sign(non_array_text(ty)),
    decreases ty, 0nat,
{
    match ty {
        BqNonArrayDataTypeModel::Struct(fields) => {
            lemma_pieces();
            lemma_fields(fields, 0);
        },
        _ => {
            lemma_keyword(ty);
        },
    }
}

/// In the text of a struct's fields from the one at index `from` on, `<A`
/// never follows a `Y`; the text does not begin with `<` and does not end
/// in `<`.
proof fn lemma_fields(fields: Seq<BqStructFieldModel>, from: int)
    requires
        forall|i: int| 0 <= i < fields.len() ==> names_valid_field(#[trigger] fields[i]),
        0 <= from,
    ensures
        no_array_after_array(fields_text(fields, from)),
        no_sign_first(fields_text(fields, from)),
        !ends_in_array_sign(fields_text(fields, from)),
    decreases fields, fields.len() - from,
{
    if from < fields.len() {
        lemma_field(fields[from]);
        if from + 1 < fields.len() {
            lemma_pieces();
            lemma_fields(fields, from + 1);
        }
    }
}

/// In the text of a field, `<A` never follows a `Y`; the text does not
/// begin with `<` and does not end in `<`.
proof fn lemma_field(field: BqStructFieldModel)
    requires
        names_valid_field(field),
    ensures
        no_array_after_array(field_text(field)),
        field_text(field).len() > 0,
        no_sign_first(field_text(field)),
        !ends_in_array_sign(field_text(field)),
    decreases field, 0nat,
{
    lemma_data_type(field.ty);
    if field.name is Some {
        lemma_pieces();
    }
}

/// In the text of a type, `<A` never follows a `Y`; the text does not
/// begin with `<` and does not end in `<`.
proof fn lemma_data_type(ty: BqDataTypeModel)
    requires
        names_valid(ty),
    ensures
        no_array_after_array(data_type_text(ty)),
        data_type_text(ty).len() > 0,
        no_sign_first(data_type_text(ty)),
        !ends_in_array_sign(data_type_text(ty)),
    decreases ty, 0nat,
{
    match ty {
        BqDataTypeModel::Array(element) => {
            lemma_pieces();
            lemma_non_array(element);
        },
        BqDataTypeModel::NonArray(inner) => {
            lemma_non_array(inner);
        },
    }
}

/// The text of a type nowhere holds `ARRAY<ARRAY<`: no array stands
/// directly inside an array.
pub proof fn lemma_no_array_of_arrays(ty: BqDataTypeModel, pos: int)
    requires
        names_valid(ty),
    ensures
        !has_text(data_type_text(ty), pos, "ARRAY<ARRAY<"@),
{
    lemma_data_type(ty);
    reveal_strlit("ARRAY<ARRAY<");
    let t = data_type_text(ty);
    let sign = "ARRAY<ARRAY<"@;
    if has_text(t, pos, sign) {
        assert(t[pos + 4] == sign[4]);
        assert(t[pos + 5] == sign[5]);
        assert(t[pos + 6] == sign[6]);
    }
}

} // verus!
