//! Reading back what was written: the parser undoes the printer.

use super::column_name::{is_name_char, is_name_start, lemma_name_end_is, name_end};
use super::data_type::{
    names_valid, names_valid_field, names_valid_non_array, BqDataTypeModel,
    BqNonArrayDataTypeModel, BqRecordOrNonArrayDataTypeModel, BqStructFieldModel,
};
use super::display::{
    data_type_text, field_text, fields_text, non_array_text, record_or_non_array_text,
};
use super::grammar::{
    data_type_of_text, is_space, keyword_type, non_array_of_text, parse_data_type, parse_field,
    parse_fields, parse_non_array, record_or_non_array_of_text, spaces_end, word_at,
};
use crate::error::ParseError;
use vstd::prelude::*;

verus! {

/// Is `word` a letter or underscore followed by letters, digits and
/// underscores?
pub open spec fn is_word(word: Seq<char>) -> bool {
    &&& word.len() > 0
    &&& is_name_start(word[0])
    &&& forall|i: int| 0 <= i < word.len() ==> is_name_char(#[trigger] word[i])
}

/// Does `s` hold the text `t` at `pos`?
pub open spec fn has_text(s: Seq<char>, pos: int, t: Seq<char>) -> bool {
    &&& 0 <= pos
    &&& pos + t.len() <= s.len()
    &&& forall|i: int| 0 <= i < t.len() ==> s[pos + i] == #[trigger] t[i]
}

/// Does the text of a type end at `end`: is `end` the end of `s`, or the
/// place of a sign that may follow a type?
pub open spec fn type_ends(s: Seq<char>, end: int) -> bool {
    end == s.len() || (0 <= end < s.len() && (s[end] == ',' || s[end] == '>'))
}

/// The word with which the text of `ty` begins.
pub open spec fn first_word_non_array(ty: BqNonArrayDataTypeModel) -> Seq<char> {
    match ty {
        BqNonArrayDataTypeModel::Struct(_) => "STRUCT"@,
        _ => non_array_text(ty),
    }
}

/// The word with which the text of `ty` begins.
pub open spec fn first_word(ty: BqDataTypeModel) -> Seq<char> {
    match ty {
        BqDataTypeModel::Array(_) => "ARRAY"@,
        BqDataTypeModel::NonArray(ty) => first_word_non_array(ty),
    }
}

/// What the signs and the words that open a struct or an array are made of.
proof fn lemma_signs()
    ensures
        "STRUCT<"@ == "STRUCT"@ + seq!['<'],
        "ARRAY<"@ == "ARRAY"@ + seq!['<'],
        ">"@ == seq!['>'],
        ","@ == seq![','],
        " "@ == seq![' '],
        is_word("STRUCT"@),
        is_word("ARRAY"@),
        is_word("RECORD"@),
        "STRUCT"@.len() == 6,
        "ARRAY"@.len() == 5,
        "RECORD"@.len() == 6,
        "STRUCT"@ != "ARRAY"@,
        "STRUCT"@ != "RECORD"@,
{
    reveal_strlit("STRUCT<");
    reveal_strlit("STRUCT");
    reveal_strlit("ARRAY<");
    reveal_strlit("ARRAY");
    reveal_strlit("RECORD");
    reveal_strlit(">");
    reveal_strlit(",");
    reveal_strlit(" ");
}

/// The words of the grammar differ from one another.
proof fn lemma_words_differ()
    ensures
        "BOOL"@.len() == 4 && "BOOL"@[0] == 'B',
        "BOOLEAN"@.len() == 7 && "BOOLEAN"@[0] == 'B',
        "BYTES"@.len() == 5 && "BYTES"@[0] == 'B',
        "DATE"@.len() == 4 && "DATE"@[0] == 'D',
        "DATETIME"@.len() == 8 && "DATETIME"@[0] == 'D',
        "FLOAT64"@.len() == 7 && "FLOAT64"@[0] == 'F',
        "GEOGRAPHY"@.len() == 9 && "GEOGRAPHY"@[0] == 'G',
        "INT64"@.len() == 5 && "INT64"@[0] == 'I',
        "NUMERIC"@.len() == 7 && "NUMERIC"@[0] == 'N',
        "STRING"@.len() == 6 && "STRING"@[0] == 'S' && "STRING"@[3] == 'I',
        "TIME"@.len() == 4 && "TIME"@[0] == 'T',
        "TIMESTAMP"@.len() == 9 && "TIMESTAMP"@[0] == 'T',
        "STRUCT"@.len() == 6 && "STRUCT"@[0] == 'S' && "STRUCT"@[3] == 'U',
        "ARRAY"@.len() == 5 && "ARRAY"@[0] == 'A',
        "RECORD"@.len() == 6 && "RECORD"@[0] == 'R',
{
    reveal_strlit("STRUCT");
    reveal_strlit("ARRAY");
    reveal_strlit("RECORD");
    reveal_strlit("BOOL");
    reveal_strlit("BOOLEAN");
    reveal_strlit("BYTES");
    reveal_strlit("DATE");
    reveal_strlit("DATETIME");
    reveal_strlit("FLOAT64");
    reveal_strlit("GEOGRAPHY");
    reveal_strlit("INT64");
    reveal_strlit("NUMERIC");
    reveal_strlit("STRING");
    reveal_strlit("TIME");
    reveal_strlit("TIMESTAMP");
}

/// The text of a type that is written as one word is a word.
proof fn lemma_keyword_is_word(ty: BqNonArrayDataTypeModel)
    requires
        !(ty is Struct),
    ensures
        is_word(non_array_text(ty)),
{
    reveal_strlit("BOOL");
    reveal_strlit("BYTES");
    reveal_strlit("DATE");
    reveal_strlit("DATETIME");
    reveal_strlit("FLOAT64");
    reveal_strlit("GEOGRAPHY");
    reveal_strlit("INT64");
    reveal_strlit("NUMERIC");
    reveal_strlit("STRING");
    reveal_strlit("TIME");
    reveal_strlit("TIMESTAMP");
}

/// The text of a type that is written as one word names that type and is
/// none of `STRUCT`, `ARRAY` and `RECORD`.
proof fn lemma_keywords(ty: BqNonArrayDataTypeModel)
    requires
        !(ty is Struct),
    ensures
        is_word(non_array_text(ty)),
        keyword_type(non_array_text(ty)) == Some(ty),
        non_array_text(ty) != "STRUCT"@,
        non_array_text(ty) != "ARRAY"@,
        non_array_text(ty) != "RECORD"@,
{
    lemma_words_differ();
    lemma_keyword_is_word(ty);
}

/// A text that holds two texts in a row holds each of them.
proof fn lemma_has_text_split(s: Seq<char>, pos: int, a: Seq<char>, b: Seq<char>)
    requires
        has_text(s, pos, a + b),
    ensures
        has_text(s, pos, a),
        has_text(s, pos + a.len(), b),
{
    assert forall|i: int| 0 <= i < a.len() implies s[pos + i] == #[trigger] a[i] by {
        assert((a + b)[i] == a[i]);
    }
    assert forall|i: int| 0 <= i < b.len() implies s[pos + a.len() + i] == #[trigger] b[i] by {
        assert((a + b)[a.len() + i] == b[i]);
    }
}

/// A word in the text, with no name character after it, is found as a word.
proof fn lemma_word_found(s: Seq<char>, pos: int, word: Seq<char>)
    requires
        is_word(word),
        has_text(s, pos, word),
        pos + word.len() == s.len() || !is_name_char(s[pos + word.len()]),
    ensures
        word_at(s, pos),
        name_end(s, pos) == pos + word.len(),
        s.subrange(pos, pos + word.len()) == word,
{
    assert forall|i: int| pos <= i < pos + word.len() implies is_name_char(#[trigger] s[i]) by {
        assert(s[pos + (i - pos)] == word[i - pos]);
    }
    lemma_name_end_is(s, pos, pos + word.len());
}

/// Where no white space stands, the run of white space is empty.
proof fn lemma_no_space(s: Seq<char>, pos: int)
    requires
        pos >= s.len() || pos < 0 || !is_space(s[pos]),
    ensures
        spaces_end(s, pos) == pos,
{
}

/// The text of a type that is not an array begins with its first word, and
/// either ends with it or goes on with `<`.
proof fn lemma_begins_non_array(ty: BqNonArrayDataTypeModel)
    ensures
        is_word(first_word_non_array(ty)),
        has_text(non_array_text(ty), 0, first_word_non_array(ty)),
        ty is Struct ==> non_array_text(ty)[first_word_non_array(ty).len() as int] == '<',
        !(ty is Struct) ==> non_array_text(ty) == first_word_non_array(ty),
{
    lemma_signs();
    if !(ty is Struct) {
        lemma_keywords(ty);
    }
}

/// The text of a type begins with its first word, and either ends with it
/// or goes on with `<`.
proof fn lemma_begins(ty: BqDataTypeModel)
    ensures
        is_word(first_word(ty)),
        has_text(data_type_text(ty), 0, first_word(ty)),
        data_type_text(ty).len() == first_word(ty).len() || data_type_text(ty)[first_word(
            ty,
        ).len() as int] == '<',
{
    lemma_signs();
    if let BqDataTypeModel::NonArray(ty) = ty {
        lemma_begins_non_array(ty);
    }
}

/// Where the text of a type stands, its first word is found, and neither
/// white space nor a name character follows that word.
proof fn lemma_first_word_found(ty: BqDataTypeModel, s: Seq<char>, pos: int)
    requires
        has_text(s, pos, data_type_text(ty)),
        type_ends(s, pos + data_type_text(ty).len()),
    ensures
        word_at(s, pos),
        name_end(s, pos) == pos + first_word(ty).len(),
        s.subrange(pos, name_end(s, pos)) == first_word(ty),
        spaces_end(s, name_end(s, pos)) == name_end(s, pos),
{
    lemma_begins(ty);
    lemma_word_found(s, pos, first_word(ty));
}

/// The text of a field begins with a character that may begin a word.
proof fn lemma_field_begins(field: BqStructFieldModel)
    requires
        names_valid_field(field),
    ensures
        field_text(field).len() > 0,
        is_name_start(field_text(field)[0]),
{
    lemma_begins(field.ty);
}

/// Where the text of a type that is not an array stands, and a type may
/// end after it, the grammar finds that type and takes that text.
pub proof fn lemma_parse_non_array(ty: BqNonArrayDataTypeModel, s: Seq<char>, pos: int)
    requires
        names_valid_non_array(ty),
        has_text(s, pos, non_array_text(ty)),
        type_ends(s, pos + non_array_text(ty).len()),
    ensures
        parse_non_array(s, pos) == Ok::<(BqNonArrayDataTypeModel, nat), ParseError>(
            (ty, non_array_text(ty).len()),
        ),
    decreases ty, 0nat,
{
    lemma_signs();
    let t = non_array_text(ty);
    match ty {
        BqNonArrayDataTypeModel::Struct(fields) => {
            let inner = fields_text(fields, 0);
            lemma_has_text_split(s, pos, ("STRUCT"@ + seq!['<']) + inner, seq!['>']);
            lemma_has_text_split(s, pos, "STRUCT"@ + seq!['<'], inner);
            lemma_has_text_split(s, pos, "STRUCT"@, seq!['<']);
            assert(s[pos + 6 + 0] == seq!['<'][0]);
            assert(s[pos + 7 + inner.len() + 0] == seq!['>'][0]);
            lemma_word_found(s, pos, "STRUCT"@);
            if fields.len() == 0 {
                assert(fields =~= Seq::empty());
            } else {
                lemma_field_begins(fields[0]);
                assert(inner[0] == field_text(fields[0])[0]);
                lemma_parse_fields(fields, 0, s, pos + 7);
                assert(fields.subrange(0, fields.len() as int) =~= fields);
            }
        },
        _ => {
            lemma_keywords(ty);
            lemma_word_found(s, pos, t);
        },
    }
}

/// Where the text of a struct's fields from the one at index `from` on
/// stands, and `>` after it, the grammar finds those fields and takes that
/// text and the `>`.
pub proof fn lemma_parse_fields(fields: Seq<BqStructFieldModel>, from: int, s: Seq<char>, pos: int)
    requires
        0 <= from < fields.len(),
        forall|i: int| 0 <= i < fields.len() ==> names_valid_field(#[trigger] fields[i]),
        has_text(s, pos, fields_text(fields, from)),
        pos + fields_text(fields, from).len() < s.len(),
        s[pos + fields_text(fields, from).len()] == '>',
    ensures
        parse_fields(s, pos) == Ok::<(Seq<BqStructFieldModel>, nat), ParseError>(
            (fields.subrange(from, fields.len() as int), (fields_text(fields, from).len() + 1) as nat),
        ),
    decreases fields, fields.len() - from,
{
    lemma_signs();
    let field = fields[from];
    let head = field_text(field);
    if from + 1 < fields.len() {
        let rest = fields_text(fields, from + 1);
        lemma_has_text_split(s, pos, head + seq![','], rest);
        lemma_has_text_split(s, pos, head, seq![',']);
        assert(s[pos + head.len() + 0] == seq![','][0]);
        lemma_parse_field(field, s, pos);
        lemma_field_begins(fields[from + 1]);
        assert(rest[0] == field_text(fields[from + 1])[0]);
        lemma_parse_fields(fields, from + 1, s, pos + head.len() + 1);
        assert(seq![field] + fields.subrange(from + 1, fields.len() as int) =~= fields.subrange(
            from,
            fields.len() as int,
        ));
    } else {
        lemma_parse_field(field, s, pos);
        assert(seq![field] =~= fields.subrange(from, fields.len() as int));
    }
}

/// Where the text of a field stands, and a type may end after it, the
/// grammar finds that field and takes that text.
pub proof fn lemma_parse_field(field: BqStructFieldModel, s: Seq<char>, pos: int)
    requires
        names_valid_field(field),
        has_text(s, pos, field_text(field)),
        type_ends(s, pos + field_text(field).len()),
    ensures
        parse_field(s, pos) == Ok::<(BqStructFieldModel, nat), ParseError>(
            (field, field_text(field).len()),
        ),
    decreases field, 0nat,
{
    lemma_signs();
    let t = data_type_text(field.ty);
    match field.name {
        Some(name) => {
            lemma_has_text_split(s, pos, name + seq![' '], t);
            lemma_has_text_split(s, pos, name, seq![' ']);
            let end = pos + name.len();
            assert(s[end + 0] == seq![' '][0]);
            lemma_word_found(s, pos, name);
            lemma_begins(field.ty);
            lemma_no_space(s, end + 1);
            lemma_parse_data_type(field.ty, s, end + 1);
        },
        None => {
            lemma_first_word_found(field.ty, s, pos);
            lemma_parse_data_type(field.ty, s, pos);
        },
    }
}

/// Where the text of a type stands, and a type may end after it, the
/// grammar finds that type and takes that text.
pub proof fn lemma_parse_data_type(ty: BqDataTypeModel, s: Seq<char>, pos: int)
    requires
        names_valid(ty),
        has_text(s, pos, data_type_text(ty)),
        type_ends(s, pos + data_type_text(ty).len()),
    ensures
        parse_data_type(s, pos) == Ok::<(BqDataTypeModel, nat), ParseError>(
            (ty, data_type_text(ty).len()),
        ),
    decreases ty, 0nat,
{
    lemma_signs();
    lemma_first_word_found(ty, s, pos);
    match ty {
        BqDataTypeModel::Array(element) => {
            let inner = non_array_text(element);
            lemma_has_text_split(s, pos, ("ARRAY"@ + seq!['<']) + inner, seq!['>']);
            lemma_has_text_split(s, pos, "ARRAY"@ + seq!['<'], inner);
            lemma_has_text_split(s, pos, "ARRAY"@, seq!['<']);
            assert(s[pos + 5 + 0] == seq!['<'][0]);
            assert(s[pos + 6 + inner.len() + 0] == seq!['>'][0]);
            lemma_parse_non_array(element, s, pos + 6);
        },
        BqDataTypeModel::NonArray(inner) => {
            if !(inner is Struct) {
                lemma_keywords(inner);
            }
            lemma_parse_non_array(inner, s, pos);
        },
    }
}

/// Parsing the text of a type gives that type back.
pub proof fn lemma_data_type_round_trip(ty: BqDataTypeModel)
    requires
        names_valid(ty),
    ensures
        data_type_of_text(data_type_text(ty)) == Ok::<BqDataTypeModel, ParseError>(ty),
{
    let s = data_type_text(ty);
    lemma_parse_data_type(ty, s, 0);
}

/// Parsing the text of a type that is not an array, where an array cannot
/// stand, gives that type back.
pub proof fn lemma_non_array_round_trip(ty: BqNonArrayDataTypeModel)
    requires
        names_valid_non_array(ty),
    ensures
        non_array_of_text(non_array_text(ty)) == Ok::<BqNonArrayDataTypeModel, ParseError>(ty),
{
    let s = non_array_text(ty);
    lemma_parse_non_array(ty, s, 0);
}

/// Parsing the text of a schema file's `type` entry gives that entry back.
pub proof fn lemma_record_or_non_array_round_trip(ty: BqRecordOrNonArrayDataTypeModel)
    requires
        ty matches BqRecordOrNonArrayDataTypeModel::DataType(inner) ==> names_valid_non_array(
            inner,
        ),
    ensures
        record_or_non_array_of_text(record_or_non_array_text(ty)) == Ok::<
            BqRecordOrNonArrayDataTypeModel,
            ParseError,
        >(ty),
{
    lemma_signs();
    let s = record_or_non_array_text(ty);
    match ty {
        BqRecordOrNonArrayDataTypeModel::Record => {
            lemma_word_found(s, 0, s);
        },
        BqRecordOrNonArrayDataTypeModel::DataType(inner) => {
            lemma_begins_non_array(inner);
            lemma_parse_non_array(inner, s, 0);
            if !(inner is Struct) {
                lemma_keywords(inner);
                lemma_word_found(s, 0, s);
            }
        },
    }
}

} // verus!
