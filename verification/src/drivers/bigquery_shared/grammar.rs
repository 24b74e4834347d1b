//! The grammar of BigQuery types, and a parser for it.
//!
//! ```text
//! data_type                 = "ARRAY" "<" non_array_data_type ">" | non_array_data_type
//! non_array_data_type       = "BOOL" | "BOOLEAN" | "BYTES" | "DATE" | "DATETIME" | "FLOAT64"
//!                           | "GEOGRAPHY" | "INT64" | "NUMERIC" | "STRING" | "TIME"
//!                           | "TIMESTAMP" | "STRUCT" "<" [ field { "," field } ] ">"
//! field                     = [ name ] data_type
//! record_or_non_array       = "RECORD" | non_array_data_type
//! ```
//!
//! A word is a letter or underscore followed by letters, digits and
//! underscores, as many as there are. Spaces, tabs and line ends may stand
//! around every word and sign; between a field's name and its type at least
//! one must stand. A word that opens a field is the field's name exactly
//! when white space and then another word follow it.
//!
//! The grammar is stated as functions on a sequence of characters and a
//! position in it. Each gives the value that the text at that position
//! denotes and the number of characters it takes up, or the error at the
//! first place where the text leaves the grammar.

use super::column_name::{
    invalid_name_position, is_name_start, lemma_name_end, lemma_name_end_is, name_end,
    name_start, scan_name, valid_column_name, ColumnName,
};
use super::data_type::{
    BqDataType, BqDataTypeModel, BqNonArrayDataType, BqNonArrayDataTypeModel,
    BqRecordOrNonArrayDataType, BqRecordOrNonArrayDataTypeModel, BqStructField,
    BqStructFieldModel,
};
use crate::error::{ok_view, Expected, ParseError, ParseErrorKind};
use crate::text::to_chars;
use vstd::prelude::*;

verus! {

/// Is `c` white space?
pub open spec fn is_space(c: char) -> bool {
    c == ' ' || c == '\t' || c == '\n' || c == '\r'
}

/// Where the run of white space that starts at `from` ends.
pub open spec fn spaces_end(s: Seq<char>, from: int) -> int
    decreases s.len() - from,
{
    if 0 <= from < s.len() && is_space(s[from]) {
        spaces_end(s, from + 1)
    } else {
        from
    }
}

/// Does a word begin at `pos`?
pub open spec fn word_at(s: Seq<char>, pos: int) -> bool {
    0 <= pos < s.len() && is_name_start(s[pos])
}

/// Is the character at `pos` the sign `c`?
pub open spec fn sign_at(s: Seq<char>, pos: int, c: char) -> bool {
    0 <= pos < s.len() && s[pos] == c
}

/// The error for text that leaves the grammar at `position`.
pub open spec fn syntax_error(position: int, expected: Expected) -> ParseError {
    ParseError { kind: ParseErrorKind::Syntax, position: position as usize, expected }
}

/// The error for the word that starts at `pos` and stands where a field's
/// name is due, but is not a legal name.
pub open spec fn name_error(pos: int, word: Seq<char>) -> ParseError {
    ParseError {
        kind: ParseErrorKind::InvalidName,
        position: (pos + invalid_name_position(word)) as usize,
        expected: Expected::ColumnName,
    }
}

/// The type that a word names by itself, if it names one.
pub open spec fn keyword_type(word: Seq<char>) -> Option<BqNonArrayDataTypeModel> {
    if word == "BOOL"@ || word == "BOOLEAN"@ {
        Some(BqNonArrayDataTypeModel::Bool)
    } else if word == "BYTES"@ {
        Some(BqNonArrayDataTypeModel::Bytes)
    } else if word == "DATE"@ {
        Some(BqNonArrayDataTypeModel::Date)
    } else if word == "DATETIME"@ {
        Some(BqNonArrayDataTypeModel::Datetime)
    } else if word == "FLOAT64"@ {
        Some(BqNonArrayDataTypeModel::Float64)
    } else if word == "GEOGRAPHY"@ {
        Some(BqNonArrayDataTypeModel::Geography)
    } else if word == "INT64"@ {
        Some(BqNonArrayDataTypeModel::Int64)
    } else if word == "NUMERIC"@ {
        Some(BqNonArrayDataTypeModel::Numeric)
    } else if word == "STRING"@ {
        Some(BqNonArrayDataTypeModel::String)
    } else if word == "TIME"@ {
        Some(BqNonArrayDataTypeModel::Time)
    } else if word == "TIMESTAMP"@ {
        Some(BqNonArrayDataTypeModel::Timestamp)
    } else {
        None
    }
}

/// The run of white space from `from` ends between `from` and the end of
/// `s`, and no white space follows it.
pub proof fn lemma_spaces_end(s: Seq<char>, from: int)
    requires
        0 <= from <= s.len(),
    ensures
        from <= spaces_end(s, from) <= s.len(),
        spaces_end(s, from) < s.len() ==> !is_space(s[spaces_end(s, from)]),
    decreases s.len() - from,
{
    if from < s.len() && is_space(s[from]) {
        lemma_spaces_end(s, from + 1);
    }
}

/// A type that is not an array, at `pos`.
pub open spec fn parse_non_array(s: Seq<char>, pos: int) -> Result<
    (BqNonArrayDataTypeModel, nat),
    ParseError,
>
    decreases s.len() - pos, 0nat,
{
    if !word_at(s, pos) {
        Err(syntax_error(pos, Expected::DataType))
    } else {
        let end = name_end(s, pos);
        let word = s.subrange(pos, end);
        if word == "STRUCT"@ {
            let angle = spaces_end(s, end);
            if !sign_at(s, angle, '<') {
                Err(syntax_error(angle, Expected::LeftAngle))
            } else {
                let first = spaces_end(s, angle + 1);
                if sign_at(s, first, '>') {
                    Ok((BqNonArrayDataTypeModel::Struct(Seq::empty()), (first + 1 - pos) as nat))
                } else {
                    proof {
                        lemma_name_end(s, pos);
                        lemma_spaces_end(s, end);
                        lemma_spaces_end(s, angle + 1);
                    }
                    match parse_fields(s, first) {
                        Ok((fields, n)) => Ok(
                            (BqNonArrayDataTypeModel::Struct(fields), (first + n - pos) as nat),
                        ),
                        Err(e) => Err(e),
                    }
                }
            }
        } else {
            match keyword_type(word) {
                Some(ty) => Ok((ty, (end - pos) as nat)),
                None => Err(syntax_error(pos, Expected::DataType)),
            }
        }
    }
}

/// The fields of a struct from the one at `pos` on, and the `>` after the
/// last of them.
pub open spec fn parse_fields(s: Seq<char>, pos: int) -> Result<
    (Seq<BqStructFieldModel>, nat),
    ParseError,
>
    decreases s.len() - pos, 3nat,
{
    match parse_field(s, pos) {
        Err(e) => Err(e),
        Ok((field, n)) => {
            let sign = spaces_end(s, pos + n);
            if sign_at(s, sign, ',') {
                let next = spaces_end(s, sign + 1);
                proof {
                    lemma_spaces_end(s, pos + n);
                    lemma_spaces_end(s, sign + 1);
                }
                match parse_fields(s, next) {
                    Ok((rest, m)) => Ok((seq![field] + rest, (next + m - pos) as nat)),
                    Err(e) => Err(e),
                }
            } else if sign_at(s, sign, '>') {
                Ok((seq![field], (sign + 1 - pos) as nat))
            } else {
                Err(syntax_error(sign, Expected::CommaOrRightAngle))
            }
        },
    }
}

/// One field of a struct, at `pos`.
pub open spec fn parse_field(s: Seq<char>, pos: int) -> Result<(BqStructFieldModel, nat), ParseError>
    decreases s.len() - pos, 2nat,
{
    if !word_at(s, pos) {
        Err(syntax_error(pos, Expected::DataType))
    } else {
        let end = name_end(s, pos);
        let next = spaces_end(s, end);
        if end < next && word_at(s, next) {
            let name = s.subrange(pos, end);
            if !valid_column_name(name) {
                Err(name_error(pos, name))
            } else {
                proof {
                    lemma_name_end(s, pos);
                }
                match parse_data_type(s, next) {
                    Ok((ty, n)) => Ok(
                        (BqStructFieldModel { name: Some(name), ty }, (next + n - pos) as nat),
                    ),
                    Err(e) => Err(e),
                }
            }
        } else {
            match parse_data_type(s, pos) {
                Ok((ty, n)) => Ok((BqStructFieldModel { name: None, ty }, n)),
                Err(e) => Err(e),
            }
        }
    }
}

/// A type, at `pos`.
pub open spec fn parse_data_type(s: Seq<char>, pos: int) -> Result<(BqDataTypeModel, nat), ParseError>
    decreases s.len() - pos, 1nat,
{
    if !word_at(s, pos) {
        Err(syntax_error(pos, Expected::DataType))
    } else {
        let end = name_end(s, pos);
        if s.subrange(pos, end) == "ARRAY"@ {
            let angle = spaces_end(s, end);
            if !sign_at(s, angle, '<') {
                Err(syntax_error(angle, Expected::LeftAngle))
            } else {
                let start = spaces_end(s, angle + 1);
                proof {
                    lemma_name_end(s, pos);
                    lemma_spaces_end(s, end);
                    lemma_spaces_end(s, angle + 1);
                }
                match parse_non_array(s, start) {
                    Err(e) => Err(e),
                    Ok((element, n)) => {
                        let close = spaces_end(s, start + n);
                        if sign_at(s, close, '>') {
                            Ok((BqDataTypeModel::Array(element), (close + 1 - pos) as nat))
                        } else {
                            Err(syntax_error(close, Expected::RightAngle))
                        }
                    },
                }
            }
        } else {
            match parse_non_array(s, pos) {
                Ok((ty, n)) => Ok((BqDataTypeModel::NonArray(ty), n)),
                Err(e) => Err(e),
            }
        }
    }
}

/// A schema file's `type` entry, at `pos`.
pub open spec fn parse_record_or_non_array(s: Seq<char>, pos: int) -> Result<
    (BqRecordOrNonArrayDataTypeModel, nat),
    ParseError,
> {
    if word_at(s, pos) && s.subrange(pos, name_end(s, pos)) == "RECORD"@ {
        Ok((BqRecordOrNonArrayDataTypeModel::Record, (name_end(s, pos) - pos) as nat))
    } else {
        match parse_non_array(s, pos) {
            Ok((ty, n)) => Ok((BqRecordOrNonArrayDataTypeModel::DataType(ty), n)),
            Err(e) => Err(e),
        }
    }
}

/// What a whole text denotes, given what its part after the leading white
/// space denotes: the same, if nothing but white space follows that part.
pub open spec fn whole<T>(s: Seq<char>, part: Result<(T, nat), ParseError>) -> Result<
    T,
    ParseError,
> {
    match part {
        Err(e) => Err(e),
        Ok((value, n)) => {
            let end = spaces_end(s, spaces_end(s, 0) + n);
            if end == s.len() {
                Ok(value)
            } else {
                Err(syntax_error(end, Expected::EndOfInput))
            }
        },
    }
}

/// The type that the text `s` denotes.
pub open spec fn data_type_of_text(s: Seq<char>) -> Result<BqDataTypeModel, ParseError> {
    whole(s, parse_data_type(s, spaces_end(s, 0)))
}

/// The type that the text `s` denotes, where an array cannot stand.
pub open spec fn non_array_of_text(s: Seq<char>) -> Result<BqNonArrayDataTypeModel, ParseError> {
    whole(s, parse_non_array(s, spaces_end(s, 0)))
}

/// What the text `s` denotes as a schema file's `type` entry.
pub open spec fn record_or_non_array_of_text(s: Seq<char>) -> Result<
    BqRecordOrNonArrayDataTypeModel,
    ParseError,
> {
    whole(s, parse_record_or_non_array(s, spaces_end(s, 0)))
}

/// Does the outcome `r` of parsing at `pos`, in a text of `len` characters,
/// agree with what the grammar gives there?
pub open spec fn agrees<T: View>(
    r: Result<(T, usize), ParseError>,
    pos: usize,
    len: nat,
    grammar: Result<(T::V, nat), ParseError>,
) -> bool {
    match r {
        Ok((value, end)) => pos <= end <= len && grammar == Ok::<(T::V, nat), ParseError>(
            (value@, (end - pos) as nat),
        ),
        Err(e) => grammar == Err::<(T::V, nat), ParseError>(e),
    }
}

/// The fields of a struct, given the fields `before` that stand between
/// `first` and `pos`, and what the grammar gives for the fields from `pos`
/// on.
spec fn fields_after(
    before: Seq<BqStructFieldModel>,
    first: int,
    pos: int,
    rest: Result<(Seq<BqStructFieldModel>, nat), ParseError>,
) -> Result<(Seq<BqStructFieldModel>, nat), ParseError> {
    match rest {
        Ok((fields, n)) => Ok((before + fields, (pos + n - first) as nat)),
        Err(e) => Err(e),
    }
}

/// A struct, given what the grammar gives for its fields, the first of which
/// stands at `first`, where the struct itself begins at `pos`.
spec fn struct_of(
    pos: int,
    first: int,
    fields: Result<(Seq<BqStructFieldModel>, nat), ParseError>,
) -> Result<(BqNonArrayDataTypeModel, nat), ParseError> {
    match fields {
        Ok((fields, n)) => Ok((BqNonArrayDataTypeModel::Struct(fields), (first + n - pos) as nat)),
        Err(e) => Err(e),
    }
}

fn syntax_error_at(position: usize, expected: Expected) -> (e: ParseError)
    ensures
        e == syntax_error(position as int, expected),
{
    ParseError { kind: ParseErrorKind::Syntax, position, expected }
}

fn skip_spaces(input: &[char], from: usize) -> (end: usize)
    requires
        from <= input@.len(),
    ensures
        end == spaces_end(input@, from as int),
        from <= end <= input@.len(),
{
    let mut end: usize = from;
    while end < input.len() && (input[end] == ' ' || input[end] == '\t' || input[end] == '\n'
        || input[end] == '\r')
        invariant
            from <= end <= input@.len(),
            spaces_end(input@, from as int) == spaces_end(input@, end as int),
        decreases input@.len() - end,
    {
        end += 1;
    }
    end
}

fn has_word(input: &[char], pos: usize) -> (r: bool)
    ensures
        r == word_at(input@, pos as int),
{
    pos < input.len() && name_start(input[pos])
}

fn has_sign(input: &[char], pos: usize, c: char) -> (r: bool)
    ensures
        r == sign_at(input@, pos as int, c),
        r ==> pos < usize::MAX,
{
    pos < input.len() && input[pos] == c
}

/// Is `input[start..end]` the text `literal`?
fn word_is(input: &[char], start: usize, end: usize, literal: &str) -> (same: bool)
    requires
        start <= end <= input@.len(),
    ensures
        same == (input@.subrange(start as int, end as int) == literal@),
{
    let ghost word = input@.subrange(start as int, end as int);
    let mut i: usize = start;
    for c in it: literal.chars()
        invariant
            it.seq() == literal@,
            word == input@.subrange(start as int, end as int),
            start <= i <= end <= input@.len(),
            i - start == it.index(),
            forall|k: int| 0 <= k < it.index() ==> word[k] == literal@[k],
    {
        if i >= end || input[i] != c {
            return false;
        }
        i += 1;
    }
    assert(i == end ==> word =~= literal@);
    i == end
}

fn keyword(input: &[char], start: usize, end: usize) -> (ty: Option<BqNonArrayDataType>)
    requires
        start <= end <= input@.len(),
    ensures
        (match ty {
            Some(ty) => keyword_type(input@.subrange(start as int, end as int)) == Some(ty@),
            None => keyword_type(input@.subrange(start as int, end as int)) is None,
        }),
{
    if word_is(input, start, end, "BOOL") || word_is(input, start, end, "BOOLEAN") {
        Some(BqNonArrayDataType::Bool)
    } else if word_is(input, start, end, "BYTES") {
        Some(BqNonArrayDataType::Bytes)
    } else if word_is(input, start, end, "DATE") {
        Some(BqNonArrayDataType::Date)
    } else if word_is(input, start, end, "DATETIME") {
        Some(BqNonArrayDataType::Datetime)
    } else if word_is(input, start, end, "FLOAT64") {
        Some(BqNonArrayDataType::Float64)
    } else if word_is(input, start, end, "GEOGRAPHY") {
        Some(BqNonArrayDataType::Geography)
    } else if word_is(input, start, end, "INT64") {
        Some(BqNonArrayDataType::Int64)
    } else if word_is(input, start, end, "NUMERIC") {
        Some(BqNonArrayDataType::Numeric)
    } else if word_is(input, start, end, "STRING") {
        Some(BqNonArrayDataType::String)
    } else if word_is(input, start, end, "TIME") {
        Some(BqNonArrayDataType::Time)
    } else if word_is(input, start, end, "TIMESTAMP") {
        Some(BqNonArrayDataType::Timestamp)
    } else {
        None
    }
}

fn non_array_at(input: &[char], pos: usize) -> (r: Result<(BqNonArrayDataType, usize), ParseError>)
    ensures
        agrees(r, pos, input@.len(), parse_non_array(input@, pos as int)),
    decreases input@.len() - pos, 0nat,
{
    if !has_word(input, pos) {
        return Err(syntax_error_at(pos, Expected::DataType));
    }
    let end = scan_name(input, pos);
    if !word_is(input, pos, end, "STRUCT") {
        return match keyword(input, pos, end) {
            Some(ty) => Ok((ty, end)),
            None => Err(syntax_error_at(pos, Expected::DataType)),
        };
    }
    let angle = skip_spaces(input, end);
    if !has_sign(input, angle, '<') {
        return Err(syntax_error_at(angle, Expected::LeftAngle));
    }
    let first = skip_spaces(input, angle + 1);
    let mut fields: Vec<BqStructField> = Vec::new();
    if has_sign(input, first, '>') {
        let ty = BqNonArrayDataType::Struct(fields);
        assert(ty@->Struct_0 =~= Seq::empty());
        return Ok((ty, first + 1));
    }
    let ghost mut before: Seq<BqStructFieldModel> = Seq::empty();
    let mut cur: usize = first;
    loop
        invariant
            pos < first <= cur <= input@.len(),
            parse_non_array(input@, pos as int) == struct_of(
                pos as int,
                first as int,
                parse_fields(input@, first as int),
            ),
            before.len() == fields.len(),
            forall|k: int| 0 <= k < fields.len() ==> before[k] == (#[trigger] fields[k])@,
            parse_fields(input@, first as int) == fields_after(
                before,
                first as int,
                cur as int,
                parse_fields(input@, cur as int),
            ),
        decreases input@.len() - cur,
    {
        let (field, after) = match field_at(input, cur) {
            Ok(parsed) => parsed,
            Err(e) => {
                return Err(e);
            },
        };
        let sign = skip_spaces(input, after);
        let ghost field_model = field@;
        if has_sign(input, sign, ',') {
            let next = skip_spaces(input, sign + 1);
            proof {
                let rest = parse_fields(input@, next as int);
                assert(fields_after(
                    before.push(field_model),
                    first as int,
                    next as int,
                    rest,
                ) == fields_after(
                    before,
                    first as int,
                    cur as int,
                    parse_fields(input@, cur as int),
                )) by {
                    if let Ok((more, m)) = rest {
                        assert(before.push(field_model) + more =~= before + (seq![field_model]
                            + more));
                    }
                }
                before = before.push(field_model);
            }
            fields.push(field);
            cur = next;
        } else if has_sign(input, sign, '>') {
            proof {
                assert(before.push(field_model) =~= before + seq![field_model]);
                before = before.push(field_model);
            }
            fields.push(field);
            let ty = BqNonArrayDataType::Struct(fields);
            assert(ty@->Struct_0 =~= before);
            return Ok((ty, sign + 1));
        } else {
            return Err(syntax_error_at(sign, Expected::CommaOrRightAngle));
        }
    }
}

fn field_at(input: &[char], pos: usize) -> (r: Result<(BqStructField, usize), ParseError>)
    ensures
        agrees(r, pos, input@.len(), parse_field(input@, pos as int)),
    decreases input@.len() - pos, 2nat,
{
    if !has_word(input, pos) {
        return Err(syntax_error_at(pos, Expected::DataType));
    }
    let end = scan_name(input, pos);
    let next = skip_spaces(input, end);
    if end < next && has_word(input, next) {
        let ghost word = input@.subrange(pos as int, end as int);
        let name = match ColumnName::from_slice(input, pos, end) {
            Ok(name) => name,
            Err(e) => {
                proof {
                    lemma_name_end(input@, pos as int);
                    lemma_name_end_is(word, 0, word.len() as int);
                }
                return Err(
                    ParseError {
                        kind: e.kind,
                        position: pos + e.position,
                        expected: e.expected,
                    },
                );
            },
        };
        match data_type_at(input, next) {
            Ok((ty, after)) => Ok((BqStructField { name: Some(name), ty }, after)),
            Err(e) => Err(e),
        }
    } else {
        match data_type_at(input, pos) {
            Ok((ty, after)) => Ok((BqStructField { name: None, ty }, after)),
            Err(e) => Err(e),
        }
    }
}

fn data_type_at(input: &[char], pos: usize) -> (r: Result<(BqDataType, usize), ParseError>)
    ensures
        agrees(r, pos, input@.len(), parse_data_type(input@, pos as int)),
    decreases input@.len() - pos, 1nat,
{
    if !has_word(input, pos) {
        return Err(syntax_error_at(pos, Expected::DataType));
    }
    let end = scan_name(input, pos);
    if !word_is(input, pos, end, "ARRAY") {
        return match non_array_at(input, pos) {
            Ok((ty, after)) => Ok((BqDataType::NonArray(ty), after)),
            Err(e) => Err(e),
        };
    }
    let angle = skip_spaces(input, end);
    if !has_sign(input, angle, '<') {
        return Err(syntax_error_at(angle, Expected::LeftAngle));
    }
    let start = skip_spaces(input, angle + 1);
    let (element, after) = match non_array_at(input, start) {
        Ok(parsed) => parsed,
        Err(e) => {
            return Err(e);
        },
    };
    let close = skip_spaces(input, after);
    if has_sign(input, close, '>') {
        Ok((BqDataType::Array(element), close + 1))
    } else {
        Err(syntax_error_at(close, Expected::RightAngle))
    }
}

fn record_or_non_array_at(input: &[char], pos: usize) -> (r: Result<
    (BqRecordOrNonArrayDataType, usize),
    ParseError,
>)
    ensures
        agrees(r, pos, input@.len(), parse_record_or_non_array(input@, pos as int)),
{
    if has_word(input, pos) {
        let end = scan_name(input, pos);
        if word_is(input, pos, end, "RECORD") {
            return Ok((BqRecordOrNonArrayDataType::Record, end));
        }
    }
    match non_array_at(input, pos) {
        Ok((ty, after)) => Ok((BqRecordOrNonArrayDataType::DataType(ty), after)),
        Err(e) => Err(e),
    }
}

/// Accepts what was parsed at the start of `input` if only white space
/// follows it.
fn finish<T: View>(input: &[char], start: usize, part: Result<(T, usize), ParseError>) -> (r:
    Result<T, ParseError>)
    requires
        start == spaces_end(input@, 0),
        part is Ok ==> start <= part->Ok_0.1 <= input@.len(),
    ensures
        r is Ok <==> part is Ok && spaces_end(input@, part->Ok_0.1 as int) == input@.len(),
        r is Ok ==> r->Ok_0 == part->Ok_0.0,
        r is Err && part is Err ==> r->Err_0 == part->Err_0,
        r is Err && part is Ok ==> r->Err_0 == syntax_error(
            spaces_end(input@, part->Ok_0.1 as int),
            Expected::EndOfInput,
        ),
{
    match part {
        Err(e) => Err(e),
        Ok((value, after)) => {
            let end = skip_spaces(input, after);
            if end == input.len() {
                Ok(value)
            } else {
                Err(syntax_error_at(end, Expected::EndOfInput))
            }
        },
    }
}

/// Parses a BigQuery type.
pub fn data_type(text: &str) -> (r: Result<BqDataType, ParseError>)
    ensures
        ok_view(r) == data_type_of_text(text@),
{
    let chars = to_chars(text);
    let input = chars.as_slice();
    let start = skip_spaces(input, 0);
    finish(input, start, data_type_at(input, start))
}

/// Parses a BigQuery type that is not an array.
pub fn non_array_data_type(text: &str) -> (r: Result<BqNonArrayDataType, ParseError>)
    ensures
        ok_view(r) == non_array_of_text(text@),
{
    let chars = to_chars(text);
    let input = chars.as_slice();
    let start = skip_spaces(input, 0);
    finish(input, start, non_array_at(input, start))
}

/// Parses the `type` entry of a column in a BigQuery schema file.
pub fn record_or_non_array_data_type(text: &str) -> (r: Result<
    BqRecordOrNonArrayDataType,
    ParseError,
>)
    ensures
        ok_view(r) == record_or_non_array_of_text(text@),
{
    let chars = to_chars(text);
    let input = chars.as_slice();
    let start = skip_spaces(input, 0);
    finish(input, start, record_or_non_array_at(input, start))
}

} // verus!
