//! Counting the rows of a PostgreSQL table.
//!
//! The library holds the arguments against what the driver supports,
//! writes the query and reads its answer; running the query is the caller's
//! part.

use crate::args::{
    source_fault, ArgumentError, DestinationArgumentsFeatures, Features, IfExistsFeatures,
    LocatorFeatures, SharedArguments, SourceArguments, SourceArgumentsFeatures, Unverified,
    Verified,
};
use crate::text::to_chars;
use vstd::prelude::*;
use vstd::string::StringExecFns;

verus! {

/// What the PostgreSQL driver supports.
pub open spec fn postgres_features() -> Features {
    Features {
        locator: LocatorFeatures {
            schema: true,
            write_schema: true,
            local_data: true,
            write_local_data: true,
            count: true,
        },
        write_schema_if_exists: IfExistsFeatures {
            error: true,
            append: false,
            overwrite: true,
            upsert: false,
        },
        source_args: SourceArgumentsFeatures { driver_args: false, where_clause: true },
        dest_args: DestinationArgumentsFeatures { driver_args: false },
        dest_if_exists: IfExistsFeatures { error: true, append: true, overwrite: true, upsert: true },
    }
}

/// What the PostgreSQL driver supports.
pub fn features() -> (features: Features)
    ensures
        features == postgres_features(),
{
    Features {
        locator: LocatorFeatures {
            schema: true,
            write_schema: true,
            local_data: true,
            write_local_data: true,
            count: true,
        },
        write_schema_if_exists: IfExistsFeatures {
            error: true,
            append: false,
            overwrite: true,
            upsert: false,
        },
        source_args: SourceArgumentsFeatures { driver_args: false, where_clause: true },
        dest_args: DestinationArgumentsFeatures { driver_args: false },
        dest_if_exists: IfExistsFeatures { error: true, append: true, overwrite: true, upsert: true },
    }
}

/// The error of the `cast` crate's checked casts.
#[verifier::external_type_specification]
#[verifier::external_body]
pub struct ExCastError(cast::Error);

/// Why the answer to a count query was not accepted.
#[derive(Clone, Copy, Debug, PartialEq, Eq, Structural)]
pub enum CountError {
    /// The answer did not have exactly one row; it had this many.
    UnexpectedRows(usize),
    /// The count is negative or too large for this machine.
    CountOutOfRange,
}

/// `cast::usize` on an `i64`: succeeds exactly if the number is not
/// negative and fits in a `usize`, and then yields the same number.
#[verifier::external_body]
fn checked_usize(count: i64) -> (r: Result<usize, cast::Error>)
    ensures
        r is Ok <==> 0 <= count <= usize::MAX,
        r is Ok ==> r->Ok_0 == count,
{
    cast::usize(count)
}

/// What the answer `counts` to a count query amounts to, one number for
/// each row of the answer: the count, if there is one row and its number
/// can be a count.
pub open spec fn count_of_rows(counts: Seq<i64>) -> Result<usize, CountError> {
    if counts.len() != 1 {
        Err(CountError::UnexpectedRows(counts.len() as usize))
    } else if 0 <= counts[0] <= usize::MAX {
        Ok(counts[0] as usize)
    } else {
        Err(CountError::CountOutOfRange)
    }
}

/// Reads the answer to a count query, given the number in the `count`
/// column of each row of the answer.
pub fn count_from_rows(counts: &[i64]) -> (r: Result<usize, CountError>)
    ensures
        r == count_of_rows(counts@),
{
    if counts.len() != 1 {
        Err(CountError::UnexpectedRows(counts.len()))
    } else {
        match checked_usize(counts[0]) {
            Ok(count) => Ok(count),
            Err(_) => Err(CountError::CountOutOfRange),
        }
    }
}

/// The first `n` characters of `name` as they stand inside a quoted
/// identifier: each `"` is written twice.
pub open spec fn quotes_doubled(name: Seq<char>, n: int) -> Seq<char>
    decreases n,
{
    if n <= 0 {
        Seq::empty()
    } else if name[n - 1] == '"' {
        quotes_doubled(name, n - 1) + seq!['"', '"']
    } else {
        quotes_doubled(name, n - 1).push(name[n - 1])
    }
}

/// `name` as a quoted identifier.
pub open spec fn quoted_identifier(name: Seq<char>) -> Seq<char> {
    seq!['"'] + quotes_doubled(name, name.len() as int) + seq!['"']
}

/// The index of the first `.` in `name` at or after `from`, or the length
/// of `name` if there is none.
pub open spec fn first_dot(name: Seq<char>, from: int) -> int
    decreases name.len() - from,
{
    if 0 <= from < name.len() && name[from] != '.' {
        first_dot(name, from + 1)
    } else {
        from
    }
}

/// The name of a table as SQL. What stands before the first `.` names the
/// table's schema and is quoted by itself.
pub open spec fn quoted_table_name(name: Seq<char>) -> Seq<char> {
    let dot = first_dot(name, 0);
    if dot < name.len() {
        quoted_identifier(name.subrange(0, dot)) + seq!['.'] + quoted_identifier(
            name.subrange(dot + 1, name.len() as int),
        )
    } else {
        quoted_identifier(name)
    }
}

/// The query that counts the rows of `table`, or those of them that meet
/// `where_clause`.
pub open spec fn count_sql_text(table: Seq<char>, where_clause: Option<Seq<char>>) -> Seq<char> {
    "SELECT COUNT(*) FROM "@ + quoted_table_name(table) + match where_clause {
        Some(condition) => " WHERE ("@ + condition + ")"@,
        None => Seq::empty(),
    }
}

/// Appends `name[start..end]` to `out` as a quoted identifier.
fn write_quoted(name: &[char], start: usize, end: usize, out: &mut String)
    requires
        start <= end <= name@.len(),
    ensures
        final(out)@ == old(out)@ + quoted_identifier(name@.subrange(start as int, end as int)),
{
    let ghost part = name@.subrange(start as int, end as int);
    out.push('"');
    let mut i: usize = start;
    while i < end
        invariant
            start <= i <= end <= name@.len(),
            part == name@.subrange(start as int, end as int),
            out@ == old(out)@ + seq!['"'] + quotes_doubled(part, i - start),
        decreases end - i,
    {
        let c = name[i];
        if c == '"' {
            out.push('"');
        }
        out.push(c);
        i += 1;
    }
    out.push('"');
}

/// Executable form of [`first_dot`].
fn find_dot(name: &[char]) -> (dot: usize)
    ensures
        dot == first_dot(name@, 0),
        dot <= name@.len(),
{
    let mut dot: usize = 0;
    while dot < name.len() && name[dot] != '.'
        invariant
            dot <= name@.len(),
            first_dot(name@, 0) == first_dot(name@, dot as int),
        decreases name@.len() - dot,
    {
        dot += 1;
    }
    dot
}

/// Writes the query that counts the rows of `table`, or those of them that
/// meet the `WHERE` clause among `source_args`. Only arguments that the
/// driver's features allow can get here.
pub fn count_sql(table: &str, source_args: &SourceArguments<Verified>) -> (sql: String)
    ensures
        sql@ == count_sql_text(table@, source_args@.where_clause),
{
    let chars = to_chars(table);
    let name = chars.as_slice();
    let mut sql = String::new();
    sql.append("SELECT COUNT(*) FROM ");
    let dot = find_dot(name);
    if dot < name.len() {
        write_quoted(name, 0, dot, &mut sql);
        sql.push('.');
        write_quoted(name, dot + 1, name.len(), &mut sql);
    } else {
        write_quoted(name, 0, name.len(), &mut sql);
        assert(name@.subrange(0, name@.len() as int) == name@);
    }
    if let Some(condition) = source_args.where_clause() {
        sql.append(" WHERE (");
        sql.append(condition.as_str());
        sql.append(")");
    }
    sql
}

/// Writes the query that counts the rows of `table` for a copy with the
/// arguments `shared_args` and `source_args`, once the driver's features
/// allow each of them. No query is written for arguments that the driver
/// does not support; the first of them is named.
pub fn count_query(
    table: &str,
    shared_args: SharedArguments<Unverified>,
    source_args: SourceArguments<Unverified>,
) -> (r: Result<String, ArgumentError>)
    ensures
        (match source_fault(source_args@, postgres_features().source_args) {
            Some(fault) => r == Err::<String, ArgumentError>(fault),
            None => r is Ok && r->Ok_0@ == count_sql_text(table@, source_args@.where_clause),
        }),
{
    let _shared_args = match shared_args.verify(features()) {
        Ok(verified) => verified,
        Err(e) => {
            return Err(e);
        },
    };
    let source_args = match source_args.verify(features()) {
        Ok(verified) => verified,
        Err(e) => {
            return Err(e);
        },
    };
    Ok(count_sql(table, &source_args))
}

} // verus!
