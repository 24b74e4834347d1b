//! Names of BigQuery columns and `STRUCT` fields.

use crate::error::{Expected, ParseError, ParseErrorKind};
use crate::text::{from_chars, to_chars};
use vstd::prelude::*;

verus! {

/// The greatest length of a column name, in characters.
pub const MAX_COLUMN_NAME_LEN: usize = 128;

/// May `c` begin a name?
pub open spec fn is_name_start(c: char) -> bool {
    ('A' <= c && c <= 'Z') || ('a' <= c && c <= 'z') || c == '_'
}

/// May `c` stand inside a name?
pub open spec fn is_name_char(c: char) -> bool {
    is_name_start(c) || ('0' <= c && c <= '9')
}

/// Where the run of name characters that starts at `from` ends: the index of
/// the first character at or after `from` that may not stand inside a name,
/// or the length of `s` if there is none.
pub open spec fn name_end(s: Seq<char>, from: int) -> int
    decreases s.len() - from,
{
    if 0 <= from < s.len() && is_name_char(s[from]) {
        name_end(s, from + 1)
    } else {
        from
    }
}

/// Is `name` a legal column name: a letter or underscore, then letters,
/// digits and underscores, at most [`MAX_COLUMN_NAME_LEN`] characters in all?
pub open spec fn valid_column_name(name: Seq<char>) -> bool {
    &&& 1 <= name.len() <= MAX_COLUMN_NAME_LEN
    &&& is_name_start(name[0])
    &&& forall|i: int| 0 <= i < name.len() ==> is_name_char(#[trigger] name[i])
}

/// The place at which `name` stops being a legal column name: the index of
/// the first character that may not stand where it does, or
/// [`MAX_COLUMN_NAME_LEN`] where only the length is at fault. Meaningful
/// only for a name that is not valid.
pub open spec fn invalid_name_position(name: Seq<char>) -> int {
    if name.len() == 0 || !is_name_start(name[0]) {
        0
    } else if name_end(name, 0) < name.len() {
        name_end(name, 0)
    } else {
        MAX_COLUMN_NAME_LEN as int
    }
}

/// The error that rejects `name`.
pub open spec fn invalid_name_error(name: Seq<char>) -> ParseError {
    ParseError {
        kind: ParseErrorKind::InvalidName,
        position: invalid_name_position(name) as usize,
        expected: Expected::ColumnName,
    }
}

/// The run of name characters from `from` ends between `from` and the end of
/// `s`; every character in it is a name character, and the one after it,
/// if any, is not.
pub proof fn lemma_name_end(s: Seq<char>, from: int)
    requires
        0 <= from <= s.len(),
    ensures
        from <= name_end(s, from) <= s.len(),
        forall|i: int| from <= i < name_end(s, from) ==> is_name_char(#[trigger] s[i]),
        name_end(s, from) < s.len() ==> !is_name_char(s[name_end(s, from)]),
    decreases s.len() - from,
{
    if from < s.len() && is_name_char(s[from]) {
        lemma_name_end(s, from + 1);
    }
}

/// A run of name characters that is cut off at `end` ends at `end`.
pub proof fn lemma_name_end_is(s: Seq<char>, from: int, end: int)
    requires
        0 <= from <= end <= s.len(),
        forall|i: int| from <= i < end ==> is_name_char(#[trigger] s[i]),
        end < s.len() ==> !is_name_char(s[end]),
    ensures
        name_end(s, from) == end,
    decreases end - from,
{
    if from < end {
        lemma_name_end_is(s, from + 1, end);
    }
}

/// Executable form of [`is_name_start`].
pub fn name_start(c: char) -> (r: bool)
    ensures
        r == is_name_start(c),
{
    ('A' <= c && c <= 'Z') || ('a' <= c && c <= 'z') || c == '_'
}

/// Executable form of [`is_name_char`].
pub fn name_char(c: char) -> (r: bool)
    ensures
        r == is_name_char(c),
{
    name_start(c) || ('0' <= c && c <= '9')
}

/// The error that rejects a name at `position`.
fn invalid_name_at(position: usize) -> (e: ParseError)
    ensures
        e == (ParseError {
            kind: ParseErrorKind::InvalidName,
            position,
            expected: Expected::ColumnName,
        }),
{
    ParseError { kind: ParseErrorKind::InvalidName, position, expected: Expected::ColumnName }
}

/// Executable form of [`name_end`].
pub(crate) fn scan_name(chars: &[char], from: usize) -> (end: usize)
    requires
        from <= chars@.len(),
    ensures
        end == name_end(chars@, from as int),
        from <= end <= chars@.len(),
{
    let mut end: usize = from;
    while end < chars.len() && name_char(chars[end])
        invariant
            from <= end <= chars@.len(),
            name_end(chars@, from as int) == name_end(chars@, end as int),
        decreases chars@.len() - end,
    {
        end += 1;
    }
    end
}

/// The name of a BigQuery column, or of a field of a `STRUCT`.
///
/// Every value of this type holds a legal name.
#[derive(Debug, PartialEq, Eq)]
pub struct ColumnName {
    name: String,
}

impl View for ColumnName {
    type V = Seq<char>;

    closed spec fn view(&self) -> Seq<char> {
        self.name@
    }
}

impl Clone for ColumnName {
    fn clone(&self) -> (copy: ColumnName)
        ensures
            copy@ == self@,
    {
        proof {
            use_type_invariant(self);
        }
        ColumnName { name: self.name.clone() }
    }
}

impl ColumnName {
    #[verifier::type_invariant]
    spec fn well_formed(&self) -> bool {
        valid_column_name(self.name@)
    }

    /// Accepts `name` if it is a legal column name, and says where it stops
    /// being one if it is not.
    pub fn try_from(name: &str) -> (r: Result<ColumnName, ParseError>)
        ensures
            valid_column_name(name@) ==> r is Ok && r->Ok_0@ == name@,
            !valid_column_name(name@) ==> r == Err::<ColumnName, ParseError>(
                invalid_name_error(name@),
            ),
    {
        let chars = to_chars(name);
        assert(chars@.subrange(0, chars@.len() as int) == name@);
        ColumnName::from_slice(chars.as_slice(), 0, chars.len())
    }

    /// Accepts `chars[start..end]` if it is a legal column name, and says
    /// where it stops being one if it is not.
    pub(crate) fn from_slice(chars: &[char], start: usize, end: usize) -> (r: Result<
        ColumnName,
        ParseError,
    >)
        requires
            start <= end <= chars@.len(),
        ensures
            valid_column_name(chars@.subrange(start as int, end as int)) ==> r is Ok && r->Ok_0@
                == chars@.subrange(start as int, end as int),
            !valid_column_name(chars@.subrange(start as int, end as int)) ==> r == Err::<
                ColumnName,
                ParseError,
            >(invalid_name_error(chars@.subrange(start as int, end as int))),
    {
        let ghost name = chars@.subrange(start as int, end as int);
        if start == end || !name_start(chars[start]) {
            return Err(invalid_name_at(0));
        }
        let stop = scan_name(chars, start);
        proof {
            lemma_name_end(chars@, start as int);
            lemma_name_end(name, 0);
            if stop < end {
                lemma_name_end_is(name, 0, stop - start);
            }
        }
        if stop < end {
            return Err(invalid_name_at(stop - start));
        }
        if end - start > MAX_COLUMN_NAME_LEN {
            return Err(invalid_name_at(MAX_COLUMN_NAME_LEN));
        }
        Ok(ColumnName { name: from_chars(chars, start, end) })
    }

    /// The name as text.
    pub fn as_str(&self) -> (s: &str)
        ensures
            s@ == self@,
            valid_column_name(self@),
    {
        proof {
            use_type_invariant(self);
        }
        self.name.as_str()
    }

    /// Do the two names have the same characters?
    pub fn same_as(&self, other: &ColumnName) -> (same: bool)
        ensures
            same == (self@ == other@),
    {
        self.name == other.name
    }
}

} // verus!
