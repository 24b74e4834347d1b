//! Locators: the texts that name a place to read from or write to.
//!
//! A locator is a scheme, which ends in its first `:` and selects a driver,
//! and the rest, which the driver understands: `postgres://host/db#table`,
//! `bigquery:project:dataset.table`, `csv:path.csv`. For a driver that
//! works on files, the rest is a path, or `-` for the standard input and
//! output.

use crate::text::{from_chars, same_text, to_chars};
use vstd::prelude::*;
use vstd::string::StringExecFns;

verus! {

/// The drivers that a scheme can select.
#[derive(Clone, Copy, Debug, PartialEq, Eq, Structural)]
pub enum Scheme {
    /// `bigquery:`, a table in BigQuery.
    BigQuery,
    /// `bigquery-schema:`, a BigQuery schema file.
    BigQuerySchema,
    /// `csv:`, a CSV file.
    Csv,
    /// `dbcrossbar-schema:`, a portable schema file.
    DbcrossbarSchema,
    /// `gs:`, a directory in Google Cloud Storage.
    Gs,
    /// `postgres:`, a table in PostgreSQL.
    Postgres,
    /// `postgres-sql:`, a file with a `CREATE TABLE` statement.
    PostgresSql,
    /// `redshift:`, a table in Redshift.
    Redshift,
    /// `s3:`, a directory in S3.
    S3,
}

/// Why a text is not a locator.
#[derive(Clone, Copy, Debug, PartialEq, Eq, Structural)]
pub enum LocatorError {
    /// The text holds no `:`.
    NoScheme,
    /// No driver goes by the scheme.
    UnknownScheme,
}

/// The driver that `scheme` selects, where `scheme` ends in `:`.
pub open spec fn scheme_of_text(scheme: Seq<char>) -> Option<Scheme> {
    if scheme == "bigquery:"@ {
        Some(Scheme::BigQuery)
    } else if scheme == "bigquery-schema:"@ {
        Some(Scheme::BigQuerySchema)
    } else if scheme == "csv:"@ {
        Some(Scheme::Csv)
    } else if scheme == "dbcrossbar-schema:"@ {
        Some(Scheme::DbcrossbarSchema)
    } else if scheme == "gs:"@ {
        Some(Scheme::Gs)
    } else if scheme == "postgres:"@ {
        Some(Scheme::Postgres)
    } else if scheme == "postgres-sql:"@ {
        Some(Scheme::PostgresSql)
    } else if scheme == "redshift:"@ {
        Some(Scheme::Redshift)
    } else if scheme == "s3:"@ {
        Some(Scheme::S3)
    } else {
        None
    }
}

/// The text that selects `scheme`.
pub open spec fn scheme_text(scheme: Scheme) -> Seq<char> {
    match scheme {
        Scheme::BigQuery => "bigquery:"@,
        Scheme::BigQuerySchema => "bigquery-schema:"@,
        Scheme::Csv => "csv:"@,
        Scheme::DbcrossbarSchema => "dbcrossbar-schema:"@,
        Scheme::Gs => "gs:"@,
        Scheme::Postgres => "postgres:"@,
        Scheme::PostgresSql => "postgres-sql:"@,
        Scheme::Redshift => "redshift:"@,
        Scheme::S3 => "s3:"@,
    }
}

/// The index of the first `:` in `text` at or after `from`, or the length
/// of `text` if there is none.
pub open spec fn first_colon(text: Seq<char>, from: int) -> int
    decreases text.len() - from,
{
    if 0 <= from < text.len() && text[from] != ':' {
        first_colon(text, from + 1)
    } else {
        from
    }
}

/// The mathematical value of a [`Locator`].
pub struct LocatorModel {
    pub scheme: Scheme,
    pub rest: Seq<char>,
}

/// The locator that `text` is: its scheme is what stands up to the first
/// `:`, and the rest what follows it.
pub open spec fn locator_of_text(text: Seq<char>) -> Result<LocatorModel, LocatorError> {
    let colon = first_colon(text, 0);
    if colon >= text.len() {
        Err(LocatorError::NoScheme)
    } else {
        match scheme_of_text(text.subrange(0, colon + 1)) {
            Some(scheme) => Ok(
                LocatorModel { scheme, rest: text.subrange(colon + 1, text.len() as int) },
            ),
            None => Err(LocatorError::UnknownScheme),
        }
    }
}

/// The text of a locator.
pub open spec fn locator_text(locator: LocatorModel) -> Seq<char> {
    scheme_text(locator.scheme) + locator.rest
}

/// A place to read from or write to.
#[derive(Debug, PartialEq, Eq)]
pub struct Locator {
    /// The driver to use.
    pub scheme: Scheme,
    /// What follows the scheme.
    pub rest: String,
}

impl View for Locator {
    type V = LocatorModel;

    open spec fn view(&self) -> LocatorModel {
        LocatorModel { scheme: self.scheme, rest: self.rest@ }
    }
}

impl Scheme {
    /// The text that selects this scheme.
    pub fn as_str(&self) -> (text: &'static str)
        ensures
            text@ == scheme_text(*self),
    {
        match self {
            Scheme::BigQuery => "bigquery:",
            Scheme::BigQuerySchema => "bigquery-schema:",
            Scheme::Csv => "csv:",
            Scheme::DbcrossbarSchema => "dbcrossbar-schema:",
            Scheme::Gs => "gs:",
            Scheme::Postgres => "postgres:",
            Scheme::PostgresSql => "postgres-sql:",
            Scheme::Redshift => "redshift:",
            Scheme::S3 => "s3:",
        }
    }

    /// The driver that `text` selects, where `text` ends in `:`.
    pub fn from_text(text: &str) -> (scheme: Option<Scheme>)
        ensures
            scheme == scheme_of_text(text@),
    {
        if same_text(text, "bigquery:") {
            Some(Scheme::BigQuery)
        } else if same_text(text, "bigquery-schema:") {
            Some(Scheme::BigQuerySchema)
        } else if same_text(text, "csv:") {
            Some(Scheme::Csv)
        } else if same_text(text, "dbcrossbar-schema:") {
            Some(Scheme::DbcrossbarSchema)
        } else if same_text(text, "gs:") {
            Some(Scheme::Gs)
        } else if same_text(text, "postgres:") {
            Some(Scheme::Postgres)
        } else if same_text(text, "postgres-sql:") {
            Some(Scheme::PostgresSql)
        } else if same_text(text, "redshift:") {
            Some(Scheme::Redshift)
        } else if same_text(text, "s3:") {
            Some(Scheme::S3)
        } else {
            None
        }
    }

    /// Does the driver read and write schemas in files?
    pub fn is_schema_file(&self) -> (r: bool)
        ensures
            r == (*self == Scheme::BigQuerySchema || *self == Scheme::DbcrossbarSchema || *self
                == Scheme::PostgresSql),
    {
        match self {
            Scheme::BigQuerySchema | Scheme::DbcrossbarSchema | Scheme::PostgresSql => true,
            _ => false,
        }
    }
}

impl Locator {
    /// Reads a locator.
    pub fn parse(text: &str) -> (r: Result<Locator, LocatorError>)
        ensures
            (match r {
                Ok(locator) => locator_of_text(text@) == Ok::<LocatorModel, LocatorError>(locator@),
                Err(e) => locator_of_text(text@) == Err::<LocatorModel, LocatorError>(e),
            }),
    {
        let chars = to_chars(text);
        let mut colon: usize = 0;
        while colon < chars.len() && chars[colon] != ':'
            invariant
                colon <= chars.len(),
                first_colon(chars@, 0) == first_colon(chars@, colon as int),
            decreases chars.len() - colon,
        {
            colon += 1;
        }
        if colon >= chars.len() {
            return Err(LocatorError::NoScheme);
        }
        let scheme = from_chars(chars.as_slice(), 0, colon + 1);
        match Scheme::from_text(scheme.as_str()) {
            Some(scheme) => Ok(
                Locator { scheme, rest: from_chars(chars.as_slice(), colon + 1, chars.len()) },
            ),
            None => Err(LocatorError::UnknownScheme),
        }
    }

    /// This locator as text.
    pub fn to_string(&self) -> (text: String)
        ensures
            text@ == locator_text(self@),
            locator_of_text(text@) == Ok::<LocatorModel, LocatorError>(self@),
    {
        let mut text = String::new();
        text.append(self.scheme.as_str());
        text.append(self.rest.as_str());
        proof {
            lemma_locator_round_trip(self@);
        }
        text
    }

    /// Does the rest of this locator name the standard input and output?
    pub fn is_stdio(&self) -> (r: bool)
        ensures
            r == (self@.rest == "-"@),
    {
        same_text(self.rest.as_str(), "-")
    }
}

/// A run up to the first `:` that is cut off at `colon` ends at `colon`.
proof fn lemma_first_colon_is(text: Seq<char>, from: int, colon: int)
    requires
        0 <= from <= colon < text.len(),
        forall|i: int| from <= i < colon ==> #[trigger] text[i] != ':',
        text[colon] == ':',
    ensures
        first_colon(text, from) == colon,
    decreases colon - from,
{
    if from < colon {
        lemma_first_colon_is(text, from + 1, colon);
    }
}

/// The text of each scheme ends in `:`, holds no other, and selects that
/// scheme.
proof fn lemma_schemes(scheme: Scheme)
    ensures
        scheme_text(scheme).len() > 0,
        scheme_text(scheme).last() == ':',
        forall|i: int| 0 <= i < scheme_text(scheme).len() - 1 ==> #[trigger] scheme_text(scheme)[i]
            != ':',
        scheme_of_text(scheme_text(scheme)) == Some(scheme),
{
    reveal_strlit("bigquery:");
    reveal_strlit("bigquery-schema:");
    reveal_strlit("csv:");
    reveal_strlit("dbcrossbar-schema:");
    reveal_strlit("gs:");
    reveal_strlit("postgres:");
    reveal_strlit("postgres-sql:");
    reveal_strlit("redshift:");
    reveal_strlit("s3:");
    assert("bigquery:"@.len() == 9 && "bigquery-schema:"@.len() == 16 && "csv:"@.len() == 4);
    assert("bigquery:"@[0] == 'b' && "postgres:"@[0] == 'p' && "redshift:"@[0] == 'r');
    assert("gs:"@[0] == 'g' && "s3:"@[0] == 's');
}

/// Reading the text of a locator gives that locator back.
pub proof fn lemma_locator_round_trip(locator: LocatorModel)
    ensures
        locator_of_text(locator_text(locator)) == Ok::<LocatorModel, LocatorError>(locator),
{
    let scheme = scheme_text(locator.scheme);
    let text = locator_text(locator);
    lemma_schemes(locator.scheme);
    lemma_first_colon_is(text, 0, scheme.len() - 1);
    assert(text.subrange(0, scheme.len() as int) =~= scheme);
    assert(text.subrange(scheme.len() as int, text.len() as int) =~= locator.rest);
}

} // verus!
