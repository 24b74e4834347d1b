//! The errors that reading and mapping schemas report.

use vstd::prelude::*;

verus! {

/// Why a parse failed.
#[derive(Clone, Copy, Debug, PartialEq, Eq, Structural)]
pub enum ParseErrorKind {
    /// The text does not follow the grammar.
    Syntax,
    /// The text names a field with a name that no column may have.
    InvalidName,
    /// The type is well formed, but has no portable counterpart.
    Unsupported,
}

/// What a parser was looking for at the place where it gave up.
#[derive(Clone, Copy, Debug, PartialEq, Eq, Structural)]
pub enum Expected {
    /// The name of a data type.
    DataType,
    /// The `<` that opens the parameters of `ARRAY` or `STRUCT`.
    LeftAngle,
    /// The `>` that closes the parameters of `ARRAY`.
    RightAngle,
    /// The `,` before another field of a `STRUCT`, or the `>` that ends it.
    CommaOrRightAngle,
    /// The end of the text.
    EndOfInput,
    /// A name that a column may have.
    ColumnName,
    /// A type that can be expressed in the portable data model.
    PortableType,
}

/// A failed parse: what went wrong, where, and what was expected there.
#[derive(Clone, Copy, Debug, PartialEq, Eq, Structural)]
pub struct ParseError {
    /// The kind of failure.
    pub kind: ParseErrorKind,
    /// How many characters of the text precede the failure.
    pub position: usize,
    /// What would have been accepted at that position.
    pub expected: Expected,
}

/// A portable type that a backend cannot represent in a given role.
#[derive(Clone, Copy, Debug, PartialEq, Eq, Structural)]
pub enum Unsupported {
    /// An array of JSON values in a final table.
    ArrayOfJson,
    /// An array below the top level of a type that is loaded from CSV.
    NestedArrayInCsv,
}

/// The value of a result whose success carries a type with a model.
pub open spec fn ok_view<T: View, E>(r: Result<T, E>) -> Result<T::V, E> {
    match r {
        Ok(value) => Ok(value@),
        Err(e) => Err(e),
    }
}

} // verus!
