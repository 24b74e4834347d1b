//! The arguments of a copy, and the check that a driver supports them.
//!
//! Arguments arrive unverified. Each driver publishes the features it
//! supports, and `verify` holds the arguments against them. Only verified
//! arguments give out what they hold, so nothing can act on an option that
//! the driver would have to ignore.

use crate::schema::{Table, TableModel};
use crate::text::{has_prefix, starts_with};
use vstd::prelude::*;

verus! {

/// Marks arguments that no driver has checked yet.
#[derive(Clone, Copy, Debug, PartialEq, Eq, Structural)]
pub struct Unverified;

/// Marks arguments that a driver's features allow.
#[derive(Clone, Copy, Debug, PartialEq, Eq, Structural)]
pub struct Verified;

/// What a driver can do with a locator.
#[derive(Clone, Copy, Debug, PartialEq, Eq, Structural)]
pub struct LocatorFeatures {
    pub schema: bool,
    pub write_schema: bool,
    pub local_data: bool,
    pub write_local_data: bool,
    pub count: bool,
}

/// Which source arguments a driver accepts.
#[derive(Clone, Copy, Debug, PartialEq, Eq, Structural)]
pub struct SourceArgumentsFeatures {
    pub driver_args: bool,
    pub where_clause: bool,
}

/// Which destination arguments a driver accepts.
#[derive(Clone, Copy, Debug, PartialEq, Eq, Structural)]
pub struct DestinationArgumentsFeatures {
    pub driver_args: bool,
}

/// Which ways of treating an existing table a driver offers.
#[derive(Clone, Copy, Debug, PartialEq, Eq, Structural)]
pub struct IfExistsFeatures {
    pub error: bool,
    pub append: bool,
    pub overwrite: bool,
    pub upsert: bool,
}

/// Everything a driver supports.
#[derive(Clone, Copy, Debug, PartialEq, Eq, Structural)]
pub struct Features {
    pub locator: LocatorFeatures,
    pub write_schema_if_exists: IfExistsFeatures,
    pub source_args: SourceArgumentsFeatures,
    pub dest_args: DestinationArgumentsFeatures,
    pub dest_if_exists: IfExistsFeatures,
}

/// An option that the driver does not support.
#[derive(Clone, Copy, Debug, PartialEq, Eq, Structural)]
pub enum ArgumentError {
    /// Driver arguments for a source that takes none.
    SourceDriverArgs,
    /// A `WHERE` clause for a source that cannot filter.
    WhereClause,
    /// Driver arguments for a destination that takes none.
    DestinationDriverArgs,
    /// A way of treating an existing table that the destination lacks.
    IfExists,
}

/// What to do if the destination table exists.
#[derive(Debug, PartialEq, Eq)]
pub enum IfExists {
    /// Fail.
    Error,
    /// Add the new rows to it.
    Append,
    /// Replace it.
    Overwrite,
    /// Replace the rows that agree with a new row in these columns, and add
    /// the other new rows.
    Upsert(Vec<String>),
}

/// The mathematical value of an [`IfExists`].
pub enum IfExistsModel {
    Error,
    Append,
    Overwrite,
    Upsert(Seq<Seq<char>>),
}

/// The texts of `strings`, in order.
pub open spec fn texts(strings: Seq<String>) -> Seq<Seq<char>> {
    Seq::new(strings.len(), |i: int| strings[i]@)
}

impl View for IfExists {
    type V = IfExistsModel;

    open spec fn view(&self) -> IfExistsModel {
        match self {
            IfExists::Error => IfExistsModel::Error,
            IfExists::Append => IfExistsModel::Append,
            IfExists::Overwrite => IfExistsModel::Overwrite,
            IfExists::Upsert(keys) => IfExistsModel::Upsert(texts(keys@)),
        }
    }
}

/// Is `if_exists` among the ways that `features` offers?
pub open spec fn if_exists_supported(if_exists: IfExistsModel, features: IfExistsFeatures) -> bool {
    match if_exists {
        IfExistsModel::Error => features.error,
        IfExistsModel::Append => features.append,
        IfExistsModel::Overwrite => features.overwrite,
        IfExistsModel::Upsert(_) => features.upsert,
    }
}

impl IfExists {
    /// Is this among the ways that `features` offers?
    pub fn supported_by(&self, features: IfExistsFeatures) -> (supported: bool)
        ensures
            supported == if_exists_supported(self@, features),
    {
        match self {
            IfExists::Error => features.error,
            IfExists::Append => features.append,
            IfExists::Overwrite => features.overwrite,
            IfExists::Upsert(_) => features.upsert,
        }
    }
}

/// The index of the first of `locators` at or after `from` that begins
/// with `scheme`, or the number of locators if none does.
pub open spec fn first_with_scheme(locators: Seq<Seq<char>>, scheme: Seq<char>, from: int) -> int
    decreases locators.len() - from,
{
    if 0 <= from < locators.len() && !has_prefix(locators[from], scheme) {
        first_with_scheme(locators, scheme, from + 1)
    } else {
        from
    }
}

/// The mathematical value of the arguments that a copy's two ends share.
pub struct SharedArgumentsModel {
    pub schema: TableModel,
    pub temporary_storage: Seq<Seq<char>>,
    pub max_streams: usize,
}

/// The arguments that both ends of a copy share.
#[derive(Debug)]
pub struct SharedArguments<S> {
    schema: Table,
    temporary_storage: Vec<String>,
    max_streams: usize,
    state: S,
}

impl<S> View for SharedArguments<S> {
    type V = SharedArgumentsModel;

    closed spec fn view(&self) -> SharedArgumentsModel {
        SharedArgumentsModel {
            schema: self.schema@,
            temporary_storage: texts(self.temporary_storage@),
            max_streams: self.max_streams,
        }
    }
}

impl SharedArguments<Unverified> {
    /// The shared arguments of a copy of a table with the schema `schema`,
    /// which may stage data in `temporary_storage` and move at most
    /// `max_streams` streams at a time.
    pub fn new(schema: Table, temporary_storage: Vec<String>, max_streams: usize) -> (args: Self)
        ensures
            args@ == (SharedArgumentsModel {
                schema: schema@,
                temporary_storage: texts(temporary_storage@),
                max_streams,
            }),
    {
        SharedArguments { schema, temporary_storage, max_streams, state: Unverified }
    }

    /// Every driver supports every shared argument.
    pub fn verify(self, features: Features) -> (r: Result<
        SharedArguments<Verified>,
        ArgumentError,
    >)
        ensures
            r is Ok,
            r->Ok_0@ == self@,
    {
        Ok(
            SharedArguments {
                schema: self.schema,
                temporary_storage: self.temporary_storage,
                max_streams: self.max_streams,
                state: Verified,
            },
        )
    }
}

impl<S> SharedArguments<S> {
    /// A copy of these arguments, as unverified as any new arguments.
    pub fn to_unverified(&self) -> (copy: SharedArguments<Unverified>)
        ensures
            copy@ == self@,
    {
        let mut temporary_storage: Vec<String> = Vec::new();
        let mut i: usize = 0;
        while i < self.temporary_storage.len()
            invariant
                i <= self.temporary_storage.len(),
                temporary_storage.len() == i,
                forall|k: int|
                    0 <= k < i ==> (#[trigger] temporary_storage[k])@
                        == self.temporary_storage[k]@,
            decreases self.temporary_storage.len() - i,
        {
            temporary_storage.push(self.temporary_storage[i].clone());
            i += 1;
        }
        assert(texts(temporary_storage@) =~= texts(self.temporary_storage@));
        SharedArguments {
            schema: self.schema.clone(),
            temporary_storage,
            max_streams: self.max_streams,
            state: Unverified,
        }
    }
}

impl SharedArguments<Verified> {
    /// The schema of the table that is copied.
    pub fn schema(&self) -> (schema: &Table)
        ensures
            schema@ == self@.schema,
    {
        &self.schema
    }

    /// The greatest number of streams to move at a time.
    pub fn max_streams(&self) -> (n: usize)
        ensures
            n == self@.max_streams,
    {
        self.max_streams
    }

    /// The places where data may be staged.
    pub fn temporary_storage(&self) -> (locators: &Vec<String>)
        ensures
            texts(locators@) == self@.temporary_storage,
    {
        &self.temporary_storage
    }

    /// The first place for staging data whose locator begins with `scheme`,
    /// if there is one.
    pub fn find_scheme(&self, scheme: &str) -> (found: Option<&String>)
        ensures
            (match found {
                Some(locator) => {
                    let i = first_with_scheme(self@.temporary_storage, scheme@, 0);
                    i < self@.temporary_storage.len() && locator@ == self@.temporary_storage[i]
                },
                None => first_with_scheme(self@.temporary_storage, scheme@, 0)
                    == self@.temporary_storage.len(),
            }),
    {
        let ghost locators = self@.temporary_storage;
        let mut i: usize = 0;
        while i < self.temporary_storage.len()
            invariant
                i <= self.temporary_storage.len(),
                locators == texts(self.temporary_storage@),
                first_with_scheme(locators, scheme@, 0) == first_with_scheme(
                    locators,
                    scheme@,
                    i as int,
                ),
            decreases self.temporary_storage.len() - i,
        {
            if starts_with(self.temporary_storage[i].as_str(), scheme) {
                return Some(&self.temporary_storage[i]);
            }
            i += 1;
        }
        None
    }
}

/// The mathematical value of the arguments of a copy's source.
pub struct SourceArgumentsModel {
    pub driver_args: Seq<Seq<char>>,
    pub where_clause: Option<Seq<char>>,
}

/// The arguments of the source of a copy.
#[derive(Debug)]
pub struct SourceArguments<S> {
    driver_args: Vec<String>,
    where_clause: Option<String>,
    state: S,
}

impl<S> View for SourceArguments<S> {
    type V = SourceArgumentsModel;

    closed spec fn view(&self) -> SourceArgumentsModel {
        SourceArgumentsModel {
            driver_args: texts(self.driver_args@),
            where_clause: match self.where_clause {
                Some(condition) => Some(condition@),
                None => None,
            },
        }
    }
}

/// The first source argument that `features` does not allow, if there is
/// one.
pub open spec fn source_fault(
    args: SourceArgumentsModel,
    features: SourceArgumentsFeatures,
) -> Option<ArgumentError> {
    if !features.driver_args && args.driver_args.len() > 0 {
        Some(ArgumentError::SourceDriverArgs)
    } else if !features.where_clause && args.where_clause is Some {
        Some(ArgumentError::WhereClause)
    } else {
        None
    }
}

impl SourceArguments<Unverified> {
    /// Source arguments as the user gave them.
    pub fn new(driver_args: Vec<String>, where_clause: Option<String>) -> (args: Self)
        ensures
            args@ == (SourceArgumentsModel {
                driver_args: texts(driver_args@),
                where_clause: match where_clause {
                    Some(condition) => Some(condition@),
                    None => None,
                },
            }),
    {
        SourceArguments { driver_args, where_clause, state: Unverified }
    }

    /// The source arguments for reading staged data back: none at all.
    pub fn for_temporary() -> (args: Self)
        ensures
            args@ == (SourceArgumentsModel { driver_args: Seq::empty(), where_clause: None }),
    {
        let args = SourceArguments { driver_args: Vec::new(), where_clause: None, state: Unverified };
        assert(args@.driver_args =~= Seq::empty());
        args
    }

    /// Accepts these arguments if `features` allows each of them, and names
    /// the first that it does not allow otherwise.
    pub fn verify(self, features: Features) -> (r: Result<SourceArguments<Verified>, ArgumentError>)
        ensures
            (match source_fault(self@, features.source_args) {
                Some(fault) => r == Err::<SourceArguments<Verified>, ArgumentError>(fault),
                None => r is Ok && r->Ok_0@ == self@,
            }),
    {
        if !features.source_args.driver_args && self.driver_args.len() > 0 {
            return Err(ArgumentError::SourceDriverArgs);
        }
        if !features.source_args.where_clause && self.where_clause.is_some() {
            return Err(ArgumentError::WhereClause);
        }
        Ok(
            SourceArguments {
                driver_args: self.driver_args,
                where_clause: self.where_clause,
                state: Verified,
            },
        )
    }
}

impl SourceArguments<Verified> {
    /// The arguments for the driver.
    pub fn driver_args(&self) -> (args: &Vec<String>)
        ensures
            texts(args@) == self@.driver_args,
    {
        &self.driver_args
    }

    /// The condition that the rows to copy must meet, if there is one.
    pub fn where_clause(&self) -> (condition: Option<&String>)
        ensures
            (match condition {
                Some(condition) => self@.where_clause == Some(condition@),
                None => self@.where_clause is None,
            }),
    {
        self.where_clause.as_ref()
    }
}

/// The mathematical value of the arguments of a copy's destination.
pub struct DestinationArgumentsModel {
    pub driver_args: Seq<Seq<char>>,
    pub if_exists: IfExistsModel,
}

/// The arguments of the destination of a copy.
#[derive(Debug)]
pub struct DestinationArguments<S> {
    driver_args: Vec<String>,
    if_exists: IfExists,
    state: S,
}

impl<S> View for DestinationArguments<S> {
    type V = DestinationArgumentsModel;

    closed spec fn view(&self) -> DestinationArgumentsModel {
        DestinationArgumentsModel {
            driver_args: texts(self.driver_args@),
            if_exists: self.if_exists@,
        }
    }
}

/// The first destination argument that `features` does not allow, if there
/// is one.
pub open spec fn destination_fault(args: DestinationArgumentsModel, features: Features) -> Option<
    ArgumentError,
> {
    if !features.dest_args.driver_args && args.driver_args.len() > 0 {
        Some(ArgumentError::DestinationDriverArgs)
    } else if !if_exists_supported(args.if_exists, features.dest_if_exists) {
        Some(ArgumentError::IfExists)
    } else {
        None
    }
}

impl DestinationArguments<Unverified> {
    /// Destination arguments as the user gave them.
    pub fn new(driver_args: Vec<String>, if_exists: IfExists) -> (args: Self)
        ensures
            args@ == (DestinationArgumentsModel {
                driver_args: texts(driver_args@),
                if_exists: if_exists@,
            }),
    {
        DestinationArguments { driver_args, if_exists, state: Unverified }
    }

    /// The destination arguments for staging data: no driver arguments, and
    /// whatever is in the way is replaced.
    pub fn for_temporary() -> (args: Self)
        ensures
            args@ == (DestinationArgumentsModel {
                driver_args: Seq::empty(),
                if_exists: IfExistsModel::Overwrite,
            }),
    {
        let args = DestinationArguments {
            driver_args: Vec::new(),
            if_exists: IfExists::Overwrite,
            state: Unverified,
        };
        assert(args@.driver_args =~= Seq::empty());
        args
    }

    /// Accepts these arguments if `features` allows each of them, and names
    /// the first that it does not allow otherwise.
    pub fn verify(self, features: Features) -> (r: Result<
        DestinationArguments<Verified>,
        ArgumentError,
    >)
        ensures
            (match destination_fault(self@, features) {
                Some(fault) => r == Err::<DestinationArguments<Verified>, ArgumentError>(fault),
                None => r is Ok && r->Ok_0@ == self@,
            }),
    {
        if !features.dest_args.driver_args && self.driver_args.len() > 0 {
            return Err(ArgumentError::DestinationDriverArgs);
        }
        if !self.if_exists.supported_by(features.dest_if_exists) {
            return Err(ArgumentError::IfExists);
        }
        Ok(
            DestinationArguments {
                driver_args: self.driver_args,
                if_exists: self.if_exists,
                state: Verified,
            },
        )
    }
}

impl DestinationArguments<Verified> {
    /// The arguments for the driver.
    pub fn driver_args(&self) -> (args: &Vec<String>)
        ensures
            texts(args@) == self@.driver_args,
    {
        &self.driver_args
    }

    /// What to do if the destination table exists.
    pub fn if_exists(&self) -> (if_exists: &IfExists)
        ensures
            if_exists@ == self@.if_exists,
    {
        &self.if_exists
    }
}

} // verus!
