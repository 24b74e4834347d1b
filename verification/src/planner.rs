//! Choosing the way that a copy takes from its source to its destination.
//!
//! Three ways are tried in order. A destination that can fetch the source's
//! data by itself does so. Failing that, the data is staged in the first
//! temporary storage that the destination can fetch from. Failing that, the
//! data is streamed through this program.

use crate::locator::Scheme;
use vstd::prelude::*;

verus! {

/// The way that a copy takes.
#[derive(Clone, Copy, Debug, PartialEq, Eq, Structural)]
pub enum Plan {
    /// The destination fetches the data from the source.
    Remote,
    /// The source's data is streamed to the temporary storage at this
    /// index, and the destination fetches it from there.
    Staged { temporary: usize },
    /// The source's data is streamed to the destination.
    Local,
}

/// Why there is no way from a source to a destination.
#[derive(Clone, Copy, Debug, PartialEq, Eq, Structural)]
pub enum NoRoute {
    /// The source cannot stream its data.
    SourceCannotStream,
    /// The destination takes no stream, and no temporary storage that it
    /// can fetch from was given.
    DestinationCannotStream,
}

/// A copy for which there is no way.
#[derive(Clone, Copy, Debug, PartialEq, Eq, Structural)]
pub struct Unsupported {
    pub source: Scheme,
    pub destination: Scheme,
    pub reason: NoRoute,
}

/// Can a driver stream the data that its locator names?
pub open spec fn streams_out(scheme: Scheme) -> bool {
    match scheme {
        Scheme::BigQuery | Scheme::Csv | Scheme::Gs | Scheme::Postgres | Scheme::Redshift
        | Scheme::S3 => true,
        Scheme::BigQuerySchema | Scheme::DbcrossbarSchema | Scheme::PostgresSql => false,
    }
}

/// Can a driver take a stream of data?
pub open spec fn streams_in(scheme: Scheme) -> bool {
    match scheme {
        Scheme::BigQuery | Scheme::Csv | Scheme::Gs | Scheme::Postgres | Scheme::Redshift
        | Scheme::S3 => true,
        Scheme::BigQuerySchema | Scheme::DbcrossbarSchema | Scheme::PostgresSql => false,
    }
}

/// Can the driver of `destination` fetch the data that a locator of
/// `source` names by itself? A warehouse loads from the object store of its
/// cloud, and unloads to it.
pub open spec fn fetches(destination: Scheme, source: Scheme) -> bool {
    match (destination, source) {
        (Scheme::BigQuery, Scheme::Gs) => true,
        (Scheme::Gs, Scheme::BigQuery) => true,
        (Scheme::Redshift, Scheme::S3) => true,
        (Scheme::S3, Scheme::Redshift) => true,
        _ => false,
    }
}

/// The index of the first of `temporaries` at or after `from` that can be
/// streamed to and that `destination` can fetch from, or the number of
/// temporaries if there is none.
pub open spec fn first_staging(destination: Scheme, temporaries: Seq<Scheme>, from: int) -> int
    decreases temporaries.len() - from,
{
    if 0 <= from < temporaries.len() && !(streams_in(temporaries[from]) && fetches(
        destination,
        temporaries[from],
    )) {
        first_staging(destination, temporaries, from + 1)
    } else {
        from
    }
}

/// The way that a copy from `source` to `destination` takes, where
/// `temporaries` are the schemes of the temporary storage that may be used.
pub open spec fn plan_for(source: Scheme, destination: Scheme, temporaries: Seq<Scheme>) -> Result<
    Plan,
    Unsupported,
> {
    if fetches(destination, source) {
        Ok(Plan::Remote)
    } else if !streams_out(source) {
        Err(Unsupported { source, destination, reason: NoRoute::SourceCannotStream })
    } else if first_staging(destination, temporaries, 0) < temporaries.len() {
        Ok(Plan::Staged { temporary: first_staging(destination, temporaries, 0) as usize })
    } else if streams_in(destination) {
        Ok(Plan::Local)
    } else {
        Err(Unsupported { source, destination, reason: NoRoute::DestinationCannotStream })
    }
}

/// Executable form of [`streams_out`].
pub fn can_stream_out(scheme: Scheme) -> (r: bool)
    ensures
        r == streams_out(scheme),
{
    match scheme {
        Scheme::BigQuery | Scheme::Csv | Scheme::Gs | Scheme::Postgres | Scheme::Redshift
        | Scheme::S3 => true,
        Scheme::BigQuerySchema | Scheme::DbcrossbarSchema | Scheme::PostgresSql => false,
    }
}

/// Executable form of [`streams_in`].
pub fn can_stream_in(scheme: Scheme) -> (r: bool)
    ensures
        r == streams_in(scheme),
{
    match scheme {
        Scheme::BigQuery | Scheme::Csv | Scheme::Gs | Scheme::Postgres | Scheme::Redshift
        | Scheme::S3 => true,
        Scheme::BigQuerySchema | Scheme::DbcrossbarSchema | Scheme::PostgresSql => false,
    }
}

/// Executable form of [`fetches`].
pub fn can_fetch(destination: Scheme, source: Scheme) -> (r: bool)
    ensures
        r == fetches(destination, source),
{
    match (destination, source) {
        (Scheme::BigQuery, Scheme::Gs) => true,
        (Scheme::Gs, Scheme::BigQuery) => true,
        (Scheme::Redshift, Scheme::S3) => true,
        (Scheme::S3, Scheme::Redshift) => true,
        _ => false,
    }
}

/// Chooses the way that a copy from `source` to `destination` takes.
pub fn plan(source: Scheme, destination: Scheme, temporaries: &[Scheme]) -> (r: Result<
    Plan,
    Unsupported,
>)
    ensures
        r == plan_for(source, destination, temporaries@),
{
    if can_fetch(destination, source) {
        return Ok(Plan::Remote);
    }
    if !can_stream_out(source) {
        return Err(Unsupported { source, destination, reason: NoRoute::SourceCannotStream });
    }
    let mut i: usize = 0;
    while i < temporaries.len()
        invariant
            i <= temporaries.len(),
            !fetches(destination, source),
            streams_out(source),
            first_staging(destination, temporaries@, 0) == first_staging(
                destination,
                temporaries@,
                i as int,
            ),
        decreases temporaries.len() - i,
    {
        if can_stream_in(temporaries[i]) && can_fetch(destination, temporaries[i]) {
            return Ok(Plan::Staged { temporary: i });
        }
        i += 1;
    }
    if can_stream_in(destination) {
        Ok(Plan::Local)
    } else {
        Err(Unsupported { source, destination, reason: NoRoute::DestinationCannotStream })
    }
}

/// The staging that a plan names is one of the temporaries, the
/// destination can fetch from it, and no temporary before it would do.
pub proof fn lemma_staging_is_first(source: Scheme, destination: Scheme, temporaries: Seq<Scheme>)
    requires
        temporaries.len() <= usize::MAX,
        plan_for(source, destination, temporaries) is Ok,
        plan_for(source, destination, temporaries)->Ok_0 is Staged,
    ensures
        ({
            let at = plan_for(source, destination, temporaries)->Ok_0->temporary as int;
            &&& 0 <= at < temporaries.len()
            &&& fetches(destination, temporaries[at])
            &&& streams_in(temporaries[at])
            &&& forall|i: int|
                0 <= i < at ==> !(streams_in(#[trigger] temporaries[i]) && fetches(
                    destination,
                    temporaries[i],
                ))
        }),
{
    lemma_first_staging(destination, temporaries, 0);
}

/// What [`first_staging`] finds.
proof fn lemma_first_staging(destination: Scheme, temporaries: Seq<Scheme>, from: int)
    requires
        0 <= from <= temporaries.len(),
    ensures
        from <= first_staging(destination, temporaries, from) <= temporaries.len(),
        first_staging(destination, temporaries, from) < temporaries.len() ==> streams_in(
            temporaries[first_staging(destination, temporaries, from)],
        ) && fetches(destination, temporaries[first_staging(destination, temporaries, from)]),
        forall|i: int|
            from <= i < first_staging(destination, temporaries, from) ==> !(streams_in(
                #[trigger] temporaries[i],
            ) && fetches(destination, temporaries[i])),
    decreases temporaries.len() - from,
{
    if from < temporaries.len() && !(streams_in(temporaries[from]) && fetches(
        destination,
        temporaries[from],
    )) {
        lemma_first_staging(destination, temporaries, from + 1);
    }
}

/// There is a way for every copy between two drivers that stream.
pub proof fn lemma_streams_always_route(
    source: Scheme,
    destination: Scheme,
    temporaries: Seq<Scheme>,
)
    requires
        streams_out(source),
        streams_in(destination),
    ensures
        plan_for(source, destination, temporaries) is Ok,
{
}

} // verus!
