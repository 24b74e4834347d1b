//! Writing local data to Redshift.
//!
//! Redshift loads data from S3, not from a stream. Local data therefore
//! goes to a temporary directory on S3 first; once every upload has
//! finished, Redshift loads the directory. This module decides what is done
//! next at each point; doing it is the caller's part.

use crate::args::{
    first_with_scheme, DestinationArgumentsFeatures, Features, IfExistsFeatures,
    LocatorFeatures, SharedArguments, SharedArgumentsModel, SourceArgumentsFeatures, Unverified,
};
use crate::text::to_chars;
use vstd::prelude::*;
use vstd::string::StringExecFns;

verus! {

/// What the Redshift driver supports.
pub open spec fn redshift_features() -> Features {
    Features {
        locator: LocatorFeatures {
            schema: true,
            write_schema: false,
            local_data: true,
            write_local_data: true,
            count: false,
        },
        write_schema_if_exists: IfExistsFeatures {
            error: false,
            append: false,
            overwrite: false,
            upsert: false,
        },
        source_args: SourceArgumentsFeatures { driver_args: true, where_clause: true },
        dest_args: DestinationArgumentsFeatures { driver_args: true },
        dest_if_exists: IfExistsFeatures {
            error: false,
            append: true,
            overwrite: true,
            upsert: true,
        },
    }
}

/// What the Redshift driver supports.
pub fn features() -> (features: Features)
    ensures
        features == redshift_features(),
{
    Features {
        locator: LocatorFeatures {
            schema: true,
            write_schema: false,
            local_data: true,
            write_local_data: true,
            count: false,
        },
        write_schema_if_exists: IfExistsFeatures {
            error: false,
            append: false,
            overwrite: false,
            upsert: false,
        },
        source_args: SourceArgumentsFeatures { driver_args: true, where_clause: true },
        dest_args: DestinationArgumentsFeatures { driver_args: true },
        dest_if_exists: IfExistsFeatures {
            error: false,
            append: true,
            overwrite: true,
            upsert: true,
        },
    }
}

/// The directory below `base` that a copy with the tag `tag` stages its
/// data in: `base`, a `/` unless `base` ends in one, the tag, and a `/`.
pub open spec fn temp_dir_text(base: Seq<char>, tag: Seq<char>) -> Seq<char> {
    if base.len() > 0 && base.last() == '/' {
        base + tag + seq!['/']
    } else {
        base + seq!['/'] + tag + seq!['/']
    }
}

/// The directory below `base` that a copy with the tag `tag` stages its
/// data in.
pub fn temp_dir(base: &str, tag: &str) -> (dir: String)
    ensures
        dir@ == temp_dir_text(base@, tag@),
{
    let chars = to_chars(base);
    let mut dir = String::new();
    dir.append(base);
    if !(chars.len() > 0 && chars[chars.len() - 1] == '/') {
        dir.push('/');
    }
    dir.append(tag);
    dir.push('/');
    dir
}

/// Why a write could not begin.
#[derive(Clone, Copy, Debug, PartialEq, Eq, Structural)]
pub enum StartError {
    /// No temporary storage on S3 was given.
    NoS3Temporary,
}

/// How far a write has come.
#[derive(Clone, Copy, Debug, PartialEq, Eq, Structural)]
pub enum Stage {
    /// The uploads to S3 are being started.
    Staging,
    /// The uploads to S3 are running.
    Uploading,
    /// Redshift is loading the staged data.
    Loading,
    /// The data is in Redshift.
    Done,
    /// Something failed; nothing more is done.
    Failed,
}

/// How what was last asked for ended.
#[derive(Clone, Copy, Debug, PartialEq, Eq, Structural)]
pub enum Outcome {
    Succeeded,
    Failed,
}

/// What the caller is to do next.
#[derive(Debug, PartialEq, Eq)]
pub enum Step {
    /// Write the local data to this directory on S3, with the arguments for
    /// temporary destinations.
    WriteToTemp { temp: String },
    /// Wait until every upload has finished, at most this many at a time.
    AwaitUploads { parallelism: usize },
    /// Have Redshift load this directory on S3, read with the arguments
    /// for temporary sources and written with the user's destination
    /// arguments.
    LoadFromTemp { temp: String },
    /// Report the destination as the one place that was written.
    Finish,
    /// Give up and report the failure.
    Abort,
}

/// The mathematical value of a [`Step`].
pub enum StepModel {
    WriteToTemp { temp: Seq<char> },
    AwaitUploads { parallelism: usize },
    LoadFromTemp { temp: Seq<char> },
    Finish,
    Abort,
}

impl View for Step {
    type V = StepModel;

    open spec fn view(&self) -> StepModel {
        match self {
            Step::WriteToTemp { temp } => StepModel::WriteToTemp { temp: temp@ },
            Step::AwaitUploads { parallelism } => StepModel::AwaitUploads {
                parallelism: *parallelism,
            },
            Step::LoadFromTemp { temp } => StepModel::LoadFromTemp { temp: temp@ },
            Step::Finish => StepModel::Finish,
            Step::Abort => StepModel::Abort,
        }
    }
}

/// The stage that follows `stage` once what was asked for in it has ended
/// with `outcome`. Each stage follows the success of the one before it; a
/// failure ends the write, and a write that has ended stays as it is.
pub open spec fn next_stage(stage: Stage, outcome: Outcome) -> Stage {
    match (stage, outcome) {
        (Stage::Done, _) => Stage::Done,
        (Stage::Failed, _) => Stage::Failed,
        (_, Outcome::Failed) => Stage::Failed,
        (Stage::Staging, Outcome::Succeeded) => Stage::Uploading,
        (Stage::Uploading, Outcome::Succeeded) => Stage::Loading,
        (Stage::Loading, Outcome::Succeeded) => Stage::Done,
    }
}

/// What is to be done in `stage` by a write that stages in `temp` and may
/// run `max_streams` uploads at a time.
pub open spec fn step_in(stage: Stage, temp: Seq<char>, max_streams: usize) -> StepModel {
    match stage {
        Stage::Staging => StepModel::WriteToTemp { temp },
        Stage::Uploading => StepModel::AwaitUploads { parallelism: max_streams },
        Stage::Loading => StepModel::LoadFromTemp { temp },
        Stage::Done => StepModel::Finish,
        Stage::Failed => StepModel::Abort,
    }
}

/// The stage that a write reaches from `stage` after the outcomes
/// `outcomes`, in order.
pub open spec fn stage_after(stage: Stage, outcomes: Seq<Outcome>) -> Stage
    decreases outcomes.len(),
{
    if outcomes.len() == 0 {
        stage
    } else {
        next_stage(stage_after(stage, outcomes.drop_last()), outcomes.last())
    }
}

/// The directory that a write with the arguments `args` and the tag `tag`
/// stages in, or the reason why it cannot begin: the first temporary
/// storage on S3 decides.
pub open spec fn staging_of(args: SharedArgumentsModel, tag: Seq<char>) -> Result<
    Seq<char>,
    StartError,
> {
    let i = first_with_scheme(args.temporary_storage, "s3://"@, 0);
    if i < args.temporary_storage.len() {
        Ok(temp_dir_text(args.temporary_storage[i], tag))
    } else {
        Err(StartError::NoS3Temporary)
    }
}

/// A write of local data to Redshift, and how far it has come.
#[derive(Debug)]
pub struct StagedWrite {
    stage: Stage,
    temp: String,
    max_streams: usize,
}

impl StagedWrite {
    /// How far this write has come.
    pub closed spec fn stage_model(&self) -> Stage {
        self.stage
    }

    /// The directory on S3 that this write stages in.
    pub closed spec fn temp_model(&self) -> Seq<char> {
        self.temp@
    }

    /// How many uploads this write may run at a time.
    pub closed spec fn max_streams_model(&self) -> usize {
        self.max_streams
    }

    /// Begins a write with the shared arguments `shared_args`. The tag
    /// `tag` names the directory that the data is staged in, and should
    /// differ from that of every other copy.
    pub fn start(shared_args: &SharedArguments<Unverified>, tag: &str) -> (r: Result<
        StagedWrite,
        StartError,
    >)
        ensures
            (match staging_of(shared_args@, tag@) {
                Ok(temp) => r is Ok && r->Ok_0.stage_model() == Stage::Staging
                    && r->Ok_0.temp_model() == temp && r->Ok_0.max_streams_model()
                    == shared_args@.max_streams,
                Err(e) => r is Err && r->Err_0 == e,
            }),
    {
        let verified = shared_args.to_unverified().verify(features()).unwrap();
        match verified.find_scheme("s3://") {
            Some(base) => Ok(
                StagedWrite {
                    stage: Stage::Staging,
                    temp: temp_dir(base.as_str(), tag),
                    max_streams: verified.max_streams(),
                },
            ),
            None => Err(StartError::NoS3Temporary),
        }
    }

    /// How far this write has come.
    pub fn stage(&self) -> (stage: Stage)
        ensures
            stage == self.stage_model(),
    {
        self.stage
    }

    /// What is to be done now.
    pub fn step(&self) -> (step: Step)
        ensures
            step@ == step_in(self.stage_model(), self.temp_model(), self.max_streams_model()),
    {
        match self.stage {
            Stage::Staging => Step::WriteToTemp { temp: self.temp.clone() },
            Stage::Uploading => Step::AwaitUploads { parallelism: self.max_streams },
            Stage::Loading => Step::LoadFromTemp { temp: self.temp.clone() },
            Stage::Done => Step::Finish,
            Stage::Failed => Step::Abort,
        }
    }

    /// Takes note of how the current step ended, and says what is to be
    /// done next.
    pub fn advance(&mut self, outcome: Outcome) -> (step: Step)
        ensures
            final(self).stage_model() == next_stage(old(self).stage_model(), outcome),
            final(self).temp_model() == old(self).temp_model(),
            final(self).max_streams_model() == old(self).max_streams_model(),
            step@ == step_in(
                final(self).stage_model(),
                final(self).temp_model(),
                final(self).max_streams_model(),
            ),
    {
        self.stage = match (self.stage, outcome) {
            (Stage::Done, _) => Stage::Done,
            (Stage::Failed, _) => Stage::Failed,
            (_, Outcome::Failed) => Stage::Failed,
            (Stage::Staging, Outcome::Succeeded) => Stage::Uploading,
            (Stage::Uploading, Outcome::Succeeded) => Stage::Loading,
            (Stage::Loading, Outcome::Succeeded) => Stage::Done,
        };
        self.step()
    }
}

/// A write that has failed stays failed, and one that is done stays done.
pub proof fn lemma_ended_stays(stage: Stage, outcomes: Seq<Outcome>)
    requires
        stage == Stage::Done || stage == Stage::Failed,
    ensures
        stage_after(stage, outcomes) == stage,
    decreases outcomes.len(),
{
    if outcomes.len() > 0 {
        lemma_ended_stays(stage, outcomes.drop_last());
    }
}

/// A new write moves on by at most one stage with each outcome, and only
/// while every outcome is a success: after `outcomes` it is where that many
/// successes lead if it has not ended and none of them is a failure.
pub proof fn lemma_stages_in_order(outcomes: Seq<Outcome>)
    ensures
        stage_after(Stage::Staging, outcomes) == Stage::Staging <==> outcomes.len() == 0,
        stage_after(Stage::Staging, outcomes) == Stage::Uploading <==> outcomes
            == seq![Outcome::Succeeded],
        stage_after(Stage::Staging, outcomes) == Stage::Loading <==> outcomes
            == seq![Outcome::Succeeded, Outcome::Succeeded],
        stage_after(Stage::Staging, outcomes) == Stage::Done <==> outcomes.len() >= 3
            && outcomes[0] == Outcome::Succeeded && outcomes[1] == Outcome::Succeeded
            && outcomes[2] == Outcome::Succeeded,
    decreases outcomes.len(),
{
    if outcomes.len() > 0 {
        let before = outcomes.drop_last();
        lemma_stages_in_order(before);
        if outcomes.len() == 1 {
            assert(outcomes =~= seq![outcomes[0]]);
        } else if outcomes.len() == 2 {
            assert(outcomes =~= seq![outcomes[0], outcomes[1]]);
            assert(before =~= seq![outcomes[0]]);
        } else if outcomes.len() == 3 {
            assert(before =~= seq![outcomes[0], outcomes[1]]);
        }
    }
}

} // verus!
