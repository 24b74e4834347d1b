use dbcrossbarlib::args::SharedArguments;
use dbcrossbarlib::drivers::redshift::write_local_data::{
    features, temp_dir, Outcome, Stage, StagedWrite, StartError, Step,
};
use dbcrossbarlib::schema::Table;

fn shared(temporaries: &[&str], max_streams: usize) -> SharedArguments<dbcrossbarlib::args::Unverified> {
    let table = Table {
        name: "t".to_owned(),
        columns: vec![],
    };
    SharedArguments::new(
        table,
        temporaries.iter().map(|t| (*t).to_owned()).collect(),
        max_streams,
    )
}

#[test]
fn a_write_goes_through_s3_stage_by_stage() {
    let args = shared(&["gs://other/", "s3://bucket/tmp"], 7);
    let mut write = StagedWrite::start(&args, "abc123").unwrap();
    let temp = "s3://bucket/tmp/abc123/".to_owned();
    assert_eq!(write.stage(), Stage::Staging);
    assert_eq!(write.step(), Step::WriteToTemp { temp: temp.clone() });
    assert_eq!(
        write.advance(Outcome::Succeeded),
        Step::AwaitUploads { parallelism: 7 }
    );
    assert_eq!(write.stage(), Stage::Uploading);
    assert_eq!(
        write.advance(Outcome::Succeeded),
        Step::LoadFromTemp { temp: temp.clone() }
    );
    assert_eq!(write.stage(), Stage::Loading);
    assert_eq!(write.advance(Outcome::Succeeded), Step::Finish);
    assert_eq!(write.stage(), Stage::Done);
    // A write that is done stays done.
    assert_eq!(write.advance(Outcome::Failed), Step::Finish);
    assert_eq!(write.advance(Outcome::Succeeded), Step::Finish);
    assert_eq!(write.stage(), Stage::Done);
}

#[test]
fn a_failure_at_any_stage_ends_the_write() {
    for successes in 0..3 {
        let args = shared(&["s3://bucket/"], 4);
        let mut write = StagedWrite::start(&args, "t").unwrap();
        for _ in 0..successes {
            assert_ne!(write.advance(Outcome::Succeeded), Step::Abort);
        }
        assert_eq!(write.advance(Outcome::Failed), Step::Abort);
        assert_eq!(write.stage(), Stage::Failed);
        assert_eq!(write.advance(Outcome::Succeeded), Step::Abort);
        assert_eq!(write.step(), Step::Abort);
        assert_eq!(write.stage(), Stage::Failed);
    }
}

#[test]
fn a_write_needs_temporary_storage_on_s3() {
    assert_eq!(
        StagedWrite::start(&shared(&[], 4), "t").err(),
        Some(StartError::NoS3Temporary)
    );
    assert_eq!(
        StagedWrite::start(&shared(&["gs://bucket/", "s3:/typo"], 4), "t").err(),
        Some(StartError::NoS3Temporary)
    );
}

#[test]
fn the_first_s3_temporary_is_used() {
    let args = shared(&["s3://first/", "s3://second/"], 1);
    let write = StagedWrite::start(&args, "tag").unwrap();
    assert_eq!(
        write.step(),
        Step::WriteToTemp {
            temp: "s3://first/tag/".to_owned()
        }
    );
}

#[test]
fn temporary_directories_end_in_a_slash() {
    assert_eq!(temp_dir("s3://bucket", "tag"), "s3://bucket/tag/");
    assert_eq!(temp_dir("s3://bucket/", "tag"), "s3://bucket/tag/");
    assert_eq!(temp_dir("s3://bucket/dir//", "tag"), "s3://bucket/dir//tag/");
    assert_eq!(temp_dir("", ""), "//");
}

#[test]
fn redshift_takes_local_data_but_does_not_count() {
    let features = features();
    assert!(features.locator.write_local_data);
    assert!(features.locator.local_data);
    assert!(!features.locator.count);
    assert!(features.dest_if_exists.append);
    assert!(features.dest_if_exists.overwrite);
    assert!(!features.dest_if_exists.error);
    assert!(features.source_args.where_clause);
}
