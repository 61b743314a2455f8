use telegram_relay::staging::{
    begin_staging, staging_path, Creating, Locating, Resolving, StagedAttachment, Staging,
    StagingFailure, StagingStage, StagingStep, Streaming, STAGING_DIR, STAGING_EXTENSION,
};

#[test]
fn staging_path_is_below_tmp_with_ogg_extension() {
    assert_eq!(staging_path("/home/bot", "AwACAgQ"), "/home/bot/tmp/AwACAgQ.ogg");
}

#[test]
fn staging_path_of_empty_parts() {
    assert_eq!(staging_path("", ""), "/tmp/.ogg");
    assert_eq!(staging_path("", "f"), "/tmp/f.ogg");
    assert_eq!(staging_path("/", "f"), "//tmp/f.ogg");
}

#[test]
fn staging_path_keeps_every_character() {
    assert_eq!(staging_path("/srv/é dir", "id-ß_9"), "/srv/é dir/tmp/id-ß_9.ogg");
}

#[test]
fn staging_names() {
    assert_eq!(STAGING_DIR, "tmp");
    assert_eq!(STAGING_EXTENSION, "ogg");
}

#[test]
fn staged_attachment_reports_its_parts() {
    let attachment = StagedAttachment::new("/work".to_string(), "voice1".to_string());
    assert_eq!(attachment.working_dir(), "/work");
    assert_eq!(attachment.file_id(), "voice1");
    assert_eq!(attachment.path(), "/work/tmp/voice1.ogg");
}

fn resolving(file_id: &str) -> Resolving {
    match begin_staging(&Some(file_id.to_string())) {
        StagingStep::Resolve(job) => job,
        other => panic!("expected the resolve step, got {other:?}"),
    }
}

fn locating(file_id: &str, remote_path: &str) -> Locating {
    match resolving(file_id).resolved(Ok(remote_path.to_string())) {
        StagingStep::Locate(job) => job,
        other => panic!("expected the locate step, got {other:?}"),
    }
}

fn creating(file_id: &str, remote_path: &str, working_dir: &str) -> Creating {
    match locating(file_id, remote_path).located(Ok(working_dir.to_string())) {
        StagingStep::Create(job) => job,
        other => panic!("expected the create step, got {other:?}"),
    }
}

fn streaming(file_id: &str, remote_path: &str, working_dir: &str) -> Streaming {
    match creating(file_id, remote_path, working_dir).created(Ok(())) {
        StagingStep::Stream(job) => job,
        other => panic!("expected the stream step, got {other:?}"),
    }
}

fn failure(stage: StagingStage, detail: &str) -> StagingStep {
    StagingStep::Done(Staging::Failed(StagingFailure { stage, detail: detail.to_string() }))
}

#[test]
fn nothing_is_staged_without_a_voice_attachment() {
    assert_eq!(begin_staging(&None), StagingStep::Done(Staging::Skipped));
}

#[test]
fn staging_begins_with_resolving_the_file() {
    assert_eq!(resolving("v1").file_id(), "v1");
}

#[test]
fn staging_goes_through_four_operations() {
    let job = resolving("v1");
    let job = match job.resolved(Ok("voice/file_7.oga".to_string())) {
        StagingStep::Locate(job) => job,
        other => panic!("expected the locate step, got {other:?}"),
    };
    let job = match job.located(Ok("/home/bot".to_string())) {
        StagingStep::Create(job) => job,
        other => panic!("expected the create step, got {other:?}"),
    };
    assert_eq!(job.path(), "/home/bot/tmp/v1.ogg");
    let job = match job.created(Ok(())) {
        StagingStep::Stream(job) => job,
        other => panic!("expected the stream step, got {other:?}"),
    };
    assert_eq!(job.remote_path(), "voice/file_7.oga");
    assert_eq!(job.path(), "/home/bot/tmp/v1.ogg");
    let end = job.streamed(Ok(()));
    assert_eq!(
        end,
        StagingStep::Done(Staging::Stored(StagedAttachment::new(
            "/home/bot".to_string(),
            "v1".to_string()
        )))
    );
}

#[test]
fn failed_resolution_ends_staging() {
    let end = resolving("v1").resolved(Err("file is too big".to_string()));
    assert_eq!(end, failure(StagingStage::Resolution, "file is too big"));
}

#[test]
fn unknown_working_directory_ends_staging() {
    let end = locating("v1", "r").located(Err("no such directory".to_string()));
    assert_eq!(end, failure(StagingStage::Creation, "no such directory"));
}

#[test]
fn failed_creation_ends_staging() {
    let end = creating("v1", "r", "/w").created(Err("permission denied".to_string()));
    assert_eq!(end, failure(StagingStage::Creation, "permission denied"));
}

#[test]
fn failed_streaming_ends_staging() {
    let end = streaming("v1", "r", "/w").streamed(Err("connection reset".to_string()));
    assert_eq!(end, failure(StagingStage::Streaming, "connection reset"));
}
