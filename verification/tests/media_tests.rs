use gameup::media::{
    delete_status, format_ok, media_dir, media_file_path, media_url, media_urls, upload_start, upload_step, MediaKind,
    RemoveOutcome, UploadAction, UploadEvent, UploadStage, IMAGE_SIZE_LIMIT, VIDEO_SIZE_LIMIT,
};

#[test]
fn upload_paths_follow_the_game_id() {
    assert_eq!(media_dir(MediaKind::Image, 12), "/app/uploads/12");
    assert_eq!(media_dir(MediaKind::Video, 12), "/app/video/12");
    assert_eq!(media_file_path(MediaKind::Image, 3, Some("cover.png")), "/app/uploads/3/cover.png");
    assert_eq!(media_file_path(MediaKind::Image, 3, None), "/app/uploads/3/file");
    assert_eq!(media_file_path(MediaKind::Video, 5, None), "/app/video/5/video.mp4");
}

#[test]
fn urls_skip_names_that_are_not_text() {
    assert_eq!(media_url(MediaKind::Video, 4, "trailer.mp4"), "http://localhost:8004/video/4/trailer.mp4");
    assert_eq!(media_url(MediaKind::Image, 4, "cover.png"), "http://localhost:8003/image/4/cover.png");
    let names = vec![Some("a.mp4".to_string()), None, Some("b.mp4".to_string())];
    assert_eq!(
        media_urls(MediaKind::Video, 4, &names),
        vec!["http://localhost:8004/video/4/a.mp4".to_string(), "http://localhost:8004/video/4/b.mp4".to_string()]
    );
    assert!(media_urls(MediaKind::Image, 4, &vec![]).is_empty());
}

#[test]
fn formats_are_told_by_extension() {
    assert!(format_ok(MediaKind::Image, "cover.png"));
    assert!(format_ok(MediaKind::Image, "PHOTO.JPeG"));
    assert!(format_ok(MediaKind::Image, "a.b.webp"));
    assert!(!format_ok(MediaKind::Image, "x.exe"));
    assert!(!format_ok(MediaKind::Image, "png"));
    assert!(!format_ok(MediaKind::Image, "file"));
    assert!(!format_ok(MediaKind::Image, "cover.png.txt"));
    assert!(format_ok(MediaKind::Video, "t.MP4"));
    assert!(format_ok(MediaKind::Video, "video.mp4"));
    assert!(!format_ok(MediaKind::Video, "notes.txt"));
    assert!(!format_ok(MediaKind::Video, "clip.png"));
}

#[test]
fn deleting_media_answers_no_content() {
    assert_eq!(delete_status(RemoveOutcome::Removed), 204);
    assert_eq!(delete_status(RemoveOutcome::Missing), 204);
    assert_eq!(delete_status(RemoveOutcome::Failed), 500);
}

fn respond(a: &UploadAction) -> Option<u16> {
    match a {
        UploadAction::Respond(s) => Some(*s),
        _ => None,
    }
}

#[test]
fn video_upload_runs_to_ok() {
    let (u, a) = upload_start(MediaKind::Video, 9);
    assert!(matches!(a, UploadAction::CreateDir(ref d) if d == "/app/video/9"));
    let (u, a) = upload_step(u, UploadEvent::DirCreated(true));
    assert!(matches!(a, UploadAction::NextPart));
    let (u, a) = upload_step(u, UploadEvent::Part(Some("t.mp4".to_string())));
    assert!(matches!(a, UploadAction::CreateFile(ref p) if p == "/app/video/9/t.mp4"));
    let (u, a) = upload_step(u, UploadEvent::FileCreated(true));
    assert!(matches!(a, UploadAction::NextChunk));
    let (u, a) = upload_step(u, UploadEvent::Chunk(1024));
    assert!(matches!(a, UploadAction::WriteChunk));
    assert_eq!(u.received, 1024);
    let (u, a) = upload_step(u, UploadEvent::ChunkWritten(true));
    assert!(matches!(a, UploadAction::NextChunk));
    let (u, a) = upload_step(u, UploadEvent::ChunksFinished);
    assert!(matches!(a, UploadAction::NextPart));
    let (u, a) = upload_step(u, UploadEvent::PartsFinished);
    assert_eq!(respond(&a), Some(200));
    assert_eq!(u.stage, UploadStage::Done);
}

fn video_at_chunk() -> gameup::media::Upload {
    let (u, _) = upload_start(MediaKind::Video, 1);
    let (u, _) = upload_step(u, UploadEvent::DirCreated(true));
    let (u, _) = upload_step(u, UploadEvent::Part(None));
    let (u, _) = upload_step(u, UploadEvent::FileCreated(true));
    u
}

#[test]
fn video_upload_failures_are_answered() {
    let (u, _) = upload_start(MediaKind::Video, 1);
    let (_, a) = upload_step(u, UploadEvent::DirCreated(false));
    assert_eq!(respond(&a), Some(500));
    let (u, _) = upload_start(MediaKind::Video, 1);
    let (u, _) = upload_step(u, UploadEvent::DirCreated(true));
    let (_, a) = upload_step(u, UploadEvent::PartFailed);
    assert_eq!(respond(&a), Some(400));
    let (u, _) = upload_start(MediaKind::Video, 1);
    let (u, _) = upload_step(u, UploadEvent::DirCreated(true));
    let (u, _) = upload_step(u, UploadEvent::Part(None));
    let (_, a) = upload_step(u, UploadEvent::FileCreated(false));
    assert_eq!(respond(&a), Some(500));
    let (_, a) = upload_step(video_at_chunk(), UploadEvent::ChunkFailed);
    assert_eq!(respond(&a), Some(400));
    let (u, _) = upload_step(video_at_chunk(), UploadEvent::Chunk(10));
    let (_, a) = upload_step(u, UploadEvent::ChunkWritten(false));
    assert_eq!(respond(&a), Some(500));
}

#[test]
fn video_of_another_format_is_refused() {
    let (u, _) = upload_start(MediaKind::Video, 2);
    let (u, _) = upload_step(u, UploadEvent::DirCreated(true));
    let (u, a) = upload_step(u, UploadEvent::Part(Some("notes.txt".to_string())));
    assert_eq!(respond(&a), Some(415));
    assert_eq!(u.stage, UploadStage::Done);
}

#[test]
fn oversized_video_is_removed_and_refused() {
    let (u, a) = upload_step(video_at_chunk(), UploadEvent::Chunk(VIDEO_SIZE_LIMIT));
    assert!(matches!(a, UploadAction::WriteChunk));
    let (u, _) = upload_step(u, UploadEvent::ChunkWritten(true));
    let (u, a) = upload_step(u, UploadEvent::Chunk(1));
    assert!(matches!(a, UploadAction::RemoveFile(ref p) if p == "/app/video/1/video.mp4"));
    let (_, a) = upload_step(u, UploadEvent::FileRemoved);
    assert_eq!(respond(&a), Some(413));
}

#[test]
fn image_upload_stores_whole_parts() {
    let (u, a) = upload_start(MediaKind::Image, 2);
    assert!(matches!(a, UploadAction::CreateDir(ref d) if d == "/app/uploads/2"));
    let (u, _) = upload_step(u, UploadEvent::DirCreated(true));
    let (u, a) = upload_step(u, UploadEvent::Part(Some("cover.png".to_string())));
    assert!(matches!(a, UploadAction::ReadPart));
    let (u, a) = upload_step(u, UploadEvent::PartRead(2048));
    assert!(matches!(a, UploadAction::StorePart(ref p) if p == "/app/uploads/2/cover.png"));
    let (u, a) = upload_step(u, UploadEvent::Stored);
    assert!(matches!(a, UploadAction::NextPart));
    let (_, a) = upload_step(u, UploadEvent::PartsFinished);
    assert_eq!(respond(&a), Some(200));
}

#[test]
fn image_of_another_format_or_size_is_refused() {
    let (u, _) = upload_start(MediaKind::Image, 2);
    let (u, _) = upload_step(u, UploadEvent::DirCreated(true));
    let (_, a) = upload_step(u, UploadEvent::Part(Some("x.exe".to_string())));
    assert_eq!(respond(&a), Some(415));
    let (u, _) = upload_start(MediaKind::Image, 2);
    let (u, _) = upload_step(u, UploadEvent::DirCreated(true));
    let (_, a) = upload_step(u, UploadEvent::Part(None));
    assert_eq!(respond(&a), Some(415));
    let (u, _) = upload_start(MediaKind::Image, 2);
    let (u, _) = upload_step(u, UploadEvent::DirCreated(true));
    let (u, _) = upload_step(u, UploadEvent::Part(Some("big.jpg".to_string())));
    let (_, a) = upload_step(u, UploadEvent::PartRead(IMAGE_SIZE_LIMIT + 1));
    assert_eq!(respond(&a), Some(413));
}
