use blindtest::archive::{archive_save, document_name, load_archive, ArchiveEntry, ArchiveError};
use blindtest::clip::Offset;
use blindtest::save::{load, ClipSave, SaveFile, Settings};

fn project() -> SaveFile {
    SaveFile {
        clips: vec![
            ClipSave {
                title: "One".to_string(),
                image_path: "/home/me/pictures/one.png".to_string(),
                music_path: "/home/me/music/one.mp3".to_string(),
                offset: Offset { secs: 5, nanos: 7 },
            },
            ClipSave {
                title: "Two".to_string(),
                image_path: "two.jpg".to_string(),
                music_path: "songs/two.ogg".to_string(),
                offset: Offset { secs: 0, nanos: 0 },
            },
        ],
        timeline: vec![Some("Two".to_string()), None, Some("One".to_string())],
        settings: Settings { duration: 25, countdown: Some("/videos/count.mp4".to_string()) },
    }
}

fn entry(source: &str, name: &str) -> ArchiveEntry {
    ArchiveEntry { source: source.to_string(), name: name.to_string() }
}

#[test]
fn document_is_stored_as_save_bt() {
    assert_eq!(document_name(), "save.bt");
}

#[test]
fn plan_names_each_file_after_its_clip() {
    let plan = archive_save(&project()).unwrap();
    assert_eq!(
        plan.entries,
        vec![
            entry("/home/me/music/one.mp3", "One/music/one.mp3"),
            entry("/home/me/pictures/one.png", "One/image/one.png"),
            entry("songs/two.ogg", "Two/music/two.ogg"),
            entry("two.jpg", "Two/image/two.jpg"),
            entry("/videos/count.mp4", "countdown/count.mp4"),
        ]
    );
}

#[test]
fn plan_rewrites_the_paths_of_the_project() {
    let plan = archive_save(&project()).unwrap();
    assert_eq!(plan.save.clips[0].music_path, "One/music/one.mp3");
    assert_eq!(plan.save.clips[0].image_path, "One/image/one.png");
    assert_eq!(plan.save.clips[1].music_path, "Two/music/two.ogg");
    assert_eq!(plan.save.clips[1].image_path, "Two/image/two.jpg");
    assert_eq!(plan.save.settings.countdown, Some("countdown/count.mp4".to_string()));
    assert_eq!(plan.save.clips[0].title, "One");
    assert_eq!(plan.save.clips[0].offset, Offset { secs: 5, nanos: 7 });
    assert_eq!(plan.save.timeline, project().timeline);
    assert_eq!(plan.save.settings.duration, 25);
    assert_eq!(load(&plan.document), Ok(plan.save.clone()));
}

#[test]
fn plan_without_countdown_has_no_entry_for_it() {
    let mut save = project();
    save.settings.countdown = None;
    let plan = archive_save(&save).unwrap();
    assert_eq!(plan.entries.len(), 4);
    assert_eq!(plan.save.settings.countdown, None);
}

#[test]
fn plan_fails_at_the_first_path_without_a_file_name() {
    let mut save = project();
    save.clips[1].image_path = "/".to_string();
    assert_eq!(archive_save(&save), Err(ArchiveError::ImageNotAFile));
    save.clips[1].music_path = "songs/..".to_string();
    assert_eq!(archive_save(&save), Err(ArchiveError::MusicNotAFile));
    save.clips[0].image_path = "".to_string();
    assert_eq!(archive_save(&save), Err(ArchiveError::ImageNotAFile));
    let mut save = project();
    save.settings.countdown = Some("..".to_string());
    assert_eq!(archive_save(&save), Err(ArchiveError::CountdownNotAFile));
}

#[test]
fn archive_error_sentences() {
    assert_eq!(ArchiveError::MusicNotAFile.message(), "music is not a file");
    assert_eq!(ArchiveError::ImageNotAFile.message(), "image is not a file");
    assert_eq!(ArchiveError::CountdownNotAFile.message(), "countdown is not a file");
    assert_eq!(ArchiveError::Unwritable.message(), "could not generate edited save");
}

#[test]
fn unpacked_project_points_into_the_folder() {
    let plan = archive_save(&project()).unwrap();
    let back = load_archive(&plan.save, "/tmp/unpacked");
    assert_eq!(back.clips[0].music_path, "/tmp/unpacked/One/music/one.mp3");
    assert_eq!(back.clips[0].image_path, "/tmp/unpacked/One/image/one.png");
    assert_eq!(back.clips[1].music_path, "/tmp/unpacked/Two/music/two.ogg");
    assert_eq!(back.settings.countdown, Some("/tmp/unpacked/countdown/count.mp4".to_string()));
}

#[test]
fn round_trip_keeps_titles_offsets_timeline_and_duration() {
    let original = project();
    let plan = archive_save(&original).unwrap();
    let stored = load(&plan.document).unwrap();
    let back = load_archive(&stored, "/somewhere/else");
    assert_eq!(back.clips.len(), original.clips.len());
    for (before, after) in original.clips.iter().zip(back.clips.iter()) {
        assert_eq!(before.title, after.title);
        assert_eq!(before.offset, after.offset);
    }
    assert_eq!(back.timeline, original.timeline);
    assert_eq!(back.settings.duration, original.settings.duration);
    assert!(back.settings.countdown.is_some());
}
