use blindtest::clip::{Clip, ClipRegistry, Offset};
use blindtest::command::ExportItem;
use blindtest::export::Export;

fn clip(title: &str, offset: u64) -> Clip {
    Clip {
        title: title.to_string(),
        music_path: format!("/music/{}.mp3", title),
        image_path: format!("/images/{}.png", title),
        offset: Offset::from_secs(offset),
        duration: Offset { secs: 180, nanos: 250 },
    }
}

fn registry(titles: &[&str]) -> ClipRegistry {
    let mut clips = ClipRegistry::new();
    for (i, title) in titles.iter().enumerate() {
        clips.insert(clip(title, i as u64));
    }
    clips
}

fn names(words: &[&str]) -> Vec<String> {
    words.iter().map(|w| w.to_string()).collect()
}

#[test]
fn offset_of_whole_seconds() {
    assert_eq!(Offset::from_secs(7), Offset { secs: 7, nanos: 0 });
    assert_eq!(Offset { secs: 7, nanos: 999 }.as_secs(), 7);
}

#[test]
fn new_registry_is_empty() {
    let clips = ClipRegistry::new();
    assert_eq!(clips.len(), 0);
    assert!(!clips.contains("a"));
    assert!(clips.get("a").is_none());
    assert!(clips.titles().is_empty());
}

#[test]
fn inserted_clips_are_found_by_title() {
    let clips = registry(&["b", "a", "c"]);
    assert_eq!(clips.len(), 3);
    assert_eq!(clips.titles(), names(&["b", "a", "c"]));
    assert_eq!(clips.get("a"), Some(&clip("a", 1)));
    assert_eq!(clips.at(2), &clip("c", 2));
    assert!(clips.contains("c"));
    assert!(!clips.contains("C"));
    assert!(!clips.contains(""));
}

#[test]
fn insert_replaces_a_clip_of_the_same_title_in_place() {
    let mut clips = registry(&["b", "a", "c"]);
    assert_eq!(clips.insert(clip("a", 40)), Some(clip("a", 1)));
    assert_eq!(clips.len(), 3);
    assert_eq!(clips.titles(), names(&["b", "a", "c"]));
    assert_eq!(clips.get("a").unwrap().offset, Offset::from_secs(40));
    assert_eq!(clips.insert(clip("d", 0)), None);
    assert_eq!(clips.titles(), names(&["b", "a", "c", "d"]));
}

#[test]
fn remove_keeps_the_order_of_the_rest() {
    let mut clips = registry(&["b", "a", "c"]);
    assert_eq!(clips.remove("b"), Some(clip("b", 0)));
    assert_eq!(clips.titles(), names(&["a", "c"]));
    assert_eq!(clips.remove("b"), None);
    assert_eq!(clips.len(), 2);
    assert_eq!(clips.remove("c"), Some(clip("c", 2)));
    assert_eq!(clips.titles(), names(&["a"]));
}

#[test]
fn set_offset_moves_the_start_of_one_clip() {
    let mut clips = registry(&["b", "a"]);
    assert!(clips.set_offset("a", 33));
    let moved = clips.get("a").unwrap();
    assert_eq!(moved.offset, Offset { secs: 33, nanos: 0 });
    assert_eq!(moved.duration, Offset { secs: 180, nanos: 250 });
    assert_eq!(moved.music_path, "/music/a.mp3");
    assert_eq!(clips.get("b"), Some(&clip("b", 0)));
    assert!(!clips.set_offset("z", 1));
    assert_eq!(clips.titles(), names(&["b", "a"]));
}

#[test]
fn clear_empties_the_registry() {
    let mut clips = registry(&["b", "a"]);
    clips.clear();
    assert_eq!(clips.len(), 0);
    assert!(!clips.contains("a"));
}

#[test]
fn duplicate_copies_every_field() {
    let original = clip("x", 3);
    assert_eq!(original.duplicate(), original);
}

#[test]
fn request_takes_the_clips_in_the_order_asked() {
    let clips = registry(&["b", "a", "c"]);
    let export = Export::new(
        "/out.mp4".to_string(),
        &names(&["c", "b", "c"]),
        &clips,
        "/count.mp4".to_string(),
        20,
    )
    .unwrap();
    assert_eq!(export.output, "/out.mp4");
    assert_eq!(export.countdown, "/count.mp4");
    assert_eq!(export.duration, 20);
    assert_eq!(export.threads, None);
    let item = |title: &str, offset: u64| ExportItem {
        offset: Offset::from_secs(offset),
        music_path: format!("/music/{}.mp3", title),
        image_path: format!("/images/{}.png", title),
    };
    assert_eq!(export.items, vec![item("c", 2), item("b", 0), item("c", 2)]);
}

#[test]
fn request_is_a_snapshot() {
    let mut clips = registry(&["a"]);
    let export =
        Export::new("o".to_string(), &names(&["a"]), &clips, "c".to_string(), 20).unwrap();
    clips.set_offset("a", 99);
    clips.remove("a");
    assert_eq!(export.items[0].offset, Offset::from_secs(0));
    assert_eq!(export.items[0].music_path, "/music/a.mp3");
}

#[test]
fn request_fails_for_a_title_that_is_not_known() {
    let clips = registry(&["b", "a"]);
    assert_eq!(
        Export::new("o".to_string(), &names(&["a", "z", "b"]), &clips, "c".to_string(), 20),
        Err("Clip does not exist".to_string())
    );
    assert!(Export::new("o".to_string(), &Vec::new(), &ClipRegistry::new(), "c".to_string(), 20)
        .is_ok());
}

#[test]
fn request_with_threads_and_its_command() {
    let clips = registry(&["a"]);
    let export = Export::new("o.mp4".to_string(), &names(&["a"]), &clips, "c.mp4".to_string(), 20)
        .unwrap()
        .with_threads(Some(3));
    assert_eq!(export.threads, Some(3));
    let command = export.command(4).unwrap();
    assert_eq!(command.program, "ffmpeg");
    assert_eq!(command.args[0..2], names(&["-i", "c.mp4"]));
    assert_eq!(command.args[command.args.len() - 3..], names(&["o.mp4", "-threads", "3"]));
    assert!(export.command(21).is_err());
    assert!(export.command(20).is_ok());
}
