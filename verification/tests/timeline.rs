use blindtest::clip::{Clip, ClipRegistry, Offset};
use blindtest::progress::Progress;
use blindtest::timeline::{
    estimated_frames, total_duration_label, Timeline, TimelineAction, TimelineClip,
    TimelineClipMessage, TimelineEffect, TimelineMessage, ASSUMED_FRAME_RATE,
};

fn clip(title: &str) -> Clip {
    Clip {
        title: title.to_string(),
        music_path: format!("/music/{}.mp3", title),
        image_path: format!("/images/{}.png", title),
        offset: Offset::from_secs(2),
        duration: Offset::from_secs(100),
    }
}

fn registry(titles: &[&str]) -> ClipRegistry {
    let mut clips = ClipRegistry::new();
    for title in titles {
        clips.insert(clip(title));
    }
    clips
}

fn known() -> ClipRegistry {
    registry(&["a", "b", "c"])
}

fn some(title: &str) -> Option<String> {
    Some(title.to_string())
}

fn loaded(slots: &[Option<&str>]) -> Timeline {
    let mut timeline = Timeline::new();
    timeline.load(slots.iter().map(|s| s.map(|t| t.to_string())).collect());
    timeline
}

fn at(index: usize, message: TimelineClipMessage) -> TimelineMessage {
    TimelineMessage::TimelineClip(index, message)
}

#[test]
fn frames_are_rate_times_duration_times_items() {
    assert_eq!(ASSUMED_FRAME_RATE, 25);
    assert_eq!(estimated_frames(30, 4), 3000);
    assert_eq!(estimated_frames(0, 4), 0);
    assert_eq!(estimated_frames(30, 0), 0);
    assert_eq!(
        estimated_frames(u32::MAX, usize::MAX),
        25 * (u32::MAX as u128) * (usize::MAX as u128)
    );
}

#[test]
fn label_tells_the_total_duration() {
    assert_eq!(total_duration_label(0, 30), None);
    assert_eq!(total_duration_label(3, 30), Some("Total duration: 1m 30s".to_string()));
    assert_eq!(total_duration_label(1, 1), Some("Total duration: 1s".to_string()));
    assert_eq!(total_duration_label(2, 3600), Some("Total duration: 2h".to_string()));
    assert_eq!(total_duration_label(5, 0), Some("Total duration: 0s".to_string()));
}

#[test]
fn new_timeline_is_empty_and_at_rest() {
    let timeline = Timeline::new();
    assert!(timeline.clips.is_empty());
    assert!(!timeline.playing);
    assert_eq!(timeline.export, None);
    assert_eq!(timeline.progress, 0);
    assert_eq!(timeline.progress_max, 0);
    assert_eq!(TimelineClip::new(), TimelineClip { clip: None, selected: None, playing: false });
}

#[test]
fn load_binds_and_picks_each_title() {
    let timeline = loaded(&[Some("a"), None, Some("b")]);
    assert_eq!(timeline.clips.len(), 3);
    assert_eq!(timeline.clips[0], TimelineClip { clip: some("a"), selected: some("a"), playing: false });
    assert_eq!(timeline.clips[1], TimelineClip::new());
    assert_eq!(timeline.save(), vec![some("a"), None, some("b")]);
    assert_eq!(timeline.items(&known()), vec!["a".to_string(), "b".to_string()]);
    assert_eq!(timeline.items(&registry(&["b"])), vec!["b".to_string()]);
    assert!(timeline.items(&ClipRegistry::new()).is_empty());
}

#[test]
fn slots_are_added_at_both_ends() {
    let mut timeline = loaded(&[Some("a")]);
    assert_eq!(
        timeline.update(TimelineMessage::AddStart, &known(), 30),
        TimelineEffect::Scroll { position: 0, last: 1 }
    );
    assert_eq!(
        timeline.update(TimelineMessage::AddEnd, &known(), 30),
        TimelineEffect::Scroll { position: 1, last: 1 }
    );
    assert_eq!(timeline.save(), vec![None, some("a"), None]);
}

#[test]
fn a_title_is_picked_then_bound() {
    let mut timeline = loaded(&[None, None]);
    let effect = timeline.update(at(1, TimelineClipMessage::SelectedClip("a".to_string())), &known(), 30);
    assert_eq!(effect, TimelineEffect::Nothing);
    assert_eq!(timeline.clips[1].selected, some("a"));
    assert_eq!(timeline.clips[1].clip, None);
    timeline.update(at(1, TimelineClipMessage::ValidateClip), &known(), 30);
    assert_eq!(timeline.clips[1].clip, some("a"));
    assert_eq!(timeline.clips[0], TimelineClip::new());
}

#[test]
fn slots_move_up_and_down() {
    let mut timeline = loaded(&[Some("a"), Some("b"), Some("c")]);
    assert_eq!(
        timeline.update(at(2, TimelineClipMessage::Action(TimelineAction::Up)), &known(), 30),
        TimelineEffect::Scroll { position: 1, last: 2 }
    );
    assert_eq!(timeline.save(), vec![some("a"), some("c"), some("b")]);
    assert_eq!(
        timeline.update(at(0, TimelineClipMessage::Action(TimelineAction::Down)), &known(), 30),
        TimelineEffect::Scroll { position: 1, last: 2 }
    );
    assert_eq!(timeline.save(), vec![some("c"), some("a"), some("b")]);
}

#[test]
fn moves_past_the_ends_change_nothing() {
    let mut timeline = loaded(&[Some("a"), Some("b")]);
    let before = timeline.clone();
    for message in [
        at(0, TimelineClipMessage::Action(TimelineAction::Up)),
        at(1, TimelineClipMessage::Action(TimelineAction::Down)),
        at(2, TimelineClipMessage::Action(TimelineAction::Delete)),
        at(7, TimelineClipMessage::Play),
        at(2, TimelineClipMessage::ValidateClip),
    ] {
        assert_eq!(timeline.update(message, &known(), 30), TimelineEffect::Nothing);
        assert_eq!(timeline, before);
    }
}

#[test]
fn delete_takes_one_slot_out() {
    let mut timeline = loaded(&[Some("a"), Some("b"), Some("c")]);
    timeline.update(at(1, TimelineClipMessage::Action(TimelineAction::Delete)), &known(), 30);
    assert_eq!(timeline.save(), vec![some("a"), some("c")]);
}

#[test]
fn a_slot_plays_its_clip_and_stops() {
    let mut timeline = loaded(&[None, Some("b")]);
    assert_eq!(
        timeline.update(at(1, TimelineClipMessage::Play), &known(), 30),
        TimelineEffect::PlayClip(1, "b".to_string())
    );
    assert!(timeline.clips[1].playing);
    assert_eq!(timeline.update(at(1, TimelineClipMessage::Stop), &known(), 30), TimelineEffect::StopClip(1));
    assert!(!timeline.clips[1].playing);
    assert_eq!(timeline.update(at(0, TimelineClipMessage::Play), &known(), 30), TimelineEffect::Nothing);
    assert!(!timeline.clips[0].playing);
}

#[test]
fn the_whole_timeline_plays_and_stops() {
    let mut timeline = loaded(&[Some("b"), None, Some("a")]);
    assert_eq!(
        timeline.update(TimelineMessage::Play, &known(), 30),
        TimelineEffect::PlayAll(vec!["b".to_string(), "a".to_string()])
    );
    assert!(timeline.playing);
    assert_eq!(timeline.update(TimelineMessage::Stop, &known(), 30), TimelineEffect::StopAll);
    assert!(!timeline.playing);
}

#[test]
fn an_export_goes_from_request_to_done() {
    let mut timeline = loaded(&[Some("b"), None, Some("a")]);
    assert_eq!(timeline.update(TimelineMessage::Save, &known(), 30), TimelineEffect::ChooseExportPath);
    assert_eq!(timeline.export, None);
    timeline.update(TimelineMessage::SaveTo(some("/out.mp4")), &known(), 30);
    assert_eq!(timeline.export, some("/out.mp4"));
    assert_eq!(timeline.progress_max, 25 * 30 * 2);
    timeline.update(TimelineMessage::ExportProgress(Progress::Started), &known(), 30);
    assert_eq!(timeline.progress, 0);
    timeline.update(TimelineMessage::ExportProgress(Progress::Frame(120)), &known(), 30);
    assert_eq!(timeline.progress, 120);
    timeline.update(TimelineMessage::ExportProgress(Progress::Frame(90)), &known(), 30);
    assert_eq!(timeline.progress, 90);
    assert_eq!(
        timeline.update(TimelineMessage::ExportProgress(Progress::Error("bad".to_string())), &known(), 30),
        TimelineEffect::Report("bad".to_string())
    );
    assert_eq!(timeline.export, some("/out.mp4"));
    timeline.update(TimelineMessage::ExportProgress(Progress::Done), &known(), 30);
    assert_eq!(timeline.export, None);
    timeline.update(TimelineMessage::SaveTo(None), &known(), 30);
    assert_eq!(timeline.export, None);
}

#[test]
fn prune_forgets_titles_that_are_gone() {
    let mut timeline = loaded(&[Some("a"), Some("gone"), None]);
    timeline.update(at(2, TimelineClipMessage::SelectedClip("gone".to_string())), &known(), 30);
    timeline.update(at(0, TimelineClipMessage::Play), &known(), 30);
    timeline.prune(&registry(&["a"]));
    assert_eq!(timeline.clips[0], TimelineClip { clip: some("a"), selected: some("a"), playing: true });
    assert_eq!(timeline.clips[1], TimelineClip::new());
    assert_eq!(timeline.clips[2], TimelineClip::new());
}

#[test]
fn export_request_follows_the_slots() {
    let clips = registry(&["a", "b"]);
    let mut timeline = loaded(&[Some("b"), None, Some("a")]);
    assert_eq!(timeline.export_request(&clips, some("/c.mp4"), 30), None);
    timeline.update(TimelineMessage::SaveTo(some("/out.mp4")), &known(), 30);
    let export = timeline.export_request(&clips, some("/c.mp4"), 30).unwrap().unwrap();
    assert_eq!(export.output, "/out.mp4");
    assert_eq!(export.countdown, "/c.mp4");
    assert_eq!(export.duration, 30);
    assert_eq!(export.items.len(), 2);
    assert_eq!(export.items[0].music_path, "/music/b.mp3");
    assert_eq!(export.items[1].image_path, "/images/a.png");
    assert_eq!(
        timeline.export_request(&clips, None, 30),
        Some(Err("Countdown was not provided".to_string()))
    );
    let partial = timeline.export_request(&registry(&["a"]), some("/c.mp4"), 30).unwrap().unwrap();
    assert_eq!(partial.items.len(), 1);
    assert_eq!(partial.items[0].music_path, "/music/a.mp3");
}

#[test]
fn clips_that_are_gone_are_neither_played_nor_counted() {
    let clips = registry(&["a"]);
    let mut timeline = loaded(&[Some("gone"), Some("a"), None]);
    assert_eq!(
        timeline.update(at(0, TimelineClipMessage::Play), &clips, 30),
        TimelineEffect::Nothing
    );
    assert!(!timeline.clips[0].playing);
    assert_eq!(
        timeline.update(TimelineMessage::Play, &clips, 30),
        TimelineEffect::PlayAll(vec!["a".to_string()])
    );
    timeline.update(TimelineMessage::SaveTo(some("/out.mp4")), &clips, 10);
    assert_eq!(timeline.progress_max, 250);
}

#[test]
fn controls_follow_the_state() {
    let mut timeline = loaded(&[Some("a"), None, Some("b")]);
    assert!(!timeline.can_move_up(0));
    assert!(timeline.can_move_up(1));
    assert!(timeline.can_move_up(2));
    assert!(!timeline.can_move_up(3));
    assert!(timeline.can_move_down(0));
    assert!(timeline.can_move_down(1));
    assert!(!timeline.can_move_down(2));
    assert!(!timeline.can_move_down(usize::MAX));
    assert!(timeline.can_export());
    timeline.update(TimelineMessage::SaveTo(some("/o.mp4")), &known(), 30);
    assert!(!timeline.can_export());
    assert!(timeline.clips[0].can_validate());
    assert!(!timeline.clips[1].can_validate());
}
