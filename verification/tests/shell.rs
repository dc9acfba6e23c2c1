use blindtest::clip::{Clip, ClipRegistry, Offset};
use blindtest::modals::{
    ClipBuilderEffect, ClipBuilderMessage, ClipBuilderState, ClipEditorEffect, ClipEditorMessage,
    ClipEditorState, GlobalSettingsMessage, GlobalSettingsState, ModalInnerState, ModalMessage,
    ModalState,
};
use blindtest::progress::parse_number;
use blindtest::project::{BlindTestBuilder, Effect, Message, DEFAULT_CLIP_DURATION};
use blindtest::save::{ClipSave, SaveFile, Settings};
use blindtest::timeline::{TimelineEffect, TimelineMessage};

fn some(text: &str) -> Option<String> {
    Some(text.to_string())
}

fn clip(title: &str) -> Clip {
    Clip {
        title: title.to_string(),
        music_path: format!("/music/{}.mp3", title),
        image_path: format!("/images/{}.png", title),
        offset: Offset::from_secs(2),
        duration: Offset::from_secs(100),
    }
}

fn filled() -> ClipBuilderState {
    ClipBuilderState { error: None, title: "T".to_string(), image: some("/i.png"), music: some("/m.mp3") }
}

#[test]
fn numbers_are_an_optional_plus_and_digits() {
    assert_eq!(parse_number("30"), Some(30));
    assert_eq!(parse_number("+30"), Some(30));
    assert_eq!(parse_number("030"), Some(30));
    assert_eq!(parse_number(""), None);
    assert_eq!(parse_number("+"), None);
    assert_eq!(parse_number("-3"), None);
    assert_eq!(parse_number("3 "), None);
    assert_eq!(parse_number("18446744073709551615"), Some(u64::MAX));
    assert_eq!(parse_number("18446744073709551616"), None);
}

#[test]
fn builder_checks_title_then_music_then_image() {
    let read = || Ok(Offset::from_secs(90));
    let mut state = ClipBuilderState::new();
    assert_eq!(state.build(read()), Err("Title must not be empty".to_string()));
    state.title = "T".to_string();
    assert_eq!(state.build(read()), Err("No music was provided".to_string()));
    state.music = some("/m.mp3");
    assert_eq!(
        state.build(Err("denied".to_string())),
        Err("Could not open music: denied".to_string())
    );
    assert_eq!(state.build(read()), Err("No image was provided".to_string()));
    assert_eq!(state.music, some("/m.mp3"));
    assert_eq!(state.title, "T");
    state.image = some("/i.png");
    state.error = some("old");
    assert_eq!(
        state.build(read()),
        Ok(Clip {
            title: "T".to_string(),
            music_path: "/m.mp3".to_string(),
            image_path: "/i.png".to_string(),
            offset: Offset::from_secs(0),
            duration: Offset::from_secs(90),
        })
    );
    assert_eq!(state, ClipBuilderState::new());
}

#[test]
fn builder_messages_fill_the_dialog() {
    let mut state = ClipBuilderState::new();
    assert_eq!(state.update(ClipBuilderMessage::PickImage), ClipBuilderEffect::ChooseImage);
    assert_eq!(state.update(ClipBuilderMessage::PickMusic), ClipBuilderEffect::ChooseMusic);
    assert_eq!(state, ClipBuilderState::new());
    assert_eq!(state.update(ClipBuilderMessage::Add), ClipBuilderEffect::Nothing);
    assert_eq!(state.error, some("Title must not be empty"));
    state.update(ClipBuilderMessage::TitleChanged("T".to_string()));
    assert_eq!(state.update(ClipBuilderMessage::Add), ClipBuilderEffect::Nothing);
    assert_eq!(state.error, some("No music was provided"));
    state.update(ClipBuilderMessage::PickedMusic(some("/m.mp3")));
    state.update(ClipBuilderMessage::PickedImage(some("/i.png")));
    assert_eq!(
        state.update(ClipBuilderMessage::Add),
        ClipBuilderEffect::ReadMusic("/m.mp3".to_string())
    );
    assert_eq!(state.title, "T");
    state.update(ClipBuilderMessage::PickedImage(None));
    assert_eq!(state.image, None);
}

#[test]
fn builder_adds_the_clip_or_shows_why_not() {
    let mut clips = ClipRegistry::new();
    let mut state = filled();
    assert!(!state.add(&mut clips, Err("gone".to_string())));
    assert_eq!(state.error, some("Could not open music: gone"));
    assert_eq!(clips.len(), 0);
    assert!(state.add(&mut clips, Ok(Offset::from_secs(61))));
    assert_eq!(state, ClipBuilderState::new());
    assert_eq!(clips.get("T").unwrap().duration, Offset::from_secs(61));
    assert_eq!(clips.get("T").unwrap().offset, Offset::from_secs(0));
}

#[test]
fn editor_plays_stops_and_deletes() {
    let mut clips = ClipRegistry::new();
    clips.insert(clip("a"));
    clips.insert(clip("b"));
    let mut state = ClipEditorState::new("a".to_string());
    assert_eq!(state.clip_name(), "a");
    assert_eq!(state.update(ClipEditorMessage::PlayClip, &mut clips), (ClipEditorEffect::Play, false));
    assert!(state.playing);
    assert_eq!(state.update(ClipEditorMessage::StopClip, &mut clips), (ClipEditorEffect::Stop, false));
    assert!(!state.playing);
    assert_eq!(state.update(ClipEditorMessage::Delete, &mut clips), (ClipEditorEffect::Nothing, true));
    assert_eq!(clips.titles(), vec!["b".to_string()]);
    assert_eq!(state.update(ClipEditorMessage::PlayClip, &mut clips), (ClipEditorEffect::Nothing, true));
    assert!(!state.playing);
}

#[test]
fn settings_dialog_shows_the_duration_in_force() {
    let state = GlobalSettingsState::new(45, some("/c.mp4"));
    assert_eq!(state.current_duration, "45");
    assert_eq!(state.countdown, some("/c.mp4"));
    assert_eq!(state.error, None);
}

#[test]
fn settings_are_applied_when_the_duration_is_a_number() {
    let mut state = GlobalSettingsState::new(45, some("/c.mp4"));
    state.update(GlobalSettingsMessage::UpdateDuration("4294967295".to_string()));
    assert_eq!(
        state.apply(),
        Ok(Settings { duration: u32::MAX, countdown: some("/c.mp4") })
    );
    assert_eq!(state.countdown, None);
    for bad in ["", "abc", "-1", "4294967296", "1.5", " 3"] {
        let mut state = GlobalSettingsState::new(45, some("/c.mp4"));
        state.current_duration = bad.to_string();
        assert_eq!(state.apply(), Err("Duration is invalid".to_string()), "{:?}", bad);
        assert_eq!(state.countdown, some("/c.mp4"));
    }
}

#[test]
fn settings_messages() {
    let mut state = GlobalSettingsState::new(45, None);
    assert_eq!(state.update(GlobalSettingsMessage::SelectCountdown), (None, true));
    assert_eq!(state.update(GlobalSettingsMessage::CountDownPath(some("/c.mp4"))), (None, false));
    assert_eq!(state.update(GlobalSettingsMessage::UpdateDuration("x".to_string())), (None, false));
    assert_eq!(state.update(GlobalSettingsMessage::UpdateSettings), (None, false));
    assert_eq!(state.error, some("Duration is invalid"));
    state.update(GlobalSettingsMessage::UpdateDuration("12".to_string()));
    assert_eq!(
        state.update(GlobalSettingsMessage::UpdateSettings),
        (Some(Settings { duration: 12, countdown: some("/c.mp4") }), false)
    );
}

#[test]
fn every_dialog_can_be_given_up() {
    assert!(ModalInnerState::ClipBuilder(ClipBuilderState::new()).has_cancel());
    assert!(ModalInnerState::ClipEditor(ClipEditorState::new("a".to_string())).has_cancel());
    assert!(ModalInnerState::GlobalSettings(GlobalSettingsState::new(1, None)).has_cancel());
    assert!(!ModalInnerState::Closed.has_cancel());
    let mut modal = ModalState::new();
    assert_eq!(modal.inner, ModalInnerState::Closed);
    modal.inner = ModalInnerState::ClipBuilder(ClipBuilderState::new());
    modal.close();
    assert_eq!(modal.inner, ModalInnerState::Closed);
}

#[test]
fn new_project_gives_thirty_seconds_to_each_clip() {
    let project = BlindTestBuilder::new();
    assert_eq!(DEFAULT_CLIP_DURATION, 30);
    assert_eq!(project.clip_duration, 30);
    assert_eq!(project.clips.len(), 0);
    assert_eq!(project.countdown, None);
    assert_eq!(project.choosen_clip, None);
    assert!(!project.modal_shown);
    assert_eq!(
        project.save(),
        SaveFile {
            clips: Vec::new(),
            timeline: Vec::new(),
            settings: Settings { duration: 30, countdown: None },
        }
    );
}

fn document() -> SaveFile {
    let saved = |title: &str, offset: u64| ClipSave {
        title: title.to_string(),
        image_path: format!("/images/{}.png", title),
        music_path: format!("/music/{}.mp3", title),
        offset: Offset::from_secs(offset),
    };
    SaveFile {
        clips: vec![saved("a", 1), saved("b", 2), saved("a", 3), saved("c", 4)],
        timeline: vec![some("c"), None, some("a")],
        settings: Settings { duration: 12, countdown: some("/c.mp4") },
    }
}

#[test]
fn project_loads_the_clips_whose_music_could_be_read() {
    let mut project = BlindTestBuilder::new();
    project.choosen_clip = some("x");
    project.load(
        document(),
        &vec![
            Ok(Offset::from_secs(10)),
            Err("missing".to_string()),
            Ok(Offset::from_secs(30)),
            Ok(Offset::from_secs(40)),
        ],
    );
    assert_eq!(project.clips.titles(), vec!["a".to_string(), "c".to_string()]);
    assert_eq!(project.clips.get("a").unwrap().offset, Offset::from_secs(3));
    assert_eq!(project.clips.get("a").unwrap().duration, Offset::from_secs(30));
    assert_eq!(project.clips.get("c").unwrap().duration, Offset::from_secs(40));
    assert_eq!(project.timeline.save(), vec![some("c"), None, some("a")]);
    assert_eq!(project.clip_duration, 12);
    assert_eq!(project.countdown, some("/c.mp4"));
    assert_eq!(project.choosen_clip, None);
}

#[test]
fn project_without_outcomes_loads_no_clip() {
    let mut project = BlindTestBuilder::new();
    project.load(document(), &Vec::new());
    assert_eq!(project.clips.len(), 0);
    assert_eq!(project.timeline.clips.len(), 3);
}

#[test]
fn project_saves_what_it_loaded() {
    let mut project = BlindTestBuilder::new();
    let mut wanted = document();
    wanted.clips.remove(0);
    project.load(wanted.clone(), &vec![Ok(Offset::from_secs(1)); 3]);
    let mut expected = wanted;
    expected.clips = vec![expected.clips[1].clone(), expected.clips[0].clone(), expected.clips[2].clone()];
    expected.clips.swap(0, 1);
    assert_eq!(project.save(), expected);
    assert_eq!(Clip::load(project.clips.at(0).save(), Offset::from_secs(1)), *project.clips.at(0));
}

#[test]
fn project_opens_and_closes_dialogs() {
    let mut project = BlindTestBuilder::new();
    project.countdown = some("/c.mp4");
    assert_eq!(project.update(Message::AddClip), Effect::Nothing);
    assert_eq!(project.modal.inner, ModalInnerState::ClipBuilder(ClipBuilderState::new()));
    assert!(project.modal_shown);
    project.update(Message::ModalCancel);
    assert_eq!(project.modal.inner, ModalInnerState::Closed);
    assert!(!project.modal_shown);
    project.update(Message::EditClip("a".to_string()));
    assert_eq!(
        project.modal.inner,
        ModalInnerState::ClipEditor(ClipEditorState::new("a".to_string()))
    );
    project.update(Message::ModalClosed);
    assert_eq!(project.modal.inner, ModalInnerState::Closed);
    project.update(Message::GlobalSettings);
    assert_eq!(
        project.modal.inner,
        ModalInnerState::GlobalSettings(GlobalSettingsState::new(30, some("/c.mp4")))
    );
    assert!(project.modal_shown);
}

#[test]
fn project_asks_for_paths_and_files() {
    let mut project = BlindTestBuilder::new();
    assert_eq!(project.update(Message::SaveRequest), Effect::ChooseSavePath);
    assert_eq!(project.update(Message::LoadRequest), Effect::ChooseLoadPath);
    assert_eq!(project.update(Message::SaveTo(some("/p.bt"))), Effect::Store("/p.bt".to_string()));
    assert_eq!(project.update(Message::LoadFrom(some("/p.bt"))), Effect::Load("/p.bt".to_string()));
    assert_eq!(project.update(Message::SaveTo(None)), Effect::Nothing);
    assert_eq!(project.update(Message::LoadFrom(None)), Effect::Nothing);
    assert_eq!(
        project.update(Message::Timeline(TimelineMessage::Save)),
        Effect::Timeline(TimelineEffect::ChooseExportPath)
    );
    project.update(Message::Timeline(TimelineMessage::AddEnd));
    assert_eq!(project.timeline.clips.len(), 1);
}

#[test]
fn project_builds_a_clip_through_the_dialog() {
    let mut project = BlindTestBuilder::new();
    assert!(!project.add_clip(Ok(Offset::from_secs(5))));
    project.update(Message::AddClip);
    let send = |project: &mut BlindTestBuilder, m: ClipBuilderMessage| {
        project.update(Message::Modal(ModalMessage::ClipBuilder(m)))
    };
    send(&mut project, ClipBuilderMessage::TitleChanged("T".to_string()));
    send(&mut project, ClipBuilderMessage::PickedMusic(some("/m.mp3")));
    assert_eq!(
        send(&mut project, ClipBuilderMessage::Add),
        Effect::Builder(ClipBuilderEffect::ReadMusic("/m.mp3".to_string()))
    );
    assert!(!project.add_clip(Ok(Offset::from_secs(5))));
    match &project.modal.inner {
        ModalInnerState::ClipBuilder(state) => assert_eq!(state.error, some("No image was provided")),
        other => panic!("unexpected dialog {:?}", other),
    }
    assert!(project.modal_shown);
    send(&mut project, ClipBuilderMessage::PickedImage(some("/i.png")));
    assert!(project.add_clip(Ok(Offset::from_secs(5))));
    assert!(!project.modal_shown);
    assert_eq!(project.clips.titles(), vec!["T".to_string()]);
    assert_eq!(project.clips.get("T").unwrap().duration, Offset::from_secs(5));
}

#[test]
fn project_forgets_the_picked_clip_when_it_is_deleted() {
    let mut project = BlindTestBuilder::new();
    project.clips.insert(clip("a"));
    project.clips.insert(clip("b"));
    project.update(Message::PickedClip("a".to_string()));
    assert_eq!(project.choosen_clip, some("a"));
    project.update(Message::EditClip("a".to_string()));
    assert_eq!(
        project.update(Message::Modal(ModalMessage::ClipEditor(ClipEditorMessage::PlayClip))),
        Effect::Editor(ClipEditorEffect::Play)
    );
    assert_eq!(project.choosen_clip, some("a"));
    assert_eq!(
        project.update(Message::Modal(ModalMessage::ClipEditor(ClipEditorMessage::Delete))),
        Effect::Editor(ClipEditorEffect::Nothing)
    );
    assert!(!project.modal_shown);
    assert_eq!(project.clips.titles(), vec!["b".to_string()]);
    assert_eq!(project.choosen_clip, None);
}

#[test]
fn project_takes_settings_from_the_dialog() {
    let mut project = BlindTestBuilder::new();
    project.update(Message::GlobalSettings);
    let send = |project: &mut BlindTestBuilder, m: GlobalSettingsMessage| {
        project.update(Message::Modal(ModalMessage::GlobalSettings(m)))
    };
    assert_eq!(send(&mut project, GlobalSettingsMessage::SelectCountdown), Effect::ChooseCountdown);
    send(&mut project, GlobalSettingsMessage::CountDownPath(some("/c.mp4")));
    send(&mut project, GlobalSettingsMessage::UpdateDuration("x".to_string()));
    send(&mut project, GlobalSettingsMessage::UpdateSettings);
    assert_eq!(project.clip_duration, 30);
    assert_eq!(project.countdown, None);
    assert!(project.modal_shown);
    send(&mut project, GlobalSettingsMessage::UpdateDuration("20".to_string()));
    send(&mut project, GlobalSettingsMessage::UpdateSettings);
    assert_eq!(project.clip_duration, 20);
    assert_eq!(project.countdown, some("/c.mp4"));
    assert!(!project.modal_shown);
}

#[test]
fn messages_for_another_dialog_change_nothing() {
    let mut project = BlindTestBuilder::new();
    project.update(Message::AddClip);
    assert_eq!(
        project.update(Message::Modal(ModalMessage::ClipEditor(ClipEditorMessage::Delete))),
        Effect::Nothing
    );
    assert_eq!(project.modal.inner, ModalInnerState::ClipBuilder(ClipBuilderState::new()));
    assert!(project.modal_shown);
}

#[test]
fn project_moves_the_offset_of_a_clip() {
    let mut project = BlindTestBuilder::new();
    project.clips.insert(clip("a"));
    project.update(Message::EditClipOffset { clip: "a".to_string(), new_offset: 17 });
    assert_eq!(project.clips.get("a").unwrap().offset, Offset::from_secs(17));
    project.update(Message::EditClipOffset { clip: "z".to_string(), new_offset: 17 });
    assert_eq!(project.clips.len(), 1);
}
