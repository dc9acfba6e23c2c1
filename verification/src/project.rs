//! A project as the shell holds it: the clips, the timeline, the settings,
//! and the dialog that is open. It decides what each message of the shell
//! does and what outside work follows from it.

use vstd::prelude::*;
use crate::clip::{lookup, position, Clip, ClipRegistry, ClipView, Offset};
use crate::modals::{
    blank_builder, builder_after, builder_effect, builder_effect_view, built, editor_after,
    outcome_view, settings_after, settings_applied, with_clip, without_clip, ClipBuilderEffect,
    ClipBuilderEffectView, ClipBuilderState, ClipBuilderView, ClipEditorEffect,
    ClipEditorMessage, ClipEditorState, ClipEditorView, GlobalSettingsState,
    GlobalSettingsView, ModalInnerState, ModalMessage, ModalState,
};
use crate::save::{
    clip_save_views, copy_slot, slot_view, ClipSave, ClipSaveView, SaveFile, Settings,
    SettingsView,
};
use crate::text::decimal;
use crate::timeline::{
    effect_of, effect_view, kept, loaded_slot, timeline_after, Timeline, TimelineEffect,
    TimelineEffectView, TimelineMessage, TimelineView,
};

verus! {

/// Seconds given to each clip in a new project.
pub const DEFAULT_CLIP_DURATION: u32 = 30;

/// What a project document holds of a clip.
pub open spec fn saved_clip(clip: ClipView) -> ClipSaveView {
    ClipSaveView {
        title: clip.title,
        image_path: clip.image_path,
        music_path: clip.music_path,
        offset: clip.offset,
    }
}

/// The clip that a project document holds, once its music was measured.
pub open spec fn loaded_clip(clip: ClipSaveView, duration: Offset) -> ClipView {
    ClipView {
        title: clip.title,
        music_path: clip.music_path,
        image_path: clip.image_path,
        offset: clip.offset,
        duration,
    }
}

impl Clip {
    /// What a project document holds of the clip.
    pub fn save(&self) -> (saved: ClipSave)
        ensures
            saved@ == saved_clip(self@),
    {
        ClipSave {
            title: self.title.clone(),
            image_path: self.image_path.clone(),
            music_path: self.music_path.clone(),
            offset: self.offset,
        }
    }

    /// The clip that a project document holds, given how long its music
    /// lasts.
    pub fn load(clip: ClipSave, duration: Offset) -> (loaded: Clip)
        ensures
            loaded@ == loaded_clip(clip@, duration),
    {
        Clip {
            title: clip.title,
            music_path: clip.music_path,
            image_path: clip.image_path,
            offset: clip.offset,
            duration,
        }
    }
}

/// The values of the outcomes of reading the music files of a document.
pub open spec fn outcome_views(outcomes: Seq<Result<Offset, String>>) -> Seq<
    Result<Offset, Seq<char>>,
> {
    outcomes.map_values(|o: Result<Offset, String>| outcome_view(o))
}

/// The registry that the clips of a document make, given what came of
/// reading the music file of each: a clip whose music could not be read is
/// left out, and of two clips with one title the later stays.
pub open spec fn loaded_clips(
    clips: Seq<ClipSaveView>,
    outcomes: Seq<Result<Offset, Seq<char>>>,
) -> Seq<ClipView>
    decreases clips.len(),
{
    if clips.len() == 0 {
        Seq::empty()
    } else {
        let before = loaded_clips(clips.drop_last(), outcomes);
        let i = clips.len() - 1;
        if i < outcomes.len() && outcomes[i] is Ok {
            with_clip(before, loaded_clip(clips.last(), outcomes[i]->Ok_0))
        } else {
            before
        }
    }
}

/// What can be asked of a project.
#[derive(Clone, Debug, PartialEq, Eq)]
pub enum Message {
    AddClip,
    ModalCancel,
    ModalClosed,
    PickedClip(String),
    EditClip(String),
    Modal(ModalMessage),
    SaveRequest,
    SaveTo(Option<String>),
    LoadRequest,
    LoadFrom(Option<String>),
    Timeline(TimelineMessage),
    GlobalSettings,
    EditClipOffset { clip: String, new_offset: u32 },
}

/// The outside work that a project asks for.
#[derive(Clone, Debug, PartialEq, Eq)]
pub enum Effect {
    Nothing,
    /// Ask where the project shall be written.
    ChooseSavePath,
    /// Ask which project shall be read.
    ChooseLoadPath,
    /// Write the document of the project to this path.
    Store(String),
    /// Read the document at this path and hand the project to `load`.
    Load(String),
    /// Let the user choose a countdown file.
    ChooseCountdown,
    Builder(ClipBuilderEffect),
    Editor(ClipEditorEffect),
    Timeline(TimelineEffect),
}

/// Mathematical value of an [`Effect`].
pub enum EffectView {
    Nothing,
    ChooseSavePath,
    ChooseLoadPath,
    Store(Seq<char>),
    Load(Seq<char>),
    ChooseCountdown,
    Builder(ClipBuilderEffectView),
    Editor(ClipEditorEffect),
    Timeline(TimelineEffectView),
}

/// The value of an effect.
pub open spec fn project_effect_view(effect: Effect) -> EffectView {
    match effect {
        Effect::Nothing => EffectView::Nothing,
        Effect::ChooseSavePath => EffectView::ChooseSavePath,
        Effect::ChooseLoadPath => EffectView::ChooseLoadPath,
        Effect::Store(path) => EffectView::Store(path@),
        Effect::Load(path) => EffectView::Load(path@),
        Effect::ChooseCountdown => EffectView::ChooseCountdown,
        Effect::Builder(e) => EffectView::Builder(builder_effect_view(e)),
        Effect::Editor(e) => EffectView::Editor(e),
        Effect::Timeline(e) => EffectView::Timeline(effect_view(e)),
    }
}

/// Mathematical value of the dialog that is open.
pub enum ModalView {
    ClipBuilder(ClipBuilderView),
    ClipEditor(ClipEditorView),
    GlobalSettings(GlobalSettingsView),
    Closed,
}

/// The value of the dialog that is open.
pub open spec fn modal_view(inner: ModalInnerState) -> ModalView {
    match inner {
        ModalInnerState::ClipBuilder(state) => ModalView::ClipBuilder(state@),
        ModalInnerState::ClipEditor(state) => ModalView::ClipEditor(state@),
        ModalInnerState::GlobalSettings(state) => ModalView::GlobalSettings(state@),
        ModalInnerState::Closed => ModalView::Closed,
    }
}

/// A project as the shell holds it.
pub struct BlindTestBuilder {
    pub clips: ClipRegistry,
    pub timeline: Timeline,
    /// Seconds given to each clip, countdown included.
    pub clip_duration: u32,
    pub countdown: Option<String>,
    /// Title of the clip picked for editing.
    pub choosen_clip: Option<String>,
    pub modal: ModalState,
    /// Whether the dialog is on the screen.
    pub modal_shown: bool,
}

/// Mathematical value of a [`BlindTestBuilder`].
pub struct ProjectView {
    pub clips: Seq<ClipView>,
    pub timeline: TimelineView,
    pub clip_duration: u32,
    pub countdown: Option<Seq<char>>,
    pub choosen_clip: Option<Seq<char>>,
    pub modal: ModalView,
    pub modal_shown: bool,
}

impl View for BlindTestBuilder {
    type V = ProjectView;

    open spec fn view(&self) -> ProjectView {
        ProjectView {
            clips: self.clips@,
            timeline: self.timeline@,
            clip_duration: self.clip_duration,
            countdown: slot_view(self.countdown),
            choosen_clip: slot_view(self.choosen_clip),
            modal: modal_view(self.modal.inner),
            modal_shown: self.modal_shown,
        }
    }
}

/// The project after a message for the dialog that is open. A message for
/// another dialog than the open one changes nothing.
pub open spec fn modal_after(project: ProjectView, message: ModalMessage) -> ProjectView {
    let moved = match (message, project.modal) {
        (ModalMessage::ClipBuilder(m), ModalView::ClipBuilder(state)) => ProjectView {
            modal: ModalView::ClipBuilder(builder_after(state, m)),
            ..project
        },
        (ModalMessage::ClipEditor(m), ModalView::ClipEditor(state)) => if lookup(
            project.clips,
            state.clip,
        ) is None {
            ProjectView { modal_shown: false, ..project }
        } else {
            ProjectView {
                modal: ModalView::ClipEditor(editor_after(state, m)),
                clips: if m == ClipEditorMessage::Delete {
                    without_clip(project.clips, state.clip)
                } else {
                    project.clips
                },
                modal_shown: project.modal_shown && m != ClipEditorMessage::Delete,
                ..project
            }
        },
        (ModalMessage::GlobalSettings(m), ModalView::GlobalSettings(state)) => {
            let applied = settings_applied(state, m);
            ProjectView {
                modal: ModalView::GlobalSettings(settings_after(state, m)),
                clip_duration: if applied is Some {
                    applied->0.duration
                } else {
                    project.clip_duration
                },
                countdown: if applied is Some {
                    applied->0.countdown
                } else {
                    project.countdown
                },
                modal_shown: project.modal_shown && applied is None,
                ..project
            }
        },
        _ => project,
    };
    ProjectView { choosen_clip: kept(moved.choosen_clip, moved.clips), ..moved }
}

/// The outside work that a message for the dialog that is open asks for.
pub open spec fn modal_effect(project: ProjectView, message: ModalMessage) -> EffectView {
    match (message, project.modal) {
        (ModalMessage::ClipBuilder(m), ModalView::ClipBuilder(state)) => EffectView::Builder(
            builder_effect(state, m),
        ),
        (ModalMessage::ClipEditor(m), ModalView::ClipEditor(state)) => if lookup(
            project.clips,
            state.clip,
        ) is None {
            EffectView::Editor(ClipEditorEffect::Nothing)
        } else {
            EffectView::Editor(
                match m {
                    ClipEditorMessage::PlayClip => ClipEditorEffect::Play,
                    ClipEditorMessage::StopClip => ClipEditorEffect::Stop,
                    ClipEditorMessage::Delete => ClipEditorEffect::Nothing,
                },
            )
        },
        (ModalMessage::GlobalSettings(m), ModalView::GlobalSettings(_)) => if m
            is SelectCountdown {
            EffectView::ChooseCountdown
        } else {
            EffectView::Nothing
        },
        _ => EffectView::Nothing,
    }
}

/// The registry with the start of playback of a clip moved to a whole
/// second; as it was where it holds no clip of that title.
pub open spec fn with_offset(clips: Seq<ClipView>, title: Seq<char>, secs: u32) -> Seq<ClipView> {
    if lookup(clips, title) is Some {
        clips.update(
            position(clips, title, 0),
            ClipView { offset: Offset { secs: secs as u64, nanos: 0 }, ..lookup(clips, title)->0 },
        )
    } else {
        clips
    }
}

/// The project after a message.
pub open spec fn project_after(project: ProjectView, message: Message) -> ProjectView {
    match message {
        Message::AddClip => ProjectView {
            modal: ModalView::ClipBuilder(blank_builder()),
            modal_shown: true,
            ..project
        },
        Message::ModalCancel | Message::ModalClosed => ProjectView {
            modal: ModalView::Closed,
            modal_shown: false,
            ..project
        },
        Message::PickedClip(title) => ProjectView { choosen_clip: Some(title@), ..project },
        Message::EditClip(title) => ProjectView {
            modal: ModalView::ClipEditor(ClipEditorView { clip: title@, playing: false }),
            modal_shown: true,
            ..project
        },
        Message::Modal(m) => modal_after(project, m),
        Message::Timeline(m) => ProjectView {
            timeline: timeline_after(project.timeline, m, project.clips, project.clip_duration),
            ..project
        },
        Message::GlobalSettings => ProjectView {
            modal: ModalView::GlobalSettings(
                GlobalSettingsView {
                    current_duration: decimal(project.clip_duration as nat),
                    countdown: project.countdown,
                    error: None,
                },
            ),
            modal_shown: true,
            ..project
        },
        Message::EditClipOffset { clip, new_offset } => ProjectView {
            clips: with_offset(project.clips, clip@, new_offset),
            ..project
        },
        _ => project,
    }
}

/// The outside work that a message asks for.
pub open spec fn project_effect(project: ProjectView, message: Message) -> EffectView {
    match message {
        Message::Modal(m) => modal_effect(project, m),
        Message::SaveRequest => EffectView::ChooseSavePath,
        Message::SaveTo(Some(path)) => EffectView::Store(path@),
        Message::LoadRequest => EffectView::ChooseLoadPath,
        Message::LoadFrom(Some(path)) => EffectView::Load(path@),
        Message::Timeline(m) => EffectView::Timeline(effect_of(project.timeline, m, project.clips)),
        _ => EffectView::Nothing,
    }
}

impl BlindTestBuilder {
    /// A project without clips, with an empty timeline and no countdown, in
    /// which each clip gets thirty seconds.
    pub fn new() -> (project: BlindTestBuilder)
        ensures
            project@ == (ProjectView {
                clips: Seq::empty(),
                timeline: TimelineView {
                    slots: Seq::empty(),
                    playing: false,
                    export: None,
                    progress: 0,
                    progress_max: 0,
                },
                clip_duration: DEFAULT_CLIP_DURATION,
                countdown: None,
                choosen_clip: None,
                modal: ModalView::Closed,
                modal_shown: false,
            }),
    {
        BlindTestBuilder {
            clips: ClipRegistry::new(),
            timeline: Timeline::new(),
            clip_duration: DEFAULT_CLIP_DURATION,
            countdown: None,
            choosen_clip: None,
            modal: ModalState::new(),
            modal_shown: false,
        }
    }

    /// The project as a document holds it: the clips in the order of the
    /// registry, the titles bound to the slots, and the settings.
    pub fn save(&self) -> (save: SaveFile)
        ensures
            save@.clips == self@.clips.map_values(|clip: ClipView| saved_clip(clip)),
            save@.timeline.len() == self@.timeline.slots.len(),
            forall|i: int|
                0 <= i < save@.timeline.len() ==> #[trigger] save@.timeline[i]
                    == self@.timeline.slots[i].clip,
            save@.settings == (SettingsView {
                duration: self@.clip_duration,
                countdown: self@.countdown,
            }),
    {
        let ghost wanted = self@.clips.map_values(|clip: ClipView| saved_clip(clip));
        let mut clips: Vec<ClipSave> = Vec::new();
        let count = self.clips.len();
        let mut i: usize = 0;
        assert(clip_save_views(clips@) =~= wanted.take(0));
        while i < count
            invariant
                i <= count,
                count == self.clips@.len(),
                wanted == self@.clips.map_values(|clip: ClipView| saved_clip(clip)),
                clip_save_views(clips@) == wanted.take(i as int),
            decreases count - i,
        {
            let ghost before = clip_save_views(clips@);
            let saved = self.clips.at(i).save();
            clips.push(saved);
            assert(clip_save_views(clips@) =~= before.push(saved@));
            assert(clip_save_views(clips@) =~= wanted.take(i + 1));
            i += 1;
        }
        assert(wanted.take(i as int) =~= wanted);
        let timeline = self.timeline.save();
        let save = SaveFile {
            clips,
            timeline,
            settings: Settings {
                duration: self.clip_duration,
                countdown: copy_slot(&self.countdown),
            },
        };
        assert(save@.timeline.len() == timeline@.len());
        save
    }

    /// Takes a project from a document, given what came of reading the
    /// music file of each of its clips, in the order of the document. The
    /// clips, the timeline and the settings are replaced; no clip is picked
    /// for editing any more.
    pub fn load(&mut self, save: SaveFile, outcomes: &Vec<Result<Offset, String>>)
        ensures
            final(self)@.clips == loaded_clips(save@.clips, outcome_views(outcomes@)),
            final(self)@.timeline == (TimelineView {
                slots: save@.timeline.map_values(|t: Option<Seq<char>>| loaded_slot(t)),
                ..old(self)@.timeline
            }),
            final(self)@.clip_duration == save@.settings.duration,
            final(self)@.countdown == save@.settings.countdown,
            final(self)@.choosen_clip is None,
            final(self)@.modal == old(self)@.modal,
            final(self)@.modal_shown == old(self)@.modal_shown,
    {
        let SaveFile { clips, timeline, settings } = save;
        let ghost wanted = clip_save_views(clips@);
        let ghost results = outcome_views(outcomes@);
        let mut registry = ClipRegistry::new();
        let mut i: usize = 0;
        assert(wanted.take(0) =~= Seq::<ClipSaveView>::empty());
        while i < clips.len()
            invariant
                i <= clips.len(),
                wanted == clip_save_views(clips@),
                results == outcome_views(outcomes@),
                registry@ == loaded_clips(wanted.take(i as int), results),
            decreases clips.len() - i,
        {
            proof {
                let next = wanted.take(i + 1);
                assert(next.drop_last() =~= wanted.take(i as int));
                assert(next.last() == clips@[i as int]@);
            }
            if i < outcomes.len() {
                assert(results[i as int] == outcome_view(outcomes@[i as int]));
                match &outcomes[i] {
                    Ok(duration) => {
                        let clip = &clips[i];
                        let copy = ClipSave {
                            title: clip.title.clone(),
                            image_path: clip.image_path.clone(),
                            music_path: clip.music_path.clone(),
                            offset: clip.offset,
                        };
                        registry.insert(Clip::load(copy, *duration));
                    },
                    Err(_) => {},
                }
            }
            i += 1;
        }
        assert(wanted.take(i as int) =~= wanted);
        self.clips = registry;
        self.choosen_clip = None;
        self.timeline.load(timeline);
        self.clip_duration = settings.duration;
        self.countdown = settings.countdown;
    }

    /// Handles a message for the dialog that is open.
    fn modal_update(&mut self, message: ModalMessage) -> (effect: Effect)
        ensures
            final(self)@ == modal_after(old(self)@, message),
            project_effect_view(effect) == modal_effect(old(self)@, message),
    {
        let mut inner = ModalInnerState::Closed;
        std::mem::swap(&mut inner, &mut self.modal.inner);
        let (inner, effect) = match (message, inner) {
            (ModalMessage::ClipBuilder(m), ModalInnerState::ClipBuilder(state)) => {
                let mut state = state;
                let effect = state.update(m);
                (ModalInnerState::ClipBuilder(state), Effect::Builder(effect))
            },
            (ModalMessage::ClipEditor(m), ModalInnerState::ClipEditor(state)) => {
                let mut state = state;
                let (effect, close) = state.update(m, &mut self.clips);
                if close {
                    self.modal_shown = false;
                }
                (ModalInnerState::ClipEditor(state), Effect::Editor(effect))
            },
            (ModalMessage::GlobalSettings(m), ModalInnerState::GlobalSettings(state)) => {
                let mut state = state;
                let (applied, choose) = state.update(m);
                match applied {
                    Some(settings) => {
                        self.clip_duration = settings.duration;
                        self.countdown = settings.countdown;
                        self.modal_shown = false;
                    },
                    None => {},
                }
                let effect = if choose {
                    Effect::ChooseCountdown
                } else {
                    Effect::Nothing
                };
                (ModalInnerState::GlobalSettings(state), effect)
            },
            (_, inner) => (inner, Effect::Nothing),
        };
        self.modal.inner = inner;
        let forget = match &self.choosen_clip {
            Some(title) => !self.clips.contains(title.as_str()),
            None => false,
        };
        if forget {
            self.choosen_clip = None;
        }
        effect
    }

    /// Ends an attempt of the open dialog to add a clip, given what came of
    /// reading the music file. Where a clip is built it goes into the
    /// registry and the dialog leaves the screen; where none is, the dialog
    /// shows why. Nothing happens unless the dialog that builds a clip is
    /// open.
    pub fn add_clip(&mut self, outcome: Result<Offset, String>) -> (added: bool)
        ensures
            added == (old(self)@.modal is ClipBuilder && built(
                old(self)@.modal->ClipBuilder_0,
                outcome_view(outcome),
            ) is Ok),
            added ==> final(self)@ == (ProjectView {
                clips: with_clip(
                    old(self)@.clips,
                    built(old(self)@.modal->ClipBuilder_0, outcome_view(outcome))->Ok_0,
                ),
                modal: ModalView::ClipBuilder(blank_builder()),
                modal_shown: false,
                ..old(self)@
            }),
            !added && old(self)@.modal is ClipBuilder ==> final(self)@ == (ProjectView {
                modal: ModalView::ClipBuilder(
                    ClipBuilderView {
                        error: Some(
                            built(old(self)@.modal->ClipBuilder_0, outcome_view(outcome))->Err_0,
                        ),
                        ..old(self)@.modal->ClipBuilder_0
                    },
                ),
                ..old(self)@
            }),
            !(old(self)@.modal is ClipBuilder) ==> final(self)@ == old(self)@,
    {
        let mut inner = ModalInnerState::Closed;
        std::mem::swap(&mut inner, &mut self.modal.inner);
        match inner {
            ModalInnerState::ClipBuilder(state) => {
                let mut state = state;
                let added = state.add(&mut self.clips, outcome);
                if added {
                    self.modal_shown = false;
                }
                self.modal.inner = ModalInnerState::ClipBuilder(state);
                added
            },
            other => {
                self.modal.inner = other;
                false
            },
        }
    }

    /// Handles a message: the project changes as the message says, and the
    /// outside work that belongs to it is returned.
    pub fn update(&mut self, message: Message) -> (effect: Effect)
        ensures
            final(self)@ == project_after(old(self)@, message),
            project_effect_view(effect) == project_effect(old(self)@, message),
    {
        match message {
            Message::AddClip => {
                self.modal.inner = ModalInnerState::ClipBuilder(ClipBuilderState::new());
                self.modal_shown = true;
                Effect::Nothing
            },
            Message::ModalCancel => {
                self.modal.close();
                self.modal_shown = false;
                Effect::Nothing
            },
            Message::ModalClosed => {
                self.modal.close();
                self.modal_shown = false;
                Effect::Nothing
            },
            Message::Modal(m) => self.modal_update(m),
            Message::PickedClip(title) => {
                self.choosen_clip = Some(title);
                Effect::Nothing
            },
            Message::EditClip(title) => {
                self.modal.inner = ModalInnerState::ClipEditor(ClipEditorState::new(title));
                self.modal_shown = true;
                Effect::Nothing
            },
            Message::SaveRequest => Effect::ChooseSavePath,
            Message::SaveTo(Some(path)) => Effect::Store(path),
            Message::LoadRequest => Effect::ChooseLoadPath,
            Message::LoadFrom(Some(path)) => Effect::Load(path),
            Message::SaveTo(None) => Effect::Nothing,
            Message::LoadFrom(None) => Effect::Nothing,
            Message::Timeline(m) => Effect::Timeline(
                self.timeline.update(m, &self.clips, self.clip_duration),
            ),
            Message::GlobalSettings => {
                self.modal.inner = ModalInnerState::GlobalSettings(
                    GlobalSettingsState::new(self.clip_duration, copy_slot(&self.countdown)),
                );
                self.modal_shown = true;
                Effect::Nothing
            },
            Message::EditClipOffset { clip, new_offset } => {
                self.clips.set_offset(clip.as_str(), new_offset);
                Effect::Nothing
            },
        }
    }
}

} // verus!
