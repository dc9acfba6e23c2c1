//! The dialogs of the shell: the one that builds a clip, the one that edits
//! a clip, and the one for the settings of the project. Each decides what a
//! message does to it and what outside work the shell is to do next.

use vstd::prelude::*;
use crate::clip::{lookup, position, Clip, ClipRegistry, ClipView, Offset};
use crate::progress::{parse_number, parse_u64};
use crate::save::{slot_view, Settings, SettingsView};
use crate::text::{decimal, push_decimal};

verus! {

/// What can be asked of the dialog that builds a clip.
#[derive(Clone, Debug, PartialEq, Eq)]
pub enum ClipBuilderMessage {
    TitleChanged(String),
    PickImage,
    PickMusic,
    PickedImage(Option<String>),
    PickedMusic(Option<String>),
    Add,
}

/// The outside work that the dialog that builds a clip asks for.
#[derive(Clone, Debug, PartialEq, Eq)]
pub enum ClipBuilderEffect {
    Nothing,
    /// Let the user choose an image file.
    ChooseImage,
    /// Let the user choose a music file.
    ChooseMusic,
    /// Open the music file at this path, measure how long it lasts, and
    /// hand the outcome to `add`.
    ReadMusic(String),
}

/// The dialog that builds a clip.
#[derive(Clone, Debug, PartialEq, Eq)]
pub struct ClipBuilderState {
    /// What went wrong at the last attempt.
    pub error: Option<String>,
    pub title: String,
    pub image: Option<String>,
    pub music: Option<String>,
}

/// Mathematical value of a [`ClipBuilderState`].
pub struct ClipBuilderView {
    pub error: Option<Seq<char>>,
    pub title: Seq<char>,
    pub image: Option<Seq<char>>,
    pub music: Option<Seq<char>>,
}

impl View for ClipBuilderState {
    type V = ClipBuilderView;

    open spec fn view(&self) -> ClipBuilderView {
        ClipBuilderView {
            error: slot_view(self.error),
            title: self.title@,
            image: slot_view(self.image),
            music: slot_view(self.music),
        }
    }
}

/// The value of the outcome of reading a music file: its length, or why it
/// could not be read.
pub open spec fn outcome_view(outcome: Result<Offset, String>) -> Result<Offset, Seq<char>> {
    match outcome {
        Ok(length) => Ok(length),
        Err(why) => Err(why@),
    }
}

/// The value of a clip or of the message that tells why there is none.
pub open spec fn built_view(built: Result<Clip, String>) -> Result<ClipView, Seq<char>> {
    match built {
        Ok(clip) => Ok(clip@),
        Err(why) => Err(why@),
    }
}

/// The dialog as it is opened.
pub open spec fn blank_builder() -> ClipBuilderView {
    ClipBuilderView { error: None, title: Seq::empty(), image: None, music: None }
}

/// Why the dialog cannot even try to read its music, if it cannot.
pub open spec fn unready(state: ClipBuilderView) -> Option<Seq<char>> {
    if state.title.len() == 0 {
        Some("Title must not be empty"@)
    } else if state.music is None {
        Some("No music was provided"@)
    } else {
        None
    }
}

/// The clip that the dialog builds, given what came of reading the music,
/// or why it builds none. The title is checked first, then the music, then
/// the image.
pub open spec fn built(state: ClipBuilderView, outcome: Result<Offset, Seq<char>>) -> Result<
    ClipView,
    Seq<char>,
> {
    if unready(state) is Some {
        Err(unready(state)->0)
    } else if outcome is Err {
        Err("Could not open music: "@ + outcome->Err_0)
    } else if state.image is None {
        Err("No image was provided"@)
    } else {
        Ok(
            ClipView {
                title: state.title,
                music_path: state.music->0,
                image_path: state.image->0,
                offset: Offset { secs: 0, nanos: 0 },
                duration: outcome->Ok_0,
            },
        )
    }
}

/// The registry with a clip put in: in the place of the clip that had its
/// title, or at the end.
pub open spec fn with_clip(clips: Seq<ClipView>, clip: ClipView) -> Seq<ClipView> {
    if lookup(clips, clip.title) is Some {
        clips.update(position(clips, clip.title, 0), clip)
    } else {
        clips.push(clip)
    }
}

/// The registry without the clip of that title.
pub open spec fn without_clip(clips: Seq<ClipView>, title: Seq<char>) -> Seq<ClipView> {
    if lookup(clips, title) is Some {
        clips.remove(position(clips, title, 0))
    } else {
        clips
    }
}

/// The dialog after a message.
pub open spec fn builder_after(
    state: ClipBuilderView,
    message: ClipBuilderMessage,
) -> ClipBuilderView {
    match message {
        ClipBuilderMessage::TitleChanged(title) => ClipBuilderView { title: title@, ..state },
        ClipBuilderMessage::PickedImage(path) => ClipBuilderView {
            image: slot_view(path),
            ..state
        },
        ClipBuilderMessage::PickedMusic(path) => ClipBuilderView {
            music: slot_view(path),
            ..state
        },
        ClipBuilderMessage::Add => if unready(state) is Some {
            ClipBuilderView { error: unready(state), ..state }
        } else {
            state
        },
        _ => state,
    }
}

/// Mathematical value of a [`ClipBuilderEffect`].
pub enum ClipBuilderEffectView {
    Nothing,
    ChooseImage,
    ChooseMusic,
    ReadMusic(Seq<char>),
}

/// The value of an effect.
pub open spec fn builder_effect_view(effect: ClipBuilderEffect) -> ClipBuilderEffectView {
    match effect {
        ClipBuilderEffect::Nothing => ClipBuilderEffectView::Nothing,
        ClipBuilderEffect::ChooseImage => ClipBuilderEffectView::ChooseImage,
        ClipBuilderEffect::ChooseMusic => ClipBuilderEffectView::ChooseMusic,
        ClipBuilderEffect::ReadMusic(path) => ClipBuilderEffectView::ReadMusic(path@),
    }
}

/// The outside work that a message asks of the shell.
pub open spec fn builder_effect(
    state: ClipBuilderView,
    message: ClipBuilderMessage,
) -> ClipBuilderEffectView {
    match message {
        ClipBuilderMessage::PickImage => ClipBuilderEffectView::ChooseImage,
        ClipBuilderMessage::PickMusic => ClipBuilderEffectView::ChooseMusic,
        ClipBuilderMessage::Add => if unready(state) is None {
            ClipBuilderEffectView::ReadMusic(state.music->0)
        } else {
            ClipBuilderEffectView::Nothing
        },
        _ => ClipBuilderEffectView::Nothing,
    }
}

impl ClipBuilderState {
    /// The dialog as it is opened: nothing is filled in.
    pub fn new() -> (state: ClipBuilderState)
        ensures
            state@ == blank_builder(),
    {
        ClipBuilderState { error: None, title: String::new(), image: None, music: None }
    }

    /// Why the dialog cannot even try to read its music, if it cannot.
    fn check(&self) -> (why: Option<String>)
        ensures
            slot_view(why) == unready(self@),
    {
        if self.title.as_str().unicode_len() == 0 {
            Some(String::from_str("Title must not be empty"))
        } else if self.music.is_none() {
            Some(String::from_str("No music was provided"))
        } else {
            None
        }
    }

    /// Builds the clip, given what came of reading the music file. When a
    /// clip is built the dialog is blank again; when none is, the dialog
    /// stays as it is.
    pub fn build(&mut self, outcome: Result<Offset, String>) -> (r: Result<Clip, String>)
        ensures
            built_view(r) == built(old(self)@, outcome_view(outcome)),
            r is Ok ==> final(self)@ == blank_builder(),
            r is Err ==> final(self)@ == old(self)@,
    {
        match self.check() {
            Some(why) => {
                return Err(why);
            },
            None => {},
        }
        let duration = match outcome {
            Ok(duration) => duration,
            Err(why) => {
                let mut message = String::from_str("Could not open music: ");
                message.append(why.as_str());
                return Err(message);
            },
        };
        if self.image.is_none() {
            return Err(String::from_str("No image was provided"));
        }
        let mut title = String::new();
        let mut music: Option<String> = None;
        let mut image: Option<String> = None;
        std::mem::swap(&mut title, &mut self.title);
        std::mem::swap(&mut music, &mut self.music);
        std::mem::swap(&mut image, &mut self.image);
        self.error = None;
        match (music, image) {
            (Some(music_path), Some(image_path)) => Ok(
                Clip { title, music_path, image_path, offset: Offset::from_secs(0), duration },
            ),
            _ => Err(String::from_str("No music was provided")),
        }
    }

    /// Handles a message. `Add` checks the title and the music path; where
    /// both are there, the shell is asked to read the music file and to hand
    /// the outcome to `add`.
    pub fn update(&mut self, message: ClipBuilderMessage) -> (effect: ClipBuilderEffect)
        ensures
            final(self)@ == builder_after(old(self)@, message),
            builder_effect_view(effect) == builder_effect(old(self)@, message),
    {
        match message {
            ClipBuilderMessage::TitleChanged(title) => {
                self.title = title;
                ClipBuilderEffect::Nothing
            },
            ClipBuilderMessage::PickImage => ClipBuilderEffect::ChooseImage,
            ClipBuilderMessage::PickMusic => ClipBuilderEffect::ChooseMusic,
            ClipBuilderMessage::PickedImage(path) => {
                self.image = path;
                ClipBuilderEffect::Nothing
            },
            ClipBuilderMessage::PickedMusic(path) => {
                self.music = path;
                ClipBuilderEffect::Nothing
            },
            ClipBuilderMessage::Add => match self.check() {
                Some(why) => {
                    self.error = Some(why);
                    ClipBuilderEffect::Nothing
                },
                None => match &self.music {
                    Some(path) => ClipBuilderEffect::ReadMusic(path.clone()),
                    None => ClipBuilderEffect::Nothing,
                },
            },
        }
    }

    /// Ends an attempt to add the clip, given what came of reading the music
    /// file. The clip that is built goes into `clips` and the dialog is to
    /// be closed; where none is built, the dialog shows why and stays open.
    pub fn add(&mut self, clips: &mut ClipRegistry, outcome: Result<Offset, String>) -> (close:
        bool)
        ensures
            close == built(old(self)@, outcome_view(outcome)) is Ok,
            close ==> final(self)@ == blank_builder() && final(clips)@ == with_clip(
                old(clips)@,
                built(old(self)@, outcome_view(outcome))->Ok_0,
            ),
            !close ==> final(clips)@ == old(clips)@ && final(self)@ == (ClipBuilderView {
                error: Some(built(old(self)@, outcome_view(outcome))->Err_0),
                ..old(self)@
            }),
    {
        match self.build(outcome) {
            Ok(clip) => {
                clips.insert(clip);
                true
            },
            Err(why) => {
                self.error = Some(why);
                false
            },
        }
    }
}

/// What can be asked of the dialog that edits a clip.
#[derive(Clone, Copy, Debug, PartialEq, Eq, Structural)]
pub enum ClipEditorMessage {
    PlayClip,
    StopClip,
    Delete,
}

/// The outside work that the dialog that edits a clip asks for.
#[derive(Clone, Copy, Debug, PartialEq, Eq, Structural)]
pub enum ClipEditorEffect {
    Nothing,
    /// Play the clip of the dialog from its offset.
    Play,
    /// Stop what the dialog plays.
    Stop,
}

/// The dialog that edits a clip.
#[derive(Clone, Debug, PartialEq, Eq)]
pub struct ClipEditorState {
    /// Title of the clip.
    pub clip: String,
    pub playing: bool,
}

/// Mathematical value of a [`ClipEditorState`].
pub struct ClipEditorView {
    pub clip: Seq<char>,
    pub playing: bool,
}

impl View for ClipEditorState {
    type V = ClipEditorView;

    open spec fn view(&self) -> ClipEditorView {
        ClipEditorView { clip: self.clip@, playing: self.playing }
    }
}

/// The dialog after a message, while `clips` holds its clip.
pub open spec fn editor_after(state: ClipEditorView, message: ClipEditorMessage) -> ClipEditorView {
    match message {
        ClipEditorMessage::PlayClip => ClipEditorView { playing: true, ..state },
        ClipEditorMessage::StopClip => ClipEditorView { playing: false, ..state },
        ClipEditorMessage::Delete => state,
    }
}

impl ClipEditorState {
    /// The dialog for the clip of that title, at rest.
    pub fn new(clip: String) -> (state: ClipEditorState)
        ensures
            state@ == (ClipEditorView { clip: clip@, playing: false }),
    {
        ClipEditorState { clip, playing: false }
    }

    /// Title of the clip of the dialog.
    pub fn clip_name(&self) -> (name: &str)
        ensures
            name@ == self@.clip,
    {
        self.clip.as_str()
    }

    /// Handles a message and says what to do outside and whether the dialog
    /// is to be closed. `Delete` takes the clip out of `clips` and closes
    /// the dialog. A dialog whose clip is gone closes at any message and
    /// changes nothing.
    pub fn update(&mut self, message: ClipEditorMessage, clips: &mut ClipRegistry) -> (r: (
        ClipEditorEffect,
        bool,
    ))
        ensures
            lookup(old(clips)@, old(self)@.clip) is None ==> r == (ClipEditorEffect::Nothing, true)
                && final(self)@ == old(self)@ && final(clips)@ == old(clips)@,
            lookup(old(clips)@, old(self)@.clip) is Some ==> final(self)@ == editor_after(
                old(self)@,
                message,
            ),
            lookup(old(clips)@, old(self)@.clip) is Some ==> r == (match message {
                ClipEditorMessage::PlayClip => (ClipEditorEffect::Play, false),
                ClipEditorMessage::StopClip => (ClipEditorEffect::Stop, false),
                ClipEditorMessage::Delete => (ClipEditorEffect::Nothing, true),
            }),
            lookup(old(clips)@, old(self)@.clip) is Some ==> final(clips)@ == (match message {
                ClipEditorMessage::Delete => without_clip(old(clips)@, old(self)@.clip),
                _ => old(clips)@,
            }),
    {
        if !clips.contains(self.clip.as_str()) {
            return (ClipEditorEffect::Nothing, true);
        }
        match message {
            ClipEditorMessage::PlayClip => {
                self.playing = true;
                (ClipEditorEffect::Play, false)
            },
            ClipEditorMessage::StopClip => {
                self.playing = false;
                (ClipEditorEffect::Stop, false)
            },
            ClipEditorMessage::Delete => {
                clips.remove(self.clip.as_str());
                (ClipEditorEffect::Nothing, true)
            },
        }
    }
}

/// What can be asked of the dialog for the settings.
#[derive(Clone, Debug, PartialEq, Eq)]
pub enum GlobalSettingsMessage {
    UpdateDuration(String),
    CountDownPath(Option<String>),
    SelectCountdown,
    UpdateSettings,
}

/// The dialog for the settings of the project.
#[derive(Clone, Debug, PartialEq, Eq)]
pub struct GlobalSettingsState {
    /// The time given to each clip, as the user typed it.
    pub current_duration: String,
    pub countdown: Option<String>,
    /// What went wrong at the last attempt.
    pub error: Option<String>,
}

/// Mathematical value of a [`GlobalSettingsState`].
pub struct GlobalSettingsView {
    pub current_duration: Seq<char>,
    pub countdown: Option<Seq<char>>,
    pub error: Option<Seq<char>>,
}

impl View for GlobalSettingsState {
    type V = GlobalSettingsView;

    open spec fn view(&self) -> GlobalSettingsView {
        GlobalSettingsView {
            current_duration: self.current_duration@,
            countdown: slot_view(self.countdown),
            error: slot_view(self.error),
        }
    }
}

/// The time given to each clip that a text writes: a number of seconds that
/// fits in 32 bits.
pub open spec fn typed_duration(text: Seq<char>) -> Option<u32> {
    match parse_u64(text) {
        Some(n) => if n <= u32::MAX {
            Some(n as u32)
        } else {
            None
        },
        None => None,
    }
}

/// The outcome of a dialog for the settings that is confirmed: the settings
/// and whether the dialog is to be closed.
pub open spec fn settings_view(settings: Option<Settings>) -> Option<SettingsView> {
    match settings {
        Some(s) => Some(s@),
        None => None,
    }
}

/// The dialog after a message.
pub open spec fn settings_after(
    state: GlobalSettingsView,
    message: GlobalSettingsMessage,
) -> GlobalSettingsView {
    match message {
        GlobalSettingsMessage::UpdateDuration(text) => GlobalSettingsView {
            current_duration: text@,
            ..state
        },
        GlobalSettingsMessage::CountDownPath(path) => GlobalSettingsView {
            countdown: slot_view(path),
            ..state
        },
        GlobalSettingsMessage::SelectCountdown => state,
        GlobalSettingsMessage::UpdateSettings => if typed_duration(state.current_duration) is Some {
            GlobalSettingsView { countdown: None, ..state }
        } else {
            GlobalSettingsView { error: Some("Duration is invalid"@), ..state }
        },
    }
}

/// The settings that a message puts into force, if it does.
pub open spec fn settings_applied(
    state: GlobalSettingsView,
    message: GlobalSettingsMessage,
) -> Option<SettingsView> {
    if message is UpdateSettings && typed_duration(state.current_duration) is Some {
        Some(
            SettingsView {
                duration: typed_duration(state.current_duration)->0,
                countdown: state.countdown,
            },
        )
    } else {
        None
    }
}

impl GlobalSettingsState {
    /// The dialog for the settings as they are in force.
    pub fn new(current_duration: u32, countdown: Option<String>) -> (state: GlobalSettingsState)
        ensures
            state@ == (GlobalSettingsView {
                current_duration: decimal(current_duration as nat),
                countdown: slot_view(countdown),
                error: None,
            }),
    {
        let mut text = String::new();
        push_decimal(&mut text, current_duration as u128);
        assert(text@ =~= decimal(current_duration as nat));
        GlobalSettingsState { current_duration: text, countdown, error: None }
    }

    /// The settings that the dialog holds. It fails, with the message
    /// `Duration is invalid`, when the duration typed is no number of
    /// seconds that fits in 32 bits, and only then; the dialog then stays as
    /// it is. With the settings the countdown leaves the dialog.
    pub fn apply(&mut self) -> (r: Result<Settings, String>)
        ensures
            r is Ok <==> typed_duration(old(self)@.current_duration) is Some,
            r is Ok ==> r->Ok_0@ == (SettingsView {
                duration: typed_duration(old(self)@.current_duration)->0,
                countdown: old(self)@.countdown,
            }),
            r is Ok ==> final(self)@ == (GlobalSettingsView { countdown: None, ..old(self)@ }),
            r is Err ==> r->Err_0@ == "Duration is invalid"@,
            r is Err ==> final(self)@ == old(self)@,
    {
        let duration = match parse_number(self.current_duration.as_str()) {
            Some(n) => if n <= u32::MAX as u64 {
                n as u32
            } else {
                return Err(String::from_str("Duration is invalid"));
            },
            None => {
                return Err(String::from_str("Duration is invalid"));
            },
        };
        let mut countdown: Option<String> = None;
        std::mem::swap(&mut countdown, &mut self.countdown);
        Ok(Settings { duration, countdown })
    }

    /// Handles a message. It returns the settings to put into force, where
    /// the message confirms the dialog and the duration typed is valid; the
    /// dialog is then to be closed. The second part of the result says
    /// whether the shell is to let the user choose a countdown file.
    pub fn update(&mut self, message: GlobalSettingsMessage) -> (r: (Option<Settings>, bool))
        ensures
            final(self)@ == settings_after(old(self)@, message),
            settings_view(r.0) == settings_applied(old(self)@, message),
            r.1 == message is SelectCountdown,
    {
        match message {
            GlobalSettingsMessage::UpdateSettings => match self.apply() {
                Ok(settings) => (Some(settings), false),
                Err(why) => {
                    self.error = Some(why);
                    (None, false)
                },
            },
            GlobalSettingsMessage::UpdateDuration(text) => {
                self.current_duration = text;
                (None, false)
            },
            GlobalSettingsMessage::SelectCountdown => (None, true),
            GlobalSettingsMessage::CountDownPath(path) => {
                self.countdown = path;
                (None, false)
            },
        }
    }
}

/// What can be asked of whichever dialog is open.
#[derive(Clone, Debug, PartialEq, Eq)]
pub enum ModalMessage {
    ClipBuilder(ClipBuilderMessage),
    ClipEditor(ClipEditorMessage),
    GlobalSettings(GlobalSettingsMessage),
}

/// The dialog that is open, if one is.
#[derive(Clone, Debug, PartialEq, Eq)]
pub enum ModalInnerState {
    ClipBuilder(ClipBuilderState),
    ClipEditor(ClipEditorState),
    GlobalSettings(GlobalSettingsState),
    Closed,
}

impl ModalInnerState {
    /// Whether the dialog can be given up: every dialog can, and there is
    /// nothing to give up where none is open.
    pub fn has_cancel(&self) -> (cancel: bool)
        ensures
            cancel == !(self is Closed),
    {
        match self {
            ModalInnerState::ClipBuilder(_) => true,
            ModalInnerState::ClipEditor(_) => true,
            ModalInnerState::GlobalSettings(_) => true,
            ModalInnerState::Closed => false,
        }
    }
}

/// The place of the dialogs in the shell.
#[derive(Clone, Debug, PartialEq, Eq)]
pub struct ModalState {
    pub inner: ModalInnerState,
}

impl ModalState {
    /// No dialog is open.
    pub fn new() -> (state: ModalState)
        ensures
            state.inner == ModalInnerState::Closed,
    {
        ModalState { inner: ModalInnerState::Closed }
    }

    /// Closes whichever dialog is open.
    pub fn close(&mut self)
        ensures
            final(self).inner == ModalInnerState::Closed,
    {
        self.inner = ModalInnerState::Closed;
    }
}

} // verus!
