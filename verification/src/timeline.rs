//! The timeline: an ordered row of slots, each empty or bound to the title
//! of a clip, and the progress of the export that was asked of it.
//!
//! The timeline decides and the shell around it acts: what `update` returns
//! beside the new state is the outside work to do, such as playing a clip or
//! asking where the export shall go. A message that does not apply to the
//! timeline as it stands changes nothing and asks for nothing.

use std::collections::VecDeque;
use vstd::prelude::*;
use crate::clip::{lookup, ClipRegistry, ClipView};
use crate::command::texts;
use crate::export::{all_known, resolved, Export, ExportView};
use crate::progress::Progress;
use crate::save::{copy_slot, slot_view, slot_views};

verus! {

/// Frames that the encoder is taken to write in a second. It is a fixed
/// figure for the display of progress, not a measurement.
pub const ASSUMED_FRAME_RATE: u32 = 25;

/// Frames that an export of `items` clips of `clip_duration` seconds each is
/// expected to write.
pub open spec fn expected_frames(clip_duration: u32, items: nat) -> nat {
    ASSUMED_FRAME_RATE as nat * clip_duration as nat * items
}

/// Frames that an export of `items` clips of `clip_duration` seconds each is
/// expected to write.
pub fn estimated_frames(clip_duration: u32, items: usize) -> (frames: u128)
    ensures
        frames == expected_frames(clip_duration, items as nat),
{
    assert(ASSUMED_FRAME_RATE * clip_duration == 25 * clip_duration && 25 * clip_duration
        <= 0x1_0000_0000_0000) by (nonlinear_arith)
        requires
            ASSUMED_FRAME_RATE == 25,
            clip_duration <= 0xffff_ffff,
    ;
    let per_clip: u128 = ASSUMED_FRAME_RATE as u128 * clip_duration as u128;
    assert(per_clip * items <= 0x1_0000_0000_0000 * 0x1_0000_0000_0000_0000) by (nonlinear_arith)
        requires
            per_clip <= 0x1_0000_0000_0000,
            items <= 0x1_0000_0000_0000_0000,
    ;
    assert(25 * clip_duration as nat * items as nat == per_clip * items) by (nonlinear_arith)
        requires
            per_clip == 25 * clip_duration,
    ;
    per_clip * items as u128
}

/// The text that `humantime` writes for a span of whole seconds.
pub uninterp spec fn human_duration(secs: u64) -> Seq<char>;

/// `humantime::format_duration` for a span of whole seconds, as text. The
/// contract names the outcome: it depends on the number of seconds alone.
#[verifier::external_body]
fn format_seconds(secs: u64) -> (text: String)
    ensures
        text@ == human_duration(secs),
{
    humantime::format_duration(std::time::Duration::from_secs(secs)).to_string()
}

/// The line that tells how long the whole export lasts: none for a timeline
/// without slots, and none where the seconds do not fit in 64 bits.
pub open spec fn duration_label(slots: nat, clip_duration: u32) -> Option<Seq<char>> {
    if slots > 0 && slots * clip_duration <= u64::MAX {
        Some("Total duration: "@ + human_duration((slots * clip_duration) as u64))
    } else {
        None
    }
}

/// The line that tells how long the whole export lasts, for a timeline of
/// `slots` slots of `clip_duration` seconds each.
pub fn total_duration_label(slots: usize, clip_duration: u32) -> (label: Option<String>)
    ensures
        slot_view(label) == duration_label(slots as nat, clip_duration),
{
    if slots == 0 {
        return None;
    }
    assert(slots * clip_duration <= 0x1_0000_0000_0000_0000 * 0x1_0000_0000) by (nonlinear_arith)
        requires
            slots <= 0x1_0000_0000_0000_0000,
            clip_duration <= 0x1_0000_0000,
    ;
    let total: u128 = slots as u128 * clip_duration as u128;
    if total > u64::MAX as u128 {
        return None;
    }
    let mut label = String::from_str("Total duration: ");
    label.append(format_seconds(total as u64).as_str());
    Some(label)
}

/// What can be done with a slot as a whole.
#[derive(Clone, Copy, Debug, PartialEq, Eq, Structural)]
pub enum TimelineAction {
    Up,
    Down,
    Delete,
}

/// What can be asked of one slot.
#[derive(Clone, Debug, PartialEq, Eq)]
pub enum TimelineClipMessage {
    /// A title was picked from the list; it is not bound yet.
    SelectedClip(String),
    /// The title that was picked shall be bound to the slot.
    ValidateClip,
    Action(TimelineAction),
    Play,
    Stop,
}

/// What can be asked of the timeline.
#[derive(Clone, Debug, PartialEq, Eq)]
pub enum TimelineMessage {
    AddStart,
    AddEnd,
    Play,
    Stop,
    TimelineClip(usize, TimelineClipMessage),
    /// An export was asked for; its path is not chosen yet.
    Save,
    /// The path of the export was chosen, or the choice was given up.
    SaveTo(Option<String>),
    ExportProgress(Progress),
}

/// The outside work that the timeline asks for.
#[derive(Clone, Debug, PartialEq, Eq)]
pub enum TimelineEffect {
    Nothing,
    /// Show the part of the row that lies at `position` of `last`.
    Scroll { position: usize, last: usize },
    /// Play the clip with this title, for the slot at this position.
    PlayClip(usize, String),
    /// Stop what the slot at this position plays.
    StopClip(usize),
    /// Play the clips with these titles, one after the other.
    PlayAll(Vec<String>),
    StopAll,
    /// Ask where the export shall be written.
    ChooseExportPath,
    /// Tell that the export failed, with this message.
    Report(String),
}

/// One slot of the timeline.
#[derive(Clone, Debug, PartialEq, Eq)]
pub struct TimelineClip {
    /// Title of the clip bound to the slot.
    pub clip: Option<String>,
    /// Title picked for the slot.
    pub selected: Option<String>,
    pub playing: bool,
}

/// Mathematical value of a [`TimelineClip`].
pub struct TimelineClipView {
    pub clip: Option<Seq<char>>,
    pub selected: Option<Seq<char>>,
    pub playing: bool,
}

impl View for TimelineClip {
    type V = TimelineClipView;

    open spec fn view(&self) -> TimelineClipView {
        TimelineClipView {
            clip: slot_view(self.clip),
            selected: slot_view(self.selected),
            playing: self.playing,
        }
    }
}

/// An empty slot.
pub open spec fn empty_slot() -> TimelineClipView {
    TimelineClipView { clip: None, selected: None, playing: false }
}

/// A slot bound to what a project document holds for it.
pub open spec fn loaded_slot(title: Option<Seq<char>>) -> TimelineClipView {
    TimelineClipView { clip: title, selected: title, playing: false }
}

/// A title that `clips` holds, or none.
pub open spec fn kept(title: Option<Seq<char>>, clips: Seq<ClipView>) -> Option<Seq<char>> {
    if title is Some && lookup(clips, title->0) is Some {
        title
    } else {
        None
    }
}

/// A slot without the titles that `clips` does not hold.
pub open spec fn pruned_slot(slot: TimelineClipView, clips: Seq<ClipView>) -> TimelineClipView {
    TimelineClipView {
        clip: kept(slot.clip, clips),
        selected: kept(slot.selected, clips),
        playing: slot.playing,
    }
}

/// The titles that take part in playing and in an export: those bound to
/// slots, in the order of the slots, of clips that `clips` holds.
pub open spec fn bound_titles(slots: Seq<TimelineClipView>, clips: Seq<ClipView>) -> Seq<Seq<char>>
    decreases slots.len(),
{
    if slots.len() == 0 {
        Seq::empty()
    } else {
        let before = bound_titles(slots.drop_last(), clips);
        match kept(slots.last().clip, clips) {
            Some(title) => before.push(title),
            None => before,
        }
    }
}

/// Every title that takes part is the title of a clip that `clips` holds.
pub proof fn lemma_bound_titles_known(slots: Seq<TimelineClipView>, clips: Seq<ClipView>)
    ensures
        all_known(bound_titles(slots, clips), clips),
    decreases slots.len(),
{
    if slots.len() > 0 {
        lemma_bound_titles_known(slots.drop_last(), clips);
    }
}

impl TimelineClip {
    /// An empty slot.
    pub fn new() -> (slot: TimelineClip)
        ensures
            slot@ == empty_slot(),
    {
        TimelineClip { clip: None, selected: None, playing: false }
    }

    /// Whether a title is picked that could be bound to the slot.
    pub fn can_validate(&self) -> (can: bool)
        ensures
            can == self@.selected is Some,
    {
        self.selected.is_some()
    }

    /// Forgets the titles that `clips` does not hold.
    pub fn prune(&mut self, clips: &ClipRegistry)
        ensures
            final(self)@ == pruned_slot(old(self)@, clips@),
    {
        let drop_clip = match &self.clip {
            Some(title) => !clips.contains(title.as_str()),
            None => false,
        };
        if drop_clip {
            self.clip = None;
        }
        let drop_selected = match &self.selected {
            Some(title) => !clips.contains(title.as_str()),
            None => false,
        };
        if drop_selected {
            self.selected = None;
        }
    }
}

/// The timeline of a project.
#[derive(Clone, Debug, PartialEq, Eq)]
pub struct Timeline {
    pub clips: VecDeque<TimelineClip>,
    pub playing: bool,
    /// Path of the export that is under way.
    pub export: Option<String>,
    /// Frames written so far.
    pub progress: u64,
    /// Frames expected in all.
    pub progress_max: u128,
}

/// Mathematical value of a [`Timeline`].
pub struct TimelineView {
    pub slots: Seq<TimelineClipView>,
    pub playing: bool,
    pub export: Option<Seq<char>>,
    pub progress: u64,
    pub progress_max: u128,
}

/// The values of a sequence of slots.
pub open spec fn clip_slot_views(slots: Seq<TimelineClip>) -> Seq<TimelineClipView> {
    slots.map_values(|slot: TimelineClip| slot@)
}

impl View for Timeline {
    type V = TimelineView;

    open spec fn view(&self) -> TimelineView {
        TimelineView {
            slots: clip_slot_views(self.clips@),
            playing: self.playing,
            export: slot_view(self.export),
            progress: self.progress,
            progress_max: self.progress_max,
        }
    }
}

/// The row of slots after the slots at `i` and `i + 1` changed places.
pub open spec fn swapped(slots: Seq<TimelineClipView>, i: int) -> Seq<TimelineClipView> {
    slots.update(i, slots[i + 1]).update(i + 1, slots[i])
}

/// The slot at `index` after a message for it that concerns the slot alone.
pub open spec fn slot_after(
    slot: TimelineClipView,
    message: TimelineClipMessage,
    clips: Seq<ClipView>,
) -> TimelineClipView {
    match message {
        TimelineClipMessage::SelectedClip(title) => TimelineClipView {
            selected: Some(title@),
            ..slot
        },
        TimelineClipMessage::ValidateClip => TimelineClipView { clip: slot.selected, ..slot },
        TimelineClipMessage::Action(_) => slot,
        TimelineClipMessage::Play => if kept(slot.clip, clips) is Some {
            TimelineClipView { playing: true, ..slot }
        } else {
            slot
        },
        TimelineClipMessage::Stop => TimelineClipView { playing: false, ..slot },
    }
}

/// The row of slots after a message for the slot at `index`.
pub open spec fn slots_after(
    slots: Seq<TimelineClipView>,
    index: int,
    message: TimelineClipMessage,
    clips: Seq<ClipView>,
) -> Seq<TimelineClipView> {
    if !(0 <= index < slots.len()) {
        slots
    } else {
        match message {
            TimelineClipMessage::Action(TimelineAction::Up) => if index > 0 {
                swapped(slots, index - 1)
            } else {
                slots
            },
            TimelineClipMessage::Action(TimelineAction::Down) => if index + 1 < slots.len() {
                swapped(slots, index)
            } else {
                slots
            },
            TimelineClipMessage::Action(TimelineAction::Delete) => slots.remove(index),
            _ => slots.update(index, slot_after(slots[index], message, clips)),
        }
    }
}

/// The timeline after a message.
pub open spec fn timeline_after(
    timeline: TimelineView,
    message: TimelineMessage,
    clips: Seq<ClipView>,
    clip_duration: u32,
) -> TimelineView {
    match message {
        TimelineMessage::AddStart => TimelineView {
            slots: seq![empty_slot()] + timeline.slots,
            ..timeline
        },
        TimelineMessage::AddEnd => TimelineView {
            slots: timeline.slots.push(empty_slot()),
            ..timeline
        },
        TimelineMessage::Play => TimelineView { playing: true, ..timeline },
        TimelineMessage::Stop => TimelineView { playing: false, ..timeline },
        TimelineMessage::TimelineClip(index, m) => TimelineView {
            slots: slots_after(timeline.slots, index as int, m, clips),
            ..timeline
        },
        TimelineMessage::Save => timeline,
        TimelineMessage::SaveTo(path) => TimelineView {
            export: slot_view(path),
            progress_max: expected_frames(
                clip_duration,
                bound_titles(timeline.slots, clips).len(),
            ) as u128,
            ..timeline
        },
        TimelineMessage::ExportProgress(p) => match p {
            Progress::Frame(count) => TimelineView { progress: count, ..timeline },
            Progress::Done => TimelineView { export: None, ..timeline },
            _ => timeline,
        },
    }
}

impl Timeline {
    /// A timeline without slots, at rest.
    pub fn new() -> (timeline: Timeline)
        ensures
            timeline@ == (TimelineView {
                slots: Seq::empty(),
                playing: false,
                export: None,
                progress: 0,
                progress_max: 0,
            }),
    {
        let timeline = Timeline {
            clips: VecDeque::new(),
            playing: false,
            export: None,
            progress: 0,
            progress_max: 0,
        };
        assert(timeline@.slots =~= Seq::empty());
        timeline
    }

    /// Whether the slot at `index` has a slot before it to change places
    /// with.
    pub fn can_move_up(&self, index: usize) -> (can: bool)
        ensures
            can == (0 < index < self@.slots.len()),
    {
        0 < index && index < self.clips.len()
    }

    /// Whether the slot at `index` has a slot after it to change places
    /// with.
    pub fn can_move_down(&self, index: usize) -> (can: bool)
        ensures
            can == (index + 1 < self@.slots.len()),
    {
        index < self.clips.len() && index + 1 < self.clips.len()
    }

    /// Whether an export can be asked for: none is under way.
    pub fn can_export(&self) -> (can: bool)
        ensures
            can == self@.export is None,
    {
        self.export.is_none()
    }

    /// The titles that take part in playing and in an export: those bound
    /// to slots, in the order of the slots, of clips that `clips` holds.
    pub fn items(&self, clips: &ClipRegistry) -> (titles: Vec<String>)
        ensures
            texts(titles@) == bound_titles(self@.slots, clips@),
    {
        let ghost slots = self@.slots;
        let mut titles: Vec<String> = Vec::new();
        let mut i: usize = 0;
        assert(texts(titles@) =~= bound_titles(slots.take(0), clips@));
        while i < self.clips.len()
            invariant
                i <= self.clips.len(),
                slots == clip_slot_views(self.clips@),
                texts(titles@) == bound_titles(slots.take(i as int), clips@),
            decreases self.clips.len() - i,
        {
            let ghost before = texts(titles@);
            proof {
                let next = slots.take(i + 1);
                assert(next.drop_last() =~= slots.take(i as int));
                assert(next.last() == self.clips@[i as int]@);
            }
            match &self.clips[i].clip {
                Some(title) => {
                    if clips.contains(title.as_str()) {
                        titles.push(title.clone());
                        assert(texts(titles@) =~= before.push(title@));
                    }
                },
                None => {},
            }
            i += 1;
        }
        assert(slots.take(i as int) =~= slots);
        titles
    }

    /// What a project document holds of the timeline: for each slot, the
    /// title bound to it.
    pub fn save(&self) -> (slots: Vec<Option<String>>)
        ensures
            slots@.len() == self@.slots.len(),
            forall|i: int|
                0 <= i < slots@.len() ==> slot_view(#[trigger] slots@[i]) == self@.slots[i].clip,
    {
        let mut slots: Vec<Option<String>> = Vec::new();
        let mut i: usize = 0;
        while i < self.clips.len()
            invariant
                i <= self.clips.len(),
                slots@.len() == i,
                forall|k: int|
                    0 <= k < i ==> slot_view(#[trigger] slots@[k]) == self.clips@[k]@.clip,
            decreases self.clips.len() - i,
        {
            slots.push(copy_slot(&self.clips[i].clip));
            i += 1;
        }
        slots
    }

    /// Takes the slots of a project document: each slot is bound to its
    /// title, which also counts as picked. Nothing else changes.
    pub fn load(&mut self, slots: Vec<Option<String>>)
        ensures
            final(self)@ == (TimelineView {
                slots: slot_views(slots@).map_values(|t: Option<Seq<char>>| loaded_slot(t)),
                ..old(self)@
            }),
    {
        let ghost wanted = slot_views(slots@).map_values(|t: Option<Seq<char>>| loaded_slot(t));
        let mut clips: VecDeque<TimelineClip> = VecDeque::new();
        let mut i: usize = 0;
        while i < slots.len()
            invariant
                i <= slots.len(),
                wanted == slot_views(slots@).map_values(|t: Option<Seq<char>>| loaded_slot(t)),
                clip_slot_views(clips@) =~= wanted.take(i as int),
            decreases slots.len() - i,
        {
            let ghost before = clip_slot_views(clips@);
            let slot = TimelineClip {
                clip: copy_slot(&slots[i]),
                selected: copy_slot(&slots[i]),
                playing: false,
            };
            clips.push_back(slot);
            assert(clip_slot_views(clips@) =~= before.push(slot@));
            i += 1;
        }
        assert(wanted.take(i as int) =~= wanted);
        self.clips = clips;
    }

    /// Forgets, in every slot, the titles that `clips` does not hold.
    pub fn prune(&mut self, clips: &ClipRegistry)
        ensures
            final(self)@ == (TimelineView {
                slots: old(self)@.slots.map_values(|s: TimelineClipView| pruned_slot(s, clips@)),
                ..old(self)@
            }),
    {
        let ghost before = self@.slots;
        let ghost wanted = before.map_values(|s: TimelineClipView| pruned_slot(s, clips@));
        let len = self.clips.len();
        let mut i: usize = 0;
        while i < len
            invariant
                i <= len,
                len == before.len(),
                self.clips@.len() == len,
                wanted == before.map_values(|s: TimelineClipView| pruned_slot(s, clips@)),
                self.playing == old(self).playing,
                self.export == old(self).export,
                self.progress == old(self).progress,
                self.progress_max == old(self).progress_max,
                forall|k: int| 0 <= k < i ==> (#[trigger] self.clips@[k])@ == wanted[k],
                forall|k: int| i <= k < len ==> (#[trigger] self.clips@[k])@ == before[k],
            decreases len - i,
        {
            let ghost now = self.clips@;
            match self.clips.remove(i) {
                Some(slot) => {
                    let mut slot = slot;
                    slot.prune(clips);
                    self.clips.insert(i, slot);
                    assert(self.clips@ =~= now.update(i as int, slot));
                },
                None => {},
            }
            i += 1;
        }
        assert(self@.slots =~= wanted);
    }

    /// The request for the export that is under way, if there is one: the
    /// clips of the slots, in the order of the slots, as `clips` holds them
    /// now; a slot that is empty, or bound to a title that `clips` does not
    /// hold, takes no part. The request fails when no countdown is chosen,
    /// with the message `Countdown was not provided`, and only then.
    pub fn export_request(
        &self,
        clips: &ClipRegistry,
        countdown: Option<String>,
        clip_duration: u32,
    ) -> (r: Option<Result<Export, String>>)
        ensures
            r is Some <==> self@.export is Some,
            r is Some ==> (r->0 is Ok <==> countdown is Some),
            r is Some && r->0 is Ok ==> r->0->Ok_0@ == (ExportView {
                countdown: countdown->0@,
                output: self@.export->0,
                items: resolved(bound_titles(self@.slots, clips@), clips@),
                duration: clip_duration,
                threads: None,
            }),
            r is Some && r->0 is Err ==> r->0->Err_0@ == "Countdown was not provided"@,
    {
        match &self.export {
            None => None,
            Some(path) => match countdown {
                None => Some(Err(String::from_str("Countdown was not provided"))),
                Some(countdown) => {
                    let items = self.items(clips);
                    proof {
                        lemma_bound_titles_known(self@.slots, clips@);
                    }
                    Some(Export::new(path.clone(), &items, clips, countdown, clip_duration))
                },
            },
        }
    }

    /// Handles a message for the slot at `index`.
    fn update_slot(
        &mut self,
        index: usize,
        message: TimelineClipMessage,
        clips: &ClipRegistry,
    ) -> (effect: TimelineEffect)
        ensures
            final(self)@ == (TimelineView {
                slots: slots_after(old(self)@.slots, index as int, message, clips@),
                ..old(self)@
            }),
            effect_view(effect) == slot_effect_view(old(self)@.slots, index, message, clips@),
    {
        let ghost before = self@.slots;
        let len = self.clips.len();
        if index >= len {
            return TimelineEffect::Nothing;
        }
        let slot = match self.clips.remove(index) {
            Some(slot) => slot,
            None => {
                return TimelineEffect::Nothing;
            },
        };
        assert(clip_slot_views(self.clips@) =~= before.remove(index as int));
        assert(slot@ == before[index as int]);
        let mut slot = slot;
        let ghost rest = self.clips@;
        match message {
            TimelineClipMessage::Action(TimelineAction::Delete) => TimelineEffect::Nothing,
            TimelineClipMessage::Action(TimelineAction::Up) => {
                if index > 0 {
                    self.clips.insert(index - 1, slot);
                    assert(self@.slots =~= swapped(before, index - 1));
                    TimelineEffect::Scroll { position: index - 1, last: len - 1 }
                } else {
                    self.clips.insert(index, slot);
                    assert(self@.slots =~= before);
                    TimelineEffect::Nothing
                }
            },
            TimelineClipMessage::Action(TimelineAction::Down) => {
                if index + 1 < len {
                    self.clips.insert(index + 1, slot);
                    assert(self@.slots =~= swapped(before, index as int));
                    TimelineEffect::Scroll { position: index + 1, last: len - 1 }
                } else {
                    self.clips.insert(index, slot);
                    assert(self@.slots =~= before);
                    TimelineEffect::Nothing
                }
            },
            TimelineClipMessage::SelectedClip(title) => {
                slot.selected = Some(title);
                self.clips.insert(index, slot);
                assert(self@.slots =~= before.update(index as int, slot@));
                TimelineEffect::Nothing
            },
            TimelineClipMessage::ValidateClip => {
                slot.clip = copy_slot(&slot.selected);
                self.clips.insert(index, slot);
                assert(self@.slots =~= before.update(index as int, slot@));
                TimelineEffect::Nothing
            },
            TimelineClipMessage::Play => {
                let effect = match &slot.clip {
                    Some(title) => if clips.contains(title.as_str()) {
                        TimelineEffect::PlayClip(index, title.clone())
                    } else {
                        TimelineEffect::Nothing
                    },
                    None => TimelineEffect::Nothing,
                };
                match &effect {
                    TimelineEffect::PlayClip(_, _) => {
                        slot.playing = true;
                    },
                    _ => {},
                }
                self.clips.insert(index, slot);
                assert(self@.slots =~= before.update(index as int, slot@));
                effect
            },
            TimelineClipMessage::Stop => {
                slot.playing = false;
                self.clips.insert(index, slot);
                assert(self@.slots =~= before.update(index as int, slot@));
                TimelineEffect::StopClip(index)
            },
        }
    }

    /// Handles a message: the timeline changes as the message says, and the
    /// outside work that belongs to it is returned. Only clips that `clips`
    /// holds are played or counted.
    pub fn update(
        &mut self,
        message: TimelineMessage,
        clips: &ClipRegistry,
        clip_duration: u32,
    ) -> (effect: TimelineEffect)
        ensures
            final(self)@ == timeline_after(old(self)@, message, clips@, clip_duration),
            effect_view(effect) == effect_of(old(self)@, message, clips@),
    {
        match message {
            TimelineMessage::AddStart => {
                let ghost before = self@.slots;
                self.clips.push_front(TimelineClip::new());
                assert(self@.slots =~= seq![empty_slot()] + before);
                TimelineEffect::Scroll { position: 0, last: 1 }
            },
            TimelineMessage::AddEnd => {
                let ghost before = self@.slots;
                self.clips.push_back(TimelineClip::new());
                assert(self@.slots =~= before.push(empty_slot()));
                TimelineEffect::Scroll { position: 1, last: 1 }
            },
            TimelineMessage::Play => {
                let titles = self.items(clips);
                self.playing = true;
                TimelineEffect::PlayAll(titles)
            },
            TimelineMessage::Stop => {
                self.playing = false;
                TimelineEffect::StopAll
            },
            TimelineMessage::TimelineClip(index, m) => self.update_slot(index, m, clips),
            TimelineMessage::Save => TimelineEffect::ChooseExportPath,
            TimelineMessage::SaveTo(path) => {
                let items = self.items(clips);
                assert(items@.len() == texts(items@).len());
                self.export = path;
                self.progress_max = estimated_frames(clip_duration, items.len());
                TimelineEffect::Nothing
            },
            TimelineMessage::ExportProgress(p) => match p {
                Progress::Started => TimelineEffect::Nothing,
                Progress::Frame(count) => {
                    self.progress = count;
                    TimelineEffect::Nothing
                },
                Progress::Done => {
                    self.export = None;
                    TimelineEffect::Nothing
                },
                Progress::Error(why) => TimelineEffect::Report(why),
            },
        }
    }
}

/// Mathematical value of a [`TimelineEffect`].
pub enum TimelineEffectView {
    Nothing,
    Scroll { position: usize, last: usize },
    PlayClip(usize, Seq<char>),
    StopClip(usize),
    PlayAll(Seq<Seq<char>>),
    StopAll,
    ChooseExportPath,
    Report(Seq<char>),
}

/// The value of an effect.
pub open spec fn effect_view(effect: TimelineEffect) -> TimelineEffectView {
    match effect {
        TimelineEffect::Nothing => TimelineEffectView::Nothing,
        TimelineEffect::Scroll { position, last } => TimelineEffectView::Scroll { position, last },
        TimelineEffect::PlayClip(index, title) => TimelineEffectView::PlayClip(index, title@),
        TimelineEffect::StopClip(index) => TimelineEffectView::StopClip(index),
        TimelineEffect::PlayAll(titles) => TimelineEffectView::PlayAll(texts(titles@)),
        TimelineEffect::StopAll => TimelineEffectView::StopAll,
        TimelineEffect::ChooseExportPath => TimelineEffectView::ChooseExportPath,
        TimelineEffect::Report(why) => TimelineEffectView::Report(why@),
    }
}

/// The outside work that a message for the slot at `index` asks for.
pub open spec fn slot_effect_view(
    slots: Seq<TimelineClipView>,
    index: usize,
    message: TimelineClipMessage,
    clips: Seq<ClipView>,
) -> TimelineEffectView {
    if index >= slots.len() {
        TimelineEffectView::Nothing
    } else {
        match message {
            TimelineClipMessage::Action(TimelineAction::Up) => if index > 0 {
                TimelineEffectView::Scroll {
                    position: (index - 1) as usize,
                    last: (slots.len() - 1) as usize,
                }
            } else {
                TimelineEffectView::Nothing
            },
            TimelineClipMessage::Action(TimelineAction::Down) => if index + 1 < slots.len() {
                TimelineEffectView::Scroll {
                    position: (index + 1) as usize,
                    last: (slots.len() - 1) as usize,
                }
            } else {
                TimelineEffectView::Nothing
            },
            TimelineClipMessage::Play => match kept(slots[index as int].clip, clips) {
                Some(title) => TimelineEffectView::PlayClip(index, title),
                None => TimelineEffectView::Nothing,
            },
            TimelineClipMessage::Stop => TimelineEffectView::StopClip(index),
            _ => TimelineEffectView::Nothing,
        }
    }
}

/// The outside work that a message asks for.
pub open spec fn effect_of(
    timeline: TimelineView,
    message: TimelineMessage,
    clips: Seq<ClipView>,
) -> TimelineEffectView {
    match message {
        TimelineMessage::AddStart => TimelineEffectView::Scroll { position: 0, last: 1 },
        TimelineMessage::AddEnd => TimelineEffectView::Scroll { position: 1, last: 1 },
        TimelineMessage::Play => TimelineEffectView::PlayAll(bound_titles(timeline.slots, clips)),
        TimelineMessage::Stop => TimelineEffectView::StopAll,
        TimelineMessage::TimelineClip(index, m) => slot_effect_view(
            timeline.slots,
            index,
            m,
            clips,
        ),
        TimelineMessage::Save => TimelineEffectView::ChooseExportPath,
        TimelineMessage::SaveTo(_) => TimelineEffectView::Nothing,
        TimelineMessage::ExportProgress(p) => match p {
            Progress::Error(why) => TimelineEffectView::Report(why@),
            _ => TimelineEffectView::Nothing,
        },
    }
}

} // verus!
