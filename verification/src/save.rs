//! The project document: the clips, the slots of the timeline and the
//! settings, as one JSON text.
//!
//! A document is written in one form, compact and with the fields in the
//! order below. It is read from any JSON text that has these fields, in any
//! order and with others between them: a clip without `offset` starts at
//! zero, settings without `countdown` have none.

use vstd::prelude::*;
use crate::clip::Offset;
use crate::json::{
    json_document, json_nodes, json_quoted, node_at, parse_document, quote, Node, NodeView,
};
use crate::text::{decimal, push_decimal};

verus! {

/// Why a project document could not be read or written.
#[derive(Clone, Debug, PartialEq, Eq)]
pub enum Error {
    /// The text is not a project document, or a value cannot be serialised;
    /// the text says what is wrong.
    Serde(String),
    /// Reading or writing the file failed; the text says how.
    Io(String),
}

impl Error {
    /// The sentence shown for this error.
    pub fn message(&self) -> (text: String)
        ensures
            self is Serde ==> text@ == "could not read the save file"@,
            self is Io ==> text@ == "an I/O error occured"@,
    {
        match self {
            Error::Serde(_) => String::from_str("could not read the save file"),
            Error::Io(_) => String::from_str("an I/O error occured"),
        }
    }
}

/// A clip as the document holds it.
#[derive(Clone, Debug, PartialEq, Eq)]
pub struct ClipSave {
    pub title: String,
    pub image_path: String,
    pub music_path: String,
    pub offset: Offset,
}

/// The settings of a project.
#[derive(Clone, Debug, PartialEq, Eq)]
pub struct Settings {
    /// Seconds given to each clip, countdown included.
    pub duration: u32,
    /// Path of the countdown, once one is chosen.
    pub countdown: Option<String>,
}

/// A whole project.
#[derive(Clone, Debug, PartialEq, Eq)]
pub struct SaveFile {
    pub clips: Vec<ClipSave>,
    /// The slots of the timeline, each empty or with the title of a clip.
    pub timeline: Vec<Option<String>>,
    pub settings: Settings,
}

/// Mathematical value of a [`ClipSave`].
pub struct ClipSaveView {
    pub title: Seq<char>,
    pub image_path: Seq<char>,
    pub music_path: Seq<char>,
    pub offset: Offset,
}

/// Mathematical value of a [`Settings`].
pub struct SettingsView {
    pub duration: u32,
    pub countdown: Option<Seq<char>>,
}

/// Mathematical value of a [`SaveFile`].
pub struct SaveFileView {
    pub clips: Seq<ClipSaveView>,
    pub timeline: Seq<Option<Seq<char>>>,
    pub settings: SettingsView,
}

/// The text of a string that may be absent.
pub open spec fn slot_view(slot: Option<String>) -> Option<Seq<char>> {
    match slot {
        Some(title) => Some(title@),
        None => None,
    }
}

/// The values of a sequence of slots.
pub open spec fn slot_views(slots: Seq<Option<String>>) -> Seq<Option<Seq<char>>> {
    slots.map_values(|slot: Option<String>| slot_view(slot))
}

/// The values of a sequence of saved clips.
pub open spec fn clip_save_views(clips: Seq<ClipSave>) -> Seq<ClipSaveView> {
    clips.map_values(|clip: ClipSave| clip@)
}

impl View for ClipSave {
    type V = ClipSaveView;

    open spec fn view(&self) -> ClipSaveView {
        ClipSaveView {
            title: self.title@,
            image_path: self.image_path@,
            music_path: self.music_path@,
            offset: self.offset,
        }
    }
}

impl View for Settings {
    type V = SettingsView;

    open spec fn view(&self) -> SettingsView {
        SettingsView { duration: self.duration, countdown: slot_view(self.countdown) }
    }
}

impl View for SaveFile {
    type V = SaveFileView;

    open spec fn view(&self) -> SaveFileView {
        SaveFileView {
            clips: clip_save_views(self.clips@),
            timeline: slot_views(self.timeline@),
            settings: self.settings@,
        }
    }
}

/// A copy of a text that may be absent.
pub fn copy_slot(slot: &Option<String>) -> (copy: Option<String>)
    ensures
        slot_view(copy) == slot_view(*slot),
{
    match slot {
        Some(text) => Some(text.clone()),
        None => None,
    }
}

/// A copy of a row of slots.
pub fn copy_slots(slots: &Vec<Option<String>>) -> (copy: Vec<Option<String>>)
    ensures
        slot_views(copy@) == slot_views(slots@),
{
    let mut copy: Vec<Option<String>> = Vec::new();
    let mut i: usize = 0;
    while i < slots.len()
        invariant
            i <= slots.len(),
            copy@.len() == i,
            forall|k: int| 0 <= k < i ==> slot_view(#[trigger] copy@[k]) == slot_view(slots@[k]),
        decreases slots.len() - i,
    {
        copy.push(copy_slot(&slots[i]));
        i += 1;
    }
    assert(slot_views(copy@) =~= slot_views(slots@));
    copy
}

/// Whether a text that may be absent has a JSON string literal.
pub open spec fn slot_quotable(slot: Option<Seq<char>>) -> bool {
    slot is Some ==> json_quoted(slot->0) is Some
}

/// Whether each text of a clip has a JSON string literal.
pub open spec fn clip_quotable(clip: ClipSaveView) -> bool {
    &&& json_quoted(clip.title) is Some
    &&& json_quoted(clip.image_path) is Some
    &&& json_quoted(clip.music_path) is Some
}

/// Whether each text of a project has a JSON string literal.
pub open spec fn quotable(save: SaveFileView) -> bool {
    &&& forall|i: int| 0 <= i < save.clips.len() ==> clip_quotable(#[trigger] save.clips[i])
    &&& forall|i: int| 0 <= i < save.timeline.len() ==> slot_quotable(#[trigger] save.timeline[i])
    &&& slot_quotable(save.settings.countdown)
}

/// The document text of a slot or of a countdown: `null`, or the literal.
pub open spec fn slot_text(slot: Option<Seq<char>>) -> Seq<char> {
    match slot {
        Some(text) => json_quoted(text)->0,
        None => "null"@,
    }
}

/// The document text of a clip.
pub open spec fn clip_text(clip: ClipSaveView) -> Seq<char> {
    "{\"title\":"@ + json_quoted(clip.title)->0 + ",\"image_path\":"@ + json_quoted(
        clip.image_path,
    )->0 + ",\"music_path\":"@ + json_quoted(clip.music_path)->0 + ",\"offset\":{\"secs\":"@
        + decimal(clip.offset.secs as nat) + ",\"nanos\":"@ + decimal(clip.offset.nanos as nat)
        + "}}"@
}

/// The texts of `parts`, with a comma between each two.
pub open spec fn joined(parts: Seq<Seq<char>>) -> Seq<char>
    decreases parts.len(),
{
    if parts.len() == 0 {
        Seq::empty()
    } else if parts.len() == 1 {
        parts[0]
    } else {
        joined(parts.drop_last()) + ","@ + parts.last()
    }
}

/// The document text of the settings.
pub open spec fn settings_text(settings: SettingsView) -> Seq<char> {
    "{\"duration\":"@ + decimal(settings.duration as nat) + ",\"countdown\":"@ + slot_text(
        settings.countdown,
    ) + "}"@
}

/// The document text of a project.
pub open spec fn document_text(save: SaveFileView) -> Seq<char> {
    "{\"clips\":["@ + joined(save.clips.map_values(|clip: ClipSaveView| clip_text(clip)))
        + "],\"timeline\":["@ + joined(
        save.timeline.map_values(|slot: Option<Seq<char>>| slot_text(slot)),
    ) + "],\"settings\":"@ + settings_text(save.settings) + "}"@
}

/// Appends the JSON string literal of `text` to `out`; says whether there
/// is one, and leaves `out` as it was when there is none.
fn push_quoted(out: &mut String, text: &str) -> (done: bool)
    ensures
        done == json_quoted(text@) is Some,
        done ==> final(out)@ == old(out)@ + json_quoted(text@)->0,
        !done ==> final(out)@ == old(out)@,
{
    match quote(text) {
        Some(literal) => {
            out.append(literal.as_str());
            true
        },
        None => false,
    }
}

/// Appends the document text of a slot to `out`.
fn push_slot(out: &mut String, slot: &Option<String>) -> (done: bool)
    ensures
        done == slot_quotable(slot_view(*slot)),
        done ==> final(out)@ == old(out)@ + slot_text(slot_view(*slot)),
{
    match slot {
        Some(text) => push_quoted(out, text.as_str()),
        None => {
            out.append("null");
            true
        },
    }
}

/// Appends the document text of a clip to `out`.
fn push_clip(out: &mut String, clip: &ClipSave) -> (done: bool)
    ensures
        done == clip_quotable(clip@),
        done ==> final(out)@ == old(out)@ + clip_text(clip@),
{
    out.append("{\"title\":");
    if !push_quoted(out, clip.title.as_str()) {
        return false;
    }
    out.append(",\"image_path\":");
    if !push_quoted(out, clip.image_path.as_str()) {
        return false;
    }
    out.append(",\"music_path\":");
    if !push_quoted(out, clip.music_path.as_str()) {
        return false;
    }
    out.append(",\"offset\":{\"secs\":");
    push_decimal(out, clip.offset.secs as u128);
    out.append(",\"nanos\":");
    push_decimal(out, clip.offset.nanos as u128);
    out.append("}}");
    assert(out@ =~= old(out)@ + clip_text(clip@));
    true
}

impl SaveFile {
    /// The document of the project. It fails, with `Serde`, when a text of
    /// the project has no JSON string literal, and only then.
    pub fn store(&self) -> (r: Result<String, Error>)
        ensures
            r is Ok <==> quotable(self@),
            r is Ok ==> r->Ok_0@ == document_text(self@),
            r is Err ==> r->Err_0 is Serde,
    {
        let ghost clips = self@.clips;
        let ghost clip_texts = clips.map_values(|clip: ClipSaveView| clip_text(clip));
        let ghost slots = self@.timeline;
        let ghost slot_texts = slots.map_values(|slot: Option<Seq<char>>| slot_text(slot));
        let mut out = String::from_str("{\"clips\":[");
        let ghost head = out@;
        let mut i: usize = 0;
        while i < self.clips.len()
            invariant
                i <= self.clips.len(),
                clips == clip_save_views(self.clips@),
                clip_texts == clips.map_values(|clip: ClipSaveView| clip_text(clip)),
                forall|k: int| 0 <= k < i ==> clip_quotable(#[trigger] clips[k]),
                out@ == head + joined(clip_texts.take(i as int)),
            decreases self.clips.len() - i,
        {
            if i > 0 {
                out.append(",");
            }
            assert(clips[i as int] == self.clips@[i as int]@);
            if !push_clip(&mut out, &self.clips[i]) {
                assert(!clip_quotable(self@.clips[i as int]));
                return Err(Error::Serde(String::from_str("a text cannot be written")));
            }
            proof {
                let next = clip_texts.take(i + 1);
                assert(next.drop_last() =~= clip_texts.take(i as int));
                assert(next.last() == clip_text(clips[i as int]));
                if i == 0 {
                    assert(joined(clip_texts.take(0)) =~= Seq::<char>::empty());
                }
                assert(out@ =~= head + joined(next));
            }
            i += 1;
        }
        assert(clip_texts.take(i as int) =~= clip_texts);
        out.append("],\"timeline\":[");
        let ghost middle = out@;
        let mut j: usize = 0;
        while j < self.timeline.len()
            invariant
                j <= self.timeline.len(),
                slots == slot_views(self.timeline@),
                slot_texts == slots.map_values(|slot: Option<Seq<char>>| slot_text(slot)),
                forall|k: int| 0 <= k < j ==> slot_quotable(#[trigger] slots[k]),
                out@ == middle + joined(slot_texts.take(j as int)),
            decreases self.timeline.len() - j,
        {
            if j > 0 {
                out.append(",");
            }
            assert(slots[j as int] == slot_view(self.timeline@[j as int]));
            if !push_slot(&mut out, &self.timeline[j]) {
                assert(!slot_quotable(self@.timeline[j as int]));
                return Err(Error::Serde(String::from_str("a text cannot be written")));
            }
            proof {
                let next = slot_texts.take(j + 1);
                assert(next.drop_last() =~= slot_texts.take(j as int));
                assert(next.last() == slot_text(slots[j as int]));
                if j == 0 {
                    assert(joined(slot_texts.take(0)) =~= Seq::<char>::empty());
                }
                assert(out@ =~= middle + joined(next));
            }
            j += 1;
        }
        assert(slot_texts.take(j as int) =~= slot_texts);
        out.append("],\"settings\":{\"duration\":");
        push_decimal(&mut out, self.settings.duration as u128);
        out.append(",\"countdown\":");
        if !push_slot(&mut out, &self.settings.countdown) {
            return Err(Error::Serde(String::from_str("a text cannot be written")));
        }
        out.append("}}");
        proof {
            reveal_strlit("],\"settings\":{\"duration\":");
            reveal_strlit("],\"settings\":");
            reveal_strlit("{\"duration\":");
            reveal_strlit("}}");
            reveal_strlit("}");
            assert("],\"settings\":{\"duration\":"@ =~= "],\"settings\":"@ + "{\"duration\":"@);
            assert("}}"@ =~= "}"@ + "}"@);
            assert(out@ =~= document_text(self@));
        }
        Ok(out)
    }

    /// The document of the project and its length in bytes, as UTF-8.
    pub fn data(&self) -> (r: Result<(usize, String), Error>)
        ensures
            r is Ok <==> quotable(self@),
            r is Ok ==> r->Ok_0.1@ == document_text(self@),
            r is Ok ==> r->Ok_0.0 == vstd::utf8::encode_utf8(document_text(self@)).len() as usize,
            r is Err ==> r->Err_0 is Serde,
    {
        match self.store() {
            Ok(text) => {
                let len = text.as_str().len();
                Ok((len, text))
            },
            Err(e) => Err(e),
        }
    }
}

/// The document of a project. It fails, with `Serde`, when a text of the
/// project has no JSON string literal, and only then.
pub fn store(save: &SaveFile) -> (r: Result<String, Error>)
    ensures
        r is Ok <==> quotable(save@),
        r is Ok ==> r->Ok_0@ == document_text(save@),
        r is Err ==> r->Err_0 is Serde,
{
    save.store()
}

/// The text that stands at a pointer; `None` where nothing stands there or
/// something else does.
pub open spec fn text_at(nodes: Map<Seq<char>, NodeView>, pointer: Seq<char>) -> Option<Seq<char>> {
    if nodes.contains_key(pointer) && nodes[pointer] is Text {
        Some(nodes[pointer]->Text_0)
    } else {
        None
    }
}

/// The whole number from 0 to 2^64 - 1 that stands at a pointer; `None`
/// where nothing stands there or something else does.
pub open spec fn number_at(nodes: Map<Seq<char>, NodeView>, pointer: Seq<char>) -> Option<u64> {
    if nodes.contains_key(pointer) && nodes[pointer] is Number {
        nodes[pointer]->Number_0
    } else {
        None
    }
}

/// The text that may stand at a pointer: none where nothing stands there or
/// `null` does, the text where one does. `None` where something else stands
/// there.
pub open spec fn optional_text_at(nodes: Map<Seq<char>, NodeView>, pointer: Seq<char>) -> Option<
    Option<Seq<char>>,
> {
    if !nodes.contains_key(pointer) || nodes[pointer] is Null {
        Some(None)
    } else if nodes[pointer] is Text {
        Some(Some(nodes[pointer]->Text_0))
    } else {
        None
    }
}

/// The pointer to a field of the clip at position `i`; `field` begins with
/// a slash.
pub open spec fn clip_pointer(i: nat, field: Seq<char>) -> Seq<char> {
    "/clips/"@ + decimal(i) + field
}

/// The pointer to the slot of the timeline at position `i`.
pub open spec fn slot_pointer(i: nat) -> Seq<char> {
    "/timeline/"@ + decimal(i)
}

/// The span that a count of seconds and a count of nanoseconds make, whole
/// seconds among the nanoseconds carried over; `None` where the nanoseconds
/// do not fit in 32 bits or the seconds, after carrying, in 64.
pub open spec fn span_of(secs: u64, nanos: u64) -> Option<Offset> {
    if nanos <= u32::MAX && secs + nanos / 1_000_000_000 <= u64::MAX {
        Some(
            Offset {
                secs: (secs + nanos / 1_000_000_000) as u64,
                nanos: (nanos % 1_000_000_000) as u32,
            },
        )
    } else {
        None
    }
}

/// The offset of the clip at position `i`: zero where the clip has none,
/// else what its `secs` and `nanos` make.
pub open spec fn offset_at(nodes: Map<Seq<char>, NodeView>, i: nat) -> Option<Offset> {
    if !nodes.contains_key(clip_pointer(i, "/offset"@)) {
        Some(Offset { secs: 0, nanos: 0 })
    } else {
        let secs = number_at(nodes, clip_pointer(i, "/offset/secs"@));
        let nanos = number_at(nodes, clip_pointer(i, "/offset/nanos"@));
        if secs is Some && nanos is Some {
            span_of(secs->0, nanos->0)
        } else {
            None
        }
    }
}

/// The clip at position `i` of a document.
pub open spec fn clip_at(nodes: Map<Seq<char>, NodeView>, i: nat) -> Option<ClipSaveView> {
    let title = text_at(nodes, clip_pointer(i, "/title"@));
    let image_path = text_at(nodes, clip_pointer(i, "/image_path"@));
    let music_path = text_at(nodes, clip_pointer(i, "/music_path"@));
    let offset = offset_at(nodes, i);
    if title is Some && image_path is Some && music_path is Some && offset is Some {
        Some(
            ClipSaveView {
                title: title->0,
                image_path: image_path->0,
                music_path: music_path->0,
                offset: offset->0,
            },
        )
    } else {
        None
    }
}

/// The number of elements of the array at a pointer; `None` where nothing
/// stands there or something else does.
pub open spec fn length_at(nodes: Map<Seq<char>, NodeView>, pointer: Seq<char>) -> Option<nat> {
    if nodes.contains_key(pointer) && nodes[pointer] is List {
        Some(nodes[pointer]->List_0)
    } else {
        None
    }
}

/// The settings of a document.
pub open spec fn settings_at(nodes: Map<Seq<char>, NodeView>) -> Option<SettingsView> {
    let duration = number_at(nodes, "/settings/duration"@);
    let countdown = optional_text_at(nodes, "/settings/countdown"@);
    if duration is Some && duration->0 <= u32::MAX && countdown is Some {
        Some(SettingsView { duration: duration->0 as u32, countdown: countdown->0 })
    } else {
        None
    }
}

/// The project that a document with these nodes holds; `None` where a part
/// of a project is missing or is of another kind.
pub open spec fn decoded(nodes: Map<Seq<char>, NodeView>) -> Option<SaveFileView> {
    let clips = length_at(nodes, "/clips"@);
    let slots = length_at(nodes, "/timeline"@);
    let settings = settings_at(nodes);
    if clips is Some && slots is Some && settings is Some && (forall|i: nat|
        i < clips->0 ==> (#[trigger] clip_at(nodes, i)) is Some) && (forall|i: nat|
        i < slots->0 ==> (#[trigger] optional_text_at(nodes, slot_pointer(i))) is Some) {
        Some(
            SaveFileView {
                clips: Seq::new(clips->0, |i: int| clip_at(nodes, i as nat)->0),
                timeline: Seq::new(
                    slots->0,
                    |i: int| optional_text_at(nodes, slot_pointer(i as nat))->0,
                ),
                settings: settings->0,
            },
        )
    } else {
        None
    }
}

/// The text at a pointer of a document.
fn read_text(document: &serde_json::Value, pointer: &str) -> (text: Option<String>)
    ensures
        slot_view(text) == text_at(json_nodes(*document), pointer@),
{
    match node_at(document, pointer) {
        Some(Node::Text(text)) => Some(text),
        _ => None,
    }
}

/// The number at a pointer of a document.
fn read_number(document: &serde_json::Value, pointer: &str) -> (number: Option<u64>)
    ensures
        number == number_at(json_nodes(*document), pointer@),
{
    match node_at(document, pointer) {
        Some(Node::Number(number)) => number,
        _ => None,
    }
}

/// The length of the array at a pointer of a document.
fn read_length(document: &serde_json::Value, pointer: &str) -> (len: Option<usize>)
    ensures
        len is Some <==> length_at(json_nodes(*document), pointer@) is Some,
        len is Some ==> len->0 == length_at(json_nodes(*document), pointer@)->0,
{
    match node_at(document, pointer) {
        Some(Node::List(len)) => Some(len),
        _ => None,
    }
}

/// The text that may stand at a pointer of a document.
fn read_optional_text(document: &serde_json::Value, pointer: &str) -> (text: Option<Option<String>>)
    ensures
        text is Some <==> optional_text_at(json_nodes(*document), pointer@) is Some,
        text is Some ==> slot_view(text->0) == optional_text_at(json_nodes(*document), pointer@)->0,
{
    match node_at(document, pointer) {
        None => Some(None),
        Some(Node::Null) => Some(None),
        Some(Node::Text(text)) => Some(Some(text)),
        _ => None,
    }
}

/// The pointer to a field of the clip at position `i`.
fn pointer_to_clip(i: usize, field: &str) -> (pointer: String)
    ensures
        pointer@ == clip_pointer(i as nat, field@),
{
    let mut pointer = String::from_str("/clips/");
    push_decimal(&mut pointer, i as u128);
    pointer.append(field);
    pointer
}

/// The span that a count of seconds and a count of nanoseconds make.
fn span(secs: u64, nanos: u64) -> (offset: Option<Offset>)
    ensures
        offset == span_of(secs, nanos),
{
    if nanos > u32::MAX as u64 {
        return None;
    }
    let carried: u64 = nanos / 1_000_000_000;
    if secs > u64::MAX - carried {
        return None;
    }
    Some(Offset { secs: secs + carried, nanos: (nanos % 1_000_000_000) as u32 })
}

/// The offset of the clip at position `i` of a document.
fn read_offset(document: &serde_json::Value, i: usize) -> (offset: Option<Offset>)
    ensures
        offset == offset_at(json_nodes(*document), i as nat),
{
    match node_at(document, pointer_to_clip(i, "/offset").as_str()) {
        None => Some(Offset { secs: 0, nanos: 0 }),
        Some(_) => {
            let secs = read_number(document, pointer_to_clip(i, "/offset/secs").as_str());
            let nanos = read_number(document, pointer_to_clip(i, "/offset/nanos").as_str());
            match (secs, nanos) {
                (Some(secs), Some(nanos)) => span(secs, nanos),
                _ => None,
            }
        },
    }
}

/// The clip at position `i` of a document.
fn read_clip(document: &serde_json::Value, i: usize) -> (clip: Option<ClipSave>)
    ensures
        clip is Some <==> clip_at(json_nodes(*document), i as nat) is Some,
        clip is Some ==> clip->0@ == clip_at(json_nodes(*document), i as nat)->0,
{
    let title = read_text(document, pointer_to_clip(i, "/title").as_str());
    let image_path = read_text(document, pointer_to_clip(i, "/image_path").as_str());
    let music_path = read_text(document, pointer_to_clip(i, "/music_path").as_str());
    let offset = read_offset(document, i);
    match (title, image_path, music_path, offset) {
        (Some(title), Some(image_path), Some(music_path), Some(offset)) => Some(
            ClipSave { title, image_path, music_path, offset },
        ),
        _ => None,
    }
}

/// The settings of a document.
fn read_settings(document: &serde_json::Value) -> (settings: Option<Settings>)
    ensures
        settings is Some <==> settings_at(json_nodes(*document)) is Some,
        settings is Some ==> settings->0@ == settings_at(json_nodes(*document))->0,
{
    let duration = read_number(document, "/settings/duration");
    let countdown = read_optional_text(document, "/settings/countdown");
    match (duration, countdown) {
        (Some(duration), Some(countdown)) => if duration <= u32::MAX as u64 {
            Some(Settings { duration: duration as u32, countdown })
        } else {
            None
        },
        _ => None,
    }
}

/// The error for a JSON text that holds no project.
fn not_a_project() -> (e: Error)
    ensures
        e is Serde,
        e->Serde_0@ == "the document does not hold a project"@,
{
    Error::Serde(String::from_str("the document does not hold a project"))
}

impl SaveFile {
    /// The project that a parsed document holds. It fails, with `Serde`,
    /// when a part of a project is missing or is of another kind, and only
    /// then.
    #[verifier::loop_isolation(false)]
    pub fn from_json(document: &serde_json::Value) -> (r: Result<SaveFile, Error>)
        ensures
            r is Ok <==> decoded(json_nodes(*document)) is Some,
            r is Ok ==> r->Ok_0@ == decoded(json_nodes(*document))->0,
            r is Err ==> r->Err_0 is Serde,
    {
        let ghost nodes = json_nodes(*document);
        let settings = match read_settings(document) {
            Some(settings) => settings,
            None => {
                return Err(not_a_project());
            },
        };
        let clip_count = match read_length(document, "/clips") {
            Some(len) => len,
            None => {
                return Err(not_a_project());
            },
        };
        let slot_count = match read_length(document, "/timeline") {
            Some(len) => len,
            None => {
                return Err(not_a_project());
            },
        };
        let mut clips: Vec<ClipSave> = Vec::new();
        let mut i: usize = 0;
        while i < clip_count
            invariant
                i <= clip_count,
                nodes == json_nodes(*document),
                clips@.len() == i,
                forall|k: nat| k < i ==> (#[trigger] clip_at(nodes, k)) is Some,
                forall|k: int|
                    0 <= k < i ==> (#[trigger] clips@[k])@ == clip_at(nodes, k as nat)->0,
            decreases clip_count - i,
        {
            match read_clip(document, i) {
                Some(clip) => clips.push(clip),
                None => {
                    assert(clip_at(nodes, i as nat) is None);
                    return Err(not_a_project());
                },
            }
            i += 1;
        }
        let mut timeline: Vec<Option<String>> = Vec::new();
        let mut j: usize = 0;
        while j < slot_count
            invariant
                j <= slot_count,
                nodes == json_nodes(*document),
                timeline@.len() == j,
                forall|k: nat|
                    k < j ==> (#[trigger] optional_text_at(nodes, slot_pointer(k))) is Some,
                forall|k: int|
                    0 <= k < j ==> slot_view(#[trigger] timeline@[k]) == optional_text_at(
                        nodes,
                        slot_pointer(k as nat),
                    )->0,
            decreases slot_count - j,
        {
            let mut pointer = String::from_str("/timeline/");
            push_decimal(&mut pointer, j as u128);
            match read_optional_text(document, pointer.as_str()) {
                Some(slot) => timeline.push(slot),
                None => {
                    assert(optional_text_at(nodes, slot_pointer(j as nat)) is None);
                    return Err(not_a_project());
                },
            }
            j += 1;
        }
        let save = SaveFile { clips, timeline, settings };
        proof {
            let wanted = decoded(nodes)->0;
            assert(save@.clips =~= wanted.clips);
            assert(save@.timeline =~= wanted.timeline);
        }
        Ok(save)
    }

    /// The project that a document holds. It fails, with `Serde`, when the
    /// text is not one JSON document or the document holds no project, and
    /// only then.
    pub fn load(text: &str) -> (r: Result<SaveFile, Error>)
        ensures
            r is Ok <==> json_document(text@) is Some && decoded(json_document(text@)->0) is Some,
            r is Ok ==> r->Ok_0@ == decoded(json_document(text@)->0)->0,
            r is Err ==> r->Err_0 is Serde,
    {
        match parse_document(text) {
            Ok(document) => SaveFile::from_json(&document),
            Err(why) => Err(Error::Serde(why)),
        }
    }
}

/// The project that a document holds. It fails, with `Serde`, when the text
/// is not one JSON document or the document holds no project, and only then.
pub fn load(text: &str) -> (r: Result<SaveFile, Error>)
    ensures
        r is Ok <==> json_document(text@) is Some && decoded(json_document(text@)->0) is Some,
        r is Ok ==> r->Ok_0@ == decoded(json_document(text@)->0)->0,
        r is Err ==> r->Err_0 is Serde,
{
    SaveFile::load(text)
}

} // verus!
