//! Packing a project for an archive and unpacking it again. An archive holds
//! the media files of a project, each under a name made of the title of its
//! clip, and the project document with the paths rewritten to those names.
//! Unpacked into a folder, the document gets the paths of the files there.
//!
//! Only the names and the documents are decided here; reading and writing
//! the archive is the caller's part.

use vstd::prelude::*;
use crate::save::{
    clip_save_views, copy_slots, document_text, quotable, slot_view, ClipSave, ClipSaveView,
    SaveFile, SaveFileView, Settings, SettingsView,
};

verus! {

/// The final component of a path, by the rules of the platform the library
/// is built for; `None` for a path that has none.
pub uninterp spec fn path_file_name(path: Seq<char>) -> Option<Seq<char>>;

/// A path with another adjoined, by the rules of the platform the library
/// is built for.
pub uninterp spec fn path_join(base: Seq<char>, part: Seq<char>) -> Seq<char>;

/// `std::path::Path::file_name`, as text. The contract names the outcome:
/// it depends on the path alone.
#[verifier::external_body]
fn file_name(path: &str) -> (name: Option<String>)
    ensures
        slot_view(name) == path_file_name(path@),
{
    std::path::Path::new(path).file_name().map(|name| name.to_string_lossy().into_owned())
}

/// `std::path::Path::join`, as text. The contract names the outcome: it
/// depends on the two paths alone.
#[verifier::external_body]
fn join(base: &str, part: &str) -> (path: String)
    ensures
        path@ == path_join(base@, part@),
{
    std::path::Path::new(base).join(part).to_string_lossy().into_owned()
}

/// Why a project cannot be packed.
#[derive(Clone, Copy, Debug, PartialEq, Eq, Structural)]
pub enum ArchiveError {
    /// The music path of a clip names no file.
    MusicNotAFile,
    /// The image path of a clip names no file.
    ImageNotAFile,
    /// The path of the countdown names no file.
    CountdownNotAFile,
    /// The project, with its paths rewritten, has no document.
    Unwritable,
}

impl ArchiveError {
    /// The sentence shown for this error.
    pub fn message(&self) -> (text: String)
        ensures
            text@ == error_text(*self),
    {
        match self {
            ArchiveError::MusicNotAFile => String::from_str("music is not a file"),
            ArchiveError::ImageNotAFile => String::from_str("image is not a file"),
            ArchiveError::CountdownNotAFile => String::from_str("countdown is not a file"),
            ArchiveError::Unwritable => String::from_str("could not generate edited save"),
        }
    }
}

/// The sentence shown for an error.
pub open spec fn error_text(e: ArchiveError) -> Seq<char> {
    match e {
        ArchiveError::MusicNotAFile => "music is not a file"@,
        ArchiveError::ImageNotAFile => "image is not a file"@,
        ArchiveError::CountdownNotAFile => "countdown is not a file"@,
        ArchiveError::Unwritable => "could not generate edited save"@,
    }
}

/// One file of an archive: where it is read from, and its name in the
/// archive.
#[derive(Clone, Debug, PartialEq, Eq)]
pub struct ArchiveEntry {
    pub source: String,
    pub name: String,
}

/// Mathematical value of an [`ArchiveEntry`].
pub struct ArchiveEntryView {
    pub source: Seq<char>,
    pub name: Seq<char>,
}

impl View for ArchiveEntry {
    type V = ArchiveEntryView;

    open spec fn view(&self) -> ArchiveEntryView {
        ArchiveEntryView { source: self.source@, name: self.name@ }
    }
}

/// The values of a sequence of entries.
pub open spec fn entry_views(entries: Seq<ArchiveEntry>) -> Seq<ArchiveEntryView> {
    entries.map_values(|e: ArchiveEntry| e@)
}

/// All that goes into an archive: the media files, in the order of the
/// clips, music before image, and the countdown last; then the document,
/// which is stored under the name `save.bt`.
#[derive(Clone, Debug, PartialEq, Eq)]
pub struct ArchivePlan {
    pub entries: Vec<ArchiveEntry>,
    /// The project with its paths rewritten to the names in the archive.
    pub save: SaveFile,
    /// The document of `save`.
    pub document: String,
}

/// Name under which the document is stored in an archive.
pub fn document_name() -> (name: &'static str)
    ensures
        name@ == "save.bt"@,
{
    "save.bt"
}

/// Name of a media file in the archive: the final component of `path`, in
/// the folder `kind` of the folder `title`.
pub open spec fn archived_name(title: Seq<char>, kind: Seq<char>, path: Seq<char>) -> Seq<char> {
    path_join(path_join(title, kind), path_file_name(path)->0)
}

/// Why a clip cannot be packed, if it cannot.
pub open spec fn clip_failure(clip: ClipSaveView) -> Option<ArchiveError> {
    if path_file_name(clip.music_path) is None {
        Some(ArchiveError::MusicNotAFile)
    } else if path_file_name(clip.image_path) is None {
        Some(ArchiveError::ImageNotAFile)
    } else {
        None
    }
}

/// Why the first clip that cannot be packed cannot, if there is one.
pub open spec fn clips_failure(clips: Seq<ClipSaveView>) -> Option<ArchiveError>
    decreases clips.len(),
{
    if clips.len() == 0 {
        None
    } else {
        match clips_failure(clips.drop_last()) {
            Some(e) => Some(e),
            None => clip_failure(clips.last()),
        }
    }
}

/// A clip with its paths rewritten to the names in the archive.
pub open spec fn archived_clip(clip: ClipSaveView) -> ClipSaveView {
    ClipSaveView {
        music_path: archived_name(clip.title, "music"@, clip.music_path),
        image_path: archived_name(clip.title, "image"@, clip.image_path),
        ..clip
    }
}

/// The name of the countdown in the archive.
pub open spec fn archived_countdown(countdown: Option<Seq<char>>) -> Option<Seq<char>> {
    match countdown {
        Some(path) => Some(path_join("countdown"@, path_file_name(path)->0)),
        None => None,
    }
}

/// A project with its paths rewritten to the names in the archive.
pub open spec fn archived(save: SaveFileView) -> SaveFileView {
    SaveFileView {
        clips: save.clips.map_values(|clip: ClipSaveView| archived_clip(clip)),
        timeline: save.timeline,
        settings: SettingsView {
            duration: save.settings.duration,
            countdown: archived_countdown(save.settings.countdown),
        },
    }
}

/// The media files of the clips: for each clip its music, then its image.
pub open spec fn clip_entries(clips: Seq<ClipSaveView>) -> Seq<ArchiveEntryView>
    decreases clips.len(),
{
    if clips.len() == 0 {
        Seq::empty()
    } else {
        let clip = clips.last();
        clip_entries(clips.drop_last()).push(
            ArchiveEntryView {
                source: clip.music_path,
                name: archived_name(clip.title, "music"@, clip.music_path),
            },
        ).push(
            ArchiveEntryView {
                source: clip.image_path,
                name: archived_name(clip.title, "image"@, clip.image_path),
            },
        )
    }
}

/// The media files of a project.
pub open spec fn entries_of(save: SaveFileView) -> Seq<ArchiveEntryView> {
    match save.settings.countdown {
        Some(path) => clip_entries(save.clips).push(
            ArchiveEntryView { source: path, name: archived_countdown(Some(path))->0 },
        ),
        None => clip_entries(save.clips),
    }
}

/// Why a project cannot be packed, if it cannot: the first clip without a
/// file name, else the countdown, else the document.
pub open spec fn archive_failure(save: SaveFileView) -> Option<ArchiveError> {
    match clips_failure(save.clips) {
        Some(e) => Some(e),
        None => if save.settings.countdown is Some && path_file_name(save.settings.countdown->0)
            is None {
            Some(ArchiveError::CountdownNotAFile)
        } else if !quotable(archived(save)) {
            Some(ArchiveError::Unwritable)
        } else {
            None
        },
    }
}

/// A clip with its paths adjoined to the folder `base`.
pub open spec fn restored_clip(clip: ClipSaveView, base: Seq<char>) -> ClipSaveView {
    ClipSaveView {
        music_path: path_join(base, clip.music_path),
        image_path: path_join(base, clip.image_path),
        ..clip
    }
}

/// A project with its paths adjoined to the folder `base`.
pub open spec fn restored(save: SaveFileView, base: Seq<char>) -> SaveFileView {
    SaveFileView {
        clips: save.clips.map_values(|clip: ClipSaveView| restored_clip(clip, base)),
        timeline: save.timeline,
        settings: SettingsView {
            duration: save.settings.duration,
            countdown: match save.settings.countdown {
                Some(path) => Some(path_join(base, path)),
                None => None,
            },
        },
    }
}

/// Name of a media file in the archive, given the final component of its
/// path.
fn name_in_archive(title: &str, kind: &str, file: &str) -> (name: String)
    ensures
        name@ == path_join(path_join(title@, kind@), file@),
{
    let folder = join(title, kind);
    join(folder.as_str(), file)
}

/// Plans the archive of a project. It fails when a media path has no final
/// component or the rewritten project has no document, with the error of
/// the first of these that is met, and only then.
pub fn archive_save(save: &SaveFile) -> (r: Result<ArchivePlan, ArchiveError>)
    ensures
        r is Ok <==> archive_failure(save@) is None,
        r is Err ==> Some(r->Err_0) == archive_failure(save@),
        r is Ok ==> r->Ok_0.save@ == archived(save@),
        r is Ok ==> entry_views(r->Ok_0.entries@) == entries_of(save@),
        r is Ok ==> r->Ok_0.document@ == document_text(archived(save@)),
{
    let ghost clips = save@.clips;
    let ghost wanted = clips.map_values(|clip: ClipSaveView| archived_clip(clip));
    let mut entries: Vec<ArchiveEntry> = Vec::new();
    let mut rewritten: Vec<ClipSave> = Vec::new();
    let mut i: usize = 0;
    assert(entry_views(entries@) =~= clip_entries(clips.take(0)));
    assert(clip_save_views(rewritten@) =~= wanted.take(0));
    while i < save.clips.len()
        invariant
            i <= save.clips.len(),
            clips == clip_save_views(save.clips@),
            wanted == clips.map_values(|clip: ClipSaveView| archived_clip(clip)),
            clips_failure(clips.take(i as int)) is None,
            entry_views(entries@) == clip_entries(clips.take(i as int)),
            clip_save_views(rewritten@) == wanted.take(i as int),
        decreases save.clips.len() - i,
    {
        let clip = &save.clips[i];
        let ghost next = clips.take(i + 1);
        proof {
            assert(next.drop_last() =~= clips.take(i as int));
            assert(next.last() == clip@);
        }
        let music = match file_name(clip.music_path.as_str()) {
            Some(name) => name,
            None => {
                proof {
                    lemma_failure_stays(clips, i + 1);
                }
                return Err(ArchiveError::MusicNotAFile);
            },
        };
        let image = match file_name(clip.image_path.as_str()) {
            Some(name) => name,
            None => {
                proof {
                    lemma_failure_stays(clips, i + 1);
                }
                return Err(ArchiveError::ImageNotAFile);
            },
        };
        let new_music = name_in_archive(clip.title.as_str(), "music", music.as_str());
        let new_image = name_in_archive(clip.title.as_str(), "image", image.as_str());
        let ghost entries_before = entry_views(entries@);
        let ghost rewritten_before = clip_save_views(rewritten@);
        let music_entry = ArchiveEntry { source: clip.music_path.clone(), name: new_music.clone() };
        let image_entry = ArchiveEntry { source: clip.image_path.clone(), name: new_image.clone() };
        let packed = ClipSave {
            title: clip.title.clone(),
            image_path: new_image,
            music_path: new_music,
            offset: clip.offset,
        };
        entries.push(music_entry);
        entries.push(image_entry);
        rewritten.push(packed);
        proof {
            assert(entry_views(entries@) =~= entries_before.push(music_entry@).push(image_entry@));
            assert(clip_save_views(rewritten@) =~= rewritten_before.push(packed@));
            assert(packed@ == archived_clip(clip@));
            assert(clip_save_views(rewritten@) =~= wanted.take(i + 1));
        }
        i += 1;
    }
    proof {
        assert(clips.take(i as int) =~= clips);
        assert(wanted.take(i as int) =~= wanted);
    }
    let countdown = match &save.settings.countdown {
        Some(path) => {
            let name = match file_name(path.as_str()) {
                Some(name) => name,
                None => {
                    return Err(ArchiveError::CountdownNotAFile);
                },
            };
            let packed = join("countdown", name.as_str());
            let ghost before = entry_views(entries@);
            let entry = ArchiveEntry { source: path.clone(), name: packed.clone() };
            entries.push(entry);
            assert(entry_views(entries@) =~= before.push(entry@));
            Some(packed)
        },
        None => None,
    };
    let packed = SaveFile {
        clips: rewritten,
        timeline: copy_slots(&save.timeline),
        settings: Settings { duration: save.settings.duration, countdown },
    };
    assert(packed@ == archived(save@));
    match packed.store() {
        Ok(document) => Ok(ArchivePlan { entries, save: packed, document }),
        Err(_) => Err(ArchiveError::Unwritable),
    }
}

/// A failure among the first clips is the failure of the whole row.
proof fn lemma_failure_stays(clips: Seq<ClipSaveView>, k: int)
    requires
        0 <= k <= clips.len(),
        clips_failure(clips.take(k)) is Some,
    ensures
        clips_failure(clips) == clips_failure(clips.take(k)),
    decreases clips.len() - k,
{
    if k < clips.len() {
        let longer = clips.take(k + 1);
        assert(longer.drop_last() =~= clips.take(k));
        lemma_failure_stays(clips, k + 1);
    } else {
        assert(clips.take(k) =~= clips);
    }
}

/// The project of an archive that was unpacked into the folder `base`: each
/// path of the document is adjoined to `base`.
pub fn load_archive(save: &SaveFile, base: &str) -> (unpacked: SaveFile)
    ensures
        unpacked@ == restored(save@, base@),
{
    let ghost clips = save@.clips;
    let ghost wanted = clips.map_values(|clip: ClipSaveView| restored_clip(clip, base@));
    let mut moved: Vec<ClipSave> = Vec::new();
    let mut i: usize = 0;
    assert(clip_save_views(moved@) =~= wanted.take(0));
    while i < save.clips.len()
        invariant
            i <= save.clips.len(),
            clips == clip_save_views(save.clips@),
            wanted == clips.map_values(|clip: ClipSaveView| restored_clip(clip, base@)),
            clip_save_views(moved@) == wanted.take(i as int),
        decreases save.clips.len() - i,
    {
        let clip = &save.clips[i];
        let ghost before = clip_save_views(moved@);
        let placed = ClipSave {
            title: clip.title.clone(),
            image_path: join(base, clip.image_path.as_str()),
            music_path: join(base, clip.music_path.as_str()),
            offset: clip.offset,
        };
        moved.push(placed);
        proof {
            assert(clips[i as int] == clip@);
            assert(clip_save_views(moved@) =~= before.push(placed@));
            assert(clip_save_views(moved@) =~= wanted.take(i + 1));
        }
        i += 1;
    }
    assert(wanted.take(i as int) =~= wanted);
    let countdown = match &save.settings.countdown {
        Some(path) => Some(join(base, path.as_str())),
        None => None,
    };
    SaveFile {
        clips: moved,
        timeline: copy_slots(&save.timeline),
        settings: Settings { duration: save.settings.duration, countdown },
    }
}

/// Packing a project and unpacking it again, into whatever folder, keeps
/// the clips in their order with their titles and offsets, the slots of the
/// timeline, the time given to each clip, and whether there is a countdown.
pub proof fn lemma_round_trip_keeps_project(save: SaveFileView, base: Seq<char>)
    ensures
        ({
            let back = restored(archived(save), base);
            &&& back.clips.len() == save.clips.len()
            &&& forall|i: int|
                0 <= i < save.clips.len() ==> (#[trigger] back.clips[i]).title
                    == save.clips[i].title && back.clips[i].offset == save.clips[i].offset
            &&& back.timeline == save.timeline
            &&& back.settings.duration == save.settings.duration
            &&& (back.settings.countdown is Some <==> save.settings.countdown is Some)
        }),
{
}

/// Every media file of a project goes into its archive under the name that
/// the rewritten project holds for it: for the clip at position `i`, the
/// entries at `2 i` and `2 i + 1` are its music and its image.
pub proof fn lemma_entries_match_documents(save: SaveFileView, i: int)
    requires
        0 <= i < save.clips.len(),
    ensures
        2 * i + 1 < entries_of(save).len(),
        entries_of(save)[2 * i].source == save.clips[i].music_path,
        entries_of(save)[2 * i].name == archived(save).clips[i].music_path,
        entries_of(save)[2 * i + 1].source == save.clips[i].image_path,
        entries_of(save)[2 * i + 1].name == archived(save).clips[i].image_path,
{
    lemma_clip_entries(save.clips, i);
}

/// A project that was packed and unpacked into the folder `base` points at
/// the files that came out of the archive: the music and the image of the
/// clip at position `i` are the entries at `2 i` and `2 i + 1`, adjoined to
/// `base`.
pub proof fn lemma_unpacked_paths_point_at_entries(save: SaveFileView, base: Seq<char>, i: int)
    requires
        0 <= i < save.clips.len(),
    ensures
        ({
            let back = restored(archived(save), base);
            &&& back.clips[i].music_path == path_join(base, entries_of(save)[2 * i].name)
            &&& back.clips[i].image_path == path_join(base, entries_of(save)[2 * i + 1].name)
            &&& save.settings.countdown is Some ==> back.settings.countdown == Some(
                path_join(base, entries_of(save).last().name),
            )
        }),
{
    lemma_entries_match_documents(save, i);
}

/// The entries of the clip at position `i` stand at `2 i` and `2 i + 1`.
proof fn lemma_clip_entries(clips: Seq<ClipSaveView>, i: int)
    requires
        0 <= i < clips.len(),
    ensures
        clip_entries(clips).len() == 2 * clips.len(),
        clip_entries(clips)[2 * i].source == clips[i].music_path,
        clip_entries(clips)[2 * i].name == archived_clip(clips[i]).music_path,
        clip_entries(clips)[2 * i + 1].source == clips[i].image_path,
        clip_entries(clips)[2 * i + 1].name == archived_clip(clips[i]).image_path,
    decreases clips.len(),
{
    lemma_clip_entries_len(clips.drop_last());
    if i < clips.len() - 1 {
        lemma_clip_entries(clips.drop_last(), i);
    }
}

/// Each clip brings two entries.
proof fn lemma_clip_entries_len(clips: Seq<ClipSaveView>)
    ensures
        clip_entries(clips).len() == 2 * clips.len(),
    decreases clips.len(),
{
    if clips.len() > 0 {
        lemma_clip_entries_len(clips.drop_last());
    }
}

} // verus!
