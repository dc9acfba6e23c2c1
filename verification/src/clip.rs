//! Clips and their registry. A clip is a titled pairing of a music file and
//! an image, with the point of the music at which playback starts. The
//! registry holds at most one clip for a title.

use vstd::prelude::*;

verus! {

/// A span of time in whole seconds and the nanoseconds beyond them.
#[derive(Clone, Copy, Debug, PartialEq, Eq, Structural)]
pub struct Offset {
    pub secs: u64,
    pub nanos: u32,
}

impl Offset {
    /// A span of whole seconds.
    pub fn from_secs(secs: u64) -> (offset: Offset)
        ensures
            offset == (Offset { secs, nanos: 0 }),
    {
        Offset { secs, nanos: 0 }
    }

    /// The whole seconds of the span.
    pub fn as_secs(&self) -> (secs: u64)
        ensures
            secs == self.secs,
    {
        self.secs
    }
}

/// A clip of the library of clips.
#[derive(Clone, Debug, PartialEq, Eq)]
pub struct Clip {
    pub title: String,
    pub music_path: String,
    pub image_path: String,
    /// Point of the music at which playback starts.
    pub offset: Offset,
    /// Length of the whole music file.
    pub duration: Offset,
}

/// Mathematical value of a [`Clip`].
pub struct ClipView {
    pub title: Seq<char>,
    pub music_path: Seq<char>,
    pub image_path: Seq<char>,
    pub offset: Offset,
    pub duration: Offset,
}

impl View for Clip {
    type V = ClipView;

    open spec fn view(&self) -> ClipView {
        ClipView {
            title: self.title@,
            music_path: self.music_path@,
            image_path: self.image_path@,
            offset: self.offset,
            duration: self.duration,
        }
    }
}

impl Clip {
    /// A copy of the clip.
    pub fn duplicate(&self) -> (copy: Clip)
        ensures
            copy@ == self@,
    {
        Clip {
            title: self.title.clone(),
            music_path: self.music_path.clone(),
            image_path: self.image_path.clone(),
            offset: self.offset,
            duration: self.duration,
        }
    }
}

/// The values of a sequence of clips.
pub open spec fn clip_views(clips: Seq<Clip>) -> Seq<ClipView> {
    clips.map_values(|clip: Clip| clip@)
}

/// Position of the first clip of `clips` with that title, at or after
/// `from`; the length of `clips` when there is none.
pub open spec fn position(clips: Seq<ClipView>, title: Seq<char>, from: int) -> int
    decreases clips.len() - from,
{
    if from < 0 || from >= clips.len() {
        clips.len() as int
    } else if clips[from].title == title {
        from
    } else {
        position(clips, title, from + 1)
    }
}

/// The clip of `clips` with that title, if there is one.
pub open spec fn lookup(clips: Seq<ClipView>, title: Seq<char>) -> Option<ClipView> {
    let at = position(clips, title, 0);
    if at < clips.len() {
        Some(clips[at])
    } else {
        None
    }
}

/// Whether no two clips of `clips` share a title.
pub open spec fn distinct_titles(clips: Seq<ClipView>) -> bool {
    forall|i: int, j: int|
        0 <= i < j < clips.len() ==> (#[trigger] clips[i]).title != (#[trigger] clips[j]).title
}

/// What `position` finds is the first clip with the title, and no clip
/// before it has the title.
pub proof fn lemma_position(clips: Seq<ClipView>, title: Seq<char>, from: int)
    requires
        0 <= from <= clips.len(),
    ensures
        from <= position(clips, title, from) <= clips.len(),
        position(clips, title, from) < clips.len() ==> clips[position(clips, title, from)].title
            == title,
        forall|k: int|
            from <= k < position(clips, title, from) ==> (#[trigger] clips[k]).title != title,
    decreases clips.len() - from,
{
    if from < clips.len() && clips[from].title != title {
        lemma_position(clips, title, from + 1);
    }
}

/// The clips of a project, at most one for a title, in the order they came.
pub struct ClipRegistry {
    clips: Vec<Clip>,
}

impl View for ClipRegistry {
    type V = Seq<ClipView>;

    closed spec fn view(&self) -> Seq<ClipView> {
        clip_views(self.clips@)
    }
}

impl ClipRegistry {
    #[verifier::type_invariant]
    closed spec fn titles_are_distinct(&self) -> bool {
        distinct_titles(clip_views(self.clips@))
    }

    /// A registry without clips.
    pub fn new() -> (registry: ClipRegistry)
        ensures
            registry@ == Seq::<ClipView>::empty(),
            distinct_titles(registry@),
    {
        let registry = ClipRegistry { clips: Vec::new() };
        assert(registry@ =~= Seq::<ClipView>::empty());
        registry
    }

    /// Number of clips. No two of them share a title.
    pub fn len(&self) -> (len: usize)
        ensures
            len == self@.len(),
            distinct_titles(self@),
    {
        proof {
            use_type_invariant(self);
        }
        self.clips.len()
    }

    /// Position of the clip with that title; the number of clips when there
    /// is none.
    fn find(&self, title: &str) -> (at: usize)
        ensures
            at == position(self@, title@, 0),
            at <= self@.len(),
            at < self@.len() ==> self@[at as int].title == title@,
    {
        let ghost views = clip_views(self.clips@);
        let wanted = String::from_str(title);
        let mut at: usize = 0;
        while at < self.clips.len()
            invariant
                at <= self.clips.len(),
                wanted@ == title@,
                views == clip_views(self.clips@),
                position(views, title@, 0) == position(views, title@, at as int),
            decreases self.clips.len() - at,
        {
            assert(views[at as int] == self.clips@[at as int]@);
            if self.clips[at].title == wanted {
                return at;
            }
            at += 1;
        }
        at
    }

    /// Whether the registry holds a clip with that title.
    pub fn contains(&self, title: &str) -> (found: bool)
        ensures
            found == lookup(self@, title@) is Some,
    {
        self.find(title) < self.clips.len()
    }

    /// The clip with that title, if the registry holds one.
    pub fn get(&self, title: &str) -> (clip: Option<&Clip>)
        ensures
            clip is Some <==> lookup(self@, title@) is Some,
            clip is Some ==> clip->0@ == lookup(self@, title@)->0,
    {
        let at = self.find(title);
        if at < self.clips.len() {
            assert(clip_views(self.clips@)[at as int] == self.clips@[at as int]@);
            Some(&self.clips[at])
        } else {
            None
        }
    }

    /// The clip at a position, in the order the clips came.
    pub fn at(&self, index: usize) -> (clip: &Clip)
        requires
            index < self@.len(),
        ensures
            clip@ == self@[index as int],
    {
        assert(clip_views(self.clips@)[index as int] == self.clips@[index as int]@);
        &self.clips[index]
    }

    /// Puts a clip into the registry. A clip that had the same title is
    /// replaced where it stood and returned; a new title goes to the end.
    pub fn insert(&mut self, clip: Clip) -> (replaced: Option<Clip>)
        ensures
            lookup(old(self)@, clip@.title) is Some ==> final(self)@ == old(self)@.update(
                position(old(self)@, clip@.title, 0),
                clip@,
            ),
            lookup(old(self)@, clip@.title) is None ==> final(self)@ == old(self)@.push(clip@),
            replaced is Some <==> lookup(old(self)@, clip@.title) is Some,
            replaced is Some ==> replaced->0@ == lookup(old(self)@, clip@.title)->0,
    {
        proof {
            use_type_invariant(&*self);
        }
        let ghost before = clip_views(self.clips@);
        let ghost added = clip@;
        let at = self.find(clip.title.as_str());
        let mut clips: Vec<Clip> = Vec::new();
        std::mem::swap(&mut clips, &mut self.clips);
        if at < clips.len() {
            assert(before[at as int] == clips@[at as int]@);
            clips.push(clip);
            let previous = clips.swap_remove(at);
            proof {
                let after = clip_views(clips@);
                assert(after =~= before.update(at as int, added));
                assert forall|i: int, j: int| 0 <= i < j < after.len() implies (
                #[trigger] after[i]).title != (#[trigger] after[j]).title by {
                    assert(before[i].title != before[j].title);
                }
            }
            self.clips = clips;
            Some(previous)
        } else {
            clips.push(clip);
            proof {
                let after = clip_views(clips@);
                assert(after =~= before.push(added));
                lemma_position(before, added.title, 0);
                assert forall|i: int, j: int| 0 <= i < j < after.len() implies (
                #[trigger] after[i]).title != (#[trigger] after[j]).title by {
                    if j < before.len() {
                        assert(before[i].title != before[j].title);
                    } else {
                        assert(before[i].title != added.title);
                    }
                }
            }
            self.clips = clips;
            None
        }
    }

    /// Takes the clip with that title out of the registry. The clips that
    /// stay keep their order.
    pub fn remove(&mut self, title: &str) -> (removed: Option<Clip>)
        ensures
            lookup(old(self)@, title@) is Some ==> final(self)@ == old(self)@.remove(
                position(old(self)@, title@, 0),
            ),
            lookup(old(self)@, title@) is None ==> final(self)@ == old(self)@,
            removed is Some <==> lookup(old(self)@, title@) is Some,
            removed is Some ==> removed->0@ == lookup(old(self)@, title@)->0,
    {
        proof {
            use_type_invariant(&*self);
        }
        let ghost before = clip_views(self.clips@);
        let at = self.find(title);
        if at < self.clips.len() {
            let mut clips: Vec<Clip> = Vec::new();
            std::mem::swap(&mut clips, &mut self.clips);
            assert(before[at as int] == clips@[at as int]@);
            let clip = clips.remove(at);
            proof {
                let after = clip_views(clips@);
                assert(after =~= before.remove(at as int));
                assert forall|i: int, j: int| 0 <= i < j < after.len() implies (
                #[trigger] after[i]).title != (#[trigger] after[j]).title by {
                    let from_i = if i < at { i } else { i + 1 };
                    let from_j = if j < at { j } else { j + 1 };
                    assert(before[from_i].title != before[from_j].title);
                }
            }
            self.clips = clips;
            Some(clip)
        } else {
            None
        }
    }

    /// Moves the start of playback of the clip with that title to a whole
    /// second. Says whether the registry holds such a clip; nothing changes
    /// when it does not.
    pub fn set_offset(&mut self, title: &str, secs: u32) -> (found: bool)
        ensures
            found == lookup(old(self)@, title@) is Some,
            found ==> final(self)@ == old(self)@.update(
                position(old(self)@, title@, 0),
                (ClipView {
                    offset: Offset { secs: secs as u64, nanos: 0 },
                    ..lookup(old(self)@, title@)->0
                }),
            ),
            !found ==> final(self)@ == old(self)@,
    {
        match self.get(title) {
            Some(clip) => {
                let mut moved = clip.duplicate();
                moved.offset = Offset::from_secs(secs as u64);
                proof {
                    lemma_position(self@, title@, 0);
                }
                self.insert(moved);
                true
            },
            None => false,
        }
    }

    /// Takes all clips out of the registry.
    pub fn clear(&mut self)
        ensures
            final(self)@ == Seq::<ClipView>::empty(),
    {
        self.clips = Vec::new();
        assert(clip_views(self.clips@) =~= Seq::<ClipView>::empty());
    }

    /// The titles of the clips, in the order the clips came.
    pub fn titles(&self) -> (titles: Vec<String>)
        ensures
            titles@.len() == self@.len(),
            forall|i: int| 0 <= i < titles@.len() ==> (#[trigger] titles@[i])@ == self@[i].title,
    {
        let ghost views = clip_views(self.clips@);
        let mut titles: Vec<String> = Vec::new();
        let mut i: usize = 0;
        while i < self.clips.len()
            invariant
                i <= self.clips.len(),
                views == clip_views(self.clips@),
                titles@.len() == i,
                forall|k: int| 0 <= k < i ==> (#[trigger] titles@[k])@ == views[k].title,
            decreases self.clips.len() - i,
        {
            assert(views[i as int] == self.clips@[i as int]@);
            titles.push(self.clips[i].title.clone());
            i += 1;
        }
        titles
    }
}

/// What a registry holds for a title after a clip was put in: the clip for
/// its own title, and for every other title what it held before.
pub proof fn lemma_lookup_after_insert(clips: Seq<ClipView>, clip: ClipView, title: Seq<char>)
    requires
        distinct_titles(clips),
    ensures
        ({
            let after = if lookup(clips, clip.title) is Some {
                clips.update(position(clips, clip.title, 0), clip)
            } else {
                clips.push(clip)
            };
            lookup(after, title) == if title == clip.title {
                Some(clip)
            } else {
                lookup(clips, title)
            }
        }),
{
    let at = position(clips, clip.title, 0);
    lemma_position(clips, clip.title, 0);
    let after = if lookup(clips, clip.title) is Some {
        clips.update(at, clip)
    } else {
        clips.push(clip)
    };
    lemma_position(clips, title, 0);
    lemma_position(after, title, 0);
    let found = position(clips, title, 0);
    let found_after = position(after, title, 0);
    if title == clip.title {
        if at < clips.len() {
            assert(after[at].title == title);
            if found_after < at {
                assert(clips[found_after].title == after[found_after].title);
            }
        } else {
            assert(after[clips.len() as int].title == title);
            if found_after < clips.len() {
                assert(clips[found_after].title == after[found_after].title);
            }
        }
    } else {
        if found < clips.len() {
            assert(after[found] == clips[found]);
            if found_after < found {
                assert(after[found_after].title == clips[found_after].title);
            }
        } else {
            if found_after < after.len() {
                if found_after < clips.len() {
                    assert(after[found_after].title == clips[found_after].title || found_after
                        == at);
                }
            }
        }
    }
}

/// What a registry holds for a title after the clip of a title was taken
/// out: nothing for that title, and for every other title what it held
/// before.
pub proof fn lemma_lookup_after_remove(clips: Seq<ClipView>, removed: Seq<char>, title: Seq<char>)
    requires
        distinct_titles(clips),
    ensures
        ({
            let after = if lookup(clips, removed) is Some {
                clips.remove(position(clips, removed, 0))
            } else {
                clips
            };
            lookup(after, title) == if title == removed {
                None
            } else {
                lookup(clips, title)
            }
        }),
{
    let at = position(clips, removed, 0);
    lemma_position(clips, removed, 0);
    lemma_position(clips, title, 0);
    if at < clips.len() {
        let after = clips.remove(at);
        lemma_position(after, title, 0);
        let found = position(clips, title, 0);
        let found_after = position(after, title, 0);
        if found_after < after.len() {
            let origin = if found_after < at { found_after } else { found_after + 1 };
            assert(after[found_after] == clips[origin]);
            if title == removed {
                assert(clips[origin].title != clips[at].title);
            } else {
                assert(found <= origin);
                if found < origin {
                    assert(clips[found].title != clips[origin].title);
                }
            }
        } else if title != removed {
            if found < clips.len() {
                let target = if found < at { found } else { found - 1 };
                assert(after[target] == clips[found]);
            }
        }
    }
}

} // verus!
