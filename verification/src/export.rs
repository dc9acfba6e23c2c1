//! An export request: what one export needs, copied from the clips at the
//! moment the export starts, so that later changes to the clips or to the
//! timeline do not reach an export that is under way.

use vstd::prelude::*;
use crate::clip::{lookup, ClipRegistry, ClipView};
use crate::command::{
    encoder_args, ffmpeg_command, item_views, texts, thread_args, CommandLine, ExportItem,
    ExportItemView,
};
use crate::error::{ExportError, ExportErrorView};

verus! {

/// All that one export needs.
#[derive(Clone, Debug, PartialEq, Eq)]
pub struct Export {
    /// Path of the countdown shown before each clip.
    pub countdown: String,
    /// Path of the file to write.
    pub output: String,
    /// What to show and play, in the order of the timeline.
    pub items: Vec<ExportItem>,
    /// Seconds given to each clip, countdown included.
    pub duration: u32,
    /// Number of threads the encoder may use, where the caller says so.
    pub threads: Option<u64>,
}

/// Mathematical value of an [`Export`].
pub struct ExportView {
    pub countdown: Seq<char>,
    pub output: Seq<char>,
    pub items: Seq<ExportItemView>,
    pub duration: u32,
    pub threads: Option<u64>,
}

impl View for Export {
    type V = ExportView;

    open spec fn view(&self) -> ExportView {
        ExportView {
            countdown: self.countdown@,
            output: self.output@,
            items: item_views(self.items@),
            duration: self.duration,
            threads: self.threads,
        }
    }
}

/// What an export takes from a clip.
pub open spec fn item_of(clip: ClipView) -> ExportItemView {
    ExportItemView {
        offset: clip.offset,
        music_path: clip.music_path,
        image_path: clip.image_path,
    }
}

/// Whether `clips` holds a clip for each of the titles.
pub open spec fn all_known(titles: Seq<Seq<char>>, clips: Seq<ClipView>) -> bool {
    forall|i: int| 0 <= i < titles.len() ==> lookup(clips, #[trigger] titles[i]) is Some
}

/// What an export takes from the clips with these titles, title by title.
pub open spec fn resolved(titles: Seq<Seq<char>>, clips: Seq<ClipView>) -> Seq<ExportItemView> {
    Seq::new(titles.len(), |i: int| item_of(lookup(clips, titles[i])->0))
}

/// The command line of the encoder for an export whose countdown lasts
/// `countdown_duration` seconds.
pub open spec fn export_args(export: ExportView, countdown_duration: u32) -> Seq<Seq<char>> {
    encoder_args(
        export.duration,
        countdown_duration,
        export.countdown,
        export.items,
        export.output,
    ) + thread_args(export.threads)
}

impl Export {
    /// The request to export the clips with the titles `items`, in that
    /// order, to `output`. It fails, with the message `Clip does not exist`,
    /// when `clips` lacks one of the titles, and only then.
    pub fn new(
        output: String,
        items: &Vec<String>,
        clips: &ClipRegistry,
        countdown: String,
        duration: u32,
    ) -> (r: Result<Export, String>)
        ensures
            r is Ok <==> all_known(texts(items@), clips@),
            r is Ok ==> r->Ok_0@ == (ExportView {
                countdown: countdown@,
                output: output@,
                items: resolved(texts(items@), clips@),
                duration,
                threads: None,
            }),
            r is Err ==> r->Err_0@ == "Clip does not exist"@,
    {
        let ghost titles = texts(items@);
        let mut found: Vec<ExportItem> = Vec::new();
        let mut i: usize = 0;
        while i < items.len()
            invariant
                i <= items.len(),
                titles == texts(items@),
                all_known(titles.take(i as int), clips@),
                item_views(found@) == resolved(titles.take(i as int), clips@),
            decreases items.len() - i,
        {
            assert(titles[i as int] == items@[i as int]@);
            match clips.get(items[i].as_str()) {
                Some(clip) => {
                    let item = ExportItem {
                        offset: clip.offset,
                        music_path: clip.music_path.clone(),
                        image_path: clip.image_path.clone(),
                    };
                    let ghost before = item_views(found@);
                    found.push(item);
                    proof {
                        let next = titles.take(i + 1);
                        assert(item_views(found@) =~= before.push(item@));
                        assert forall|k: int| 0 <= k < next.len() implies lookup(
                            clips@,
                            #[trigger] next[k],
                        ) is Some by {
                            if k < i {
                                assert(titles.take(i as int)[k] == next[k]);
                            }
                        }
                        assert forall|k: int| 0 <= k < next.len() implies item_views(found@)[k]
                            == #[trigger] resolved(next, clips@)[k] by {
                            if k < i {
                                assert(titles.take(i as int)[k] == next[k]);
                                assert(before[k] == resolved(titles.take(i as int), clips@)[k]);
                            }
                        }
                        assert(item_views(found@) =~= resolved(next, clips@));
                    }
                },
                None => {
                    return Err(String::from_str("Clip does not exist"));
                },
            }
            i += 1;
        }
        assert(titles.take(i as int) =~= titles);
        Ok(Export { countdown, output, items: found, duration, threads: None })
    }

    /// The same request with a hint at the number of threads the encoder
    /// may use.
    pub fn with_threads(self, threads: Option<u64>) -> (export: Export)
        ensures
            export@ == (ExportView { threads, ..self@ }),
    {
        Export {
            countdown: self.countdown,
            output: self.output,
            items: self.items,
            duration: self.duration,
            threads,
        }
    }

    /// The encoder's command for this request, given the duration of the
    /// countdown. It fails with `InvalidDuration`, and only then, when the
    /// countdown is longer than the time given to each clip.
    pub fn command(&self, countdown_duration: u32) -> (r: Result<CommandLine, ExportError>)
        ensures
            countdown_duration > self.duration <==> r is Err,
            r is Err ==> r->Err_0@ == ExportErrorView::InvalidDuration,
            r is Ok ==> r->Ok_0@.program == "ffmpeg"@,
            r is Ok ==> r->Ok_0@.args == export_args(self@, countdown_duration),
    {
        match ffmpeg_command(
            self.duration,
            countdown_duration,
            self.countdown.as_str(),
            &self.items,
            self.output.as_str(),
        ) {
            Ok(command) => Ok(command.with_threads(self.threads)),
            Err(e) => Err(e),
        }
    }
}

} // verus!
