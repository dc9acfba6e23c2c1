//! The command lines of the two outside programs: the one that measures the
//! duration of a media file and the one that encodes the export.

use vstd::prelude::*;
use crate::clip::Offset;
use crate::error::{ExportError, ExportErrorView};
use crate::graph::{graph_for, graph_text, FilterGraph};
use crate::text::{decimal, push_decimal};

verus! {

/// What an export takes from one clip: where its music starts, and the paths
/// of its music and of its image.
#[derive(Clone, Debug, PartialEq, Eq)]
pub struct ExportItem {
    pub offset: Offset,
    pub music_path: String,
    pub image_path: String,
}

/// Mathematical value of an [`ExportItem`].
pub struct ExportItemView {
    pub offset: Offset,
    pub music_path: Seq<char>,
    pub image_path: Seq<char>,
}

impl View for ExportItem {
    type V = ExportItemView;

    open spec fn view(&self) -> ExportItemView {
        ExportItemView {
            offset: self.offset,
            music_path: self.music_path@,
            image_path: self.image_path@,
        }
    }
}

/// The values of a sequence of items.
pub open spec fn item_views(items: Seq<ExportItem>) -> Seq<ExportItemView> {
    items.map_values(|item: ExportItem| item@)
}

/// The texts of a sequence of strings.
pub open spec fn texts(strings: Seq<String>) -> Seq<Seq<char>> {
    strings.map_values(|s: String| s@)
}

/// A program and the arguments it is started with. The program's standard
/// output is to be captured by whoever starts it.
#[derive(Clone, Debug, PartialEq, Eq)]
pub struct CommandLine {
    pub program: String,
    pub args: Vec<String>,
}

/// Mathematical value of a [`CommandLine`].
pub struct CommandLineView {
    pub program: Seq<char>,
    pub args: Seq<Seq<char>>,
}

impl View for CommandLine {
    type V = CommandLineView;

    open spec fn view(&self) -> CommandLineView {
        CommandLineView { program: self.program@, args: texts(self.args@) }
    }
}

/// Arguments with which the prober prints the duration of `clip`, in seconds,
/// as a single decimal number.
pub open spec fn probe_args(clip: Seq<char>) -> Seq<Seq<char>> {
    seq![
        "-i"@,
        clip,
        "-show_entries"@,
        "format=duration"@,
        "-v"@,
        "quiet"@,
        "-of"@,
        "csv=p=0"@,
    ]
}

/// Arguments that declare the two inputs of one item: its image, looped for
/// `loop_duration` seconds, then its music, from the item's offset on and for
/// `clip_duration` seconds.
pub open spec fn item_args(item: ExportItemView, loop_duration: u32, clip_duration: u32) -> Seq<
    Seq<char>,
> {
    seq![
        "-loop"@,
        "1"@,
        "-t"@,
        decimal(loop_duration as nat),
        "-i"@,
        item.image_path,
        "-ss"@,
        decimal(item.offset.secs as nat),
        "-t"@,
        decimal(clip_duration as nat),
        "-i"@,
        item.music_path,
    ]
}

/// Arguments that declare the inputs of all items, in the items' order.
pub open spec fn items_args(
    items: Seq<ExportItemView>,
    loop_duration: u32,
    clip_duration: u32,
) -> Seq<Seq<char>>
    decreases items.len(),
{
    if items.len() == 0 {
        Seq::empty()
    } else {
        items_args(items.drop_last(), loop_duration, clip_duration) + item_args(
            items.last(),
            loop_duration,
            clip_duration,
        )
    }
}

/// Arguments that pick the tracks of the output: the video track always, the
/// audio track when there is an item.
pub open spec fn map_args(n: nat) -> Seq<Seq<char>> {
    if n == 0 {
        seq!["-map"@, "[v]"@]
    } else {
        seq!["-map"@, "[v]"@, "-map"@, "[a]"@]
    }
}

/// Arguments of the encoder for an export: the countdown as first input, the
/// inputs of the items, the filter graph, the tracks, terse diagnostics,
/// progress reports on standard output, and the output file, overwritten if
/// it exists.
pub open spec fn encoder_args(
    clip_duration: u32,
    countdown_duration: u32,
    countdown: Seq<char>,
    items: Seq<ExportItemView>,
    output: Seq<char>,
) -> Seq<Seq<char>> {
    seq!["-i"@, countdown] + items_args(
        items,
        (clip_duration - countdown_duration) as u32,
        clip_duration,
    ) + seq![
        "-filter_complex"@,
        graph_text(graph_for(items.len(), countdown_duration, clip_duration)),
    ] + map_args(items.len()) + seq![
        "-v"@,
        "error"@,
        "-progress"@,
        "-"@,
        "-shortest"@,
        "-y"@,
        output,
    ]
}

/// Arguments that hint at the number of threads the encoder may use.
pub open spec fn thread_args(threads: Option<u64>) -> Seq<Seq<char>> {
    match threads {
        Some(count) => seq!["-threads"@, decimal(count as nat)],
        None => Seq::empty(),
    }
}

/// Appends a copy of `arg` to `args`.
fn push_arg(args: &mut Vec<String>, arg: &str)
    ensures
        texts(final(args)@) == texts(old(args)@).push(arg@),
{
    args.push(String::from_str(arg));
    assert(texts(args@) =~= texts(old(args)@).push(arg@));
}

/// Appends the decimal numeral of `n` to `args`.
fn push_number(args: &mut Vec<String>, n: u128)
    ensures
        texts(final(args)@) == texts(old(args)@).push(decimal(n as nat)),
{
    let mut text = String::new();
    push_decimal(&mut text, n);
    assert(text@ =~= decimal(n as nat));
    args.push(text);
    assert(texts(args@) =~= texts(old(args)@).push(decimal(n as nat)));
}

/// The command that prints the duration of the media file `clip`.
pub fn clip_duration_command(clip: &str) -> (command: CommandLine)
    ensures
        command@.program == "ffprobe"@,
        command@.args == probe_args(clip@),
{
    let mut args: Vec<String> = Vec::new();
    assert(texts(args@) =~= Seq::empty());
    push_arg(&mut args, "-i");
    push_arg(&mut args, clip);
    push_arg(&mut args, "-show_entries");
    push_arg(&mut args, "format=duration");
    push_arg(&mut args, "-v");
    push_arg(&mut args, "quiet");
    push_arg(&mut args, "-of");
    push_arg(&mut args, "csv=p=0");
    assert(texts(args@) =~= probe_args(clip@));
    CommandLine { program: String::from_str("ffprobe"), args }
}

/// The command that encodes an export: each item in turn, the countdown
/// before it. It fails with `InvalidDuration`, and only then, when the
/// countdown is longer than the time given to each clip.
pub fn ffmpeg_command(
    clip_duration: u32,
    countdown_duration: u32,
    countdown: &str,
    items: &Vec<ExportItem>,
    output: &str,
) -> (r: Result<CommandLine, ExportError>)
    ensures
        countdown_duration > clip_duration <==> r is Err,
        r is Err ==> r->Err_0@ == ExportErrorView::InvalidDuration,
        r is Ok ==> r->Ok_0@.program == "ffmpeg"@,
        r is Ok ==> r->Ok_0@.args == encoder_args(
            clip_duration,
            countdown_duration,
            countdown@,
            item_views(items@),
            output@,
        ),
{
    let graph = match FilterGraph::build(items.len(), countdown_duration, clip_duration) {
        Ok(graph) => graph,
        Err(e) => {
            return Err(e);
        },
    };
    let loop_duration: u32 = clip_duration - countdown_duration;
    let ghost views = item_views(items@);
    let mut args: Vec<String> = Vec::new();
    assert(texts(args@) =~= Seq::empty());
    push_arg(&mut args, "-i");
    push_arg(&mut args, countdown);
    let ghost head = texts(args@);
    assert(head =~= seq!["-i"@, countdown@]);
    let mut i: usize = 0;
    while i < items.len()
        invariant
            i <= items.len(),
            views == item_views(items@),
            texts(args@) == head + items_args(views.take(i as int), loop_duration, clip_duration),
        decreases items.len() - i,
    {
        let item = &items[i];
        let ghost before = texts(args@);
        push_arg(&mut args, "-loop");
        push_arg(&mut args, "1");
        push_arg(&mut args, "-t");
        push_number(&mut args, loop_duration as u128);
        push_arg(&mut args, "-i");
        push_arg(&mut args, item.image_path.as_str());
        push_arg(&mut args, "-ss");
        push_number(&mut args, item.offset.as_secs() as u128);
        push_arg(&mut args, "-t");
        push_number(&mut args, clip_duration as u128);
        push_arg(&mut args, "-i");
        push_arg(&mut args, item.music_path.as_str());
        proof {
            let next = views.take(i + 1);
            assert(next.drop_last() =~= views.take(i as int));
            assert(next.last() == items@[i as int]@);
            assert(texts(args@) =~= before + item_args(
                items@[i as int]@,
                loop_duration,
                clip_duration,
            ));
            assert(texts(args@) =~= head + items_args(next, loop_duration, clip_duration));
        }
        i += 1;
    }
    assert(views.take(i as int) =~= views);
    let ghost declared = texts(args@);
    let filter = graph.render();
    push_arg(&mut args, "-filter_complex");
    push_arg(&mut args, filter.as_str());
    push_arg(&mut args, "-map");
    push_arg(&mut args, "[v]");
    if items.len() > 0 {
        push_arg(&mut args, "-map");
        push_arg(&mut args, "[a]");
    }
    let ghost mapped = texts(args@);
    assert(mapped =~= declared + seq!["-filter_complex"@, filter@] + map_args(views.len()));
    push_arg(&mut args, "-v");
    push_arg(&mut args, "error");
    push_arg(&mut args, "-progress");
    push_arg(&mut args, "-");
    push_arg(&mut args, "-shortest");
    push_arg(&mut args, "-y");
    push_arg(&mut args, output);
    assert(texts(args@) =~= mapped + seq![
        "-v"@,
        "error"@,
        "-progress"@,
        "-"@,
        "-shortest"@,
        "-y"@,
        output@,
    ]);
    Ok(CommandLine { program: String::from_str("ffmpeg"), args })
}

impl CommandLine {
    /// The same command with a hint at the number of threads it may use,
    /// where one is given.
    pub fn with_threads(self, threads: Option<u64>) -> (command: CommandLine)
        ensures
            command@.program == self@.program,
            command@.args == self@.args + thread_args(threads),
    {
        let CommandLine { program, mut args } = self;
        let ghost before = texts(args@);
        match threads {
            Some(count) => {
                push_arg(&mut args, "-threads");
                push_number(&mut args, count as u128);
                assert(texts(args@) =~= before + thread_args(threads));
            },
            None => {
                assert(texts(args@) =~= before + thread_args(threads));
            },
        }
        CommandLine { program, args }
    }
}

/// The arguments of the items come in the items' order, twelve for each.
pub proof fn lemma_items_args(
    items: Seq<ExportItemView>,
    loop_duration: u32,
    clip_duration: u32,
    i: int,
    k: int,
)
    requires
        0 <= i < items.len(),
        0 <= k < 12,
    ensures
        items_args(items, loop_duration, clip_duration).len() == 12 * items.len(),
        items_args(items, loop_duration, clip_duration)[12 * i + k] == item_args(
            items[i],
            loop_duration,
            clip_duration,
        )[k],
    decreases items.len(),
{
    let front = items.drop_last();
    lemma_items_args_len(front, loop_duration, clip_duration);
    if i < items.len() - 1 {
        lemma_items_args(front, loop_duration, clip_duration, i, k);
    }
}

/// Each item brings twelve arguments.
proof fn lemma_items_args_len(items: Seq<ExportItemView>, loop_duration: u32, clip_duration: u32)
    ensures
        items_args(items, loop_duration, clip_duration).len() == 12 * items.len(),
    decreases items.len(),
{
    if items.len() > 0 {
        lemma_items_args_len(items.drop_last(), loop_duration, clip_duration);
    }
}

/// The inputs of the encoder are declared in the order that the filter
/// graph counts on: the countdown first, then for each item its image and
/// its music, each after an `-i`; the music is cut from the item's offset on.
pub proof fn lemma_inputs_in_order(
    clip_duration: u32,
    countdown_duration: u32,
    countdown: Seq<char>,
    items: Seq<ExportItemView>,
    output: Seq<char>,
    i: int,
)
    requires
        0 <= i < items.len(),
    ensures
        ({
            let args = encoder_args(clip_duration, countdown_duration, countdown, items, output);
            &&& args[0] == "-i"@
            &&& args[1] == countdown
            &&& args[2 + 12 * i + 4] == "-i"@
            &&& args[2 + 12 * i + 5] == items[i].image_path
            &&& args[2 + 12 * i + 7] == decimal(items[i].offset.secs as nat)
            &&& args[2 + 12 * i + 10] == "-i"@
            &&& args[2 + 12 * i + 11] == items[i].music_path
        }),
{
    let loop_duration = (clip_duration - countdown_duration) as u32;
    lemma_items_args(items, loop_duration, clip_duration, i, 4);
    lemma_items_args(items, loop_duration, clip_duration, i, 5);
    lemma_items_args(items, loop_duration, clip_duration, i, 7);
    lemma_items_args(items, loop_duration, clip_duration, i, 10);
    lemma_items_args(items, loop_duration, clip_duration, i, 11);
}

} // verus!
