//! The filter graph of an export: fade clauses that scale, pad and fade the
//! inputs into labelled sub-streams, and the concatenations that join them.

use vstd::prelude::*;
use crate::error::ExportError;
use crate::text::{decimal, lemma_decimal_injective, push_decimal};

verus! {

/// Whether a stream carries pictures or sound.
#[derive(Clone, Copy, Debug, PartialEq, Eq, Structural)]
pub enum StreamKind {
    Video,
    Audio,
}

/// One clause that reads a stream of an input, fades it out over its last
/// second and gives the result a numbered label of its kind.
#[derive(Clone, Copy, Debug, PartialEq, Eq, Structural)]
pub struct Fade {
    pub kind: StreamKind,
    /// Index of the input the clause reads, in the order the inputs are declared.
    pub input: u128,
    /// Second at which the fade begins.
    pub start: u32,
    /// Number of the label the clause defines.
    pub output: u128,
}

/// One concatenation: the numbered labels of one kind that it consumes, in
/// order, and the stream count it declares.
#[derive(Clone, Debug, PartialEq, Eq)]
pub struct Concat {
    pub kind: StreamKind,
    pub inputs: Vec<u128>,
    pub declared: u128,
}

/// A whole filter graph. The video concatenation is always there; the audio
/// one is absent when no item brings sound.
#[derive(Clone, Debug, PartialEq, Eq)]
pub struct FilterGraph {
    pub fades: Vec<Fade>,
    pub video: Concat,
    pub audio: Option<Concat>,
}

/// Mathematical value of a [`Concat`].
pub struct ConcatView {
    pub kind: StreamKind,
    pub inputs: Seq<u128>,
    pub declared: u128,
}

/// Mathematical value of a [`FilterGraph`].
pub struct GraphView {
    pub fades: Seq<Fade>,
    pub video: ConcatView,
    pub audio: Option<ConcatView>,
}

impl View for Concat {
    type V = ConcatView;

    open spec fn view(&self) -> ConcatView {
        ConcatView { kind: self.kind, inputs: self.inputs@, declared: self.declared }
    }
}

impl View for FilterGraph {
    type V = GraphView;

    open spec fn view(&self) -> GraphView {
        GraphView {
            fades: self.fades@,
            video: self.video@,
            audio: match self.audio {
                Some(a) => Some(a@),
                None => None,
            },
        }
    }
}

/// Second at which a one-second fade-out begins so that it ends with a stream
/// of `duration` seconds; a stream shorter than the fade fades from its start.
pub open spec fn fade_start(duration: u32) -> u32 {
    if duration >= 1 {
        (duration - 1) as u32
    } else {
        0
    }
}

/// The three clauses of the item at position `i`: the countdown shown before
/// it, its still image, and its music.
pub open spec fn item_fade(i: nat, part: nat, countdown_duration: u32, clip_duration: u32) -> Fade {
    if part == 0 {
        Fade {
            kind: StreamKind::Video,
            input: 0,
            start: fade_start(countdown_duration),
            output: (2 * i) as u128,
        }
    } else if part == 1 {
        Fade {
            kind: StreamKind::Video,
            input: (2 * i + 1) as u128,
            start: fade_start((clip_duration - countdown_duration) as u32),
            output: (2 * i + 1) as u128,
        }
    } else {
        Fade {
            kind: StreamKind::Audio,
            input: (2 * i + 2) as u128,
            start: fade_start(clip_duration),
            output: i as u128,
        }
    }
}

/// The labels `0, 1, .., count - 1`.
pub open spec fn counting(count: nat) -> Seq<u128> {
    Seq::new(count, |k: int| k as u128)
}

/// The graph of an export of `n` items. Each item contributes the countdown
/// and its image to the video track and its music to the audio track. With no
/// item the graph shows the countdown alone and has no audio track.
pub open spec fn graph_for(n: nat, countdown_duration: u32, clip_duration: u32) -> GraphView {
    if n == 0 {
        GraphView {
            fades: seq![item_fade(0, 0, countdown_duration, clip_duration)],
            video: ConcatView { kind: StreamKind::Video, inputs: counting(1), declared: 1 },
            audio: None,
        }
    } else {
        GraphView {
            fades: Seq::new(
                3 * n,
                |k: int| item_fade((k / 3) as nat, (k % 3) as nat, countdown_duration, clip_duration),
            ),
            video: ConcatView {
                kind: StreamKind::Video,
                inputs: counting(2 * n),
                declared: (2 * n) as u128,
            },
            audio: Some(
                ConcatView { kind: StreamKind::Audio, inputs: counting(n), declared: n as u128 },
            ),
        }
    }
}

/// Number of streams the video concatenation of `n` items joins.
pub open spec fn video_streams(n: nat) -> nat {
    if n == 0 {
        1
    } else {
        2 * n
    }
}

/// Number of inputs an export of `n` items declares: the countdown, then an
/// image and a music file for each item.
pub open spec fn declared_inputs(n: nat) -> nat {
    1 + 2 * n
}

/// Whether some clause of `fades` defines the label of that kind and number.
pub open spec fn defined(fades: Seq<Fade>, kind: StreamKind, label: u128) -> bool {
    exists|k: int|
        0 <= k < fades.len() && (#[trigger] fades[k]).kind == kind && fades[k].output == label
}

/// A concatenation is sound within a graph when it declares as many streams
/// as it lists, lists no label twice, and every label it lists is defined by
/// a clause of its kind.
pub open spec fn concat_sound(c: ConcatView, fades: Seq<Fade>) -> bool {
    &&& c.declared == c.inputs.len()
    &&& forall|i: int, j: int|
        0 <= i < j < c.inputs.len() ==> #[trigger] c.inputs[i] != #[trigger] c.inputs[j]
    &&& forall|i: int| 0 <= i < c.inputs.len() ==> defined(fades, c.kind, #[trigger] c.inputs[i])
}

/// Whether some concatenation of the graph consumes the label that `f` defines.
pub open spec fn consumed(g: GraphView, f: Fade) -> bool {
    match f.kind {
        StreamKind::Video => g.video.inputs.contains(f.output),
        StreamKind::Audio => g.audio is Some && g.audio->0.inputs.contains(f.output),
    }
}

/// A graph over `inputs` declared inputs is well formed when no two clauses
/// define the same label, every clause reads a declared input, every label
/// defined is consumed, and both concatenations are sound.
pub open spec fn well_formed(g: GraphView, inputs: nat) -> bool {
    &&& forall|i: int, j: int|
        0 <= i < j < g.fades.len() ==> !((#[trigger] g.fades[i]).kind == (#[trigger] g.fades[j]).kind
            && g.fades[i].output == g.fades[j].output)
    &&& forall|i: int| 0 <= i < g.fades.len() ==> (#[trigger] g.fades[i]).input < inputs
    &&& forall|i: int| 0 <= i < g.fades.len() ==> consumed(g, #[trigger] g.fades[i])
    &&& g.video.kind == StreamKind::Video
    &&& concat_sound(g.video, g.fades)
    &&& g.audio is Some ==> g.audio->0.kind == StreamKind::Audio && concat_sound(
        g.audio->0,
        g.fades,
    )
}

/// For every item count within reach of a machine and every pair of durations
/// the graph of an export is well formed over the inputs that the export
/// declares, and its video concatenation declares one stream for a bare
/// countdown and two for each item otherwise.
pub proof fn lemma_graph_well_formed(n: nat, countdown_duration: u32, clip_duration: u32)
    requires
        2 * n + 2 <= u128::MAX,
    ensures
        well_formed(graph_for(n, countdown_duration, clip_duration), declared_inputs(n)),
        graph_for(n, countdown_duration, clip_duration).video.declared == video_streams(n),
        graph_for(n, countdown_duration, clip_duration).video.inputs.len() == video_streams(n),
        n > 0 ==> graph_for(n, countdown_duration, clip_duration).audio->0.declared == n,
{
    let g = graph_for(n, countdown_duration, clip_duration);
    if n == 0 {
        assert(g.video.inputs[0] == 0u128);
        assert(g.fades[0].kind == StreamKind::Video && g.fades[0].output == 0);
    } else {
        let audio = g.audio->0;
        assert forall|i: int| 0 <= i < g.fades.len() implies consumed(g, #[trigger] g.fades[i]) by {
            let f = g.fades[i];
            let item = i / 3;
            if i % 3 == 0 {
                assert(g.video.inputs[2 * item] == f.output);
            } else if i % 3 == 1 {
                assert(g.video.inputs[2 * item + 1] == f.output);
            } else {
                assert(audio.inputs[item] == f.output);
            }
        }
        assert forall|i: int| 0 <= i < g.video.inputs.len() implies defined(
            g.fades,
            StreamKind::Video,
            #[trigger] g.video.inputs[i],
        ) by {
            let k = 3 * (i / 2) + i % 2;
            assert(g.fades[k].kind == StreamKind::Video && g.fades[k].output == i);
        }
        assert forall|i: int| 0 <= i < audio.inputs.len() implies defined(
            g.fades,
            StreamKind::Audio,
            #[trigger] audio.inputs[i],
        ) by {
            let k = 3 * i + 2;
            assert(g.fades[k].kind == StreamKind::Audio && g.fades[k].output == i);
        }
    }
}

/// Text of a numbered label: `[v3]`, `[a0]`.
pub open spec fn label_text(kind: StreamKind, number: u128) -> Seq<char> {
    match kind {
        StreamKind::Video => "[v"@ + decimal(number as nat) + "]"@,
        StreamKind::Audio => "[a"@ + decimal(number as nat) + "]"@,
    }
}

/// Text of a fade clause. A video clause also scales its input into a frame
/// of 1920 by 1080 and pads what the aspect ratio leaves empty.
pub open spec fn fade_text(f: Fade) -> Seq<char> {
    match f.kind {
        StreamKind::Video => "["@ + decimal(f.input as nat)
            + ":v]scale=1920:1080:force_original_aspect_ratio=decrease,pad=1920:1080:(ow-iw)/2:(oh-ih)/2,setsar=1,fade=t=out:st="@
            + decimal(f.start as nat) + ":d=1"@ + label_text(f.kind, f.output),
        StreamKind::Audio => "["@ + decimal(f.input as nat) + ":a]afade=t=out:st="@ + decimal(
            f.start as nat,
        ) + ":d=1"@ + label_text(f.kind, f.output),
    }
}

/// Text of the labels a concatenation consumes, one after the other.
pub open spec fn labels_text(kind: StreamKind, inputs: Seq<u128>) -> Seq<char>
    decreases inputs.len(),
{
    if inputs.len() == 0 {
        Seq::empty()
    } else {
        labels_text(kind, inputs.drop_last()) + label_text(kind, inputs.last())
    }
}

/// Text of a concatenation: its labels, the stream count it declares, and
/// the label of the track it produces.
pub open spec fn concat_text(c: ConcatView) -> Seq<char> {
    match c.kind {
        StreamKind::Video => labels_text(c.kind, c.inputs) + "concat=n="@ + decimal(
            c.declared as nat,
        ) + ":v=1:a=0[v]"@,
        StreamKind::Audio => labels_text(c.kind, c.inputs) + "concat=n="@ + decimal(
            c.declared as nat,
        ) + ":v=0:a=1[a]"@,
    }
}

/// Text of the fade clauses, each closed by a semicolon.
pub open spec fn fades_text(fades: Seq<Fade>) -> Seq<char>
    decreases fades.len(),
{
    if fades.len() == 0 {
        Seq::empty()
    } else {
        fades_text(fades.drop_last()) + fade_text(fades.last()) + ";"@
    }
}

/// Text of a whole graph, as the encoder reads it.
pub open spec fn graph_text(g: GraphView) -> Seq<char> {
    fades_text(g.fades) + concat_text(g.video) + match g.audio {
        Some(a) => ";"@ + concat_text(a),
        None => Seq::empty(),
    }
}

/// Second at which a one-second fade-out of a stream of `duration` seconds
/// begins.
pub fn fade_from(duration: u32) -> (start: u32)
    ensures
        start == fade_start(duration),
{
    if duration >= 1 {
        duration - 1
    } else {
        0
    }
}

/// Appends the text of a numbered label to `out`.
fn push_label(out: &mut String, kind: StreamKind, number: u128)
    ensures
        final(out)@ == old(out)@ + label_text(kind, number),
{
    match kind {
        StreamKind::Video => out.append("[v"),
        StreamKind::Audio => out.append("[a"),
    }
    push_decimal(out, number);
    out.append("]");
    assert(out@ =~= old(out)@ + label_text(kind, number));
}

impl Fade {
    /// Appends the text of this clause to `out`.
    pub fn render_into(&self, out: &mut String)
        ensures
            final(out)@ == old(out)@ + fade_text(*self),
    {
        out.append("[");
        push_decimal(out, self.input);
        match self.kind {
            StreamKind::Video => out.append(
                ":v]scale=1920:1080:force_original_aspect_ratio=decrease,pad=1920:1080:(ow-iw)/2:(oh-ih)/2,setsar=1,fade=t=out:st=",
            ),
            StreamKind::Audio => out.append(":a]afade=t=out:st="),
        }
        push_decimal(out, self.start as u128);
        out.append(":d=1");
        push_label(out, self.kind, self.output);
        assert(out@ =~= old(out)@ + fade_text(*self));
    }

    /// The text of this clause.
    pub fn render(&self) -> (text: String)
        ensures
            text@ == fade_text(*self),
    {
        let mut text = String::new();
        self.render_into(&mut text);
        assert(text@ =~= fade_text(*self));
        text
    }
}

/// The clause that scales and pads the video of input `input` and fades it
/// out over the last second of `duration`, under the video label `output`.
pub fn fade_scale_stream(input: u128, output: u128, duration: u32) -> (text: String)
    ensures
        text@ == fade_text(
            Fade { kind: StreamKind::Video, input, start: fade_start(duration), output },
        ),
{
    Fade { kind: StreamKind::Video, input, start: fade_from(duration), output }.render()
}

/// The clause that fades the audio of input `input` out over the last second
/// of `duration`, under the audio label `output`.
pub fn fade_audio_stream(input: u128, output: u128, duration: u32) -> (text: String)
    ensures
        text@ == fade_text(
            Fade { kind: StreamKind::Audio, input, start: fade_start(duration), output },
        ),
{
    Fade { kind: StreamKind::Audio, input, start: fade_from(duration), output }.render()
}

impl Concat {
    /// Appends the text of this concatenation to `out`.
    pub fn render_into(&self, out: &mut String)
        ensures
            final(out)@ == old(out)@ + concat_text(self@),
    {
        let ghost before = out@;
        let mut i: usize = 0;
        while i < self.inputs.len()
            invariant
                i <= self.inputs.len(),
                out@ == before + labels_text(self.kind, self.inputs@.take(i as int)),
            decreases self.inputs.len() - i,
        {
            push_label(out, self.kind, self.inputs[i]);
            proof {
                let next = self.inputs@.take(i + 1);
                assert(next.drop_last() =~= self.inputs@.take(i as int));
                assert(next.last() == self.inputs@[i as int]);
                assert(out@ =~= before + labels_text(self.kind, next));
            }
            i += 1;
        }
        assert(self.inputs@.take(i as int) =~= self.inputs@);
        out.append("concat=n=");
        push_decimal(out, self.declared);
        match self.kind {
            StreamKind::Video => out.append(":v=1:a=0[v]"),
            StreamKind::Audio => out.append(":v=0:a=1[a]"),
        }
        assert(out@ =~= before + concat_text(self@));
    }
}

impl FilterGraph {
    /// The graph of an export of `n` items, or `InvalidDuration` when the
    /// countdown is longer than the time given to each clip.
    pub fn build(n: usize, countdown_duration: u32, clip_duration: u32) -> (r: Result<
        FilterGraph,
        ExportError,
    >)
        ensures
            countdown_duration > clip_duration <==> r is Err,
            r is Err ==> r->Err_0@ == crate::error::ExportErrorView::InvalidDuration,
            r is Ok ==> r->Ok_0@ == graph_for(n as nat, countdown_duration, clip_duration),
    {
        if countdown_duration > clip_duration {
            return Err(ExportError::InvalidDuration);
        }
        let countdown_start = fade_from(countdown_duration);
        let image_start = fade_from(clip_duration - countdown_duration);
        let music_start = fade_from(clip_duration);
        let mut fades: Vec<Fade> = Vec::new();
        let mut video: Vec<u128> = Vec::new();
        let mut audio: Vec<u128> = Vec::new();
        if n == 0 {
            fades.push(
                Fade { kind: StreamKind::Video, input: 0, start: countdown_start, output: 0 },
            );
            video.push(0);
            let graph = FilterGraph {
                fades,
                video: Concat { kind: StreamKind::Video, inputs: video, declared: 1 },
                audio: None,
            };
            assert(graph@.fades =~= graph_for(0, countdown_duration, clip_duration).fades);
            assert(graph@.video.inputs =~= counting(1));
            return Ok(graph);
        }
        let mut i: usize = 0;
        while i < n
            invariant
                i <= n,
                countdown_duration <= clip_duration,
                countdown_start == fade_start(countdown_duration),
                image_start == fade_start((clip_duration - countdown_duration) as u32),
                music_start == fade_start(clip_duration),
                fades@ == Seq::new(
                    3 * (i as nat),
                    |k: int|
                        item_fade((k / 3) as nat, (k % 3) as nat, countdown_duration, clip_duration),
                ),
                video@ == counting(2 * (i as nat)),
                audio@ == counting(i as nat),
            decreases n - i,
        {
            let at: u128 = i as u128;
            fades.push(
                Fade { kind: StreamKind::Video, input: 0, start: countdown_start, output: 2 * at },
            );
            fades.push(
                Fade {
                    kind: StreamKind::Video,
                    input: 2 * at + 1,
                    start: image_start,
                    output: 2 * at + 1,
                },
            );
            fades.push(
                Fade { kind: StreamKind::Audio, input: 2 * at + 2, start: music_start, output: at },
            );
            video.push(2 * at);
            video.push(2 * at + 1);
            audio.push(at);
            i += 1;
            assert(fades@ =~= Seq::new(
                3 * (i as nat),
                |k: int|
                    item_fade((k / 3) as nat, (k % 3) as nat, countdown_duration, clip_duration),
            ));
            assert(video@ =~= counting(2 * (i as nat)));
            assert(audio@ =~= counting(i as nat));
        }
        let graph = FilterGraph {
            fades,
            video: Concat { kind: StreamKind::Video, inputs: video, declared: 2 * (n as u128) },
            audio: Some(Concat { kind: StreamKind::Audio, inputs: audio, declared: n as u128 }),
        };
        Ok(graph)
    }

    /// The text of the graph, as the encoder reads it.
    pub fn render(&self) -> (text: String)
        ensures
            text@ == graph_text(self@),
    {
        let mut text = String::new();
        let mut i: usize = 0;
        while i < self.fades.len()
            invariant
                i <= self.fades.len(),
                text@ == fades_text(self.fades@.take(i as int)),
            decreases self.fades.len() - i,
        {
            let ghost before = text@;
            self.fades[i].render_into(&mut text);
            text.append(";");
            proof {
                let next = self.fades@.take(i + 1);
                assert(next.drop_last() =~= self.fades@.take(i as int));
                assert(next.last() == self.fades@[i as int]);
                assert(text@ =~= fades_text(next));
            }
            i += 1;
        }
        assert(self.fades@.take(i as int) =~= self.fades@);
        self.video.render_into(&mut text);
        match &self.audio {
            Some(audio) => {
                text.append(";");
                audio.render_into(&mut text);
            },
            None => {},
        }
        assert(text@ =~= graph_text(self@));
        text
    }
}

/// Labels that differ in kind or in number differ in text, so that no two
/// clauses of a well-formed graph write the same label.
pub proof fn lemma_label_text_injective(
    kind: StreamKind,
    number: u128,
    other_kind: StreamKind,
    other: u128,
)
    requires
        label_text(kind, number) == label_text(other_kind, other),
    ensures
        kind == other_kind,
        number == other,
{
    reveal_strlit("[v");
    reveal_strlit("[a");
    reveal_strlit("]");
    let a = label_text(kind, number);
    let b = label_text(other_kind, other);
    let digits = decimal(number as nat);
    let other_digits = decimal(other as nat);
    assert(a[1] == b[1]);
    assert(a[1] == if kind == StreamKind::Video { 'v' } else { 'a' });
    assert(b[1] == if other_kind == StreamKind::Video { 'v' } else { 'a' });
    assert(a.len() == digits.len() + 3);
    assert(b.len() == other_digits.len() + 3);
    assert(digits =~= a.subrange(2, a.len() - 1));
    assert(other_digits =~= b.subrange(2, b.len() - 1));
    lemma_decimal_injective(number as nat, other as nat);
}

/// An export without items shows the countdown alone: one clause, which
/// reads the countdown, one video stream, and no audio track.
pub proof fn lemma_bare_countdown(countdown_duration: u32, clip_duration: u32)
    ensures
        ({
            let g = graph_for(0, countdown_duration, clip_duration);
            &&& g.fades.len() == 1
            &&& g.fades[0].kind == StreamKind::Video
            &&& g.fades[0].input == 0
            &&& g.fades[0].start == fade_start(countdown_duration)
            &&& g.video.inputs == seq![g.fades[0].output]
            &&& g.video.declared == 1
            &&& g.audio is None
            &&& well_formed(g, declared_inputs(0))
        }),
{
    let g = graph_for(0, countdown_duration, clip_duration);
    assert(g.video.inputs =~= seq![g.fades[0].output]);
    lemma_graph_well_formed(0, countdown_duration, clip_duration);
}

/// The clauses of item `i` read the inputs that the export declares for it:
/// the countdown is input 0, the image of the item input `2 i + 1`, its
/// music input `2 i + 2`; and they define the video labels `2 i` and
/// `2 i + 1` and the audio label `i`.
pub proof fn lemma_item_streams(n: nat, i: nat, countdown_duration: u32, clip_duration: u32)
    requires
        i < n,
        2 * n + 2 <= u128::MAX,
    ensures
        ({
            let g = graph_for(n, countdown_duration, clip_duration);
            &&& g.fades.len() == 3 * n
            &&& g.fades[3 * i as int] == (Fade {
                kind: StreamKind::Video,
                input: 0,
                start: fade_start(countdown_duration),
                output: (2 * i) as u128,
            })
            &&& g.fades[3 * i + 1 as int] == (Fade {
                kind: StreamKind::Video,
                input: (2 * i + 1) as u128,
                start: fade_start((clip_duration - countdown_duration) as u32),
                output: (2 * i + 1) as u128,
            })
            &&& g.fades[3 * i + 2 as int] == (Fade {
                kind: StreamKind::Audio,
                input: (2 * i + 2) as u128,
                start: fade_start(clip_duration),
                output: i as u128,
            })
            &&& g.video.inputs[2 * i as int] == 2 * i
            &&& g.video.inputs[2 * i + 1 as int] == 2 * i + 1
            &&& g.audio->0.inputs[i as int] == i
        }),
{
    let g = graph_for(n, countdown_duration, clip_duration);
    assert((3 * i) / 3 == i && (3 * i) % 3 == 0);
    assert((3 * i + 1) / 3 == i && (3 * i + 1) % 3 == 1);
    assert((3 * i + 2) / 3 == i && (3 * i + 2) % 3 == 2);
}

} // verus!
