//! The decisions of one playback pipeline: which stream to decode, how a frame
//! of raw PCM becomes the samples handed to the encoder, and how control
//! signals end the stream or change its volume.
use vstd::prelude::*;

use crate::command::{chars_of, pieces, split, string_from, MAX_PERCENT};
use crate::orchestrator::ControlSignal;

verus! {

/// Samples per channel in one frame (20 ms at 48 kHz).
pub const FRAME_SAMPLES: usize = 960;

/// Interleaved channels.
pub const CHANNELS: usize = 2;

/// Bytes of 16-bit PCM in one frame.
pub const FRAME_BYTES: usize = FRAME_SAMPLES * CHANNELS * 2;

/// The volume a pipeline starts with, in percent.
pub const DEFAULT_PERCENT: u32 = 20;

/// The line of a media lister's output that names the audio stream: the second.
pub open spec fn stream_line(listing: Seq<char>) -> Option<Seq<char>> {
    let lines = pieces(listing, '\n');
    if lines.len() >= 2 {
        Some(lines[1])
    } else {
        None
    }
}

/// Picks the audio stream out of the media lister's output, which names one
/// stream per line; `None` when there is no second line.
pub fn stream_url(listing: &str) -> (r: Option<String>)
    ensures
        match r {
            Some(u) => stream_line(listing@) == Some(u@),
            None => stream_line(listing@) is None,
        },
{
    let text = chars_of(listing);
    let lines = split(&text, '\n');
    if lines.len() < 2 {
        return None;
    }
    assert(lines.deep_view()[1] == lines[1]@);
    Some(string_from(&lines[1]))
}

/// The signed 16-bit value of two bytes, most significant first.
pub open spec fn be_sample(hi: u8, lo: u8) -> int {
    if hi < 128 {
        hi * 256 + lo
    } else {
        hi * 256 + lo - 65536
    }
}

/// Relies on byteorder's `BigEndian::read_i16`: the first two bytes of the
/// buffer, most significant first, as a two's-complement number.
#[verifier::external_body]
fn read_be_i16(hi: u8, lo: u8) -> (r: i16)
    ensures
        r as int == be_sample(hi, lo),
{
    <byteorder::BigEndian as byteorder::ByteOrder>::read_i16(&[hi, lo])
}

/// `s` scaled by `percent` / 100, rounded toward zero.
pub open spec fn scaled(s: int, percent: int) -> int {
    if s >= 0 {
        (s * percent) / 100
    } else {
        -((-s * percent) / 100)
    }
}

/// The samples of one frame of big-endian PCM `bytes`, at volume `percent`.
pub open spec fn frame_samples(bytes: Seq<u8>, percent: int) -> Seq<int> {
    Seq::new(
        (bytes.len() / 2) as nat,
        |i: int| scaled(be_sample(bytes[2 * i], bytes[2 * i + 1]), percent),
    )
}

fn scale_sample(s: i16, percent: u32) -> (r: i16)
    requires
        percent <= MAX_PERCENT,
    ensures
        r as int == scaled(s as int, percent as int),
{
    let m: i32 = if s >= 0 {
        s as i32
    } else {
        -(s as i32)
    };
    let p: i32 = percent as i32;
    assert(0 <= m * p <= m * 100) by (nonlinear_arith)
        requires
            0 <= m <= 32768,
            0 <= p <= 100,
    ;
    let q: i32 = (m * p) / 100;
    assert(q <= m) by (nonlinear_arith)
        requires
            0 <= m * p <= m * 100,
            q == (m * p) / 100,
    ;
    if s >= 0 {
        q as i16
    } else {
        (-q) as i16
    }
}

/// Decodes one frame of big-endian 16-bit PCM and applies the volume `percent`.
pub fn prepare_frame(bytes: &Vec<u8>, percent: u32) -> (r: Vec<i16>)
    requires
        percent <= MAX_PERCENT,
    ensures
        r@.len() == bytes@.len() / 2,
        forall|i: int| 0 <= i < r@.len() ==> r@[i] as int == #[trigger] frame_samples(
            bytes@,
            percent as int,
        )[i],
{
    let n: usize = bytes.len() / 2;
    let mut out: Vec<i16> = Vec::new();
    let mut i: usize = 0;
    while i < n
        invariant
            n == bytes@.len() / 2,
            i <= n,
            percent <= MAX_PERCENT,
            out@.len() == i,
            forall|k: int| 0 <= k < i ==> out@[k] as int == #[trigger] frame_samples(
                bytes@,
                percent as int,
            )[k],
        decreases n - i,
    {
        assert(2 * i + 1 < bytes.len());
        let s = read_be_i16(bytes[2 * i], bytes[2 * i + 1]);
        out.push(scale_sample(s, percent));
        i = i + 1;
    }
    out
}

/// Something a running pipeline observed.
#[derive(Debug, Clone, PartialEq, Eq)]
pub enum TaskEvent {
    /// A signal from the orchestrator.
    Control(ControlSignal),
    /// The next frame of raw big-endian PCM from the decoder.
    Pcm(Vec<u8>),
    /// The decoder's output ended, or could not be read.
    PcmEnded,
    /// The last frame could not be encoded or handed on.
    Failed,
}

pub enum TaskEventModel {
    Control(ControlSignal),
    Pcm(Seq<u8>),
    PcmEnded,
    Failed,
}

impl View for TaskEvent {
    type V = TaskEventModel;

    open spec fn view(&self) -> TaskEventModel {
        match self {
            TaskEvent::Control(c) => TaskEventModel::Control(*c),
            TaskEvent::Pcm(b) => TaskEventModel::Pcm(b@),
            TaskEvent::PcmEnded => TaskEventModel::PcmEnded,
            TaskEvent::Failed => TaskEventModel::Failed,
        }
    }
}

/// What the pipeline does next.
#[derive(Debug, Clone, PartialEq, Eq)]
pub enum TaskStep {
    /// Encode these interleaved samples, hand the packet on, and wait one frame.
    Encode(Vec<i16>),
    /// Go on reading.
    Continue,
    /// Emit the end-of-stream frame and stop; nothing follows.
    Finish,
}

pub enum TaskStepModel {
    Encode(Seq<int>),
    Continue,
    Finish,
}

impl View for TaskStep {
    type V = TaskStepModel;

    open spec fn view(&self) -> TaskStepModel {
        match self {
            TaskStep::Encode(v) => TaskStepModel::Encode(v@.map_values(|x: i16| x as int)),
            TaskStep::Continue => TaskStepModel::Continue,
            TaskStep::Finish => TaskStepModel::Finish,
        }
    }
}

/// The abstract state of a pipeline: its volume and whether it has finished.
pub struct PlayTaskModel {
    pub percent: nat,
    pub finished: bool,
}

pub open spec fn clamp_percent(p: nat) -> nat {
    if p > MAX_PERCENT {
        MAX_PERCENT as nat
    } else {
        p
    }
}

/// The transition of a pipeline on event `e`: the next state and the step.
pub open spec fn task_next(m: PlayTaskModel, e: TaskEventModel) -> (PlayTaskModel, TaskStepModel) {
    match e {
        TaskEventModel::Control(ControlSignal::Stop) => (
            PlayTaskModel { finished: true, ..m },
            TaskStepModel::Finish,
        ),
        TaskEventModel::Control(ControlSignal::SetVolume(p)) => (
            PlayTaskModel { percent: clamp_percent(p as nat), ..m },
            TaskStepModel::Continue,
        ),
        TaskEventModel::Pcm(b) => if b.len() == FRAME_BYTES {
            (m, TaskStepModel::Encode(frame_samples(b, m.percent as int)))
        } else {
            (PlayTaskModel { finished: true, ..m }, TaskStepModel::Finish)
        },
        TaskEventModel::PcmEnded => (PlayTaskModel { finished: true, ..m }, TaskStepModel::Finish),
        TaskEventModel::Failed => (PlayTaskModel { finished: true, ..m }, TaskStepModel::Finish),
    }
}

/// The state of one running pipeline.
pub struct PlayTask {
    percent: u32,
    finished: bool,
}

impl View for PlayTask {
    type V = PlayTaskModel;

    closed spec fn view(&self) -> PlayTaskModel {
        PlayTaskModel { percent: self.percent as nat, finished: self.finished }
    }
}

impl PlayTask {
    pub closed spec fn wf(&self) -> bool {
        self.percent <= MAX_PERCENT
    }

    /// A pipeline that starts at volume `percent`, clamped to `MAX_PERCENT`.
    pub fn new(percent: u32) -> (r: PlayTask)
        ensures
            r.wf(),
            r@ == (PlayTaskModel { percent: clamp_percent(percent as nat), finished: false }),
    {
        PlayTask {
            percent: if percent > MAX_PERCENT {
                MAX_PERCENT
            } else {
                percent
            },
            finished: false,
        }
    }

    /// The current volume, in percent.
    pub fn percent(&self) -> (r: u32)
        ensures
            r == self@.percent,
    {
        self.percent
    }

    /// Whether the pipeline has finished.
    pub fn is_finished(&self) -> (r: bool)
        ensures
            r == self@.finished,
    {
        self.finished
    }

    /// Takes one event and returns what the pipeline does next. A pipeline that
    /// has finished takes no more events, so its end-of-stream frame is the
    /// last thing it emits, and it is emitted once.
    pub fn step(&mut self, ev: TaskEvent) -> (r: TaskStep)
        requires
            old(self).wf(),
            !old(self)@.finished,
        ensures
            final(self).wf(),
            (final(self)@, r@) == task_next(old(self)@, ev@),
            final(self)@.finished <==> r is Finish,
    {
        match ev {
            TaskEvent::Control(ControlSignal::Stop) => {
                self.finished = true;
                TaskStep::Finish
            },
            TaskEvent::Control(ControlSignal::SetVolume(p)) => {
                self.percent = if p > MAX_PERCENT {
                    MAX_PERCENT
                } else {
                    p
                };
                TaskStep::Continue
            },
            TaskEvent::Pcm(bytes) => {
                if bytes.len() == FRAME_BYTES {
                    let frame = prepare_frame(&bytes, self.percent);
                    assert(frame@.map_values(|x: i16| x as int) =~= frame_samples(
                        bytes@,
                        self.percent as int,
                    ));
                    TaskStep::Encode(frame)
                } else {
                    self.finished = true;
                    TaskStep::Finish
                }
            },
            TaskEvent::PcmEnded => {
                self.finished = true;
                TaskStep::Finish
            },
            TaskEvent::Failed => {
                self.finished = true;
                TaskStep::Finish
            },
        }
    }
}

/// A volume change reaches only the frames read after it: a frame prepared
/// before the signal keeps the old volume, and the next one uses the new one.
pub proof fn lemma_volume_applies_to_later_frames(
    m: PlayTaskModel,
    before: Seq<u8>,
    p: u32,
    after: Seq<u8>,
)
    requires
        !m.finished,
        before.len() == FRAME_BYTES,
        after.len() == FRAME_BYTES,
    ensures
        ({
            let (m1, s1) = task_next(m, TaskEventModel::Pcm(before));
            let (m2, s2) = task_next(m1, TaskEventModel::Control(ControlSignal::SetVolume(p)));
            let (m3, s3) = task_next(m2, TaskEventModel::Pcm(after));
            &&& s1 == TaskStepModel::Encode(frame_samples(before, m.percent as int))
            &&& s2 == TaskStepModel::Continue
            &&& s3 == TaskStepModel::Encode(frame_samples(after, clamp_percent(p as nat) as int))
            &&& !m3.finished
        }),
{
}

/// `Stop` ends a pipeline at once, with its end-of-stream step.
pub proof fn lemma_stop_finishes(m: PlayTaskModel)
    ensures
        task_next(m, TaskEventModel::Control(ControlSignal::Stop)).1 == TaskStepModel::Finish,
        task_next(m, TaskEventModel::Control(ControlSignal::Stop)).0.finished,
{
}

} // verus!
