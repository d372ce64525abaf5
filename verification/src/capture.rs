//! Frames of the screen: how one is taken from the desktop, and how the loop that
//! takes them keeps its pace and gets over failures.

use vstd::prelude::*;

verus! {

/// How long a frame may take, in nanoseconds, at sixty frames per second.
pub const FRAME_INTERVAL_NS: u128 = 16_667_000;

/// How long a frame has to take, in nanoseconds, before it is worth a warning.
pub const SLOW_FRAME_NS: u128 = 200_000_000;

/// How many failures in a row are put up with before capturing is set up anew.
pub const MAX_FAILURES: u32 = 3;

/// How long to wait for a frame, in milliseconds.
pub const ACQUIRE_TIMEOUT_MS: u32 = 50;

/// A captured frame: four bytes per pixel, blue first.
#[derive(Debug)]
pub struct CapturedFrame {
    /// The pixels; empty when they could not be read back.
    pub cpu_buffer: Vec<u8>,
    /// The display that the frame shows; zero is the main one.
    pub display_index: u32,
    /// When the frame was captured, in nanoseconds on the client's clock.
    pub timestamp: u128,
    pub width: u32,
    pub height: u32,
}

/// Why no frame could be taken.
#[derive(Debug, Clone, Copy, PartialEq, Eq, Structural)]
pub enum CaptureError {
    /// No display shows a part of the desktop.
    NotAttached,
    /// The desktop could not be asked for a frame.
    Acquire,
    /// The desktop gave no picture with its frame.
    NoResource,
    /// The picture cannot be copied.
    Cast,
    /// The frame could not be given back.
    Release,
}

/// What came of the last thing that was asked of the desktop.
#[derive(Debug)]
pub enum CaptureEvent {
    /// There is a frame.
    Acquired,
    /// There was no frame in time.
    TimedOut,
    AcquireFailed,
    /// The picture of the frame was copied.
    Copied,
    NoResource,
    CastFailed,
    /// The pixels, row after row with the padding of each.
    Mapped(Vec<u8>),
    /// The pixels cannot be read.
    MapFailed,
    /// The frame was given back.
    Released,
    ReleaseFailed,
}

/// What to ask of the desktop next.
#[derive(Debug)]
pub enum CaptureStep {
    /// Copy the picture.
    Copy,
    /// Read the pixels of the copy.
    Read,
    /// Give the frame back.
    Release,
    /// That is all: a frame, or none for now.
    Done(Option<CapturedFrame>),
    Failed(CaptureError),
}

/// How far taking a frame has come.
#[derive(Debug)]
pub enum CaptureStage {
    Acquiring,
    Copying,
    Mapping,
    Releasing(Vec<u8>),
    Finished,
}

/// A display, and the part of the desktop that it shows.
#[derive(Debug, Clone, Copy, PartialEq, Eq, Structural)]
pub struct Output {
    /// Whether it shows a part of the desktop at all.
    pub attached: bool,
    pub left: i32,
    pub top: i32,
    pub right: i32,
    pub bottom: i32,
}

/// Takes frames of one display, one step at a time.
#[derive(Debug)]
pub struct ScreenDuplicator {
    /// Which of the displays it is.
    pub output: usize,
    pub width: u32,
    pub height: u32,
    pub stage: CaptureStage,
}

/// The size of an interval of coordinates, cut to 32 bits.
pub open spec fn extent(low: i32, high: i32) -> u32 {
    ((high - low) % 0x1_0000_0000) as u32
}

fn extent_of(low: i32, high: i32) -> (n: u32)
    ensures
        n == extent(low, high),
{
    let size: i64 = high as i64 - low as i64;
    ((size + 0x1_0000_0000) as u64 % 0x1_0000_0000) as u32
}

/// Whether an event can come of what was asked for in a stage.
pub open spec fn answers(stage: CaptureStage, event: CaptureEvent) -> bool {
    match stage {
        CaptureStage::Acquiring => event is Acquired || event is TimedOut || event
            is AcquireFailed,
        CaptureStage::Copying => event is Copied || event is NoResource || event is CastFailed,
        CaptureStage::Mapping => event is Mapped || event is MapFailed,
        CaptureStage::Releasing(_) => event is Released || event is ReleaseFailed,
        CaptureStage::Finished => false,
    }
}

/// Whether an event leads from the stage `before` to `after`, with the step `step`, in
/// taking a frame of the given size.
pub open spec fn captures(
    width: u32,
    height: u32,
    before: CaptureStage,
    event: CaptureEvent,
    now: u128,
    after: CaptureStage,
    step: CaptureStep,
) -> bool {
    match event {
        CaptureEvent::Acquired => step is Copy && after is Copying,
        CaptureEvent::TimedOut => step == CaptureStep::Done(None) && after
            is Finished,
        CaptureEvent::AcquireFailed => step == CaptureStep::Failed(CaptureError::Acquire)
            && after is Finished,
        CaptureEvent::Copied => step is Read && after is Mapping,
        CaptureEvent::NoResource => step == CaptureStep::Failed(CaptureError::NoResource)
            && after is Finished,
        CaptureEvent::CastFailed => step == CaptureStep::Failed(CaptureError::Cast)
            && after is Finished,
        CaptureEvent::Mapped(pixels) => step is Release && after
            == CaptureStage::Releasing(pixels),
        CaptureEvent::MapFailed => step is Release && (after matches
            CaptureStage::Releasing(pixels) && pixels@.len() == 0),
        CaptureEvent::Released => after is Finished && (step matches
            CaptureStep::Done(Some(frame)) && frame == (CapturedFrame {
            cpu_buffer: before->Releasing_0,
            display_index: 0,
            timestamp: now,
            width,
            height,
        })),
        CaptureEvent::ReleaseFailed => step == CaptureStep::Failed(CaptureError::Release)
            && after is Finished,
    }
}

/// Whether `r` is the first of the displays that shows a part of the desktop, if any does.
pub open spec fn is_chosen(attached: Seq<bool>, r: Option<usize>) -> bool {
    match r {
        Some(i) => {
            &&& i < attached.len() && attached[i as int]
            &&& forall|j: int| 0 <= j < i ==> !#[trigger] attached[j]
        },
        None => forall|j: int| 0 <= j < attached.len() ==> !#[trigger] attached[j],
    }
}

/// The first display that shows a part of the desktop.
pub fn choose_output(attached: &Vec<bool>) -> (r: Option<usize>)
    ensures
        is_chosen(attached@, r),
{
    let mut i: usize = 0;
    while i < attached.len()
        invariant
            0 <= i <= attached@.len(),
            forall|j: int| 0 <= j < i ==> !#[trigger] attached@[j],
        decreases attached@.len() - i,
    {
        if attached[i] {
            return Some(i);
        }
        i += 1;
    }
    None
}

/// Whether `r` takes frames of the first display that shows a part of the desktop, if any
/// does.
pub open spec fn duplicates(
    outputs: Seq<Output>,
    r: Result<ScreenDuplicator, CaptureError>,
) -> bool {
    match r {
        Ok(d) => {
            let i = d.output as int;
            &&& i < outputs.len() && outputs[i].attached
            &&& forall|j: int| 0 <= j < i ==> !(#[trigger] outputs[j]).attached
            &&& d.width == extent(outputs[i].left, outputs[i].right)
            &&& d.height == extent(outputs[i].top, outputs[i].bottom)
            &&& d.stage is Acquiring
        },
        Err(e) => {
            &&& e == CaptureError::NotAttached
            &&& forall|j: int| 0 <= j < outputs.len() ==> !(#[trigger] outputs[j]).attached
        },
    }
}

/// How many bytes `height` rows take when each takes `row_pitch`.
pub open spec fn readback_bytes(height: u32, row_pitch: usize) -> int {
    height * row_pitch
}

impl ScreenDuplicator {
    /// Takes frames of the first display that shows a part of the desktop.
    pub fn new(outputs: &Vec<Output>) -> (r: Result<Self, CaptureError>)
        ensures
            duplicates(outputs@, r),
    {
        let mut attached: Vec<bool> = Vec::new();
        let mut k: usize = 0;
        while k < outputs.len()
            invariant
                0 <= k <= outputs@.len(),
                attached@.len() == k,
                forall|j: int| 0 <= j < k ==> #[trigger] outputs@[j].attached == attached@[j],
            decreases outputs@.len() - k,
        {
            attached.push(outputs[k].attached);
            k += 1;
        }
        match choose_output(&attached) {
            Some(i) => {
                let area = outputs[i];
                Ok(
                    ScreenDuplicator {
                        output: i,
                        width: extent_of(area.left, area.right),
                        height: extent_of(area.top, area.bottom),
                        stage: CaptureStage::Acquiring,
                    },
                )
            },
            None => Err(CaptureError::NotAttached),
        }
    }

    /// Begins with a new frame: the desktop has to be asked for one.
    pub fn begin(&mut self)
        ensures
            final(self).stage is Acquiring,
            final(self).output == old(self).output,
            final(self).width == old(self).width,
            final(self).height == old(self).height,
    {
        self.stage = CaptureStage::Acquiring;
    }

    /// How many bytes the pixels take when each row takes `row_pitch`.
    pub fn readback_len(&self, row_pitch: usize) -> (n: usize)
        requires
            self.height * row_pitch <= usize::MAX,
        ensures
            n == readback_bytes(self.height, row_pitch),
    {
        self.height as usize * row_pitch
    }

    /// Takes what came of the last request. A frame whose pixels cannot be read is a
    /// frame all the same, without pixels. What fails before the frame is given back
    /// leaves it with the desktop.
    pub fn acquire_frame(&mut self, event: CaptureEvent, now: u128) -> (step: CaptureStep)
        requires
            answers(old(self).stage, event),
        ensures
            final(self).output == old(self).output,
            final(self).width == old(self).width,
            final(self).height == old(self).height,
            captures(
                old(self).width,
                old(self).height,
                old(self).stage,
                event,
                now,
                final(self).stage,
                step,
            ),
    {
        let mut stage = CaptureStage::Finished;
        std::mem::swap(&mut stage, &mut self.stage);
        match event {
            CaptureEvent::Acquired => {
                self.stage = CaptureStage::Copying;
                CaptureStep::Copy
            },
            CaptureEvent::TimedOut => CaptureStep::Done(None),
            CaptureEvent::AcquireFailed => CaptureStep::Failed(CaptureError::Acquire),
            CaptureEvent::Copied => {
                self.stage = CaptureStage::Mapping;
                CaptureStep::Read
            },
            CaptureEvent::NoResource => CaptureStep::Failed(CaptureError::NoResource),
            CaptureEvent::CastFailed => CaptureStep::Failed(CaptureError::Cast),
            CaptureEvent::Mapped(pixels) => {
                self.stage = CaptureStage::Releasing(pixels);
                CaptureStep::Release
            },
            CaptureEvent::MapFailed => {
                self.stage = CaptureStage::Releasing(Vec::new());
                CaptureStep::Release
            },
            CaptureEvent::Released => match stage {
                CaptureStage::Releasing(pixels) => CaptureStep::Done(
                    Some(
                        CapturedFrame {
                            cpu_buffer: pixels,
                            display_index: 0,
                            timestamp: now,
                            width: self.width,
                            height: self.height,
                        },
                    ),
                ),
                _ => CaptureStep::Done(None),
            },
            CaptureEvent::ReleaseFailed => CaptureStep::Failed(CaptureError::Release),
        }
    }
}

/// What came of trying to take a frame.
#[derive(Debug)]
pub enum CaptureOutcome {
    Frame(CapturedFrame),
    NoFrame,
    Failed,
}

/// What the capturing loop does next.
#[derive(Debug)]
pub enum LoopStep {
    /// Hand the frame on, unless the encoder is behind.
    Offer(CapturedFrame),
    /// Go on.
    Continue,
    /// Set capturing up anew.
    Recreate,
}

/// Counts failures of the capturing loop.
#[derive(Debug)]
pub struct CaptureLoop {
    pub consecutive_failures: u32,
}

/// How the loop goes on from a number of failures in a row.
pub open spec fn loop_steps(
    before: u32,
    outcome: CaptureOutcome,
    after: u32,
    step: LoopStep,
) -> bool {
    match outcome {
        CaptureOutcome::Frame(frame) => {
            &&& step == LoopStep::Offer(frame)
            &&& after == 0
        },
        CaptureOutcome::NoFrame => {
            &&& step is Continue
            &&& after == before
        },
        CaptureOutcome::Failed => {
            &&& after == before + 1
            &&& if after > MAX_FAILURES {
                step is Recreate
            } else {
                step is Continue
            }
        },
    }
}

/// The failures in a row that are left after setting capturing up anew.
pub open spec fn after_recreating(before: u32, succeeded: bool) -> u32 {
    if succeeded {
        0
    } else {
        before
    }
}

impl CaptureLoop {
    pub open spec fn wf(&self) -> bool {
        self.consecutive_failures <= MAX_FAILURES + 1
    }

    pub fn start() -> (l: Self)
        ensures
            l.wf(),
            l.consecutive_failures == 0,
    {
        CaptureLoop { consecutive_failures: 0 }
    }

    /// Takes what came of trying to take a frame. A frame makes up for all failures
    /// before it; too many failures in a row ask for a new set-up.
    pub fn on_outcome(&mut self, outcome: CaptureOutcome) -> (step: LoopStep)
        requires
            old(self).consecutive_failures <= MAX_FAILURES,
        ensures
            final(self).wf(),
            loop_steps(
                old(self).consecutive_failures,
                outcome,
                final(self).consecutive_failures,
                step,
            ),
    {
        match outcome {
            CaptureOutcome::Frame(frame) => {
                self.consecutive_failures = 0;
                LoopStep::Offer(frame)
            },
            CaptureOutcome::NoFrame => LoopStep::Continue,
            CaptureOutcome::Failed => {
                self.consecutive_failures += 1;
                if self.consecutive_failures > MAX_FAILURES {
                    LoopStep::Recreate
                } else {
                    LoopStep::Continue
                }
            },
        }
    }

    /// Takes what came of setting capturing up anew, and says whether the loop goes
    /// on.
    pub fn on_recreated(&mut self, succeeded: bool) -> (goes_on: bool)
        ensures
            goes_on == succeeded,
            final(self).consecutive_failures == after_recreating(
                old(self).consecutive_failures,
                succeeded,
            ),
    {
        if succeeded {
            self.consecutive_failures = 0;
        }
        succeeded
    }
}

/// How the loop goes on after a frame.
#[derive(Debug, Clone, Copy, PartialEq, Eq, Structural)]
pub enum Pace {
    /// Sleep for so many nanoseconds.
    Sleep(u128),
    /// Go on at once.
    Late,
    /// Go on at once, with a warning.
    Slow,
}

/// The pace after a frame that took `elapsed` nanoseconds.
pub open spec fn pace_after(elapsed: u128) -> Pace {
    if elapsed < FRAME_INTERVAL_NS {
        Pace::Sleep((FRAME_INTERVAL_NS - elapsed) as u128)
    } else if elapsed > SLOW_FRAME_NS {
        Pace::Slow
    } else {
        Pace::Late
    }
}

/// The pace after a frame that took `elapsed` nanoseconds.
pub fn pace(elapsed: u128) -> (p: Pace)
    ensures
        p == pace_after(elapsed),
{
    if elapsed < FRAME_INTERVAL_NS {
        Pace::Sleep(FRAME_INTERVAL_NS - elapsed)
    } else if elapsed > SLOW_FRAME_NS {
        Pace::Slow
    } else {
        Pace::Late
    }
}

/// A frame that is acquired, copied, read and given back comes out with the pixels that
/// were read and the size of the display, at the time at which it was given back; one
/// whose pixels could not be read comes out without pixels.
pub proof fn law_what_was_read_comes_out(
    width: u32,
    height: u32,
    read: CaptureEvent,
    now: u128,
    s1: CaptureStage,
    t1: CaptureStep,
    s2: CaptureStage,
    t2: CaptureStep,
    s3: CaptureStage,
    t3: CaptureStep,
    s4: CaptureStage,
    t4: CaptureStep,
)
    requires
        captures(width, height, CaptureStage::Acquiring, CaptureEvent::Acquired, now, s1, t1),
        captures(width, height, s1, CaptureEvent::Copied, now, s2, t2),
        answers(s2, read),
        captures(width, height, s2, read, now, s3, t3),
        captures(width, height, s3, CaptureEvent::Released, now, s4, t4),
    ensures
        answers(s1, CaptureEvent::Copied),
        answers(s3, CaptureEvent::Released),
        t1 is Copy && t2 is Read && t3 is Release,
        t4 matches CaptureStep::Done(Some(frame)) && {
            &&& read matches CaptureEvent::Mapped(pixels) ==> frame.cpu_buffer == pixels
            &&& read is MapFailed ==> frame.cpu_buffer@.len() == 0
            &&& frame.width == width && frame.height == height
            &&& frame.timestamp == now
            &&& frame.display_index == 0
        },
{
}

/// A display is as wide as the columns of the desktop that it shows, and as high as the
/// rows.
pub proof fn law_extents_are_differences(low: i32, high: i32)
    requires
        low <= high,
    ensures
        low + extent(low, high) == high,
{
}

/// The loop sleeps exactly as long as a frame falls short of a sixtieth of a second, and
/// warns of one that took more than a fifth of a second.
pub proof fn law_frames_are_a_sixtieth_apart(elapsed: u128)
    ensures
        pace_after(elapsed) matches Pace::Sleep(ns) ==> ns > 0 && elapsed + ns == 16_667_000,
        elapsed >= 16_667_000 <==> !(pace_after(elapsed) is Sleep),
        pace_after(elapsed) is Slow <==> elapsed > 200_000_000,
{
}

/// An attempt to take a frame fails exactly where the desktop fails it, and says where;
/// waiting in vain for a frame, or for its pixels, is no failure. Whatever ends an attempt
/// ends it for good.
pub proof fn law_failures_say_where(
    width: u32,
    height: u32,
    before: CaptureStage,
    event: CaptureEvent,
    now: u128,
    after: CaptureStage,
    step: CaptureStep,
)
    requires
        captures(width, height, before, event, now, after, step),
    ensures
        step == CaptureStep::Failed(CaptureError::Acquire) <==> event is AcquireFailed,
        step == CaptureStep::Failed(CaptureError::NoResource) <==> event is NoResource,
        step == CaptureStep::Failed(CaptureError::Cast) <==> event is CastFailed,
        step == CaptureStep::Failed(CaptureError::Release) <==> event is ReleaseFailed,
        step != CaptureStep::Failed(CaptureError::NotAttached),
        step == CaptureStep::Done(None) <==> event is TimedOut,
        step is Failed || step is Done <==> after is Finished,
{
}

/// No display before the one that is chosen shows a part of the desktop, and those after
/// it do not matter; one is chosen if any can be.
pub proof fn law_the_first_display_is_chosen(
    attached: Seq<bool>,
    more: Seq<bool>,
    r: Option<usize>,
    j: int,
)
    requires
        is_chosen(attached, r),
        0 <= j < attached.len(),
    ensures
        attached[j] ==> r is Some && r->0 <= j,
        r is Some ==> is_chosen(attached + more, r),
{
    if let Some(i) = r {
        let all = attached + more;
        assert(all[i as int] == attached[i as int]);
        assert forall|k: int| 0 <= k < i implies !#[trigger] all[k] by {
            assert(all[k] == attached[k]);
        }
    }
}

/// Frames are as wide and as high as the part of the desktop that the chosen display
/// shows: its columns lie side by side, its rows one below the other.
pub proof fn law_frames_are_as_large_as_their_display(
    outputs: Seq<Output>,
    d: ScreenDuplicator,
    j: int,
)
    requires
        duplicates(outputs, Ok(d)),
        0 <= j < outputs.len(),
        outputs[j].attached,
        outputs[d.output as int].left <= outputs[d.output as int].right,
        outputs[d.output as int].top <= outputs[d.output as int].bottom,
    ensures
        d.output <= j,
        outputs[d.output as int].attached,
        outputs[d.output as int].left + d.width == outputs[d.output as int].right,
        outputs[d.output as int].top + d.height == outputs[d.output as int].bottom,
{
}

/// The bytes that are read hold a row exactly if the display has it.
pub proof fn law_all_rows_are_read(height: u32, row_pitch: usize, row: int)
    requires
        row_pitch > 0,
        row >= 0,
    ensures
        row < height <==> (row + 1) * row_pitch <= readback_bytes(height, row_pitch),
{
    if row < height {
        assert((row + 1) * row_pitch <= height * row_pitch) by (nonlinear_arith)
            requires
                row + 1 <= height,
                row_pitch > 0,
        ;
    } else {
        assert((row + 1) * row_pitch > height * row_pitch) by (nonlinear_arith)
            requires
                row + 1 > height,
                row_pitch > 0,
        ;
    }
}

/// From a fresh start the failures in a row are counted; the fourth asks for a new set-up,
/// and none before it does.
pub proof fn law_the_fourth_failure_asks_for_a_set_up(
    counts: Seq<u32>,
    steps: Seq<LoopStep>,
    k: int,
)
    requires
        counts.len() == steps.len() + 1,
        counts[0] == 0,
        forall|i: int|
            0 <= i < steps.len() ==> loop_steps(
                #[trigger] counts[i],
                CaptureOutcome::Failed,
                counts[i + 1],
                steps[i],
            ),
        0 <= k < steps.len(),
    ensures
        counts[k + 1] == k + 1,
        k < 3 ==> steps[k] is Continue,
        k == 3 ==> steps[k] is Recreate,
    decreases k,
{
    if k > 0 {
        law_the_fourth_failure_asks_for_a_set_up(counts, steps, k - 1);
    }
    assert(loop_steps(counts[k], CaptureOutcome::Failed, counts[k + 1], steps[k]));
}

/// A frame is handed on as it is and makes up for all failures, as a new set-up that
/// succeeds does; having no frame changes nothing.
pub proof fn law_a_frame_makes_up_for_failures(
    before: u32,
    frame: CapturedFrame,
    after_frame: u32,
    with_frame: LoopStep,
    after_none: u32,
    without: LoopStep,
)
    requires
        loop_steps(before, CaptureOutcome::Frame(frame), after_frame, with_frame),
        loop_steps(before, CaptureOutcome::NoFrame, after_none, without),
    ensures
        with_frame == LoopStep::Offer(frame),
        after_frame == 0,
        after_recreating(before, true) == 0,
        without is Continue,
        after_none == before,
        after_recreating(before, false) == before,
{
}

/// Every step of taking a frame may fail, and asking for one may be in vain: the outcomes
/// fit the stage that they come in, and no other.
pub proof fn law_outcomes_fit_their_stage(stage: CaptureStage, event: CaptureEvent)
    ensures
        event is Acquired || event is TimedOut || event is AcquireFailed ==> (answers(stage, event)
            <==> stage is Acquiring),
        event is Copied || event is NoResource || event is CastFailed ==> (answers(stage, event)
            <==> stage is Copying),
        event is Mapped || event is MapFailed ==> (answers(stage, event) <==> stage is Mapping),
        event is Released || event is ReleaseFailed ==> (answers(stage, event) <==> stage
            is Releasing),
{
}

} // verus!
