//! Shared state crossing the producer/consumer boundary: the single-slot
//! frame relay, the control channel record, the typed event signals, and the
//! rolling-window rate estimators.

use vstd::prelude::*;

verus! {

/// One finished compute frame: the color samples as raw 32-bit sample words
/// (the presentation side interprets them) plus the pixel width used to
/// index the buffer.
#[derive(Debug, Clone)]
pub struct FrameData {
    pub gpu_data: Vec<u32>,
    pub width: u32,
}

/// Mathematical image of a frame: its sample words and width.
pub struct FrameView {
    pub gpu_data: Seq<u32>,
    pub width: u32,
}

impl View for FrameData {
    type V = FrameView;

    open spec fn view(&self) -> FrameView {
        FrameView { gpu_data: self.gpu_data@, width: self.width }
    }
}

/// Mathematical image of the relay: the slot already handed to the consumer,
/// the slot pending for it, and how many pending frames were overwritten
/// before being read.
pub struct RelayView {
    pub current: Option<FrameView>,
    pub next: Option<FrameView>,
    pub dropped: nat,
}

/// What one write does to the relay: the new frame takes the pending slot,
/// and an unread pending frame counts as dropped.
pub open spec fn spec_write_frame(v: RelayView, f: FrameView) -> RelayView {
    RelayView {
        current: v.current,
        next: Some(f),
        dropped: v.dropped + if v.next is Some {
            1nat
        } else {
            0nat
        },
    }
}

/// What one read does to the relay: a pending frame is promoted to current,
/// otherwise nothing changes.
pub open spec fn spec_read_frame(v: RelayView) -> RelayView {
    if v.next is Some {
        RelayView { current: v.next, next: None, dropped: v.dropped }
    } else {
        v
    }
}

/// The frame a read hands out: the promoted pending frame, or the same
/// current frame as last time.
pub open spec fn spec_read_result(v: RelayView) -> Option<FrameView> {
    if v.next is Some {
        v.next
    } else {
        v.current
    }
}

/// Single-slot, overwrite-on-full mailbox carrying the latest frame from the
/// producer to the consumer; favors recency over completeness.
pub struct SharedFrameBuffer {
    current_frame: Option<FrameData>,
    next_frame: Option<FrameData>,
    frames_dropped: u64,
}

impl View for SharedFrameBuffer {
    type V = RelayView;

    closed spec fn view(&self) -> RelayView {
        RelayView {
            current: match self.current_frame {
                Some(f) => Some(f@),
                None => None,
            },
            next: match self.next_frame {
                Some(f) => Some(f@),
                None => None,
            },
            dropped: self.frames_dropped as nat,
        }
    }
}

impl SharedFrameBuffer {
    /// An empty relay: no frame in either slot, nothing dropped.
    pub fn new() -> (r: Self)
        ensures
            r@ == (RelayView { current: None, next: None, dropped: 0nat }),
    {
        SharedFrameBuffer { current_frame: None, next_frame: None, frames_dropped: 0 }
    }

    /// Producer side: deposit the newest frame, overwriting (and counting as
    /// dropped) a pending frame the consumer has not read yet. Never blocks,
    /// never fails.
    pub fn write_frame(&mut self, frame_data: FrameData)
        requires
            old(self)@.dropped < u64::MAX,
        ensures
            final(self)@ == spec_write_frame(old(self)@, frame_data@),
    {
        if self.next_frame.is_some() {
            self.frames_dropped = self.frames_dropped + 1;
        }
        self.next_frame = Some(frame_data);
    }

    /// Consumer side: take the latest available frame. Promotes a pending
    /// frame to current; re-reads hand back the same current frame.
    pub fn read_frame(&mut self) -> (r: Option<FrameData>)
        ensures
            final(self)@ == spec_read_frame(old(self)@),
            (match r {
                Some(f) => Some(f@),
                None => None,
            }) == spec_read_result(old(self)@),
    {
        if self.next_frame.is_some() {
            self.current_frame = self.next_frame.take();
        }
        match &self.current_frame {
            Some(f) => Some(FrameData { gpu_data: clone_samples(&f.gpu_data), width: f.width }),
            None => None,
        }
    }

    /// Cumulative count of frames that were overwritten before being read.
    pub fn get_frames_dropped(&self) -> (r: u64)
        ensures
            r as nat == self@.dropped,
    {
        self.frames_dropped
    }
}

/// An exact copy of a sample buffer.
fn clone_samples(v: &Vec<u32>) -> (r: Vec<u32>)
    ensures
        r@ == v@,
{
    let mut r: Vec<u32> = Vec::new();
    let mut i: usize = 0;
    while i < v.len()
        invariant
            i <= v.len(),
            r@ == v@.subrange(0, i as int),
        decreases v.len() - i,
    {
        r.push(v[i]);
        i = i + 1;
    }
    assert(r@ =~= v@);
    r
}

/// The relay state after a whole sequence of writes, first to last.
pub open spec fn spec_write_seq(v: RelayView, fs: Seq<FrameView>) -> RelayView
    decreases fs.len(),
{
    if fs.len() == 0 {
        v
    } else {
        spec_write_seq(spec_write_frame(v, fs.first()), fs.drop_first())
    }
}

/// Recency law: after any run of writes with no intervening read, the
/// pending slot holds exactly the last frame written, every earlier frame of
/// the run but the first overwrote a pending one, and a read then yields
/// that last frame.
pub proof fn lemma_frame_relay_recency(v: RelayView, fs: Seq<FrameView>)
    requires
        fs.len() >= 1,
        v.next is None,
    ensures
        spec_write_seq(v, fs).next == Some(fs.last()),
        spec_write_seq(v, fs).dropped == v.dropped + fs.len() - 1,
        spec_read_result(spec_write_seq(v, fs)) == Some(fs.last()),
    decreases fs.len(),
{
    let v1 = spec_write_frame(v, fs.first());
    if fs.len() == 1 {
        assert(spec_write_seq(v, fs) == v1);
    } else {
        lemma_relay_writes_onto_pending(v1, fs.drop_first());
        assert(fs.drop_first().last() == fs.last());
    }
}

/// Helper for the recency law: writing onto a relay whose pending slot is
/// already full drops one frame per write.
proof fn lemma_relay_writes_onto_pending(v: RelayView, fs: Seq<FrameView>)
    requires
        fs.len() >= 1,
        v.next is Some,
    ensures
        spec_write_seq(v, fs).next == Some(fs.last()),
        spec_write_seq(v, fs).dropped == v.dropped + fs.len(),
    decreases fs.len(),
{
    let v1 = spec_write_frame(v, fs.first());
    if fs.len() == 1 {
        assert(spec_write_seq(v, fs) == v1);
    } else {
        lemma_relay_writes_onto_pending(v1, fs.drop_first());
        assert(fs.drop_first().last() == fs.last());
    }
}

/// Mathematical image of the control channel record.
pub struct ControlView {
    pub cursor_x: int,
    pub cursor_y: int,
    pub time_paused: bool,
    pub paused_time: u64,
    pub should_reload_shader: bool,
    pub new_shader_source: Option<Seq<char>>,
}

/// What one reload request does: the new payload replaces any unconsumed
/// one (last write wins, no queueing).
pub open spec fn spec_request_reload(v: ControlView, s: Seq<char>) -> ControlView {
    ControlView { should_reload_shader: true, new_shader_source: Some(s), ..v }
}

/// What one reload consume does: the pending payload (if any) is taken and
/// the slot cleared, atomically with the read.
pub open spec fn spec_consume_reload(v: ControlView) -> (ControlView, Option<Seq<char>>) {
    if v.should_reload_shader {
        (
            ControlView { should_reload_shader: false, new_shader_source: None, ..v },
            v.new_shader_source,
        )
    } else {
        (v, None)
    }
}

/// Mutex-guarded shared record carrying consumer-to-producer commands:
/// cursor movement, the pause toggle, and an at-most-once pending
/// shader-reload payload. Time values are wall-clock milliseconds.
#[derive(Debug, Clone)]
pub struct SharedUniforms {
    pub cursor: [i32; 2],
    pub time_paused: bool,
    pub paused_time: u64,
    pub should_reload_shader: bool,
    pub new_shader_source: Option<String>,
}

impl View for SharedUniforms {
    type V = ControlView;

    open spec fn view(&self) -> ControlView {
        ControlView {
            cursor_x: self.cursor[0] as int,
            cursor_y: self.cursor[1] as int,
            time_paused: self.time_paused,
            paused_time: self.paused_time,
            should_reload_shader: self.should_reload_shader,
            new_shader_source: match self.new_shader_source {
                Some(s) => Some(s@),
                None => None,
            },
        }
    }
}

impl SharedUniforms {
    /// The initial control record: cursor at the origin, not paused, no
    /// pending reload.
    pub fn new() -> (r: Self)
        ensures
            r@ == (ControlView {
                cursor_x: 0,
                cursor_y: 0,
                time_paused: false,
                paused_time: 0u64,
                should_reload_shader: false,
                new_shader_source: None,
            }),
    {
        SharedUniforms {
            cursor: [0, 0],
            time_paused: false,
            paused_time: 0,
            should_reload_shader: false,
            new_shader_source: None,
        }
    }

    /// Consumer command: shift the cursor offset by the given deltas.
    pub fn move_cursor(&mut self, dx: i32, dy: i32)
        requires
            i32::MIN <= old(self)@.cursor_x + dx <= i32::MAX,
            i32::MIN <= old(self)@.cursor_y + dy <= i32::MAX,
        ensures
            final(self)@ == (ControlView {
                cursor_x: old(self)@.cursor_x + dx,
                cursor_y: old(self)@.cursor_y + dy,
                ..old(self)@
            }),
    {
        self.cursor = [self.cursor[0] + dx, self.cursor[1] + dy];
    }

    /// Consumer command: flip the pause flag; on entering the paused state,
    /// freeze the given current time so elapsed-time queries stand still.
    pub fn toggle_pause(&mut self, current_time: u64)
        ensures
            final(self)@ == (if old(self)@.time_paused {
                ControlView { time_paused: false, ..old(self)@ }
            } else {
                ControlView { time_paused: true, paused_time: current_time, ..old(self)@ }
            }),
    {
        if self.time_paused {
            self.time_paused = false;
        } else {
            self.time_paused = true;
            self.paused_time = current_time;
        }
    }

    /// The time the producer should render with: the frozen instant while
    /// paused, the live elapsed time otherwise.
    pub fn effective_time(&self, elapsed: u64) -> (r: u64)
        ensures
            r == if self@.time_paused {
                self@.paused_time
            } else {
                elapsed
            },
    {
        if self.time_paused {
            self.paused_time
        } else {
            elapsed
        }
    }

    /// Consumer command: deposit a reload payload, overwriting any
    /// unconsumed one.
    pub fn request_shader_reload(&mut self, shader_source: String)
        ensures
            final(self)@ == spec_request_reload(old(self)@, shader_source@),
    {
        self.should_reload_shader = true;
        self.new_shader_source = Some(shader_source);
    }

    /// Producer side: take the pending reload payload, if any; the sole way
    /// the slot is cleared. A take, not a peek.
    pub fn consume_shader_reload(&mut self) -> (r: Option<String>)
        ensures
            final(self)@ == spec_consume_reload(old(self)@).0,
            (match r {
                Some(s) => Some(s@),
                None => None,
            }) == spec_consume_reload(old(self)@).1,
    {
        if self.should_reload_shader {
            self.should_reload_shader = false;
            self.new_shader_source.take()
        } else {
            None
        }
    }
}

/// The control state after a whole sequence of reload requests.
pub open spec fn spec_request_seq(v: ControlView, reqs: Seq<Seq<char>>) -> ControlView
    decreases reqs.len(),
{
    if reqs.len() == 0 {
        v
    } else {
        spec_request_seq(spec_request_reload(v, reqs.first()), reqs.drop_first())
    }
}

/// Reload idempotence law: after any run of reload requests, consuming
/// twice in a row hands out the last requested payload exactly once and
/// `None` the second time.
pub proof fn lemma_reload_consumed_once(v: ControlView, reqs: Seq<Seq<char>>)
    requires
        reqs.len() >= 1,
    ensures
        ({
            let after = spec_request_seq(v, reqs);
            let (v1, r1) = spec_consume_reload(after);
            let (v2, r2) = spec_consume_reload(v1);
            r1 == Some(reqs.last()) && r2 == None::<Seq<char>> && v2 == v1
        }),
    decreases reqs.len(),
{
    if reqs.len() == 1 {
        assert(spec_request_seq(v, reqs) == spec_request_reload(v, reqs.first()));
    } else {
        lemma_reload_consumed_once(spec_request_reload(v, reqs.first()), reqs.drop_first());
        assert(reqs.drop_first().last() == reqs.last());
    }
}

/// Typed signals flowing between the pipeline stages: recoverable compile
/// and device failures, the reload-succeeded marker that clears an error
/// overlay, and the sole clean-termination signal.
#[derive(Debug, Clone)]
pub enum ThreadError {
    ShaderCompilationError(String),
    ShaderReloadSuccess,
    GpuError(String),
    Shutdown,
}

/// Coordinator decision: only `Shutdown` ends the coordinator loop; every
/// other signal is handled where it is displayed and the loop goes on.
pub fn coordinator_should_exit(e: &ThreadError) -> (r: bool)
    ensures
        r == (e is Shutdown),
{
    match e {
        ThreadError::Shutdown => true,
        _ => false,
    }
}

/// How many recent samples the rate estimator retains.
pub const MAX_FRAME_HISTORY: usize = 60;

/// How many milliseconds must pass between two rate recomputations.
pub const FPS_RECOMPUTE_INTERVAL_MS: u64 = 250;

/// Mathematical image of a rate estimator: the retained sample instants
/// (milliseconds), the instant of the last recomputation, the published
/// rate in frames per 1000 seconds (milliframes per second), and the
/// all-time sample count.
pub struct TrackerView {
    pub frame_times: Seq<u64>,
    pub last_fps_calculation: u64,
    pub current_fps_milli: u64,
    pub total_frames_rendered: nat,
}

/// A well-formed estimator: sample instants never decrease and no more
/// than the retention cap are kept.
pub open spec fn tracker_wf(v: TrackerView) -> bool {
    &&& forall|i: int, j: int|
        0 <= i <= j < v.frame_times.len() ==> v.frame_times[i] <= v.frame_times[j]
    &&& v.frame_times.len() <= MAX_FRAME_HISTORY
}

/// The rate the estimator computes from a window of samples: zero for
/// fewer than two samples; otherwise `(count - 1) / span` in milliframes
/// per second, with the previous value kept when the span is empty.
pub open spec fn spec_window_rate(times: Seq<u64>, prev: u64) -> u64 {
    if times.len() < 2 {
        0u64
    } else {
        let span = times.last() - times.first();
        if span > 0 {
            (((times.len() - 1) * 1_000_000) / span) as u64
        } else {
            prev
        }
    }
}

/// What recording one sample does: the instant is appended, the window is
/// trimmed to the cap, and the rate is recomputed only when the recompute
/// interval has elapsed.
pub open spec fn spec_record_frame(v: TrackerView, now: u64) -> TrackerView {
    let pushed = v.frame_times.push(now);
    let trimmed = if pushed.len() > MAX_FRAME_HISTORY {
        pushed.drop_first()
    } else {
        pushed
    };
    if now - v.last_fps_calculation >= FPS_RECOMPUTE_INTERVAL_MS {
        TrackerView {
            frame_times: trimmed,
            last_fps_calculation: now,
            current_fps_milli: spec_window_rate(trimmed, v.current_fps_milli),
            total_frames_rendered: v.total_frames_rendered + 1,
        }
    } else {
        TrackerView {
            frame_times: trimmed,
            last_fps_calculation: v.last_fps_calculation,
            current_fps_milli: v.current_fps_milli,
            total_frames_rendered: v.total_frames_rendered + 1,
        }
    }
}

/// Rolling-window rate estimator for one pipeline stage. Callers hand in a
/// monotone millisecond clock; the rate is published in milliframes per
/// second (1000 times the frames-per-second value).
#[derive(Debug)]
pub struct PerformanceTracker {
    frame_times: Vec<u64>,
    last_fps_calculation: u64,
    current_fps_milli: u64,
    total_frames_rendered: u64,
}

impl View for PerformanceTracker {
    type V = TrackerView;

    closed spec fn view(&self) -> TrackerView {
        TrackerView {
            frame_times: self.frame_times@,
            last_fps_calculation: self.last_fps_calculation,
            current_fps_milli: self.current_fps_milli,
            total_frames_rendered: self.total_frames_rendered as nat,
        }
    }
}

impl PerformanceTracker {
    /// A fresh estimator: no samples, rate zero, recomputation clock
    /// starting now.
    pub fn new(now_ms: u64) -> (r: Self)
        ensures
            r@ == (TrackerView {
                frame_times: Seq::<u64>::empty(),
                last_fps_calculation: now_ms,
                current_fps_milli: 0u64,
                total_frames_rendered: 0nat,
            }),
            tracker_wf(r@),
    {
        PerformanceTracker {
            frame_times: Vec::new(),
            last_fps_calculation: now_ms,
            current_fps_milli: 0,
            total_frames_rendered: 0,
        }
    }

    /// Record one finished frame at the given instant.
    pub fn record_frame(&mut self, now_ms: u64)
        requires
            tracker_wf(old(self)@),
            old(self)@.frame_times.len() > 0 ==> old(self)@.frame_times.last() <= now_ms,
            old(self)@.last_fps_calculation <= now_ms,
            old(self)@.total_frames_rendered < u64::MAX,
        ensures
            final(self)@ == spec_record_frame(old(self)@, now_ms),
            tracker_wf(final(self)@),
    {
        self.frame_times.push(now_ms);
        self.total_frames_rendered = self.total_frames_rendered + 1;
        if self.frame_times.len() > MAX_FRAME_HISTORY {
            self.frame_times.remove(0);
            assert(self@.frame_times =~= old(self)@.frame_times.push(now_ms).drop_first());
        }
        if now_ms - self.last_fps_calculation >= FPS_RECOMPUTE_INTERVAL_MS {
            self.update_fps();
            self.last_fps_calculation = now_ms;
        }
    }

    /// Recompute the published rate from the retained window.
    fn update_fps(&mut self)
        requires
            tracker_wf(old(self)@),
        ensures
            final(self)@ == (TrackerView {
                current_fps_milli: spec_window_rate(
                    old(self)@.frame_times,
                    old(self)@.current_fps_milli,
                ),
                ..old(self)@
            }),
    {
        let n = self.frame_times.len();
        if n < 2 {
            self.current_fps_milli = 0;
            return ;
        }
        let span = self.frame_times[n - 1] - self.frame_times[0];
        if span > 0 {
            assert((n - 1) * 1_000_000 <= 60 * 1_000_000) by (nonlinear_arith)
                requires
                    2 <= n <= 60,
            ;
            self.current_fps_milli = ((n as u64 - 1) * 1_000_000) / span;
        }
    }

    /// The last published rate, in milliframes per second; zero until at
    /// least two samples have ever been in the window at a recomputation.
    pub fn get_fps(&self) -> (r: u64)
        ensures
            r == self@.current_fps_milli,
    {
        self.current_fps_milli
    }
}

/// Rate-estimator bound law, first half: an estimator that has recorded
/// zero or one sample publishes a rate of exactly zero, whenever the
/// recomputation happened.
pub proof fn lemma_rate_zero_until_two_samples(v: TrackerView, now: u64)
    requires
        v.current_fps_milli == 0,
        v.frame_times.len() == 0,
    ensures
        spec_record_frame(v, now).current_fps_milli == 0,
{
}

/// Rate-estimator convergence law, second half: over a window of samples
/// spaced exactly `period_ms` apart, the recomputed rate is exactly the
/// reciprocal of the period, `1_000_000 / period_ms` milliframes per
/// second, independent of the window length.
pub proof fn lemma_rate_converges_at_fixed_period(times: Seq<u64>, period_ms: u64, prev: u64)
    requires
        times.len() >= 2,
        period_ms > 0,
        forall|i: int| 1 <= i < times.len() ==> #[trigger] times[i] == times[i - 1] + period_ms,
    ensures
        spec_window_rate(times, prev) == 1_000_000int / (period_ms as int),
    decreases times.len(),
{
    lemma_evenly_spaced_span(times, period_ms);
    let n = times.len() as int;
    let span = times.last() - times.first();
    assert(span == (n - 1) * period_ms);
    assert(span > 0) by (nonlinear_arith)
        requires
            span == (n - 1) * period_ms,
            n >= 2,
            period_ms > 0,
    ;
    vstd::arithmetic::div_mod::lemma_div_multiples_vanish_quotient(
        n - 1,
        1_000_000,
        period_ms as int,
    );
    assert(((n - 1) * 1_000_000) / ((n - 1) * period_ms) == 1_000_000int / (period_ms as int));
}

/// Over evenly spaced samples, the window span is the period times one
/// less than the sample count.
proof fn lemma_evenly_spaced_span(times: Seq<u64>, period_ms: u64)
    requires
        times.len() >= 1,
        forall|i: int| 1 <= i < times.len() ==> #[trigger] times[i] == times[i - 1] + period_ms,
    ensures
        times.last() == times.first() + (times.len() - 1) * period_ms,
    decreases times.len(),
{
    if times.len() > 1 {
        let n = times.len() as int;
        let rest = times.drop_last();
        assert(forall|i: int| 1 <= i < rest.len() ==> #[trigger] rest[i] == rest[i - 1] + period_ms);
        lemma_evenly_spaced_span(rest, period_ms);
        assert(times.last() == times[n - 1]);
        assert(times[n - 1] == times[n - 2] + period_ms);
        assert(rest.last() == times[n - 2]);
        assert(rest.first() == times.first());
        assert(times.last() == times.first() + (n - 2) * period_ms + period_ms);
        assert(times.last() == times.first() + (times.len() - 1) * period_ms) by (nonlinear_arith)
            requires
                times.last() == times.first() + (n - 2) * period_ms + period_ms,
                n == times.len(),
                n >= 2,
        ;
    } else {
        assert(times.last() == times.first() + (times.len() - 1) * period_ms) by (nonlinear_arith)
            requires
                times.len() == 1,
                times.last() == times.first(),
        ;
    }
}

/// Two independent estimators, one per pipeline stage, combined read-only
/// by the display overlay.
#[derive(Debug)]
pub struct DualPerformanceTracker {
    pub gpu_tracker: PerformanceTracker,
    pub terminal_tracker: PerformanceTracker,
}

impl DualPerformanceTracker {
    /// Two fresh estimators sharing a starting instant.
    pub fn new(now_ms: u64) -> (r: Self)
        ensures
            tracker_wf(r.gpu_tracker@),
            tracker_wf(r.terminal_tracker@),
            r.gpu_tracker@.frame_times.len() == 0,
            r.terminal_tracker@.frame_times.len() == 0,
            r.gpu_tracker@.current_fps_milli == 0,
            r.terminal_tracker@.current_fps_milli == 0,
            r.gpu_tracker@.last_fps_calculation == now_ms,
            r.terminal_tracker@.last_fps_calculation == now_ms,
    {
        DualPerformanceTracker {
            gpu_tracker: PerformanceTracker::new(now_ms),
            terminal_tracker: PerformanceTracker::new(now_ms),
        }
    }

    /// Record a producer-side frame.
    pub fn record_gpu_frame(&mut self, now_ms: u64)
        requires
            tracker_wf(old(self).gpu_tracker@),
            old(self).gpu_tracker@.frame_times.len() > 0 ==> old(
                self,
            ).gpu_tracker@.frame_times.last() <= now_ms,
            old(self).gpu_tracker@.last_fps_calculation <= now_ms,
            old(self).gpu_tracker@.total_frames_rendered < u64::MAX,
        ensures
            final(self).gpu_tracker@ == spec_record_frame(old(self).gpu_tracker@, now_ms),
            tracker_wf(final(self).gpu_tracker@),
            final(self).terminal_tracker == old(self).terminal_tracker,
    {
        self.gpu_tracker.record_frame(now_ms);
    }

    /// Record a consumer-side frame.
    pub fn record_terminal_frame(&mut self, now_ms: u64)
        requires
            tracker_wf(old(self).terminal_tracker@),
            old(self).terminal_tracker@.frame_times.len() > 0 ==> old(
                self,
            ).terminal_tracker@.frame_times.last() <= now_ms,
            old(self).terminal_tracker@.last_fps_calculation <= now_ms,
            old(self).terminal_tracker@.total_frames_rendered < u64::MAX,
        ensures
            final(self).terminal_tracker@ == spec_record_frame(old(self).terminal_tracker@, now_ms),
            tracker_wf(final(self).terminal_tracker@),
            final(self).gpu_tracker == old(self).gpu_tracker,
    {
        self.terminal_tracker.record_frame(now_ms);
    }

    /// The producer-side rate, in milliframes per second.
    pub fn get_gpu_fps(&self) -> (r: u64)
        ensures
            r == self.gpu_tracker@.current_fps_milli,
    {
        self.gpu_tracker.get_fps()
    }

    /// The consumer-side rate, in milliframes per second.
    pub fn get_terminal_fps(&self) -> (r: u64)
        ensures
            r == self.terminal_tracker@.current_fps_milli,
    {
        self.terminal_tracker.get_fps()
    }
}

} // verus!
