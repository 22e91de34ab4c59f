//! Scripted in-memory video capture and video stream for tests.
//!
//! Frame rates are carried as the IEEE-754 bit pattern of an `f64`: the
//! scripted sources only store and report them.

use crate::error::VideoCaptureError;
use crate::contract_tests::{ends_within, non_empty_frame, read_seek_read_succeeds};
use crate::video_capture::{same_frame, Backend, CapturedFrame, VideoStream};
use vstd::prelude::*;

verus! {

/// 30.0 frames per second, as the bit pattern of an `f64`.
pub const DEFAULT_FPS_BITS: u64 = 0x403E_0000_0000_0000u64;

/// `a` and `b` hold the same frames in the same order.
pub open spec fn same_frames(a: Seq<CapturedFrame>, b: Seq<CapturedFrame>) -> bool {
    &&& a.len() == b.len()
    &&& forall|i: int| 0 <= i < a.len() ==> same_frame(#[trigger] a[i], b[i])
}

/// Copy every frame of `frames`.
fn copy_frames(frames: &Vec<CapturedFrame>) -> (c: Vec<CapturedFrame>)
    ensures
        same_frames(c@, frames@),
{
    let n = frames.len();
    let mut c: Vec<CapturedFrame> = Vec::with_capacity(n);
    let mut i: usize = 0;
    while i < n
        invariant
            n == frames@.len(),
            i <= n,
            c@.len() == i,
            forall|k: int| 0 <= k < i ==> same_frame(#[trigger] c@[k], frames@[k]),
        decreases n - i,
    {
        c.push(frames[i].clone());
        i = i + 1;
    }
    c
}

/// Scripted video stream: yields its frames in order, then reports
/// [`VideoCaptureError::EndOfStream`].
#[derive(Debug)]
pub struct ScriptedVideoStream {
    frames: Vec<CapturedFrame>,
    cursor: usize,
    fps_bits: u64,
}

impl ScriptedVideoStream {
    /// The cursor never passes the end of the frames.
    #[verifier::type_invariant]
    spec fn cursor_in_range(self) -> bool {
        self.cursor <= self.frames@.len()
    }

    /// The frames the stream yields, in order.
    pub closed spec fn spec_frames(&self) -> Seq<CapturedFrame> {
        self.frames@
    }

    /// Index of the next frame to return.
    pub closed spec fn spec_cursor(&self) -> int {
        self.cursor as int
    }

    /// Reported frame rate, as the bit pattern of an `f64`.
    pub closed spec fn spec_fps_bits(&self) -> u64 {
        self.fps_bits
    }

    /// A stream positioned at its first frame.
    pub fn new(frames: Vec<CapturedFrame>, fps_bits: u64) -> (s: Self)
        ensures
            s.spec_frames() == frames@,
            s.spec_cursor() == 0,
            s.spec_fps_bits() == fps_bits,
    {
        ScriptedVideoStream { frames, cursor: 0, fps_bits }
    }

    /// Frame rate reported by the stream, as the bit pattern of an `f64`.
    pub fn fps_bits(&self) -> (b: u64)
        ensures
            b == self.spec_fps_bits(),
    {
        self.fps_bits
    }

}

/// Reading from `pre` gives the frame at its cursor and advances it, or
/// reports the end of the stream once every frame has been read.
pub open spec fn scripted_reads(
    pre: ScriptedVideoStream,
    post: ScriptedVideoStream,
    r: Result<CapturedFrame, VideoCaptureError>,
) -> bool {
    &&& post.spec_frames() == pre.spec_frames()
    &&& post.spec_fps_bits() == pre.spec_fps_bits()
    &&& post.spec_cursor() == stream_step(pre.spec_frames().len() as int, pre.spec_cursor())
    &&& pre.spec_cursor() < pre.spec_frames().len() ==> (r matches Ok(f) && same_frame(
        f,
        pre.spec_frames()[pre.spec_cursor()],
    ))
    &&& pre.spec_cursor() >= pre.spec_frames().len() ==> (r matches Err(
        VideoCaptureError::EndOfStream,
    ))
}

/// Rewinding always succeeds and moves the cursor to the first frame.
pub open spec fn scripted_seeks(
    pre: ScriptedVideoStream,
    post: ScriptedVideoStream,
    r: Result<(), VideoCaptureError>,
) -> bool {
    &&& r is Ok
    &&& post.spec_cursor() == 0
    &&& post.spec_frames() == pre.spec_frames()
    &&& post.spec_fps_bits() == pre.spec_fps_bits()
}

impl VideoStream for ScriptedVideoStream {
    open spec fn reads(&self, post: &Self, r: &Result<CapturedFrame, VideoCaptureError>) -> bool {
        scripted_reads(*self, *post, *r)
    }

    open spec fn seeks(&self, post: &Self, r: &Result<(), VideoCaptureError>) -> bool {
        scripted_seeks(*self, *post, *r)
    }

    /// Read the next frame, or [`VideoCaptureError::EndOfStream`] once every
    /// frame has been read.
    fn read_frame(&mut self) -> (r: Result<CapturedFrame, VideoCaptureError>)
        ensures
            final(self).spec_frames() == old(self).spec_frames(),
            final(self).spec_fps_bits() == old(self).spec_fps_bits(),
            final(self).spec_cursor() == stream_step(
                old(self).spec_frames().len() as int,
                old(self).spec_cursor(),
            ),
            old(self).spec_cursor() < old(self).spec_frames().len() ==> {
                &&& r matches Ok(f) && same_frame(f, old(self).spec_frames()[old(self).spec_cursor()])
                &&& final(self).spec_cursor() == old(self).spec_cursor() + 1
            },
            old(self).spec_cursor() >= old(self).spec_frames().len() ==> {
                &&& r matches Err(VideoCaptureError::EndOfStream)
                &&& final(self).spec_cursor() == old(self).spec_cursor()
            },
    {
        proof {
            use_type_invariant(&*self);
        }
        if self.cursor < self.frames.len() {
            let frame = self.frames[self.cursor].clone();
            self.cursor = self.cursor + 1;
            Ok(frame)
        } else {
            Err(VideoCaptureError::EndOfStream)
        }
    }

    /// Rewind the stream so the next read returns the first frame.
    fn seek_to_start(&mut self) -> (r: Result<(), VideoCaptureError>)
        ensures
            r is Ok,
            final(self).spec_cursor() == 0,
            final(self).spec_frames() == old(self).spec_frames(),
            final(self).spec_fps_bits() == old(self).spec_fps_bits(),
    {
        self.cursor = 0;
        Ok(())
    }
}

/// Scripted video capture: every `open` records the call, fails once with an
/// armed error if there is one, and otherwise yields a stream over a copy of
/// the scripted frames.
///
/// Handles that must share one script and one record of calls hold a single
/// capture behind a lock (the application's `SharedVideoCapture`).
#[derive(Debug)]
pub struct ScriptedVideoCapture {
    frames: Vec<CapturedFrame>,
    open_error: Option<VideoCaptureError>,
    fps_bits: u64,
    open_calls: Vec<(String, Backend)>,
}

impl Default for ScriptedVideoCapture {
    /// Same as [`ScriptedVideoCapture::new`].
    fn default() -> (c: Self)
        ensures
            c.spec_frames() == Seq::<CapturedFrame>::empty(),
            c.spec_open_error() is None,
            c.spec_fps_bits() == DEFAULT_FPS_BITS,
            c.spec_open_calls() == Seq::<(Seq<char>, Backend)>::empty(),
    {
        Self::new()
    }
}

/// `a` and `b` record the same calls.
pub open spec fn same_calls(a: Seq<(String, Backend)>, b: Seq<(Seq<char>, Backend)>) -> bool {
    &&& a.len() == b.len()
    &&& forall|i: int| 0 <= i < a.len() ==> (#[trigger] a[i]).0@ == b[i].0 && a[i].1 == b[i].1
}

impl ScriptedVideoCapture {
    /// The frames the next opened stream yields.
    pub closed spec fn spec_frames(&self) -> Seq<CapturedFrame> {
        self.frames@
    }

    /// The error the next `open` returns, if one is armed.
    pub closed spec fn spec_open_error(&self) -> Option<VideoCaptureError> {
        self.open_error
    }

    /// Frame rate of every opened stream, as the bit pattern of an `f64`.
    pub closed spec fn spec_fps_bits(&self) -> u64 {
        self.fps_bits
    }

    /// Every `open` call, oldest first.
    pub closed spec fn spec_open_calls(&self) -> Seq<(Seq<char>, Backend)> {
        self.open_calls@.map_values(|c: (String, Backend)| (c.0@, c.1))
    }

    /// An empty script reporting 30 frames per second, with no error armed.
    pub fn new() -> (c: Self)
        ensures
            c.spec_frames() == Seq::<CapturedFrame>::empty(),
            c.spec_open_error() is None,
            c.spec_fps_bits() == DEFAULT_FPS_BITS,
            c.spec_open_calls() == Seq::<(Seq<char>, Backend)>::empty(),
    {
        let c = ScriptedVideoCapture {
            frames: Vec::new(),
            open_error: None,
            fps_bits: DEFAULT_FPS_BITS,
            open_calls: Vec::new(),
        };
        assert(c.spec_open_calls() =~= Seq::<(Seq<char>, Backend)>::empty());
        c
    }

    /// A script preloaded with `frames`.
    pub fn with_frames(frames: Vec<CapturedFrame>) -> (c: Self)
        ensures
            c.spec_frames() == frames@,
            c.spec_open_error() is None,
            c.spec_fps_bits() == DEFAULT_FPS_BITS,
            c.spec_open_calls() == Seq::<(Seq<char>, Backend)>::empty(),
    {
        let mut c = Self::new();
        c.set_frames(frames);
        c
    }

    /// Replace the frames of future streams.
    pub fn set_frames(&mut self, frames: Vec<CapturedFrame>)
        ensures
            final(self).spec_frames() == frames@,
            final(self).spec_open_error() == old(self).spec_open_error(),
            final(self).spec_fps_bits() == old(self).spec_fps_bits(),
            final(self).spec_open_calls() == old(self).spec_open_calls(),
    {
        self.frames = frames;
    }

    /// Set the frame rate of future streams (bit pattern of an `f64`).
    pub fn set_fps_bits(&mut self, fps_bits: u64)
        ensures
            final(self).spec_frames() == old(self).spec_frames(),
            final(self).spec_open_error() == old(self).spec_open_error(),
            final(self).spec_fps_bits() == fps_bits,
            final(self).spec_open_calls() == old(self).spec_open_calls(),
    {
        self.fps_bits = fps_bits;
    }

    /// Arm the next `open` to fail with `err`; the arm is consumed by it.
    pub fn fail_open_with(&mut self, err: VideoCaptureError)
        ensures
            final(self).spec_frames() == old(self).spec_frames(),
            final(self).spec_open_error() == Some(err),
            final(self).spec_fps_bits() == old(self).spec_fps_bits(),
            final(self).spec_open_calls() == old(self).spec_open_calls(),
    {
        self.open_error = Some(err);
    }

    /// Snapshot of every `open` call recorded so far.
    pub fn open_calls(&self) -> (c: Vec<(String, Backend)>)
        ensures
            same_calls(c@, self.spec_open_calls()),
    {
        let n = self.open_calls.len();
        let mut c: Vec<(String, Backend)> = Vec::with_capacity(n);
        let mut i: usize = 0;
        while i < n
            invariant
                n == self.open_calls@.len(),
                i <= n,
                c@.len() == i,
                forall|k: int|
                    0 <= k < i ==> (#[trigger] c@[k]).0@ == self.open_calls@[k].0@ && c@[k].1
                        == self.open_calls@[k].1,
            decreases n - i,
        {
            let path = self.open_calls[i].0.clone();
            c.push((path, self.open_calls[i].1));
            i = i + 1;
        }
        c
    }

    /// Record the call, then fail with the armed error if there is one
    /// (disarming it), else open a stream over a copy of the scripted frames.
    pub fn open(&mut self, path: String, backend: Backend) -> (r: Result<
        ScriptedVideoStream,
        VideoCaptureError,
    >)
        ensures
            final(self).spec_open_calls() == old(self).spec_open_calls().push((path@, backend)),
            final(self).spec_frames() == old(self).spec_frames(),
            final(self).spec_fps_bits() == old(self).spec_fps_bits(),
            final(self).spec_open_error() is None,
            old(self).spec_open_error() matches Some(e) ==> r == Err::<
                ScriptedVideoStream,
                VideoCaptureError,
            >(e),
            old(self).spec_open_error() is None ==> (r matches Ok(s) && {
                &&& same_frames(s.spec_frames(), old(self).spec_frames())
                &&& s.spec_cursor() == 0
                &&& s.spec_fps_bits() == old(self).spec_fps_bits()
            }),
    {
        let ghost path_view = path@;
        self.open_calls.push((path, backend));
        assert(self.spec_open_calls() =~= old(self).spec_open_calls().push((path_view, backend)));
        if let Some(err) = self.open_error.take() {
            return Err(err);
        }
        let frames = copy_frames(&self.frames);
        Ok(ScriptedVideoStream { frames, cursor: 0, fps_bits: self.fps_bits })
    }
}

/// Position of a stream over `len` frames after one read from `cursor`.
pub open spec fn stream_step(len: int, cursor: int) -> int {
    if cursor < len {
        cursor + 1
    } else {
        cursor
    }
}

/// Position of a stream over `len` frames after `n` reads from `cursor`.
pub open spec fn cursor_after(len: int, cursor: int, n: nat) -> int
    decreases n,
{
    if n == 0 {
        cursor
    } else {
        stream_step(len, cursor_after(len, cursor, (n - 1) as nat))
    }
}

/// From the start (after `new` or `seek_to_start`), the `k`-th read
/// happens at position `min(k, len)`: the first `len` reads return the
/// frames in order and every later read reports the end of the stream.
pub proof fn law_reads_visit_frames_in_order(len: nat, n: nat)
    ensures
        cursor_after(len as int, 0, n) == if n <= len {
            n as int
        } else {
            len as int
        },
    decreases n,
{
    if n > 0 {
        law_reads_visit_frames_in_order(len, (n - 1) as nat);
    }
}

/// A scripted stream whose next frame is non-empty meets the precondition of
/// the read-rewind-read check.
pub proof fn law_scripted_stream_meets_read_seek_check(s: ScriptedVideoStream)
    requires
        s.spec_cursor() < s.spec_frames().len(),
        s.spec_frames()[s.spec_cursor()].width > 0,
        s.spec_frames()[s.spec_cursor()].height > 0,
    ensures
        read_seek_read_succeeds(s),
{
    assert forall|s1: ScriptedVideoStream, r1: Result<CapturedFrame, VideoCaptureError>|
        #[trigger] s.reads(&s1, &r1) implies {
        &&& non_empty_frame(r1)
        &&& forall|s2: ScriptedVideoStream, r2: Result<(), VideoCaptureError>|
            #[trigger] s1.seeks(&s2, &r2) ==> {
                &&& r2 is Ok
                &&& forall|s3: ScriptedVideoStream, r3: Result<CapturedFrame, VideoCaptureError>|
                    #[trigger] s2.reads(&s3, &r3) ==> r3 is Ok
            }
    } by {
        assert(scripted_reads(s, s1, r1));
        assert forall|s2: ScriptedVideoStream, r2: Result<(), VideoCaptureError>|
            #[trigger] s1.seeks(&s2, &r2) implies {
            &&& r2 is Ok
            &&& forall|s3: ScriptedVideoStream, r3: Result<CapturedFrame, VideoCaptureError>|
                #[trigger] s2.reads(&s3, &r3) ==> r3 is Ok
        } by {
            assert(scripted_seeks(s1, s2, r2));
            assert forall|s3: ScriptedVideoStream, r3: Result<CapturedFrame, VideoCaptureError>|
                #[trigger] s2.reads(&s3, &r3) implies r3 is Ok by {
                assert(s2.spec_frames() == s.spec_frames());
                assert(s2.spec_cursor() < s2.spec_frames().len());
                assert(scripted_reads(s2, s3, r3));
            }
        }
    }
}

/// Every scripted stream reports the end after at most as many successful
/// reads as it has frames left, and fails with no other error: it meets the
/// precondition of the end-of-stream check.
pub proof fn law_scripted_stream_meets_end_of_stream_check(s: ScriptedVideoStream)
    requires
        s.spec_cursor() <= s.spec_frames().len(),
    ensures
        ends_within(s, (s.spec_frames().len() - s.spec_cursor()) as nat),
    decreases s.spec_frames().len() - s.spec_cursor(),
{
    let n = (s.spec_frames().len() - s.spec_cursor()) as nat;
    assert forall|s1: ScriptedVideoStream, r1: Result<CapturedFrame, VideoCaptureError>|
        #[trigger] s.reads(&s1, &r1) implies match r1 {
        Ok(_) => n > 0 && ends_within(s1, (n - 1) as nat),
        Err(e) => e is EndOfStream,
    } by {
        assert(scripted_reads(s, s1, r1));
        if r1 is Ok {
            law_scripted_stream_meets_end_of_stream_check(s1);
        }
    }
}

/// `rs` are the results of successive reads that took a stream through the
/// states `states`, from `states[0]` to the last.
pub open spec fn read_history(
    states: Seq<ScriptedVideoStream>,
    rs: Seq<Result<CapturedFrame, VideoCaptureError>>,
) -> bool {
    &&& states.len() == rs.len() + 1
    &&& forall|i: int| 0 <= i < rs.len() ==> scripted_reads(states[i], states[i + 1], #[trigger] rs[i])
}

/// After `k` reads from the start, a stream holds the same frames and stands
/// at position `min(k, len)`.
proof fn lemma_history_position(
    states: Seq<ScriptedVideoStream>,
    rs: Seq<Result<CapturedFrame, VideoCaptureError>>,
    k: int,
)
    requires
        read_history(states, rs),
        states[0].spec_cursor() == 0,
        0 <= k <= rs.len(),
    ensures
        states[k].spec_frames() == states[0].spec_frames(),
        states[k].spec_cursor() == if k <= states[0].spec_frames().len() {
            k
        } else {
            states[0].spec_frames().len() as int
        },
    decreases k,
{
    if k > 0 {
        lemma_history_position(states, rs, k - 1);
        assert(scripted_reads(states[k - 1], states[k], rs[k - 1]));
    }
}

/// Reads from the start of a stream (after `new`, `open` or `seek_to_start`)
/// over frames `fs` give the frames of `fs` in order; once they are spent,
/// every further read reports [`VideoCaptureError::EndOfStream`].
pub proof fn law_read_history_yields_frames_in_order(
    fs: Seq<CapturedFrame>,
    states: Seq<ScriptedVideoStream>,
    rs: Seq<Result<CapturedFrame, VideoCaptureError>>,
)
    requires
        read_history(states, rs),
        states[0].spec_cursor() == 0,
        same_frames(states[0].spec_frames(), fs),
    ensures
        forall|i: int|
            0 <= i < rs.len() && i < fs.len() ==> (#[trigger] rs[i] matches Ok(f) && same_frame(
                f,
                fs[i],
            )),
        forall|i: int|
            0 <= i < rs.len() && i >= fs.len() ==> (#[trigger] rs[i] matches Err(
                VideoCaptureError::EndOfStream,
            )),
{
    assert forall|i: int| 0 <= i < rs.len() implies {
        &&& i < fs.len() ==> (#[trigger] rs[i] matches Ok(f) && same_frame(f, fs[i]))
        &&& i >= fs.len() ==> (rs[i] matches Err(VideoCaptureError::EndOfStream))
    } by {
        lemma_history_position(states, rs, i);
        assert(scripted_reads(states[i], states[i + 1], rs[i]));
        if i < fs.len() {
            assert(same_frame(states[0].spec_frames()[i], fs[i]));
        }
    }
}

} // verus!
