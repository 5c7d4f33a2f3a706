//! The decisions of the capture loop: when to (re)open the camera, what a
//! camera that opened or failed leaves behind, and how frames are counted and
//! the frame-rate window is closed. The loop itself, which talks to the camera
//! and sleeps, runs outside the library and asks these functions at each turn.
use vstd::prelude::*;

use crate::media::{test_pattern_frame, test_pattern_jpeg};


verus! {

/// Width the capture starts with.
pub const DEFAULT_WIDTH: u32 = 1280;

/// Height the capture starts with.
pub const DEFAULT_HEIGHT: u32 = 720;

/// Frame rate asked of the camera.
pub const REQUESTED_FRAME_RATE: u32 = 30;

/// How long a missing camera is left alone before it is looked for again.
pub const REOPEN_INTERVAL_MS: u64 = 2000;

/// Length of the window over which the frame rate is measured.
pub const FPS_WINDOW_MS: u64 = 1000;

/// Pause between two test-card frames (about 30 a second).
pub const TEST_PATTERN_INTERVAL_MS: u64 = 33;

/// Camera name reported before any frame was made.
pub const WAITING_CAMERA_NAME: &'static str = "Waiting for camera...";

/// Camera name the capture starts with, before a camera was found.
pub const UNKNOWN_CAMERA_NAME: &'static str = "Camera";

/// Camera name reported while the test card is shown.
pub const TEST_PATTERN_NAME: &'static str =
    "WSL-Cam-Bridge: Live Test Pattern (Connect camera anytime)";

/// The camera and picture size that the capture is asked for.
#[derive(Clone, Copy, Debug, PartialEq, Eq, Structural)]
pub struct CaptureTargets {
    pub camera_index: u32,
    pub width: u32,
    pub height: u32,
}

impl CaptureTargets {
    /// What the capture is asked for at start: the first camera, 1280 x 720.
    pub fn initial() -> (t: CaptureTargets)
        ensures
            t == (CaptureTargets { camera_index: 0, width: DEFAULT_WIDTH, height: DEFAULT_HEIGHT }),
    {
        CaptureTargets { camera_index: 0, width: DEFAULT_WIDTH, height: DEFAULT_HEIGHT }
    }
}

/// How an attempt to open the camera ended.
pub enum OpenOutcome {
    /// No camera could be had at that index.
    Unavailable,
    /// The camera was found, under this name, but its stream did not start.
    Failed { name: String },
    /// The camera, under this name, is streaming.
    Opened { name: String },
}

/// The state that the capture loop carries from one turn to the next.
pub struct CaptureState {
    /// What the open camera was opened for.
    pub current: CaptureTargets,
    /// Whether a camera is open.
    pub camera_open: bool,
    /// Name of the camera last found.
    pub camera_name: String,
    /// Frames made so far.
    pub frame_count: u64,
    /// Frames made in the current frame-rate window.
    pub fps_counter: u32,
}

/// The model of the capture state.
pub struct CaptureModel {
    pub current: CaptureTargets,
    pub camera_open: bool,
    pub camera_name: Seq<char>,
    pub frame_count: u64,
    pub fps_counter: u32,
}

impl View for CaptureState {
    type V = CaptureModel;

    open spec fn view(&self) -> CaptureModel {
        CaptureModel {
            current: self.current,
            camera_open: self.camera_open,
            camera_name: self.camera_name@,
            frame_count: self.frame_count,
            fps_counter: self.fps_counter,
        }
    }
}

/// Whether the loop (re)opens the camera this turn: while running, when the
/// targets differ from what the camera was opened for, or when no camera is
/// open and the last attempt is at least two seconds old.
pub open spec fn reopen_due(
    m: CaptureModel,
    targets: CaptureTargets,
    since_attempt_ms: u64,
    running: bool,
) -> bool {
    running && ((!m.camera_open && since_attempt_ms >= REOPEN_INTERVAL_MS) || targets
        != m.current)
}

/// The state after an attempt to open the camera for `targets`: the old
/// camera is closed first; a camera that was found gives its name; one that
/// streams is open and remembered as opened for `targets`.
pub open spec fn after_open(m: CaptureModel, targets: CaptureTargets, outcome: OpenOutcome) -> CaptureModel {
    match outcome {
        OpenOutcome::Unavailable => CaptureModel { camera_open: false, ..m },
        OpenOutcome::Failed { name } => CaptureModel { camera_open: false, camera_name: name@, ..m },
        OpenOutcome::Opened { name } => CaptureModel {
            current: targets,
            camera_open: true,
            camera_name: name@,
            ..m
        },
    }
}

/// The state after a frame was made and published.
pub open spec fn after_frame(m: CaptureModel) -> CaptureModel {
    CaptureModel { frame_count: (m.frame_count + 1) as u64, fps_counter: (m.fps_counter + 1) as u32, ..m }
}

/// What reading the camera gave this turn.
pub enum CameraRead {
    /// No camera is open.
    NoCamera,
    /// The open camera failed to deliver a frame; it is dropped.
    Failed,
    /// The camera delivered a frame that gives no JPEG frame.
    Unusable,
    /// The camera's frame, as a JPEG frame of `width` x `height` pixels.
    Frame { jpeg: Vec<u8>, width: u32, height: u32 },
}

/// What a turn publishes as the latest frame.
pub struct Published {
    pub jpeg: Vec<u8>,
    pub width: u32,
    pub height: u32,
    pub frame_count: u64,
    pub camera_name: String,
    /// The number of frames made in the frame-rate window, where it closed
    /// this turn (the rate is that number over the window's length).
    pub fps_window: Option<u32>,
    /// Whether it is the camera's frame; after the test card the loop pauses.
    pub from_camera: bool,
}

/// Whether the test card can be made for `targets` as frame `frame_count`:
/// its bytes are counted in 32 bits, and the block's travel in 64.
pub open spec fn test_card_possible(targets: CaptureTargets, frame_count: u64) -> bool {
    &&& targets.width * targets.height * 3 <= u32::MAX
    &&& frame_count * 8 <= u64::MAX
}

/// The state after the rest of a turn: a failed read drops the camera, the
/// frame is counted, and the frame-rate window closes if it has lasted
/// `elapsed_ms`.
pub open spec fn turn_state(m: CaptureModel, read: CameraRead, elapsed_ms: u64) -> CaptureModel {
    let m1 = if read is Failed {
        CaptureModel { camera_open: false, ..m }
    } else {
        m
    };
    let m2 = after_frame(m1);
    if fps_window_closes(elapsed_ms) {
        CaptureModel { fps_counter: 0, ..m2 }
    } else {
        m2
    }
}

/// Whether the frame-rate window closes after `elapsed_ms`.
pub open spec fn fps_window_closes(elapsed_ms: u64) -> bool {
    elapsed_ms >= FPS_WINDOW_MS
}

impl CaptureState {
    /// The state before the first turn: no camera, opened for nothing that
    /// can be asked for (camera `u32::MAX`, size 0 x 0), nothing counted.
    pub fn new() -> (s: CaptureState)
        ensures
            s.current == (CaptureTargets { camera_index: u32::MAX, width: 0, height: 0 }),
            !s.camera_open,
            s.camera_name@ == UNKNOWN_CAMERA_NAME@,
            s.frame_count == 0,
            s.fps_counter == 0,
    {
        let mut name = String::new();
        name.append(UNKNOWN_CAMERA_NAME);
        proof {
            assert(name@ =~= UNKNOWN_CAMERA_NAME@);
        }
        CaptureState {
            current: CaptureTargets { camera_index: u32::MAX, width: 0, height: 0 },
            camera_open: false,
            camera_name: name,
            frame_count: 0,
            fps_counter: 0,
        }
    }

    /// Whether to (re)open the camera this turn, for `targets`, when the last
    /// attempt was `since_attempt_ms` ago.
    pub fn needs_open(&self, targets: CaptureTargets, since_attempt_ms: u64, running: bool) -> (r:
        bool)
        ensures
            r == reopen_due(self@, targets, since_attempt_ms, running),
    {
        let changed = targets.camera_index != self.current.camera_index || targets.width
            != self.current.width || targets.height != self.current.height;
        running && ((!self.camera_open && since_attempt_ms >= REOPEN_INTERVAL_MS) || changed)
    }

    /// Records how an attempt to open the camera for `targets` ended.
    pub fn record_open(&mut self, targets: CaptureTargets, outcome: OpenOutcome)
        ensures
            final(self)@ == after_open(old(self)@, targets, outcome),
    {
        match outcome {
            OpenOutcome::Unavailable => {
                self.camera_open = false;
            },
            OpenOutcome::Failed { name } => {
                self.camera_open = false;
                self.camera_name = name;
            },
            OpenOutcome::Opened { name } => {
                self.current = targets;
                self.camera_open = true;
                self.camera_name = name;
            },
        }
    }

    /// Records that a frame was made.
    fn record_frame(&mut self)
        requires
            old(self).frame_count < u64::MAX,
            old(self).fps_counter < u32::MAX,
        ensures
            final(self)@ == after_frame(old(self)@),
    {
        self.frame_count = self.frame_count + 1;
        self.fps_counter = self.fps_counter + 1;
    }

    /// Closes the frame-rate window if it has lasted `elapsed_ms`: gives the
    /// number of frames made in it and starts counting again; otherwise
    /// leaves the count alone.
    fn close_fps_window(&mut self, elapsed_ms: u64) -> (r: Option<u32>)
        ensures
            fps_window_closes(elapsed_ms) ==> r == Some(old(self).fps_counter) && final(self)@ == (
            CaptureModel { fps_counter: 0, ..old(self)@ }),
            !fps_window_closes(elapsed_ms) ==> r.is_none() && final(self)@ == old(self)@,
    {
        if elapsed_ms >= FPS_WINDOW_MS {
            let n = self.fps_counter;
            self.fps_counter = 0;
            Some(n)
        } else {
            None
        }
    }

    /// The rest of a turn, once the camera was (re)opened if it had to be
    /// and read if one is open: the camera's frame is published when it gave
    /// one; otherwise (no camera, a failed read, which drops the camera, or
    /// an unusable frame) the test card for `targets` is. Either way the frame
    /// is counted, and the frame-rate window closes if it has lasted
    /// `elapsed_ms`.
    pub fn publish_step(&mut self, targets: CaptureTargets, read: CameraRead, elapsed_ms: u64) -> (p:
        Published)
        requires
            old(self).frame_count < u64::MAX,
            old(self).fps_counter < u32::MAX,
            !(read is Frame) ==> test_card_possible(targets, old(self).frame_count),
        ensures
            final(self)@ == turn_state(old(self)@, read, elapsed_ms),
            p.frame_count == final(self).frame_count,
            p.fps_window == if fps_window_closes(elapsed_ms) {
                Some((old(self).fps_counter + 1) as u32)
            } else {
                None
            },
            match read {
                CameraRead::Frame { jpeg, width, height } => {
                    &&& p.jpeg@ == jpeg@
                    &&& p.width == width
                    &&& p.height == height
                    &&& p.camera_name@ == old(self).camera_name@
                    &&& p.from_camera
                },
                _ => {
                    &&& p.jpeg@ == test_pattern_frame(
                        targets.width,
                        targets.height,
                        old(self).frame_count,
                    )
                    &&& p.width == targets.width
                    &&& p.height == targets.height
                    &&& p.camera_name@ == TEST_PATTERN_NAME@
                    &&& !p.from_camera
                },
            },
    {
        let (jpeg, width, height, from_camera) = match read {
            CameraRead::Frame { jpeg, width, height } => (jpeg, width, height, true),
            CameraRead::Failed => {
                self.camera_open = false;
                (
                    test_pattern_jpeg(targets.width, targets.height, self.frame_count),
                    targets.width,
                    targets.height,
                    false,
                )
            },
            _ => (
                test_pattern_jpeg(targets.width, targets.height, self.frame_count),
                targets.width,
                targets.height,
                false,
            ),
        };
        let camera_name = if from_camera {
            self.camera_name.clone()
        } else {
            let mut name = String::new();
            name.append(TEST_PATTERN_NAME);
            proof {
                assert(name@ =~= TEST_PATTERN_NAME@);
            }
            name
        };
        self.record_frame();
        let fps_window = self.close_fps_window(elapsed_ms);
        Published { jpeg, width, height, frame_count: self.frame_count, camera_name, fps_window, from_camera }
    }
}

/// Law: a camera that opened for some targets is not reopened while the
/// targets stay the same, however long ago the attempt was.
pub proof fn lemma_open_camera_settles(
    m: CaptureModel,
    targets: CaptureTargets,
    name: String,
    since_attempt_ms: u64,
)
    ensures
        !reopen_due(
            after_open(m, targets, OpenOutcome::Opened { name }),
            targets,
            since_attempt_ms,
            true,
        ),
{
}

/// Law: after an attempt that left no camera open, the camera is tried again
/// once the retry interval has passed.
pub proof fn lemma_missing_camera_retried(
    m: CaptureModel,
    targets: CaptureTargets,
    outcome: OpenOutcome,
    since_attempt_ms: u64,
)
    requires
        !(outcome is Opened),
        since_attempt_ms >= REOPEN_INTERVAL_MS,
    ensures
        reopen_due(after_open(m, targets, outcome), targets, since_attempt_ms, true),
{
}

/// Law: new targets always cause a reopen while the loop runs, and nothing
/// is opened once it has stopped.
pub proof fn lemma_reopen_on_change(
    m: CaptureModel,
    targets: CaptureTargets,
    since_attempt_ms: u64,
)
    ensures
        targets != m.current ==> reopen_due(m, targets, since_attempt_ms, true),
        !reopen_due(m, targets, since_attempt_ms, false),
{
}

/// Law: every frame made adds one to the frame count, so the counts that
/// frames are published under strictly increase.
pub proof fn lemma_frame_count_increases(m: CaptureModel)
    requires
        m.frame_count < u64::MAX,
        m.fps_counter < u32::MAX,
    ensures
        after_frame(m).frame_count == m.frame_count + 1,
        after_frame(m).frame_count > m.frame_count,
{
}

/// The state after a run of turns, each with what reading the camera gave
/// and how long the frame-rate window had lasted.
pub open spec fn run_turns(m: CaptureModel, turns: Seq<(CameraRead, u64)>) -> CaptureModel
    decreases turns.len(),
{
    if turns.len() == 0 {
        m
    } else {
        turn_state(run_turns(m, turns.drop_last()), turns.last().0, turns.last().1)
    }
}

/// Law: from a fresh state (nothing counted), the frame of the n-th turn is
/// published as frame n, whatever the camera gave and however the frame-rate
/// windows closed; so the published counts run 1, 2, 3, ... The counters stay
/// within their ranges for fewer than 2^32 - 1 turns.
pub proof fn lemma_frames_counted_from_start(m: CaptureModel, turns: Seq<(CameraRead, u64)>)
    requires
        m.frame_count == 0,
        m.fps_counter == 0,
        turns.len() < u32::MAX,
    ensures
        run_turns(m, turns).frame_count == turns.len(),
        run_turns(m, turns).fps_counter <= turns.len(),
    decreases turns.len(),
{
    if turns.len() > 0 {
        lemma_frames_counted_from_start(m, turns.drop_last());
    }
}

/// Law: an attempt that leaves no camera streaming (none found, or its
/// stream did not start) does not change what the camera is taken to be
/// opened for; so when the targets differ from that, the camera is tried
/// again on the very next turn, however recent the attempt.
pub proof fn lemma_failed_open_keeps_targets(
    m: CaptureModel,
    targets: CaptureTargets,
    outcome: OpenOutcome,
    since_attempt_ms: u64,
)
    requires
        !(outcome is Opened),
    ensures
        after_open(m, targets, outcome).current == m.current,
        !after_open(m, targets, outcome).camera_open,
        targets != m.current ==> reopen_due(
            after_open(m, targets, outcome),
            targets,
            since_attempt_ms,
            true,
        ),
{
}

/// Law: from the state before the first turn, an attempt that opens no
/// camera is followed by another attempt on the next turn, for any targets.
pub proof fn lemma_first_failure_retried_at_once(
    targets: CaptureTargets,
    outcome: OpenOutcome,
    since_attempt_ms: u64,
    name: Seq<char>,
)
    requires
        !(outcome is Opened),
    ensures
        ({
            let start = CaptureModel {
                current: CaptureTargets { camera_index: u32::MAX, width: 0, height: 0 },
                camera_open: false,
                camera_name: name,
                frame_count: 0,
                fps_counter: 0,
            };
            targets != start.current ==> reopen_due(
                after_open(start, targets, outcome),
                targets,
                since_attempt_ms,
                true,
            )
        }),
{
}

} // verus!
