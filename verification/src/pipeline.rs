use vstd::prelude::*;

use crate::config::DetectorConfig;
use crate::frame::{is_annotated, is_gray_of, ColorFrame, GrayFrame};
use crate::region::Region;

verus! {

/// Why the loop stopped: whichever external step failed first, mapped to
/// its place in the loop. Every failure is fatal — there is no retry.
#[derive(Clone, Copy, PartialEq, Eq, Structural, Debug)]
pub enum FailureKind {
    /// The detector model could not be loaded from its file.
    ModelUnavailable,
    /// The camera device could not be opened.
    CameraUnavailable,
    /// A frame could not be read from the open camera.
    FrameReadError,
    /// The detector failed on a frame.
    DetectionError,
    /// The display subsystem failed to show a frame.
    DisplayError,
}

/// Where the loop stands between two external reports.
pub enum Phase {
    /// The detector model is being loaded from its file. Nothing else has
    /// been touched yet — in particular, no camera.
    LoadingModel,
    /// The model is loaded; the camera device is being opened.
    OpeningCamera,
    /// Waiting for the next captured frame.
    AwaitingFrame,
    /// A frame was captured and reduced to grayscale; waiting for the
    /// detector's regions. The exact color frame under analysis is
    /// retained here so that annotation happens on it and on no other.
    AwaitingRegions { analyzed: ColorFrame },
    /// The annotated frame is being shown.
    Presenting,
    /// A failure ended the loop.
    Stopped { failure: FailureKind },
}

/// What the outside world reports back to the loop, one report per step.
pub enum Event {
    /// The detector model loaded.
    ModelLoaded,
    /// The detector model could not be loaded.
    ModelLoadFailed,
    /// The camera device opened.
    CameraOpened,
    /// The camera device could not be opened.
    CameraOpenFailed,
    /// One frame arrived from the camera.
    FrameCaptured { frame: ColorFrame },
    /// The camera could not deliver a frame.
    FrameReadFailed,
    /// The detector finished on the image it was handed.
    RegionsComputed { regions: Vec<Region> },
    /// The detector failed.
    DetectionFailed,
    /// The frame was shown and the key poll returned.
    FramePresented,
    /// The display subsystem failed.
    DisplayFailed,
}

/// What the loop asks its caller to do next.
pub enum Action {
    /// Load the detector model from its file.
    LoadModel,
    /// Open the camera device.
    OpenCamera,
    /// Capture one frame from the camera.
    CaptureFrame,
    /// Run the detector on this grayscale image, with the loop's
    /// configuration.
    Detect { gray: GrayFrame },
    /// Show this frame in the window and poll once for a key press.
    Present { frame: ColorFrame },
    /// Stop: the given step failed.
    Halt { failure: FailureKind },
}

/// The capture-detect-annotate loop as a state machine. The caller
/// performs each returned `Action` against the outside world and feeds
/// the outcome back as an `Event`; every decision in between is made
/// here.
pub struct Pipeline {
    /// The detector parameters, fixed at startup.
    pub config: DetectorConfig,
    /// Where the loop stands.
    pub phase: Phase,
    /// Completed capture-detect-annotate-present rounds.
    pub iterations: u64,
}

impl Pipeline {
    /// Any frame the loop holds on to is well formed.
    pub open spec fn wf(self) -> bool {
        match self.phase {
            Phase::AwaitingRegions { analyzed } => analyzed.wf(),
            _ => true,
        }
    }
}

/// Which report fits which phase: each phase awaits the outcome of
/// exactly one external step, in success or failure form, and a captured
/// frame must be well formed.
pub open spec fn event_fits(phase: Phase, event: Event) -> bool {
    match (phase, event) {
        (Phase::LoadingModel, Event::ModelLoaded) => true,
        (Phase::LoadingModel, Event::ModelLoadFailed) => true,
        (Phase::OpeningCamera, Event::CameraOpened) => true,
        (Phase::OpeningCamera, Event::CameraOpenFailed) => true,
        (Phase::AwaitingFrame, Event::FrameCaptured { frame }) => frame.wf(),
        (Phase::AwaitingFrame, Event::FrameReadFailed) => true,
        (Phase::AwaitingRegions { .. }, Event::RegionsComputed { .. }) => true,
        (Phase::AwaitingRegions { .. }, Event::DetectionFailed) => true,
        (Phase::Presenting, Event::FramePresented) => true,
        (Phase::Presenting, Event::DisplayFailed) => true,
        _ => false,
    }
}

/// The loop stops with the given failure and tells the caller to halt.
pub open spec fn halts_with(pre: Pipeline, post: Pipeline, action: Action, failure: FailureKind) -> bool {
    &&& post.phase == (Phase::Stopped { failure })
    &&& post.iterations == pre.iterations
    &&& action == (Action::Halt { failure })
}

/// The loop's transition relation: from state `pre`, the report `event`
/// yields state `post` and instruction `action`. Captured in one place so
/// that the ordering of the loop can be stated and proved about it.
pub open spec fn steps_to(pre: Pipeline, event: Event, post: Pipeline, action: Action) -> bool {
    &&& post.config == pre.config
    &&& match (pre.phase, event) {
        (Phase::LoadingModel, Event::ModelLoaded) => {
            &&& post.phase is OpeningCamera
            &&& post.iterations == pre.iterations
            &&& action is OpenCamera
        },
        (Phase::LoadingModel, Event::ModelLoadFailed) => halts_with(
            pre,
            post,
            action,
            FailureKind::ModelUnavailable,
        ),
        (Phase::OpeningCamera, Event::CameraOpened) => {
            &&& post.phase is AwaitingFrame
            &&& post.iterations == pre.iterations
            &&& action is CaptureFrame
        },
        (Phase::OpeningCamera, Event::CameraOpenFailed) => halts_with(
            pre,
            post,
            action,
            FailureKind::CameraUnavailable,
        ),
        (Phase::AwaitingFrame, Event::FrameCaptured { frame }) => {
            &&& post.phase == (Phase::AwaitingRegions { analyzed: frame })
            &&& post.iterations == pre.iterations
            &&& action matches Action::Detect { gray } && is_gray_of(gray, frame)
        },
        (Phase::AwaitingFrame, Event::FrameReadFailed) => halts_with(
            pre,
            post,
            action,
            FailureKind::FrameReadError,
        ),
        (Phase::AwaitingRegions { analyzed }, Event::RegionsComputed { regions }) => {
            &&& post.phase is Presenting
            &&& post.iterations == pre.iterations
            &&& action matches Action::Present { frame } && is_annotated(frame, analyzed, regions@)
        },
        (Phase::AwaitingRegions { .. }, Event::DetectionFailed) => halts_with(
            pre,
            post,
            action,
            FailureKind::DetectionError,
        ),
        (Phase::Presenting, Event::FramePresented) => {
            &&& post.phase is AwaitingFrame
            &&& post.iterations == pre.iterations + 1
            &&& action is CaptureFrame
        },
        (Phase::Presenting, Event::DisplayFailed) => halts_with(
            pre,
            post,
            action,
            FailureKind::DisplayError,
        ),
        _ => false,
    }
}

impl Pipeline {
    /// Set up the loop: the detector configuration is fixed up front, and
    /// the first thing asked of the caller is to load the model — the
    /// camera is approached only after the model has loaded.
    pub fn new(config: DetectorConfig) -> (r: (Pipeline, Action))
        ensures
            r.0.config == config,
            r.0.phase is LoadingModel,
            r.0.iterations == 0,
            r.0.wf(),
            r.1 is LoadModel,
    {
        (Pipeline { config, phase: Phase::LoadingModel, iterations: 0 }, Action::LoadModel)
    }

    /// Advance the loop by one external report. The per-round order is
    /// built in: detection is requested only as the immediate answer to a
    /// captured frame, on that frame's grayscale reduction, and the frame
    /// handed out for presentation is the annotated copy of exactly the
    /// frame that was analyzed — never a newer capture. A failure report
    /// stops the loop for good.
    pub fn step(self, event: Event) -> (r: (Pipeline, Action))
        requires
            self.wf(),
            event_fits(self.phase, event),
            self.iterations < u64::MAX,
        ensures
            steps_to(self, event, r.0, r.1),
            r.0.wf(),
    {
        let Pipeline { config, phase, iterations } = self;
        match (phase, event) {
            (Phase::LoadingModel, Event::ModelLoaded) => (
                Pipeline { config, phase: Phase::OpeningCamera, iterations },
                Action::OpenCamera,
            ),
            (Phase::LoadingModel, Event::ModelLoadFailed) => (
                Pipeline {
                    config,
                    phase: Phase::Stopped { failure: FailureKind::ModelUnavailable },
                    iterations,
                },
                Action::Halt { failure: FailureKind::ModelUnavailable },
            ),
            (Phase::OpeningCamera, Event::CameraOpened) => (
                Pipeline { config, phase: Phase::AwaitingFrame, iterations },
                Action::CaptureFrame,
            ),
            (Phase::OpeningCamera, Event::CameraOpenFailed) => (
                Pipeline {
                    config,
                    phase: Phase::Stopped { failure: FailureKind::CameraUnavailable },
                    iterations,
                },
                Action::Halt { failure: FailureKind::CameraUnavailable },
            ),
            (Phase::AwaitingFrame, Event::FrameCaptured { frame }) => {
                let gray = frame.to_gray();
                (
                    Pipeline { config, phase: Phase::AwaitingRegions { analyzed: frame }, iterations },
                    Action::Detect { gray },
                )
            },
            (Phase::AwaitingFrame, Event::FrameReadFailed) => (
                Pipeline {
                    config,
                    phase: Phase::Stopped { failure: FailureKind::FrameReadError },
                    iterations,
                },
                Action::Halt { failure: FailureKind::FrameReadError },
            ),
            (Phase::AwaitingRegions { analyzed }, Event::RegionsComputed { regions }) => {
                let mut frame = analyzed;
                frame.annotate(&regions);
                (
                    Pipeline { config, phase: Phase::Presenting, iterations },
                    Action::Present { frame },
                )
            },
            (Phase::AwaitingRegions { .. }, Event::DetectionFailed) => (
                Pipeline {
                    config,
                    phase: Phase::Stopped { failure: FailureKind::DetectionError },
                    iterations,
                },
                Action::Halt { failure: FailureKind::DetectionError },
            ),
            (Phase::Presenting, Event::FramePresented) => (
                Pipeline { config, phase: Phase::AwaitingFrame, iterations: iterations + 1 },
                Action::CaptureFrame,
            ),
            (Phase::Presenting, Event::DisplayFailed) => (
                Pipeline {
                    config,
                    phase: Phase::Stopped { failure: FailureKind::DisplayError },
                    iterations,
                },
                Action::Halt { failure: FailureKind::DisplayError },
            ),
            _ => {
                proof {
                    assert(false);
                }
                vstd::pervasive::unreached()
            },
        }
    }
}

/// Capture comes before detection, in the same round: the machine asks
/// for detection only as the immediate answer to a captured frame, the
/// image handed to the detector is the grayscale reduction of exactly
/// that frame, and that same frame — no other — is the one retained for
/// annotation.
pub proof fn lemma_capture_before_detect(pre: Pipeline, event: Event, post: Pipeline, action: Action)
    requires
        steps_to(pre, event, post, action),
        action matches Action::Detect { .. },
    ensures
        pre.phase is AwaitingFrame,
        event matches Event::FrameCaptured { .. },
        match (event, action, post.phase) {
            (
                Event::FrameCaptured { frame },
                Action::Detect { gray },
                Phase::AwaitingRegions { analyzed },
            ) => is_gray_of(gray, frame) && analyzed == frame,
            _ => false,
        },
{
}

/// Detection comes before drawing, and the drawing lands on the analyzed
/// frame: the machine hands a frame out for presentation only as the
/// immediate answer to the detector's regions, and that frame is the
/// annotated copy of exactly the frame analyzed in this round — never
/// one captured earlier or later.
pub proof fn lemma_detect_before_draw(pre: Pipeline, event: Event, post: Pipeline, action: Action)
    requires
        steps_to(pre, event, post, action),
        action matches Action::Present { .. },
    ensures
        pre.phase matches Phase::AwaitingRegions { .. },
        event matches Event::RegionsComputed { .. },
        post.phase is Presenting,
        match (pre.phase, event, action) {
            (
                Phase::AwaitingRegions { analyzed },
                Event::RegionsComputed { regions },
                Action::Present { frame },
            ) => is_annotated(frame, analyzed, regions@),
            _ => false,
        },
{
}

/// Each presented frame closes its round: after the presentation report
/// the machine holds no frame over and returns to capturing, and the
/// count of completed rounds grows by one — so no later round can reuse
/// this round's frame or regions.
pub proof fn lemma_present_closes_round(pre: Pipeline, event: Event, post: Pipeline, action: Action)
    requires
        steps_to(pre, event, post, action),
        pre.phase is Presenting,
        event is FramePresented,
    ensures
        post.phase is AwaitingFrame,
        post.iterations == pre.iterations + 1,
        action is CaptureFrame,
{
}

/// The camera is approached only once the model has loaded: an
/// open-camera instruction arises solely from a model-loaded report, so
/// a missing model stops the loop before any camera access.
pub proof fn lemma_model_before_camera(pre: Pipeline, event: Event, post: Pipeline, action: Action)
    requires
        steps_to(pre, event, post, action),
        action is OpenCamera,
    ensures
        pre.phase is LoadingModel,
        event is ModelLoaded,
{
}

} // verus!
