//! The frame loop as a state machine: window events and frame outcomes come
//! in, commands for the graphics context go out.
use crate::format::{is_selected_format, select_surface_format, InitError};
use crate::frame::{classify, frame_for, is_recoverable, plan_frame, AcquireFailure, FramePlan, RenderError};
use crate::pipeline::{build_pipeline, pipeline_for, PipelineDesc};
use crate::surface::{initial_settings, with_size, SurfaceSettings};
use vstd::prelude::*;

verus! {

/// Whether the loop still runs.
#[derive(Clone, Copy, Debug, PartialEq, Eq)]
pub enum LoopState {
    Running,
    /// Terminal: no frame is rendered any more.
    Closing,
}

/// What the loop is told.
#[derive(Clone, Copy, Debug, PartialEq, Eq)]
pub enum Event {
    /// The window's close button was pressed.
    CloseRequested,
    /// The window's client area took a new size.
    Resized { width: u32, height: u32 },
    /// The loop is idle: time for a frame.
    Tick,
    /// The frame last asked for was submitted and presented.
    FramePresented,
    /// The frame last asked for failed.
    FrameFailed(AcquireFailure),
}

/// What the loop asks of the graphics context.
#[derive(Clone, Copy, Debug, PartialEq, Eq)]
pub enum Command {
    /// Nothing to do.
    Idle,
    /// Configure the surface as given.
    Configure(SurfaceSettings),
    /// Render and present the frame as planned.
    Render(FramePlan),
    /// The frame failed and is skipped; the loop goes on. Where `reconfigure`
    /// holds a configuration, the surface is configured again with it, at the
    /// last known size, before the next frame.
    Recover { error: RenderError, reconfigure: Option<SurfaceSettings> },
    /// Stop the loop: the window is closing.
    Exit,
    /// Stop the loop on a fatal error.
    Fail(RenderError),
}

/// The loop's state: whether it runs, the surface configuration it keeps, and
/// the pipeline built for that configuration's format.
#[derive(Clone, Copy, Debug, PartialEq, Eq)]
pub struct Driver {
    pub state: LoopState,
    pub settings: SurfaceSettings,
    pub pipeline: PipelineDesc,
}

/// The loop when it starts, on a surface whose chosen format is `format`.
pub open spec fn initial_driver(format: wgpu::TextureFormat) -> Driver {
    Driver {
        state: LoopState::Running,
        settings: initial_settings(format),
        pipeline: pipeline_for(format),
    }
}

/// One step of the loop: its state after `e`, and what it asks for.
pub open spec fn step(d: Driver, e: Event) -> (Driver, Command) {
    match d.state {
        LoopState::Closing => (d, Command::Idle),
        LoopState::Running => match e {
            Event::CloseRequested => (Driver { state: LoopState::Closing, ..d }, Command::Exit),
            Event::Resized { width, height } => {
                if width == 0 || height == 0 || (width == d.settings.width && height
                    == d.settings.height) {
                    (d, Command::Idle)
                } else {
                    let s = with_size(d.settings, width, height);
                    (Driver { settings: s, ..d }, Command::Configure(s))
                }
            },
            Event::Tick => (d, Command::Render(frame_for(d.settings))),
            Event::FramePresented => (d, Command::Idle),
            Event::FrameFailed(f) => {
                if !is_recoverable(f) {
                    (Driver { state: LoopState::Closing, ..d }, Command::Fail(RenderError::Fatal(f)))
                } else if f is Timeout {
                    (d, Command::Recover { error: RenderError::Recoverable(f), reconfigure: None })
                } else {
                    (
                        d,
                        Command::Recover {
                            error: RenderError::Recoverable(f),
                            reconfigure: Some(d.settings),
                        },
                    )
                }
            },
        },
    }
}

/// The loop's state after the events `evs`, in order, starting from `d`.
pub open spec fn run(d: Driver, evs: Seq<Event>) -> Driver
    decreases evs.len(),
{
    if evs.len() == 0 {
        d
    } else {
        step(run(d, evs.drop_last()), evs.last()).0
    }
}

/// What the loop asks for on each of the events `evs`, starting from `d`.
pub open spec fn commands(d: Driver, evs: Seq<Event>) -> Seq<Command>
    decreases evs.len(),
{
    if evs.len() == 0 {
        Seq::empty()
    } else {
        commands(d, evs.drop_last()).push(step(run(d, evs.drop_last()), evs.last()).1)
    }
}

impl Driver {
    /// The pipeline is the one built for the configured surface format.
    pub open spec fn wf(self) -> bool {
        self.pipeline == pipeline_for(self.settings.format)
    }

    /// Starts the loop on a surface whose chosen format is `format`: running,
    /// configured at its initial size, with the pipeline built for `format`.
    pub fn new(format: wgpu::TextureFormat) -> (r: Driver)
        ensures
            r == initial_driver(format),
            r.wf(),
    {
        let settings = SurfaceSettings::initial(format);
        let pipeline = build_pipeline(&settings);
        Driver { state: LoopState::Running, settings, pipeline }
    }

    /// Starts the loop on a surface offering `formats`, in the adapter's
    /// order: the format is selected among them, and none offered is an error.
    pub fn from_formats(formats: &Vec<wgpu::TextureFormat>) -> (r: Result<Driver, InitError>)
        ensures
            formats@.len() == 0 <==> r == Err::<Driver, InitError>(InitError::NoSurfaceFormat),
            formats@.len() > 0 <==> r is Ok,
            r matches Ok(d) ==> d.wf() && d == initial_driver(d.settings.format)
                && is_selected_format(formats@, d.settings.format),
    {
        match select_surface_format(formats) {
            Ok(f) => Ok(Driver::new(f)),
            Err(e) => Err(e),
        }
    }

    /// Takes one event, and says what the graphics context must do.
    pub fn handle(&mut self, e: Event) -> (r: Command)
        ensures
            *final(self) == step(*old(self), e).0,
            r == step(*old(self), e).1,
    {
        match self.state {
            LoopState::Closing => Command::Idle,
            LoopState::Running => match e {
                Event::CloseRequested => {
                    self.state = LoopState::Closing;
                    Command::Exit
                },
                Event::Resized { width, height } => {
                    match self.settings.resize(width, height) {
                        Ok(true) => Command::Configure(self.settings),
                        _ => Command::Idle,
                    }
                },
                Event::Tick => Command::Render(plan_frame(&self.settings)),
                Event::FramePresented => Command::Idle,
                Event::FrameFailed(f) => {
                    match classify(f) {
                        RenderError::Fatal(g) => {
                            self.state = LoopState::Closing;
                            Command::Fail(RenderError::Fatal(g))
                        },
                        RenderError::Recoverable(g) => {
                            let reconfigure = match g {
                                AcquireFailure::Timeout => None,
                                _ => Some(self.settings),
                            };
                            Command::Recover { error: RenderError::Recoverable(g), reconfigure }
                        },
                    }
                },
            },
        }
    }

    /// Whether the loop has stopped.
    pub fn is_closing(&self) -> (r: bool)
        ensures
            r == (self.state is Closing),
    {
        match self.state {
            LoopState::Closing => true,
            LoopState::Running => false,
        }
    }
}

} // verus!
