//! The frame loop: what changes from one frame to the next, and when the
//! loop ends.
//!
//! The loop itself runs in the caller, which owns the window and the device.
//! Once per iteration it hands over the events that are pending and the size
//! that the window has now, and does what it is told to do. Time is counted
//! in iterations, not read from a clock.

use vstd::prelude::*;
use vstd::math::min;
use crate::events::{any_stop, drain_events, requests, Event};
use crate::render::{submission, submit_frame, Action};
use crate::transform::{get_scale, make_transform, transform_of, TransformUniform};

verus! {

/// The milliseconds by which the elapsed time grows with each iteration.
pub const TIME_STEP: u64 = 10;

/// The width of the window at the start.
pub const INITIAL_WIDTH: u32 = 1024;

/// The height of the window at the start.
pub const INITIAL_HEIGHT: u32 = 768;

/// What a frame is computed from.
#[derive(Clone, Copy, Debug, PartialEq, Eq)]
pub struct FrameState {
    /// The time that has elapsed, in milliseconds.
    pub elapsed_time: u64,
    pub window_width: u32,
    pub window_height: u32,
    /// The angle by which the sampling plane is turned, in millionths of a
    /// radian. It stays as it was at the start.
    pub rotation_angle: i32,
}

/// The elapsed time one iteration after `elapsed_time`: a time step later,
/// unless that is more than the counter holds; then time stands still.
pub open spec fn advanced(elapsed_time: u64) -> u64 {
    if elapsed_time <= u64::MAX - TIME_STEP {
        (elapsed_time + TIME_STEP) as u64
    } else {
        elapsed_time
    }
}

/// The elapsed time `iterations` iterations after `elapsed_time`.
pub open spec fn advanced_by(elapsed_time: u64, iterations: nat) -> u64
    decreases iterations,
{
    if iterations == 0 {
        elapsed_time
    } else {
        advanced(advanced_by(elapsed_time, (iterations - 1) as nat))
    }
}

impl FrameState {
    /// The uniforms of the frame: the transform made from the whole state,
    /// and the scale of the window.
    pub open spec fn uniform_of(self) -> TransformUniform {
        TransformUniform {
            transform: transform_of(
                self.elapsed_time,
                self.window_width,
                self.window_height,
                self.rotation_angle,
            ),
            scale: min(self.window_width as int, self.window_height as int) as u32,
        }
    }

    /// The state one iteration later, in a window that has the given size
    /// by then.
    pub open spec fn next(self, width: u32, height: u32) -> FrameState {
        FrameState {
            elapsed_time: advanced(self.elapsed_time),
            window_width: width,
            window_height: height,
            rotation_angle: self.rotation_angle,
        }
    }

    /// Computes the uniforms of the frame anew from the state; nothing of an
    /// earlier frame goes into them.
    pub fn uniform(&self) -> (uniform: TransformUniform)
        ensures
            uniform == self.uniform_of(),
    {
        TransformUniform {
            transform: make_transform(
                self.elapsed_time,
                self.window_width,
                self.window_height,
                self.rotation_angle,
            ),
            scale: get_scale(self.window_width, self.window_height),
        }
    }

    /// Moves on to the next iteration: takes the size that the window has
    /// now and lets a time step pass.
    pub fn advance(&mut self, width: u32, height: u32)
        ensures
            *final(self) == old(self).next(width, height),
    {
        self.window_width = width;
        self.window_height = height;
        if self.elapsed_time <= u64::MAX - TIME_STEP {
            self.elapsed_time = self.elapsed_time + TIME_STEP;
        }
    }
}

/// Whether the frame loop goes on.
#[derive(Clone, Copy, Debug, PartialEq, Eq)]
pub enum Status {
    Running,
    /// The loop has ended, and stays so.
    Stopped,
}

/// What a frame loop is, to its callers.
pub struct LoopModel {
    pub state: FrameState,
    pub status: Status,
}

impl LoopModel {
    /// The loop at the start: no time has elapsed, and it is running.
    pub open spec fn start(width: u32, height: u32, rotation_angle: i32) -> LoopModel {
        LoopModel {
            state: FrameState {
                elapsed_time: 0,
                window_width: width,
                window_height: height,
                rotation_angle,
            },
            status: Status::Running,
        }
    }

    /// The loop after an iteration in which `events` were pending and the
    /// window had the given size. A loop that has stopped stays as it is. A
    /// running one moves on to the next state, and stops if one of the
    /// events says so.
    pub open spec fn step(self, events: Seq<Event>, width: u32, height: u32) -> LoopModel {
        match self.status {
            Status::Stopped => self,
            Status::Running => LoopModel {
                state: self.state.next(width, height),
                status: if any_stop(events) {
                    Status::Stopped
                } else {
                    Status::Running
                },
            },
        }
    }

    /// What the same iteration asks the caller to do: nothing at all of a
    /// loop that has stopped; else what the events ask for, and then the
    /// submission of the frame of the next state.
    pub open spec fn actions(
        self,
        events: Seq<Event>,
        width: u32,
        height: u32,
    ) -> Option<Seq<Action>> {
        match self.status {
            Status::Stopped => None,
            Status::Running => Some(
                requests(events) + submission(self.state.next(width, height).uniform_of()),
            ),
        }
    }

    /// The loop after the iterations in `inputs`, each of them the pending
    /// events and the size of the window.
    pub open spec fn run(self, inputs: Seq<(Seq<Event>, u32, u32)>) -> LoopModel
        decreases inputs.len(),
    {
        if inputs.len() == 0 {
            self
        } else {
            let (events, width, height) = inputs.last();
            self.run(inputs.drop_last()).step(events, width, height)
        }
    }

    /// The number of frames that the iterations in `inputs` submit.
    pub open spec fn frames(self, inputs: Seq<(Seq<Event>, u32, u32)>) -> nat
        decreases inputs.len(),
    {
        if inputs.len() == 0 {
            0
        } else {
            let (events, width, height) = inputs.last();
            let before = self.run(inputs.drop_last());
            if before.actions(events, width, height) is Some {
                self.frames(inputs.drop_last()) + 1
            } else {
                self.frames(inputs.drop_last())
            }
        }
    }
}

/// The state of a frame loop. Only [`FrameLoop::iterate`] changes it.
#[derive(Debug)]
pub struct FrameLoop {
    state: FrameState,
    status: Status,
}

impl View for FrameLoop {
    type V = LoopModel;

    closed spec fn view(&self) -> LoopModel {
        LoopModel { state: self.state, status: self.status }
    }
}

impl FrameLoop {
    /// A running loop at which no time has elapsed.
    pub fn new(width: u32, height: u32, rotation_angle: i32) -> (frame_loop: FrameLoop)
        ensures
            frame_loop@ == LoopModel::start(width, height, rotation_angle),
    {
        FrameLoop {
            state: FrameState {
                elapsed_time: 0,
                window_width: width,
                window_height: height,
                rotation_angle,
            },
            status: Status::Running,
        }
    }

    /// Tells whether the loop goes on.
    pub fn is_running(&self) -> (running: bool)
        ensures
            running == (self@.status is Running),
    {
        match self.status {
            Status::Running => true,
            Status::Stopped => false,
        }
    }

    /// What the next frame is computed from.
    pub fn state(&self) -> (state: FrameState)
        ensures
            state == self@.state,
    {
        self.state
    }

    /// The uniforms of the state as it is now.
    pub fn uniform(&self) -> (uniform: TransformUniform)
        ensures
            uniform == self@.state.uniform_of(),
    {
        self.state.uniform()
    }

    /// Runs one iteration: `events` are the pending events in the order of
    /// their arrival, `width` and `height` the size that the window has
    /// after them.
    ///
    /// A loop that has stopped does nothing and asks for nothing. A running
    /// loop drains the events, takes the size, lets a time step pass and
    /// hands out what the caller is to do, in order: what the events ask
    /// for, then the submission of the frame. The render targets are fitted
    /// to each size that a resize event announces; the frame is computed
    /// from the size that the caller has read from the window itself, which
    /// holds whether or not an event announced it. An event that ends the
    /// loop takes effect when this iteration is over: its frame is still
    /// submitted, and none after it.
    pub fn iterate(
        &mut self,
        events: &Vec<Event>,
        width: u32,
        height: u32,
    ) -> (actions: Option<Vec<Action>>)
        ensures
            final(self)@ == old(self)@.step(events@, width, height),
            match actions {
                None => old(self)@.actions(events@, width, height) is None,
                Some(list) => old(self)@.actions(events@, width, height) == Some(list@),
            },
    {
        if !self.is_running() {
            return None;
        }
        let (stop, mut actions) = drain_events(events);
        self.state.advance(width, height);
        if stop {
            self.status = Status::Stopped;
        }
        submit_frame(&mut actions, self.state.uniform());
        Some(actions)
    }
}

/// Time does not run backwards, and it moves by a whole time step as long as
/// the counter holds the sum.
pub proof fn lemma_time_advances(elapsed_time: u64)
    ensures
        advanced(elapsed_time) >= elapsed_time,
        elapsed_time + TIME_STEP <= u64::MAX ==> advanced(elapsed_time) == elapsed_time
            + TIME_STEP,
{
}

/// After a number of iterations the elapsed time has grown by as many time
/// steps, as long as the counter holds the sum.
pub proof fn lemma_time_after_iterations(elapsed_time: u64, iterations: nat)
    requires
        elapsed_time + TIME_STEP * iterations <= u64::MAX,
    ensures
        advanced_by(elapsed_time, iterations) == elapsed_time + TIME_STEP * iterations,
    decreases iterations,
{
    if iterations > 0 {
        lemma_time_after_iterations(elapsed_time, (iterations - 1) as nat);
    }
}

/// The uniforms of a frame depend on the size that the window has in the
/// iteration of that frame, and on no earlier size: a window that was
/// resized is drawn at its new size at once.
pub proof fn lemma_frame_has_current_size(
    model: LoopModel,
    events: Seq<Event>,
    width: u32,
    height: u32,
)
    requires
        model.status is Running,
    ensures
        ({
            let after = model.step(events, width, height);
            &&& after.state.window_width == width
            &&& after.state.window_height == height
            &&& after.state.uniform_of().scale == min(width as int, height as int)
            &&& after.state.uniform_of().transform == transform_of(
                advanced(model.state.elapsed_time),
                width,
                height,
                model.state.rotation_angle,
            )
            &&& model.actions(events, width, height) == Some(
                requests(events) + submission(after.state.uniform_of()),
            )
        }),
{
}

/// An event that ends the loop stops it in the iteration that drains the
/// event, wherever among the events it stands, and that iteration still
/// submits its frame.
pub proof fn lemma_stop_event_stops(
    model: LoopModel,
    events: Seq<Event>,
    width: u32,
    height: u32,
    i: int,
)
    requires
        model.status is Running,
        0 <= i < events.len(),
        events[i].is_stop(),
    ensures
        model.step(events, width, height).status is Stopped,
        model.actions(events, width, height) is Some,
{
}

/// A loop that has stopped stays stopped and unchanged whatever iterations
/// follow, and submits no frame in any of them.
pub proof fn lemma_stopped_is_final(model: LoopModel, inputs: Seq<(Seq<Event>, u32, u32)>)
    requires
        model.status is Stopped,
    ensures
        model.run(inputs) == model,
        model.frames(inputs) == 0,
        forall|events: Seq<Event>, width: u32, height: u32|
            #[trigger] model.actions(events, width, height) is None,
    decreases inputs.len(),
{
    if inputs.len() > 0 {
        lemma_stopped_is_final(model, inputs.drop_last());
    }
}

/// As long as no event ends the loop, every iteration submits a frame and
/// lets a time step pass: after `n` iterations `n` frames were submitted and
/// the elapsed time has grown by `n` time steps.
pub proof fn lemma_run_without_stop(model: LoopModel, inputs: Seq<(Seq<Event>, u32, u32)>)
    requires
        model.status is Running,
        forall|k: int| 0 <= k < inputs.len() ==> !any_stop(#[trigger] inputs[k].0),
    ensures
        model.run(inputs).status is Running,
        model.run(inputs).state.rotation_angle == model.state.rotation_angle,
        model.run(inputs).state.elapsed_time == advanced_by(
            model.state.elapsed_time,
            inputs.len(),
        ),
        model.frames(inputs) == inputs.len(),
    decreases inputs.len(),
{
    if inputs.len() > 0 {
        let front = inputs.drop_last();
        assert forall|k: int| 0 <= k < front.len() implies !any_stop(#[trigger] front[k].0) by {
            assert(front[k] == inputs[k]);
        }
        lemma_run_without_stop(model, front);
        assert(!any_stop(inputs[inputs.len() - 1].0));
    }
}

/// A loop that runs from the start without an event that ends it has, after
/// `n` iterations, an elapsed time of `n` time steps, and its next frame is
/// moved along the depth axis by that time divided by fifty thousand.
pub proof fn lemma_time_from_start(
    width: u32,
    height: u32,
    rotation_angle: i32,
    inputs: Seq<(Seq<Event>, u32, u32)>,
)
    requires
        forall|k: int| 0 <= k < inputs.len() ==> !any_stop(#[trigger] inputs[k].0),
        TIME_STEP * inputs.len() <= u64::MAX,
    ensures
        ({
            let after = LoopModel::start(width, height, rotation_angle).run(inputs);
            &&& after.status is Running
            &&& after.state.elapsed_time == TIME_STEP * inputs.len()
            &&& after.state.uniform_of().transform.depth.num == TIME_STEP * inputs.len()
            &&& after.state.uniform_of().transform.depth.den == 50000
        }),
{
    let start = LoopModel::start(width, height, rotation_angle);
    lemma_run_without_stop(start, inputs);
    lemma_time_after_iterations(0, inputs.len());
}

/// Once an iteration has drained an event that ends the loop, the
/// iterations that follow change nothing and submit nothing: the loop is as
/// that iteration left it, and the frames are those submitted up to and
/// with it.
pub proof fn lemma_run_after_stop(
    model: LoopModel,
    before: Seq<(Seq<Event>, u32, u32)>,
    stopping: (Seq<Event>, u32, u32),
    after: Seq<(Seq<Event>, u32, u32)>,
)
    requires
        model.status is Running,
        forall|k: int| 0 <= k < before.len() ==> !any_stop(#[trigger] before[k].0),
        any_stop(stopping.0),
    ensures
        model.run(before.push(stopping) + after) == model.run(before.push(stopping)),
        model.run(before.push(stopping) + after).status is Stopped,
        model.frames(before.push(stopping) + after) == before.len() + 1,
    decreases after.len(),
{
    let upto = before.push(stopping);
    assert(upto.drop_last() == before);
    assert(upto.last() == stopping);
    lemma_run_without_stop(model, before);
    if after.len() == 0 {
        assert(upto + after == upto);
    } else {
        let all = upto + after;
        assert(all.drop_last() == upto + after.drop_last());
        assert(all.last() == after.last());
        lemma_run_after_stop(model, before, stopping, after.drop_last());
    }
}

} // verus!
