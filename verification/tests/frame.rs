use landscape::events::{Event, Key};
use landscape::frame::{FrameLoop, FrameState, INITIAL_HEIGHT, INITIAL_WIDTH, TIME_STEP};
use landscape::ratio::Ratio;
use landscape::render::{clear_color, Action};
use landscape::transform::{get_scale, make_transform, TransformUniform};

fn bound(actions: &[Action]) -> TransformUniform {
    for action in actions {
        if let Action::Bind { uniform } = action {
            return *uniform;
        }
    }
    panic!("a frame binds its uniforms");
}

#[test]
fn loop_starts_running_at_time_zero() {
    assert_eq!((INITIAL_WIDTH, INITIAL_HEIGHT), (1024, 768));
    let frame_loop = FrameLoop::new(INITIAL_WIDTH, INITIAL_HEIGHT, 0);
    assert!(frame_loop.is_running());
    assert_eq!(
        frame_loop.state(),
        FrameState { elapsed_time: 0, window_width: 1024, window_height: 768, rotation_angle: 0 }
    );
}

#[test]
fn uniform_at_the_start() {
    let frame_loop = FrameLoop::new(1024, 768, 0);
    let uniform = frame_loop.uniform();
    assert_eq!(uniform.scale, 768);
    assert_eq!(uniform.transform, make_transform(0, 1024, 768, 0));
}

#[test]
fn uniform_of_a_state() {
    let state = FrameState {
        elapsed_time: 730,
        window_width: 600,
        window_height: 800,
        rotation_angle: 42,
    };
    let uniform = state.uniform();
    assert_eq!(uniform.scale, get_scale(600, 800));
    assert_eq!(uniform.scale, 600);
    assert_eq!(uniform.transform, make_transform(730, 600, 800, 42));
}

#[test]
fn advance_takes_the_size_and_a_time_step() {
    assert_eq!(TIME_STEP, 10);
    let mut state = FrameState {
        elapsed_time: 30,
        window_width: 1024,
        window_height: 768,
        rotation_angle: 7,
    };
    state.advance(800, 600);
    assert_eq!(
        state,
        FrameState { elapsed_time: 40, window_width: 800, window_height: 600, rotation_angle: 7 }
    );
}

#[test]
fn time_stands_still_where_the_counter_ends() {
    let mut state = FrameState {
        elapsed_time: u64::MAX - 10,
        window_width: 1,
        window_height: 1,
        rotation_angle: 0,
    };
    state.advance(1, 1);
    assert_eq!(state.elapsed_time, u64::MAX);
    state.advance(2, 3);
    assert_eq!(state.elapsed_time, u64::MAX);
    assert_eq!((state.window_width, state.window_height), (2, 3));
    let mut state = FrameState { elapsed_time: u64::MAX - 9, ..state };
    state.advance(1, 1);
    assert_eq!(state.elapsed_time, u64::MAX - 9);
    let mut state = FrameState { elapsed_time: u64::MAX - 11, ..state };
    state.advance(1, 1);
    assert_eq!(state.elapsed_time, u64::MAX - 1);
    state.advance(1, 1);
    assert_eq!(state.elapsed_time, u64::MAX - 1);
}

#[test]
fn iteration_without_events_submits_a_frame() {
    let mut frame_loop = FrameLoop::new(1024, 768, 0);
    let actions = frame_loop.iterate(&Vec::new(), 1024, 768).unwrap();
    let uniform = TransformUniform { transform: make_transform(10, 1024, 768, 0), scale: 768 };
    assert_eq!(
        actions,
        vec![
            Action::Clear { color: clear_color() },
            Action::Bind { uniform },
            Action::Draw { vertex_count: 6 },
            Action::Flush,
            Action::Present,
            Action::Cleanup,
        ]
    );
    assert!(frame_loop.is_running());
    assert_eq!(frame_loop.state().elapsed_time, 10);
    assert_eq!(frame_loop.uniform(), uniform);
}

#[test]
fn hundred_iterations_make_a_thousand_milliseconds() {
    let mut frame_loop = FrameLoop::new(1024, 768, 0);
    let mut last = Vec::new();
    for frame in 1..=100u64 {
        last = frame_loop.iterate(&vec![Event::Other], 1024, 768).unwrap();
        assert_eq!(frame_loop.state().elapsed_time, 10 * frame);
    }
    assert!(frame_loop.is_running());
    assert_eq!(frame_loop.state().elapsed_time, 1000);
    let depth = bound(&last).transform.depth;
    assert_eq!(depth, Ratio { num: 1000, den: 50000 });
    assert!(depth.same_value_as(&Ratio { num: 2, den: 100 }));
    let value = depth.num as f64 / depth.den as f64;
    assert_eq!(value, 0.02);
}

#[test]
fn elapsed_time_never_decreases() {
    let mut frame_loop = FrameLoop::new(300, 200, 5);
    let mut before = frame_loop.state().elapsed_time;
    for i in 0..50u32 {
        frame_loop.iterate(&Vec::new(), 300 + i, 200);
        let now = frame_loop.state().elapsed_time;
        assert!(now > before);
        before = now;
    }
}

#[test]
fn rotation_angle_stays_as_it_was() {
    let mut frame_loop = FrameLoop::new(1024, 768, 523599);
    for _ in 0..5 {
        let actions = frame_loop.iterate(&Vec::new(), 1024, 768).unwrap();
        assert_eq!(bound(&actions).transform.angle, 523599);
    }
    assert_eq!(frame_loop.state().rotation_angle, 523599);
}

#[test]
fn resize_shows_in_the_very_next_frame() {
    let mut frame_loop = FrameLoop::new(1024, 768, 0);
    frame_loop.iterate(&Vec::new(), 1024, 768).unwrap();
    let events = vec![Event::Resized { width: 600, height: 800 }];
    let actions = frame_loop.iterate(&events, 600, 800).unwrap();
    assert_eq!(actions.len(), 7);
    assert_eq!(actions[0], Action::ResizeTargets { width: 600, height: 800 });
    let uniform = bound(&actions[1..]);
    assert_eq!(uniform.scale, 600);
    assert_eq!(uniform.transform, make_transform(20, 600, 800, 0));
    assert_eq!(uniform.transform.scale_x, Ratio { num: 1, den: 1 });
    assert_eq!(uniform.transform.scale_y, Ratio { num: 800, den: 600 });
    assert_eq!(
        frame_loop.state(),
        FrameState { elapsed_time: 20, window_width: 600, window_height: 800, rotation_angle: 0 }
    );
}

#[test]
fn targets_are_fitted_before_the_frame_is_drawn() {
    let mut frame_loop = FrameLoop::new(1024, 768, 0);
    let events = vec![
        Event::Resized { width: 900, height: 700 },
        Event::Other,
        Event::Resized { width: 800, height: 600 },
    ];
    let actions = frame_loop.iterate(&events, 800, 600).unwrap();
    assert_eq!(actions.len(), 8);
    assert_eq!(actions[0], Action::ResizeTargets { width: 900, height: 700 });
    assert_eq!(actions[1], Action::ResizeTargets { width: 800, height: 600 });
    assert_eq!(actions[2], Action::Clear { color: clear_color() });
    assert_eq!(bound(&actions).scale, 600);
}

#[test]
fn size_of_the_window_wins_over_the_events() {
    let mut frame_loop = FrameLoop::new(1024, 768, 0);
    // No resize was announced, and yet the window has another size.
    let actions = frame_loop.iterate(&Vec::new(), 500, 400).unwrap();
    assert_eq!(bound(&actions).scale, 400);
    assert_eq!(bound(&actions).transform.scale_x, Ratio { num: 500, den: 400 });
    // A resize was announced, and the window has yet another size by now.
    let events = vec![Event::Resized { width: 300, height: 200 }];
    let actions = frame_loop.iterate(&events, 310, 210).unwrap();
    assert_eq!(actions[0], Action::ResizeTargets { width: 300, height: 200 });
    assert_eq!(bound(&actions).scale, 210);
    assert_eq!(frame_loop.state().window_width, 310);
    assert_eq!(frame_loop.state().window_height, 210);
}

#[test]
fn escape_ends_the_loop_after_its_frame() {
    let mut frame_loop = FrameLoop::new(1024, 768, 0);
    frame_loop.iterate(&Vec::new(), 1024, 768).unwrap();
    let events = vec![Event::Other, Event::KeyboardInput { key: Key::Escape }];
    let actions = frame_loop.iterate(&events, 1024, 768).unwrap();
    assert_eq!(actions.len(), 6);
    assert_eq!(bound(&actions).transform.depth.num, 20);
    assert!(!frame_loop.is_running());
    let state = frame_loop.state();
    for _ in 0..3 {
        assert_eq!(frame_loop.iterate(&Vec::new(), 640, 480), None);
        assert_eq!(frame_loop.iterate(&vec![Event::Resized { width: 1, height: 1 }], 1, 1), None);
        assert!(!frame_loop.is_running());
        assert_eq!(frame_loop.state(), state);
    }
}

#[test]
fn close_request_ends_the_loop_after_its_frame() {
    let mut frame_loop = FrameLoop::new(1024, 768, 0);
    let actions = frame_loop.iterate(&vec![Event::CloseRequested], 1024, 768);
    assert!(actions.is_some());
    assert!(!frame_loop.is_running());
    assert_eq!(frame_loop.state().elapsed_time, 10);
    assert_eq!(frame_loop.iterate(&Vec::new(), 1024, 768), None);
    assert_eq!(frame_loop.state().elapsed_time, 10);
}

#[test]
fn other_keys_do_not_end_the_loop() {
    let mut frame_loop = FrameLoop::new(1024, 768, 0);
    let events = vec![Event::KeyboardInput { key: Key::Other }; 4];
    assert!(frame_loop.iterate(&events, 1024, 768).is_some());
    assert!(frame_loop.is_running());
}

#[test]
fn events_after_a_stop_are_still_drained() {
    let mut frame_loop = FrameLoop::new(1024, 768, 0);
    let events = vec![Event::CloseRequested, Event::Resized { width: 640, height: 480 }];
    let actions = frame_loop.iterate(&events, 640, 480).unwrap();
    assert_eq!(actions[0], Action::ResizeTargets { width: 640, height: 480 });
    assert_eq!(bound(&actions).scale, 480);
    assert!(!frame_loop.is_running());
}

#[test]
fn frames_are_counted_up_to_the_stop() {
    let mut frame_loop = FrameLoop::new(1024, 768, 0);
    let mut frames = 0;
    for iteration in 0..20 {
        let events = if iteration == 6 { vec![Event::CloseRequested] } else { Vec::new() };
        if let Some(actions) = frame_loop.iterate(&events, 1024, 768) {
            frames += actions.iter().filter(|a| matches!(a, Action::Present)).count();
        }
    }
    assert_eq!(frames, 7);
    assert_eq!(frame_loop.state().elapsed_time, 70);
}

#[test]
fn frame_of_an_empty_window() {
    let mut frame_loop = FrameLoop::new(1024, 768, 0);
    let actions = frame_loop.iterate(&Vec::new(), 0, 0).unwrap();
    let uniform = bound(&actions);
    assert_eq!(uniform.scale, 0);
    assert_eq!(uniform.transform.scale_y, Ratio { num: 0, den: 0 });
}
