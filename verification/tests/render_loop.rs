use first_drawing::render_loop::{frame_delay_nanos, should_exit, Key, LoopEvent, RenderLoop};

#[test]
fn a_quit_event_stops_the_loop() {
    assert!(should_exit(&LoopEvent::Quit));
    let mut lp = RenderLoop::new();
    lp.handle_event(&LoopEvent::Quit);
    assert!(!lp.running);
}

#[test]
fn an_escape_key_down_stops_the_loop() {
    let escape = LoopEvent::KeyDown { keycode: Some(Key::Escape) };
    assert!(should_exit(&escape));
    let mut lp = RenderLoop::new();
    lp.handle_event(&escape);
    assert!(!lp.running);
}

#[test]
fn other_events_leave_the_loop_running() {
    let others = vec![
        LoopEvent::Other,
        LoopEvent::KeyDown { keycode: Some(Key::Other) },
        LoopEvent::KeyDown { keycode: None },
    ];
    for e in &others {
        assert!(!should_exit(e));
    }
    let mut lp = RenderLoop::new();
    lp.handle_events(&others);
    assert!(lp.running);
}

#[test]
fn a_poll_with_a_quit_among_other_events_stops_the_loop() {
    let mut lp = RenderLoop::new();
    lp.handle_events(&vec![LoopEvent::Other, LoopEvent::Quit, LoopEvent::Other]);
    assert!(!lp.running);
}

#[test]
fn a_stopped_loop_stays_stopped() {
    let mut lp = RenderLoop::new();
    lp.handle_event(&LoopEvent::Quit);
    lp.handle_event(&LoopEvent::Other);
    assert!(!lp.running);
}

#[test]
fn the_frame_delay_is_one_sixtieth_of_a_second() {
    assert_eq!(frame_delay_nanos(), 1_000_000_000u32 / 60);
    assert_eq!(frame_delay_nanos(), 16_666_666);
}
