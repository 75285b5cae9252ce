use ash_sandbox::event::{Action, Event, EventHandler, Input};
use ash_sandbox::main_loop::{LoopCmd, MainLoop};

fn exit_on_close() -> EventHandler {
    EventHandler::from_bindings(&vec![(Input::Close, Action::Exit)])
}

#[test]
fn close_stops_the_loop() {
    let mut main_loop = MainLoop::new(exit_on_close());
    let cmd = main_loop.step(Event::Input(Input::Close), 1000);
    assert_eq!(cmd, LoopCmd::Stop);
}

#[test]
fn idle_renders_one_frame() {
    let mut main_loop = MainLoop::new(exit_on_close());
    let cmd = main_loop.step(Event::Idle, 500000);
    assert_eq!(cmd, LoopCmd::RenderFrame);
    assert_eq!(main_loop.pacer.accrued_micros(), 0);
}

#[test]
fn unbound_input_continues() {
    let mut main_loop = MainLoop::new(EventHandler::default());
    let cmd = main_loop.step(Event::Input(Input::Close), 7777);
    assert_eq!(cmd, LoopCmd::Continue);
    assert_eq!(main_loop.pacer.accrued_micros(), 0);
}

#[test]
fn only_ticks_move_the_accumulator() {
    let mut main_loop = MainLoop::new(exit_on_close());
    main_loop.step(Event::Idle, 20000);
    assert_eq!(main_loop.pacer.accrued_micros(), 20000);
    main_loop.step(Event::Input(Input::Close), 900000);
    assert_eq!(main_loop.pacer.accrued_micros(), 20000);
    main_loop.step(Event::Idle, 20000);
    assert_eq!(main_loop.pacer.accrued_micros(), 8750);
}
