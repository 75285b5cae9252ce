use ash_sandbox::event::{Action, Event, EventHandler, Input};

#[test]
fn close_bound_to_exit_yields_exit() {
    let handler = EventHandler::from_bindings(&vec![(Input::Close, Action::Exit)]);
    let action = handler.handle(Event::Input(Input::Close));
    assert!(matches!(action, Action::Exit));
}

#[test]
fn idle_event_yields_idle_action() {
    let handler = EventHandler::from_bindings(&vec![(Input::Close, Action::Exit)]);
    let action = handler.handle(Event::Idle);
    assert!(matches!(action, Action::Idle));
}

#[test]
fn unbound_input_yields_nop() {
    let handler = EventHandler::default();
    let action = handler.handle(Event::Input(Input::Close));
    assert!(matches!(action, Action::Nop));
}

#[test]
fn empty_binding_list_yields_nop() {
    let handler = EventHandler::from_bindings(&vec![]);
    let action = handler.handle(Event::Input(Input::Close));
    assert!(matches!(action, Action::Nop));
}

#[test]
fn later_binding_overrides_earlier() {
    let handler = EventHandler::from_bindings(
        &vec![(Input::Close, Action::Nop), (Input::Close, Action::Exit)],
    );
    let action = handler.handle(Event::Input(Input::Close));
    assert!(matches!(action, Action::Exit));
}

#[test]
fn override_order_matters() {
    let handler = EventHandler::from_bindings(
        &vec![(Input::Close, Action::Exit), (Input::Close, Action::Nop)],
    );
    let action = handler.handle(Event::Input(Input::Close));
    assert!(matches!(action, Action::Nop));
}

#[test]
fn default_action_is_nop() {
    let action: Action = Default::default();
    assert!(matches!(action, Action::Nop));
}

#[test]
fn handle_input_returns_bound_action() {
    let handler = EventHandler::from_bindings(&vec![(Input::Close, Action::Debug("checking"))]);
    let action = handler.handle_input(Input::Close);
    assert!(matches!(action, Action::Debug("checking")));
}
