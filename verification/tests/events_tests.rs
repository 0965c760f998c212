use boxgrid::events::{handle_key, EventFlags, InputStorage, KeyInput};

#[test]
fn event_flags_start_clear() {
    let flags = EventFlags::new();
    assert!(!flags.get_resize());
    assert!(!flags.get_compiling_message());
    assert_eq!(flags.get_screen(), 0);
}

#[test]
fn resize_flag_sets_and_resets() {
    let mut flags = EventFlags::new();
    flags.set_resize();
    assert!(flags.get_resize());
    flags.reset_resize();
    assert!(!flags.get_resize());
}

#[test]
fn change_screen_toggles_back_to_main() {
    let mut flags = EventFlags::new();
    flags.change_screen(2);
    assert_eq!(flags.get_screen(), 2);
    // From any non-main screen the next change falls back to main.
    flags.change_screen(1);
    assert_eq!(flags.get_screen(), 0);
    flags.change_screen(1);
    assert_eq!(flags.get_screen(), 1);
}

#[test]
fn compose_toggle_requests_redraw() {
    let mut flags = EventFlags::new();
    flags.set_compiling_message();
    assert!(flags.get_compiling_message());
    assert!(flags.get_resize());
    flags.reset_resize();
    flags.set_compiling_message();
    assert!(!flags.get_compiling_message());
    assert!(flags.get_resize());
}

#[test]
fn input_storage_collects_characters() {
    let mut field = InputStorage::new();
    assert!(!field.check_input());
    field.push_input('h');
    field.push_input('i');
    assert!(field.check_input());
    assert_eq!(field.get_input(), "hi");
    // Fetching clears the dirty bit but keeps the text.
    assert!(!field.check_input());
    assert_eq!(field.get_input(), "hi");
    field.reset_input();
    assert_eq!(field.get_input(), "");
    assert!(!field.check_input());
}

#[test]
fn characters_only_recorded_while_composing() {
    let mut flags = EventFlags::new();
    let mut field = InputStorage::new();
    assert!(!handle_key(&mut flags, &mut field, KeyInput::Character('x')));
    assert_eq!(field.get_input(), "");

    // F3 on the main screen opens the compose field.
    assert!(!handle_key(&mut flags, &mut field, KeyInput::Function(3)));
    assert!(flags.get_compiling_message());
    assert!(!handle_key(&mut flags, &mut field, KeyInput::Character('x')));
    assert!(!handle_key(&mut flags, &mut field, KeyInput::Character('y')));
    assert_eq!(field.get_input(), "xy");
}

#[test]
fn function_keys_route_between_screens() {
    let mut flags = EventFlags::new();
    let mut field = InputStorage::new();

    // F1: main to help, and back from anywhere.
    handle_key(&mut flags, &mut field, KeyInput::Function(1));
    assert_eq!(flags.get_screen(), 1);
    handle_key(&mut flags, &mut field, KeyInput::Function(1));
    assert_eq!(flags.get_screen(), 0);

    // F2: main to contacts; on the contacts screen it does nothing.
    handle_key(&mut flags, &mut field, KeyInput::Function(2));
    assert_eq!(flags.get_screen(), 2);
    handle_key(&mut flags, &mut field, KeyInput::Function(2));
    assert_eq!(flags.get_screen(), 2);

    // F3 off the main screen does not open the compose field.
    handle_key(&mut flags, &mut field, KeyInput::Function(3));
    assert!(!flags.get_compiling_message());
}

#[test]
fn sixth_function_key_requests_exit() {
    let mut flags = EventFlags::new();
    let mut field = InputStorage::new();
    assert!(handle_key(&mut flags, &mut field, KeyInput::Function(6)));
    assert!(!handle_key(&mut flags, &mut field, KeyInput::Function(7)));
    assert!(!handle_key(&mut flags, &mut field, KeyInput::Other));
}
