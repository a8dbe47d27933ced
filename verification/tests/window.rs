use wyndow::bridge::{MSG_CLOSE, MSG_PAINT, MSG_SIZE};
use wyndow::error::{CreationStage, WindowError};
use wyndow::events::{Modifiers, WindowEvent};
use wyndow::window::{
    check_handle_arg, class_descriptor, encode_wide, CreateSession, TeardownStep, WindowState,
    STYLE_H_REDRAW, STYLE_OWN_DC, STYLE_V_REDRAW,
};
use wyndow::window_info::WindowInfoBuilder;

#[test]
fn encode_wide_appends_null_terminator() {
    assert_eq!(encode_wide("Hi"), vec![72u16, 105u16, 0u16]);
    assert_eq!(encode_wide(""), vec![0u16]);
}

#[test]
fn class_descriptor_sets_redraw_styles_and_wide_name() {
    let d = class_descriptor("wyndow_class");
    assert_eq!(d.style, STYLE_OWN_DC | STYLE_H_REDRAW | STYLE_V_REDRAW);
    assert_eq!(d.style, 0x23);
    let mut expected: Vec<u16> = "wyndow_class".encode_utf16().collect();
    expected.push(0);
    assert_eq!(d.class_name, expected);
}

#[test]
fn null_handle_argument_is_rejected() {
    assert_eq!(check_handle_arg(0), Err(WindowError::InvalidArgument));
    assert_eq!(check_handle_arg(42), Ok(()));
}

#[test]
fn fresh_state_has_default_title_and_no_handle() {
    let s = WindowState::new();
    assert_eq!(s.window, 0);
    assert_eq!(s.get_title().as_str(), "Application Window");
    assert_eq!(s.get_size(), (0, 0));
    assert_eq!(s.get_position(), (0, 0));
}

#[test]
fn configure_consumes_the_creation_parameters() {
    let info = WindowInfoBuilder::new("Demo", 800, 600).pos(10, 20).build();
    let mut s = WindowState::new();
    s.configure(info);
    assert_eq!(s.get_title().as_str(), "Demo");
    assert_eq!(s.get_size(), (800, 600));
    assert_eq!(s.get_position(), (10, 20));
}

#[test]
fn handle_message_pushes_table_events_in_arrival_order() {
    let mut s = WindowState::new();
    let m = Modifiers(0);
    let resize_l: i64 = (600i64 << 16) | 800;
    assert!(!s.handle_message(MSG_SIZE, 0, resize_l, m));
    assert!(!s.handle_message(MSG_PAINT, 0, 0, m));
    assert!(!s.handle_message(MSG_CLOSE, 0, 0, m));
    // An unknown message pushes nothing and is forwarded.
    assert!(s.handle_message(0x0083, 0, 0, m));
    assert_eq!(s.next_event(), Some(WindowEvent::Resize { w: 800, h: 600 }));
    assert_eq!(s.next_event(), Some(WindowEvent::RequestRedraw));
    assert_eq!(s.next_event(), Some(WindowEvent::Close));
    assert_eq!(s.next_event(), None);
}

#[test]
fn next_event_on_empty_state_is_empty_signal() {
    let mut s = WindowState::new();
    assert_eq!(s.next_event(), None);
}

#[test]
fn failed_native_mutation_leaves_cache_unchanged() {
    let mut s = WindowState::new();
    assert_eq!(
        s.set_title("New", false),
        Err(WindowError::PlatformCallFailed)
    );
    assert_eq!(s.get_title().as_str(), "Application Window");
    assert_eq!(
        s.set_size(640, 480, false),
        Err(WindowError::PlatformCallFailed)
    );
    assert_eq!(s.get_size(), (0, 0));
    assert_eq!(
        s.set_position(5, 6, false),
        Err(WindowError::PlatformCallFailed)
    );
    assert_eq!(s.get_position(), (0, 0));
}

#[test]
fn successful_native_mutation_updates_cache() {
    let mut s = WindowState::new();
    assert_eq!(s.set_title("New", true), Ok(()));
    assert_eq!(s.get_title().as_str(), "New");
    assert_eq!(s.set_size(640, 480, true), Ok(()));
    assert_eq!(s.get_size(), (640, 480));
    assert_eq!(s.set_position(5, 6, true), Ok(()));
    assert_eq!(s.get_position(), (5, 6));
    s.store_handle(77);
    assert_eq!(s.window, 77);
}

#[test]
fn full_lifecycle_and_second_destroy_is_a_no_op() {
    let mut session = CreateSession::new();
    assert_eq!(session.class_registered(9), Ok(()));
    assert_eq!(session.handle_created(1234), Ok(()));
    assert_eq!(session.context_acquired(5678), Ok(()));
    let mut w = session.finish().unwrap();
    assert!(w.is_live());
    assert_eq!(w.window, 1234);
    assert_eq!(w.context, 5678);
    assert_eq!(w.atom, 9);

    let steps = w.destroy();
    assert_eq!(
        steps,
        vec![
            TeardownStep::ReleaseContext {
                handle: 1234,
                context: 5678
            },
            TeardownStep::DestroyHandle { handle: 1234 },
            TeardownStep::FreeState,
        ]
    );
    assert!(!w.is_live());

    let again = w.destroy();
    assert!(again.is_empty());
    assert!(!w.is_live());
}

#[test]
fn registration_rejection_fails_with_registration_error() {
    let mut session = CreateSession::new();
    assert_eq!(
        session.class_registered(0),
        Err(WindowError::RegistrationFailed)
    );
    // Nothing native was acquired, only the state record must go.
    assert_eq!(session.rollback_steps(), vec![TeardownStep::FreeState]);
}

#[test]
fn handle_failure_names_the_handle_stage() {
    let mut session = CreateSession::new();
    assert_eq!(session.class_registered(9), Ok(()));
    assert_eq!(
        session.handle_created(0),
        Err(WindowError::CreationFailed {
            stage: CreationStage::HandleCreation
        })
    );
    assert_eq!(session.rollback_steps(), vec![TeardownStep::FreeState]);
}

#[test]
fn context_failure_rolls_back_the_created_handle() {
    let mut session = CreateSession::new();
    assert_eq!(session.class_registered(9), Ok(()));
    assert_eq!(session.handle_created(1234), Ok(()));
    assert_eq!(
        session.context_acquired(0),
        Err(WindowError::CreationFailed {
            stage: CreationStage::ContextAcquisition
        })
    );
    // The handle is destroyed before the error ever reaches the caller.
    assert_eq!(
        session.rollback_steps(),
        vec![
            TeardownStep::DestroyHandle { handle: 1234 },
            TeardownStep::FreeState,
        ]
    );
    // A failed session cannot be finished into a live window.
    assert_eq!(session.finish().unwrap_err(), WindowError::InvalidArgument);
}

#[test]
fn out_of_order_reports_are_rejected_and_change_nothing() {
    let mut session = CreateSession::new();
    assert_eq!(
        session.handle_created(1234),
        Err(WindowError::InvalidArgument)
    );
    assert_eq!(
        session.context_acquired(5678),
        Err(WindowError::InvalidArgument)
    );
    assert_eq!(session.class_registered(9), Ok(()));
    assert_eq!(
        session.class_registered(9),
        Err(WindowError::InvalidArgument)
    );
}
