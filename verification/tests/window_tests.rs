use lingodesk::floating_window::{window_position, MonitorArea, CURSOR_GAP};
use lingodesk::injection::typing::{
    can_type_text, key_events_for, typed_completely, Injection, InjectionAction, InjectionEvent,
    InjectionPhase, FOCUS_SETTLE_MS,
};
use lingodesk::injection::unsupported::{foreground_target, type_text};

fn full_hd() -> Vec<MonitorArea> {
    vec![MonitorArea { x: 0, y: 0, width: 1920, height: 1080 }]
}

#[test]
fn window_goes_below_right_of_pointer() {
    assert_eq!(window_position(100, 100, 200, 100, &full_hd()), (116, 116));
    assert_eq!(CURSOR_GAP, 16);
}

#[test]
fn window_flips_at_screen_edges() {
    assert_eq!(window_position(1900, 1000, 200, 100, &full_hd()), (1684, 884));
}

#[test]
fn window_never_leaves_top_left_of_monitor() {
    assert_eq!(window_position(10, 1000, 200, 2000, &full_hd()), (26, 0));
    assert_eq!(window_position(100, 10, 3000, 50, &full_hd()), (0, 26));
}

#[test]
fn window_without_monitor_follows_pointer() {
    assert_eq!(window_position(5000, -300, 200, 100, &full_hd()), (5016, -284));
    assert_eq!(window_position(1, 2, 200, 100, &Vec::new()), (17, 18));
}

#[test]
fn first_monitor_under_pointer_is_used() {
    let monitors = vec![
        MonitorArea { x: 0, y: 0, width: 1920, height: 1080 },
        MonitorArea { x: 1920, y: 0, width: 1280, height: 1024 },
    ];
    assert_eq!(window_position(3100, 1000, 200, 100, &monitors), (2884, 884));
    assert_eq!(window_position(2000, 100, 200, 100, &monitors), (2016, 116));
}

#[test]
fn typing_needs_target_and_bmp_text() {
    assert!(can_type_text(42, "Hello"));
    assert!(can_type_text(42, "你好"));
    assert!(!can_type_text(0, "Hello"));
    assert!(!can_type_text(42, ""));
    assert!(!can_type_text(42, "hi \u{1F600}"));
}

#[test]
fn typing_counts_press_and_release_per_char() {
    assert!(typed_completely(10, "Hello"));
    assert!(!typed_completely(9, "Hello"));
    assert!(typed_completely(4, "你好"));
}

#[test]
fn unsupported_platform_types_nothing() {
    let target = foreground_target();
    assert!(!type_text(target, "Hello"));
}

fn run_injection(text: &str, events: &[InjectionEvent]) -> Vec<InjectionAction> {
    let (mut injection, action) = Injection::start(42, text);
    let mut actions = vec![action];
    for e in events {
        assert!(injection.accepts(*e));
        let (next, action) = injection.step(*e);
        injection = next;
        actions.push(action);
    }
    actions
}

#[test]
fn target_in_front_is_checked_twice_then_typed() {
    let actions = run_injection(
        "Hello",
        &[
            InjectionEvent::TargetInFront(true),
            InjectionEvent::TargetInFront(true),
            InjectionEvent::KeysTyped(10),
        ],
    );
    assert_eq!(
        actions,
        vec![
            InjectionAction::CheckFront { pause_ms: 0 },
            InjectionAction::CheckFront { pause_ms: 0 },
            InjectionAction::TypeText,
            InjectionAction::Finish(true),
        ]
    );
}

#[test]
fn target_is_brought_forward_and_checked_again() {
    let actions = run_injection(
        "Hello",
        &[
            InjectionEvent::TargetInFront(false),
            InjectionEvent::FocusGiven(true),
            InjectionEvent::TargetInFront(true),
            InjectionEvent::KeysTyped(9),
        ],
    );
    assert_eq!(actions[1], InjectionAction::RequestFocus);
    assert_eq!(actions[2], InjectionAction::CheckFront { pause_ms: FOCUS_SETTLE_MS });
    assert_eq!(actions[3], InjectionAction::TypeText);
    assert_eq!(actions[4], InjectionAction::Finish(false));
}

#[test]
fn focus_lost_means_nothing_is_typed() {
    let actions = run_injection(
        "Hello",
        &[InjectionEvent::TargetInFront(false), InjectionEvent::FocusGiven(false)],
    );
    assert_eq!(actions[2], InjectionAction::Finish(false));
    let actions = run_injection(
        "Hello",
        &[InjectionEvent::TargetInFront(true), InjectionEvent::TargetInFront(false)],
    );
    assert_eq!(actions[2], InjectionAction::Finish(false));
    assert!(!actions.contains(&InjectionAction::TypeText));
}

#[test]
fn untypable_text_ends_at_once() {
    let (injection, action) = Injection::start(42, "smile \u{1F600}");
    assert_eq!(action, InjectionAction::Finish(false));
    assert_eq!(injection.phase, InjectionPhase::Done);
    let (_, action) = Injection::start(0, "Hello");
    assert_eq!(action, InjectionAction::Finish(false));
    assert_eq!(key_events_for("你好"), 4);
}
