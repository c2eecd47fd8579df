//! The bounded event queue, the scripted response, and the window lookup.

use frosk::dsp::CorrelationScore;
use frosk::event::handle_event;
use frosk::event::ActionKey;
use frosk::event::EventQueue;
use frosk::event::FroskEvent;
use frosk::process::enum_callback;
use frosk::process::get_window_info;
use frosk::process::GetWindowError;
use frosk::process::WindowInfo;

fn bite(dot: i128) -> FroskEvent {
    FroskEvent::FishBite { score: CorrelationScore { dot, norm: 100 } }
}

fn score_of(e: &FroskEvent) -> i128 {
    match e {
        FroskEvent::FishBite { score } => score.dot,
    }
}

#[test]
fn queue_is_first_in_first_out() {
    let mut q = EventQueue::new(8);
    assert!(q.pop_front().is_none());
    q.push(bite(1));
    q.push(bite(2));
    q.push(bite(3));
    assert_eq!(q.len(), 3);
    assert_eq!(score_of(&q.pop_front().unwrap()), 1);
    assert_eq!(score_of(&q.pop_front().unwrap()), 2);
    assert_eq!(score_of(&q.pop_front().unwrap()), 3);
    assert!(q.pop_front().is_none());
}

#[test]
fn full_queue_drops_the_oldest_event() {
    let mut q = EventQueue::new(3);
    for i in 1..=5 {
        q.push(bite(i));
    }
    assert_eq!(q.len(), 3);
    assert_eq!(score_of(&q.pop_front().unwrap()), 3);
    assert_eq!(score_of(&q.pop_front().unwrap()), 4);
    assert_eq!(score_of(&q.pop_front().unwrap()), 5);
}

#[test]
fn bite_plan_is_one_reel_then_ten_confirms() {
    let plan = handle_event(&bite(50));
    assert_eq!(plan.len(), 11);
    assert!(matches!(plan[0].key, ActionKey::F9));
    assert_eq!(plan[0].delay_after_ms, 1000);
    for action in &plan[1..] {
        assert!(matches!(action.key, ActionKey::F10));
        assert_eq!(action.delay_after_ms, 200);
    }
}

fn window(handle: usize, title: &str, pid: u32) -> WindowInfo {
    WindowInfo { window: handle, title: title.to_owned(), process_id: pid }
}

#[test]
fn window_lookup_picks_the_first_match() {
    let windows = vec![
        window(1, "Notepad", 100),
        window(2, "World of Warcraft", 200),
        window(3, "World of Warcraft", 300),
    ];
    let found = get_window_info("World of Warcraft", &windows).unwrap();
    assert_eq!(found.window, 2);
    assert_eq!(found.process_id, 200);
    assert_eq!(found.title, "World of Warcraft");
}

#[test]
fn window_lookup_reports_a_missing_game() {
    let windows = vec![window(1, "Notepad", 100)];
    assert_eq!(
        get_window_info("World of Warcraft", &windows).unwrap_err(),
        GetWindowError::GameNotFound
    );
    assert_eq!(
        get_window_info("x", &Vec::new()).unwrap_err(),
        GetWindowError::GameNotFound
    );
}

#[test]
fn enumeration_skips_windows_without_a_process() {
    let mut windows: Vec<WindowInfo> = Vec::new();
    assert!(enum_callback(&mut windows, 7, "a".to_owned(), 55, 900));
    assert!(enum_callback(&mut windows, 8, "b".to_owned(), 0, 901));
    assert!(enum_callback(&mut windows, 9, "c".to_owned(), 56, 902));
    assert_eq!(windows.len(), 2);
    assert_eq!(windows[0].window, 7);
    assert_eq!(windows[1].window, 9);
    assert_eq!(windows[1].process_id, 902);
}
