use pomodoro::message::Message;
use pomodoro::timer::PomodoroTimer;

fn face_of(seconds_left: i32) -> String {
    PomodoroTimer::with_state(seconds_left, false, true, None).unwrap().time_text()
}

#[test]
fn time_text_of_full_sessions() {
    let mut timer = PomodoroTimer::new();
    assert_eq!(timer.time_text(), "25:00");
    timer.update_at(Message::SwitchMode, 0);
    assert_eq!(timer.time_text(), "05:00");
}

#[test]
fn time_text_pads_with_zeros() {
    assert_eq!(face_of(0), "00:00");
    assert_eq!(face_of(9), "00:09");
    assert_eq!(face_of(59), "00:59");
    assert_eq!(face_of(60), "01:00");
    assert_eq!(face_of(599), "09:59");
    assert_eq!(face_of(600), "10:00");
    assert_eq!(face_of(1499), "24:59");
}

#[test]
fn time_text_of_long_countdowns() {
    assert_eq!(face_of(5999), "99:59");
    assert_eq!(face_of(6000), "100:00");
    assert_eq!(face_of(i32::MAX), "35791394:07");
}

#[test]
fn mode_text_names_the_session() {
    let mut timer = PomodoroTimer::new();
    assert_eq!(timer.mode_text(), "Work Time");
    assert_eq!(timer.switch_button_text(), "Have a break, have a...");
    timer.update_at(Message::SwitchMode, 0);
    assert_eq!(timer.mode_text(), "Break Time");
    assert_eq!(timer.switch_button_text(), "Let's work hard");
}

#[test]
fn timer_button_text_follows_the_running_flag() {
    let mut timer = PomodoroTimer::new();
    assert_eq!(timer.timer_button_text(), "▶ Start");
    timer.update_at(Message::ToggleTimer, 0);
    assert_eq!(timer.timer_button_text(), "⏸ Pause");
}
