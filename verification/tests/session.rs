use pomodoro::App;
use pomodoro::Command;
use pomodoro::IntervalKind;
use pomodoro::Screen;

fn started(app: &mut App) {
    app.handle_command(Command::Toggle);
    assert_eq!(app.screen, Screen::Timer);
    assert!(app.timer_active);
}

#[test]
fn default_configuration() {
    let app = App::default();
    assert!(app.running);
    assert_eq!(app.screen, Screen::Main);
    assert_eq!(app.interval_kind, IntervalKind::Focus);
    assert!(!app.timer_active);
    assert_eq!(app.focus_duration, 1200);
    assert_eq!(app.short_break_duration, 300);
    assert_eq!(app.long_break_duration, 900);
    assert_eq!(app.short_breaks_before_long_break, 2);
    assert_eq!(app.completed_focus_count, 0);
    assert_eq!(app.completed_short_break_count, 0);
    assert_eq!(app.completed_long_break_count, 0);
    assert_eq!(app.elapsed_seconds, 0);
}

#[test]
fn new_takes_configuration() {
    let app = App::new(25, 5, 15, 4);
    assert_eq!(app.focus_duration, 25);
    assert_eq!(app.short_break_duration, 5);
    assert_eq!(app.long_break_duration, 15);
    assert_eq!(app.short_breaks_before_long_break, 4);
    assert_eq!(app.screen, Screen::Main);
    assert!(!app.timer_active);
    assert!(app.running);
}

#[test]
fn tick_adds_one_second_while_active() {
    let mut app = App::default();
    started(&mut app);
    for expected in 1..=10usize {
        let cue = app.on_tick();
        assert!(!cue);
        assert_eq!(app.elapsed_seconds, expected);
        assert_eq!(app.interval_kind, IntervalKind::Focus);
        assert_eq!(app.completed_focus_count, 0);
    }
}

#[test]
fn tick_does_nothing_while_paused() {
    let mut app = App::default();
    started(&mut app);
    let _ = app.on_tick();
    let _ = app.on_tick();
    app.handle_command(Command::Toggle);
    assert!(!app.timer_active);
    let cue = app.on_tick();
    assert!(!cue);
    assert_eq!(app.elapsed_seconds, 2);
}

#[test]
fn default_focus_interval_completes_after_1200_ticks() {
    let mut app = App::default();
    started(&mut app);
    let mut cues: usize = 0;
    for _ in 0..1200 {
        if app.on_tick() {
            cues += 1;
        }
    }
    assert_eq!(app.completed_focus_count, 1);
    assert_eq!(app.elapsed_seconds, 0);
    assert_eq!(app.interval_kind, IntervalKind::ShortBreak);
    assert_eq!(cues, 1);
}

#[test]
fn cue_fires_only_on_focus_completion() {
    let mut app = App::new(2, 1, 1, 5);
    started(&mut app);
    assert!(!app.on_tick());
    assert!(app.on_tick());
    assert_eq!(app.interval_kind, IntervalKind::ShortBreak);
    assert!(!app.on_tick());
    assert_eq!(app.interval_kind, IntervalKind::Focus);
    assert_eq!(app.completed_short_break_count, 1);
}

#[test]
fn long_break_after_threshold_short_breaks() {
    let mut app = App::new(1, 1, 1, 2);
    started(&mut app);
    // Focus, short break, focus, short break: two short breaks completed.
    assert!(app.on_tick());
    let _ = app.on_tick();
    assert!(app.on_tick());
    let _ = app.on_tick();
    assert_eq!(app.completed_short_break_count, 2);
    assert_eq!(app.interval_kind, IntervalKind::Focus);
    // The next completed focus interval is followed by a long break.
    assert!(app.on_tick());
    assert_eq!(app.interval_kind, IntervalKind::LongBreak);
    assert_eq!(app.completed_focus_count, 3);
    // And the completed long break returns to a focus interval.
    let _ = app.on_tick();
    assert_eq!(app.interval_kind, IntervalKind::Focus);
    assert_eq!(app.completed_long_break_count, 1);
}

#[test]
fn completion_is_checked_even_while_paused() {
    // A zero-length focus interval completes on the first tick although the
    // timer never accumulated: the completion check does not look at the
    // pause flag.
    let mut app = App::new(0, 5, 5, 2);
    assert!(!app.timer_active);
    let cue = app.on_tick();
    assert!(cue);
    assert_eq!(app.completed_focus_count, 1);
    assert_eq!(app.interval_kind, IntervalKind::ShortBreak);
    assert_eq!(app.elapsed_seconds, 0);
}

#[test]
fn back_from_timer_lands_on_main_paused() {
    for was_active in [false, true] {
        let mut app = App::default();
        started(&mut app);
        if !was_active {
            app.handle_command(Command::Toggle);
        }
        assert_eq!(app.timer_active, was_active);
        app.handle_command(Command::Back);
        assert_eq!(app.screen, Screen::Main);
        assert!(!app.timer_active);
        assert_eq!(app.elapsed_seconds, 0);
    }
}

#[test]
fn back_from_timer_discards_elapsed_time() {
    let mut app = App::default();
    started(&mut app);
    for _ in 0..42 {
        let _ = app.on_tick();
    }
    assert_eq!(app.elapsed_seconds, 42);
    app.handle_command(Command::Back);
    assert_eq!(app.elapsed_seconds, 0);
    // The interval starts over on the next activation, not where it left off.
    app.handle_command(Command::Toggle);
    assert_eq!(app.screen, Screen::Timer);
    assert_eq!(app.elapsed_seconds, 0);
}

#[test]
fn quit_from_main_then_back_keeps_running() {
    let mut app = App::default();
    app.handle_command(Command::Quit);
    assert_eq!(app.screen, Screen::ConfirmQuit);
    assert!(app.running);
    app.handle_command(Command::Back);
    assert_eq!(app.screen, Screen::Main);
    assert!(app.running);
}

#[test]
fn quit_from_timer_pauses_and_asks() {
    let mut app = App::default();
    started(&mut app);
    app.handle_command(Command::Quit);
    assert_eq!(app.screen, Screen::ConfirmQuit);
    assert!(!app.timer_active);
    assert!(app.running);
}

#[test]
fn quit_from_confirm_stops_unconditionally() {
    let mut app = App {
        running: true,
        screen: Screen::ConfirmQuit,
        interval_kind: IntervalKind::LongBreak,
        timer_active: true,
        focus_duration: 7,
        short_break_duration: 8,
        long_break_duration: 9,
        completed_focus_count: 4,
        completed_short_break_count: 5,
        completed_long_break_count: 6,
        short_breaks_before_long_break: 3,
        elapsed_seconds: 2,
    };
    app.handle_command(Command::Quit);
    assert!(!app.running);
    assert_eq!(app.screen, Screen::ConfirmQuit);
}

#[test]
fn noop_commands_change_nothing() {
    let mut app = App::default();
    let before = app;
    app.handle_command(Command::Back);
    assert_eq!(app, before);

    app.handle_command(Command::Quit);
    let on_confirm = app;
    app.handle_command(Command::Toggle);
    assert_eq!(app, on_confirm);
}

#[test]
fn toggle_back_toggle_matches_single_toggle() {
    let mut twice = App::new(7, 8, 9, 1);
    twice.handle_command(Command::Toggle);
    twice.handle_command(Command::Back);
    twice.handle_command(Command::Toggle);

    let mut once = App::new(7, 8, 9, 1);
    once.handle_command(Command::Toggle);

    assert_eq!(twice, once);
}

#[test]
fn toggle_pauses_and_resumes_on_timer() {
    let mut app = App::default();
    started(&mut app);
    app.handle_command(Command::Toggle);
    assert!(!app.timer_active);
    assert_eq!(app.screen, Screen::Timer);
    app.handle_command(Command::Toggle);
    assert!(app.timer_active);
}

#[test]
fn display_parts_of_elapsed_time() {
    let mut app = App::default();
    started(&mut app);
    for _ in 0..125 {
        let _ = app.on_tick();
    }
    assert_eq!(app.elapsed_minutes(), 2);
    assert_eq!(app.elapsed_extra_seconds(), 5);
    assert_eq!(app.progress_dot_count(), 5);
}
