use tuicr::app::{summarize_macro_steps, App, ColonCommandRunner, CommandFn, InputMode, MessageKind};
use tuicr::config::{MacroConfig, MacroStep};

/// Carries out the few colon commands these tests use: `submit approve`
/// opens the submit confirmation, `help` opens help, anything else fails.
fn run_command(mut app: App, command: &str) -> (App, bool) {
    match command {
        "submit approve" => {
            app.set_input_mode(InputMode::SubmitConfirm);
            (app, true)
        }
        "help" => {
            app.set_input_mode(InputMode::Help);
            (app, true)
        }
        _ => {
            app.set_error(format!("Unknown command: {command}"));
            (app, false)
        }
    }
}

fn commands() -> CommandFn<fn(App, &str) -> (App, bool)> {
    CommandFn::new(run_command as fn(App, &str) -> (App, bool))
}

fn make_app() -> App {
    App::new()
}

fn run_colon_command(app: &mut App, command: &str) -> bool {
    commands().run_colon_command(app, command)
}

#[test]
fn should_run_colon_command_from_macro_helper() {
    let mut app = make_app();
    assert!(run_colon_command(&mut app, "submit approve"));
    assert_eq!(app.input_mode(), InputMode::SubmitConfirm);
}

#[test]
fn should_run_submit_approve_macro() {
    let mut app = make_app();
    app.load_macros(&[MacroConfig {
        key: 'c',
        steps: vec![MacroStep::command("submit approve")],
    }]);

    app.run_macro('c', &mut commands());

    assert_eq!(app.last_macro_register(), Some('c'));
    assert_eq!(app.input_mode(), InputMode::SubmitConfirm);
}

#[test]
fn should_abort_remaining_steps_when_command_fails() {
    let mut app = make_app();
    app.load_macros(&[MacroConfig {
        key: 'c',
        steps: vec![
            MacroStep::command("not-a-real-command"),
            MacroStep::command("submit approve"),
        ],
    }]);

    app.run_macro('c', &mut commands());

    assert_eq!(app.input_mode(), InputMode::Normal);
    assert_eq!(app.last_macro_register(), Some('c'));
}

#[test]
fn should_warn_on_unknown_macro_register() {
    let mut app = make_app();
    app.run_macro('z', &mut commands());
    assert!(app.message().is_some());
    assert_eq!(app.last_macro_register(), None);
}

#[test]
fn should_replay_last_macro_with_run_last_macro() {
    let mut app = make_app();
    app.load_macros(&[MacroConfig {
        key: 'a',
        steps: vec![MacroStep::command("help")],
    }]);
    app.run_macro('a', &mut commands());
    assert_eq!(app.input_mode(), InputMode::Help);
    assert_eq!(app.last_macro_register(), Some('a'));

    app.set_input_mode(InputMode::Normal);
    app.run_last_macro(&mut commands());
    assert_eq!(app.input_mode(), InputMode::Help);
}

#[test]
fn should_stop_macro_after_mode_changing_command() {
    let mut app = make_app();
    app.load_macros(&[MacroConfig {
        key: 'c',
        steps: vec![
            MacroStep::command("submit approve"),
            MacroStep::command("help"),
        ],
    }]);

    app.run_macro('c', &mut commands());

    assert_eq!(app.input_mode(), InputMode::SubmitConfirm);
}

#[test]
fn unknown_register_warning_names_the_register() {
    let mut app = make_app();
    let run = app.run_macro('z', &mut commands());
    assert!(!run.started);
    assert!(run.steps.is_empty());
    let message = app.message().expect("warning");
    assert_eq!(message.kind, MessageKind::Warning);
    assert_eq!(message.text, "No macro defined for @z");
}

#[test]
fn replay_without_previous_macro_warns() {
    let mut app = make_app();
    app.begin_pending_at();
    let run = app.run_last_macro(&mut commands());
    assert!(!run.started);
    assert!(!app.pending_at());
    let message = app.message().expect("warning");
    assert_eq!(message.kind, MessageKind::Warning);
    assert_eq!(message.text, "No previous macro to replay");
}

#[test]
fn starting_a_macro_clears_the_pending_at() {
    let mut app = make_app();
    app.load_macros(&[MacroConfig { key: 'h', steps: vec![MacroStep::command("help")] }]);
    app.begin_pending_at();
    assert!(app.pending_at());
    app.run_macro('h', &mut commands());
    assert!(!app.pending_at());
    app.begin_pending_at();
    app.clear_pending_at();
    assert!(!app.pending_at());
}

#[test]
fn run_reports_each_step_and_where_it_stopped() {
    let mut app = make_app();
    app.load_macros(&[MacroConfig {
        key: 'c',
        steps: vec![
            MacroStep::command("help"),
            MacroStep::command("submit approve"),
        ],
    }]);
    // `help` leaves normal mode, so the macro stops after its first step.
    let run = app.run_macro('c', &mut commands());
    assert!(run.started);
    assert_eq!(run.steps.len(), 1);
    assert_eq!(run.steps[0].command, "help");
    assert!(run.steps[0].succeeded);
    assert_eq!(run.steps[0].mode_after, InputMode::Help);

    app.set_input_mode(InputMode::Normal);
    app.load_macros(&[MacroConfig {
        key: 'c',
        steps: vec![
            MacroStep::command("bogus"),
            MacroStep::command("help"),
        ],
    }]);
    let run = app.run_macro('c', &mut commands());
    assert_eq!(run.steps.len(), 1);
    assert!(!run.steps[0].succeeded);
    assert_eq!(app.message().expect("error").kind, MessageKind::Error);
}

#[test]
fn loading_macros_replaces_the_previous_set_and_last_binding_wins() {
    let mut app = make_app();
    app.load_macros(&[MacroConfig { key: 'a', steps: vec![MacroStep::command("help")] }]);
    app.load_macros(&[
        MacroConfig { key: 'b', steps: vec![MacroStep::command("first")] },
        MacroConfig { key: 'b', steps: vec![MacroStep::command("second")] },
    ]);
    assert_eq!(app.macro_steps('a'), None);
    assert_eq!(app.macro_steps('b'), Some(vec![MacroStep::command("second")]));
    assert_eq!(app.macro_help_rows(), vec![('b', ":second".to_string())]);
}

#[test]
fn help_rows_are_sorted_by_register_with_summaries() {
    let mut app = make_app();
    app.load_macros(&[
        MacroConfig { key: 'z', steps: vec![MacroStep::command("help")] },
        MacroConfig {
            key: 'a',
            steps: vec![MacroStep::command("comment review looks good"), MacroStep::command("submit approve")],
        },
        MacroConfig { key: 'M', steps: vec![MacroStep::command("quit")] },
    ]);
    assert_eq!(
        app.macro_help_rows(),
        vec![
            ('M', ":quit".to_string()),
            ('a', ":comment review looks good → :submit approve".to_string()),
            ('z', ":help".to_string()),
        ]
    );
}

#[test]
fn summary_joins_commands_with_arrows() {
    assert_eq!(summarize_macro_steps(&[]), "");
    assert_eq!(summarize_macro_steps(&[MacroStep::command("help")]), ":help");
    assert_eq!(
        summarize_macro_steps(&[MacroStep::command("a"), MacroStep::command("b"), MacroStep::command("c")]),
        ":a → :b → :c"
    );
}

#[test]
fn new_session_is_normal_and_empty() {
    let app = make_app();
    assert_eq!(app.input_mode(), InputMode::Normal);
    assert_eq!(app.last_macro_register(), None);
    assert!(!app.pending_at());
    assert!(app.message().is_none());
    assert!(app.macro_help_rows().is_empty());
}

#[test]
fn a_macro_without_steps_only_records_its_register() {
    let mut app = make_app();
    app.load_macros(&[MacroConfig { key: 'e', steps: Vec::new() }]);
    app.begin_pending_at();
    let run = app.run_macro('e', &mut commands());
    assert!(run.started);
    assert!(run.steps.is_empty());
    assert_eq!(app.last_macro_register(), Some('e'));
    assert!(!app.pending_at());
    assert_eq!(app.input_mode(), InputMode::Normal);
    assert!(app.message().is_none());
}
