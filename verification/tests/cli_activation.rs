use popshot::activation::{action_name, action_target, ActionTarget, APP_ID};
use popshot::cli::{parse, Options, HELP};
use popshot::output_selection::CaptureMode;

fn args(list: &[&str]) -> Vec<String> {
    list.iter().map(|s| s.to_string()).collect()
}

#[test]
fn no_arguments_opens_the_toolbar() {
    assert_eq!(parse(args(&[])), Ok(Some(Options { service: false, mode: None })));
}

#[test]
fn each_mode_flag_selects_its_mode() {
    assert_eq!(parse(args(&["--area"])), Ok(Some(Options { service: false, mode: Some(CaptureMode::Rectangle) })));
    assert_eq!(parse(args(&["--freehand"])), Ok(Some(Options { service: false, mode: Some(CaptureMode::Freehand) })));
    assert_eq!(
        parse(args(&["--fullscreen"])),
        Ok(Some(Options { service: false, mode: Some(CaptureMode::Fullscreen) }))
    );
}

#[test]
fn help_wins_over_later_arguments() {
    assert_eq!(parse(args(&["-h", "--bogus"])), Ok(None));
    assert_eq!(parse(args(&["--area", "--help"])), Ok(None));
    assert!(HELP.starts_with("Usage: popshot"));
}

#[test]
fn service_startup_takes_no_mode() {
    assert_eq!(parse(args(&["--gapplication-service"])), Ok(Some(Options { service: true, mode: None })));
    let conflict = Err("Choose one capture mode; service startup cannot include a mode".to_string());
    assert_eq!(parse(args(&["--gapplication-service", "--area"])), conflict);
    assert_eq!(parse(args(&["--area", "--fullscreen"])), conflict);
    assert_eq!(
        parse(args(&["--area", "--gapplication-service"])),
        Err("Unknown or repeated option: --gapplication-service".to_string())
    );
}

#[test]
fn unknown_options_are_named() {
    assert_eq!(parse(args(&["--window"])), Err("Unknown or repeated option: --window".to_string()));
    assert_eq!(
        parse(args(&["--gapplication-service", "--gapplication-service"])),
        Err("Unknown or repeated option: --gapplication-service".to_string())
    );
}

#[test]
fn mode_labels() {
    assert_eq!(CaptureMode::Rectangle.label(), "Rectangle");
    assert_eq!(CaptureMode::Freehand.label(), "Freehand");
    assert_eq!(CaptureMode::Fullscreen.label(), "Fullscreen");
    assert_eq!(CaptureMode::ALL.len(), 3);
}

#[test]
fn capture_actions_round_trip() {
    for mode in CaptureMode::ALL {
        match action_target(action_name(mode), &Vec::new()) {
            Ok(ActionTarget::Capture(m)) => assert_eq!(m, mode),
            other => panic!("unexpected {other:?}"),
        }
    }
    assert_eq!(action_name(CaptureMode::Rectangle), "area");
    assert_eq!(APP_ID, "io.github.tg.PopShot");
}

#[test]
fn action_errors() {
    let err = |r: Result<ActionTarget, String>| r.err().unwrap();
    assert_eq!(err(action_target("area", &vec![None])), "Capture actions take no parameters");
    assert_eq!(err(action_target("preview", &Vec::new())), "Expected preview with one capture ID");
    assert_eq!(err(action_target("open", &Vec::new())), "Expected preview with one capture ID");
    assert_eq!(err(action_target("preview", &vec![None])), "Capture ID must be a string");
    assert_eq!(err(action_target("preview", &vec![Some("../x".to_string())])), "Invalid capture ID");
}

#[test]
fn preview_action_takes_a_capture_id() {
    let id = "67e55044-10b1-426f-9247-bb680e5fe0c8".to_string();
    match action_target("preview", &vec![Some(id.clone())]) {
        Ok(ActionTarget::Preview(got)) => assert_eq!(got, id),
        other => panic!("unexpected {other:?}"),
    }
}
