use clogs::Clog;
use clogs::EntryKind;
use clogs::LoadError;
use clogs::LoadProbe;
use clogs::script::render_entry_name;
use clogs::script::update_entry_name;

fn game() -> Clog {
    Clog::new("a game".to_string())
}

fn both_callable() -> LoadProbe {
    LoadProbe::Evaluated { update: EntryKind::Callable, render: EntryKind::Callable }
}

#[test]
fn entry_point_names() {
    assert_eq!(update_entry_name(), "engine:update");
    assert_eq!(render_entry_name(), "engine:render");
}

#[test]
fn is_callable_only_for_callables() {
    assert!(EntryKind::Callable.is_callable());
    assert!(!EntryKind::NotCallable("5".to_string()).is_callable());
    assert!(!EntryKind::Unbound("unbound global".to_string()).is_callable());
}

#[test]
fn missing_update_fails_regardless_of_render() {
    let renders = vec![
        EntryKind::Callable,
        EntryKind::NotCallable("\"text\"".to_string()),
        EntryKind::Unbound("no such global".to_string()),
    ];
    for render in renders {
        let probe = LoadProbe::Evaluated {
            update: EntryKind::Unbound("no such global".to_string()),
            render,
        };
        let r = game().main_script(probe);
        match r {
            Err(LoadError::MissingEntryPoint { name, found }) => {
                assert_eq!(name, "engine:update");
                assert_eq!(found, None);
            },
            other => panic!("expected MissingEntryPoint for update, got {:?}", other.err()),
        }
    }
}

#[test]
fn missing_render_with_valid_update() {
    let probe = LoadProbe::Evaluated {
        update: EntryKind::Callable,
        render: EntryKind::Unbound("no such global".to_string()),
    };
    let r = game().main_script(probe);
    match r {
        Err(LoadError::MissingEntryPoint { name, found }) => {
            assert_eq!(name, "engine:render");
            assert_eq!(found, None);
        },
        other => panic!("expected MissingEntryPoint for render, got {:?}", other.err()),
    }
}

#[test]
fn both_entry_points_callable_succeeds() {
    let config = game()
        .width(640)
        .height(480)
        .sample_count(4)
        .load_svg("logo".to_string(), "<svg/>".to_string());
    let r = config.main_script(both_callable());
    let launched = r.expect("load should succeed with both entry points callable");
    assert_eq!(launched.title, "a game");
    assert_eq!(launched.width, 640);
    assert_eq!(launched.height, 480);
    assert_eq!(launched.sample_count, 4);
    assert_eq!(launched.svgs, vec![("logo".to_string(), "<svg/>".to_string())]);
    assert_eq!(launched.fonts, Vec::new());
}

#[test]
fn noncallable_update_fails_like_missing() {
    let probe = LoadProbe::Evaluated {
        update: EntryKind::NotCallable("5".to_string()),
        render: EntryKind::Callable,
    };
    let r = game().main_script(probe);
    match r {
        Err(LoadError::MissingEntryPoint { name, found }) => {
            assert_eq!(name, "engine:update");
            assert_eq!(found, Some("5".to_string()));
        },
        other => panic!("expected MissingEntryPoint for update, got {:?}", other.err()),
    }
}

#[test]
fn loading_twice_yields_same_outcome() {
    let first = game().main_script(both_callable());
    let second = game().main_script(both_callable());
    assert_eq!(first.is_ok(), second.is_ok());
    assert!(first.is_ok());

    let bad = || LoadProbe::Evaluated {
        update: EntryKind::Unbound("no such global".to_string()),
        render: EntryKind::Callable,
    };
    let first = game().main_script(bad());
    let second = game().main_script(bad());
    assert_eq!(first.is_ok(), second.is_ok());
    assert!(first.is_err());
}

#[test]
fn only_update_defined_reports_missing_render() {
    let probe = LoadProbe::Evaluated {
        update: EntryKind::Callable,
        render: EntryKind::Unbound("no such global".to_string()),
    };
    match game().main_script(probe) {
        Err(LoadError::MissingEntryPoint { name, .. }) => assert_eq!(name, "engine:render"),
        other => panic!("expected MissingEntryPoint, got {:?}", other.err()),
    }
}

#[test]
fn parse_failure_is_reported_verbatim() {
    let probe = LoadProbe::ParseFailed("unexpected end of input".to_string());
    assert_eq!(
        game().main_script(probe).err(),
        Some(LoadError::ParseError("unexpected end of input".to_string())),
    );
}

#[test]
fn eval_failure_is_reported_verbatim() {
    let probe = LoadProbe::EvalFailed("arithmetic on a string".to_string());
    assert_eq!(
        game().main_script(probe).err(),
        Some(LoadError::EvalError("arithmetic on a string".to_string())),
    );
}

#[test]
fn scope_failure_is_a_runtime_failure() {
    assert_eq!(game().main_script(LoadProbe::ScopeFailed).err(), Some(LoadError::RuntimeFailure));
}
