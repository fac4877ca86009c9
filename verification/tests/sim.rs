use ironhold::sim::{set_mode, EngineApp, Mode};

#[test]
fn a_new_simulation_is_in_edit_mode() {
    assert_eq!(EngineApp::new(), EngineApp { mode: Mode::Edit });
    assert_eq!(EngineApp::default().mode, Mode::Edit);
}

#[test]
fn update_names_the_step_of_the_mode() {
    let mut app = EngineApp::new();
    assert_eq!(app.update(), Mode::Edit);
    set_mode(&mut app, Mode::Play);
    assert_eq!(app.mode, Mode::Play);
    assert_eq!(app.update(), Mode::Play);
    assert_eq!(app.update(), Mode::Play);
    assert_eq!(app.mode, Mode::Play);
    set_mode(&mut app, Mode::Edit);
    assert_eq!(app.update(), Mode::Edit);
}

#[test]
fn set_mode_to_the_same_mode_changes_nothing() {
    let mut app = EngineApp { mode: Mode::Play };
    set_mode(&mut app, Mode::Play);
    assert_eq!(app, EngineApp { mode: Mode::Play });
}
