use emstudio::backend::{BackendError, RunMode, SimulationStatus, SolveResult};
use emstudio::draw_dialog::OperationCommand;
use emstudio::edition::Edition;
use emstudio::messages::Severity;
use emstudio::results::GeometryError;
use emstudio::ribbon::{action_name, RibbonAction, RibbonState};
use emstudio::shell::{ShellEffect, ShellState};

fn new_app() -> ShellState {
    ShellState::new_headless(RunMode::Standalone, Edition::Professional)
}

/// Runs a command as the application does, with a solver that converges.
fn dispatch(app: &mut ShellState, action: RibbonAction) {
    if let ShellEffect::Solve { all } = app.on_ribbon_action(action) {
        let result = SolveResult { field_preview: "placeholder".to_string(), converged: true };
        app.finish_solve(all, Ok(result));
    }
}

#[test]
fn app_starts_with_no_file_and_clean_state() {
    let app = new_app();
    assert!(!app.unsaved_changes());
    assert!(app.status_text().contains("Ready"));
    assert_eq!(app.status_text(), "Ready (standalone, Professional)");
    assert_eq!(app.log_text(), "[boot] EmStudio shell started (mode=standalone, edition=Professional)");
    assert_eq!(app.messages().len(), 1);
    assert_eq!(app.project_status(), SimulationStatus::Idle);
    assert!(app.last_result().is_none());
}

#[test]
fn initial_display_name_is_untitled() {
    let app = new_app();
    assert_eq!(app.file_display_name(None), "Untitled");
}

#[test]
fn solve_marks_project_dirty() {
    let mut app = new_app();
    assert!(!app.unsaved_changes());

    dispatch(&mut app, RibbonAction::Solve);

    assert!(app.unsaved_changes());
    assert_eq!(app.project_status(), SimulationStatus::Finished);
    assert!(app.last_result().is_some());
    assert_eq!(app.status_text(), "Solve completed");
}

#[test]
fn toggle_actions_do_not_mark_dirty() {
    let mut app = new_app();

    app.set_toggle("grid", false);
    dispatch(&mut app, RibbonAction::ToggleGrid);

    assert!(!app.unsaved_changes());
    assert!(app.status_text().contains("Grid:"));
    assert_eq!(app.status_text(), "Grid: OFF");
}

#[test]
fn render_mode_action_updates_status() {
    let mut app = new_app();
    dispatch(&mut app, RibbonAction::RenderShaded);
    assert!(app.status_text().contains("RenderShaded"));

    dispatch(&mut app, RibbonAction::RenderWireframe);
    assert!(app.status_text().contains("RenderWireframe"));
}

#[test]
fn stub_actions_mark_project_dirty() {
    let stub_actions = [
        RibbonAction::DrawBox,
        RibbonAction::DrawCylinder,
        RibbonAction::BoolUnite,
        RibbonAction::AssignMaterial,
    ];

    for action in stub_actions {
        let mut app = new_app();
        dispatch(&mut app, action);
        assert!(app.unsaved_changes(), "{:?} should mark project dirty", action);
        assert!(app.status_text().contains("not implemented"), "{:?} should show stub status", action);
    }
}

#[test]
fn stub_commands_log_and_ask_nothing() {
    for action in [RibbonAction::DrawSphere, RibbonAction::DrawPolyline, RibbonAction::SetUnits] {
        let mut app = new_app();
        assert_eq!(app.on_ribbon_action(action), ShellEffect::Nothing);
        assert!(app.unsaved_changes());
        assert_eq!(app.status_text(), format!("{} (not implemented yet)", action_name(action)));
        assert!(app.log_text().ends_with(&format!("\n[action] {} (stub)", action_name(action))));
        assert!(app.draw_dialog().is_none());
    }
}

#[test]
fn draw_commands_open_dialogs() {
    let mut app = new_app();
    dispatch(&mut app, RibbonAction::DrawTorus);
    assert!(!app.unsaved_changes());
    assert_eq!(app.draw_dialog().unwrap().command, OperationCommand::CreateTorus);
    dispatch(&mut app, RibbonAction::DrawCone);
    assert!(!app.unsaved_changes());
    assert_eq!(app.draw_dialog().unwrap().command, OperationCommand::CreateCone);
}

#[test]
fn solve_all_works_same_as_solve() {
    let mut app = new_app();
    dispatch(&mut app, RibbonAction::SolveAll);

    assert_eq!(app.project_status(), SimulationStatus::Finished);
    assert!(app.last_result().is_some());
    assert!(app.status_text().contains("Solve completed"));
    assert!(app.unsaved_changes());
}

#[test]
fn new_project_resets_state() {
    let mut app = new_app();

    dispatch(&mut app, RibbonAction::DrawBox);
    assert!(app.unsaved_changes());

    app.finish_save("/tmp/test.emsp", Ok(()));
    assert!(!app.unsaved_changes());

    assert_eq!(app.on_ribbon_action(RibbonAction::NewProject), ShellEffect::ResetProject);
    assert!(!app.unsaved_changes());
    assert!(app.status_text().contains("New project"));
}

#[test]
fn save_clears_dirty_flag() {
    let mut app = new_app();
    dispatch(&mut app, RibbonAction::Solve);
    assert!(app.unsaved_changes());

    app.finish_save("/tmp/clean.emsp", Ok(()));
    assert!(!app.unsaved_changes());
}

#[test]
fn new_project_resets_shell() {
    let mut app = new_app();
    dispatch(&mut app, RibbonAction::Solve);
    assert_eq!(app.on_ribbon_action(RibbonAction::NewProject), ShellEffect::ResetProject);
    assert!(!app.unsaved_changes());
    assert_eq!(app.project_status(), SimulationStatus::Idle);
    assert!(app.last_result().is_none());
    assert!(app.status_text().contains("New project"));
    assert_eq!(app.messages().last().unwrap().text, "New project created.");
}

#[test]
fn basic_edition_refuses_solve_all() {
    let mut app = ShellState::new_headless(RunMode::Cloud, Edition::Basic);
    assert_eq!(app.status_text(), "Ready (cloud, Basic)");
    assert_eq!(app.on_ribbon_action(RibbonAction::SolveAll), ShellEffect::Nothing);
    assert_eq!(app.project_status(), SimulationStatus::Idle);
    assert_eq!(app.status_text(), "Solve All requires Professional edition or higher");
    assert_eq!(app.messages().last().unwrap().severity, Severity::Warning);
}

#[test]
fn solve_all_and_failures() {
    let mut app = ShellState::new_headless(RunMode::LocalFirst, Edition::Enterprise);
    assert_eq!(app.on_ribbon_action(RibbonAction::SolveAll), ShellEffect::Solve { all: true });
    assert_eq!(app.project_status(), SimulationStatus::Solving);
    app.finish_solve(true, Err(BackendError::IoError("disk".to_string())));
    assert_eq!(app.project_status(), SimulationStatus::Failed);
    assert_eq!(app.status_text(), "Solve All failed: IO error: disk");
    assert!(!app.unsaved_changes());
    assert_eq!(app.messages().last().unwrap().severity, Severity::Error);
}

#[test]
fn dirty_flag_shown_in_display_name() {
    let mut app = new_app();
    assert_eq!(app.file_display_name(None), "Untitled");

    dispatch(&mut app, RibbonAction::DrawBox);
    assert_eq!(app.file_display_name(None), "Untitled*");

    app.finish_save("/tmp/named.emsp", Ok(()));
    assert_eq!(app.file_display_name(Some("named.emsp")), "named.emsp");
    assert_eq!(app.status_text(), "Saved: /tmp/named.emsp");

    dispatch(&mut app, RibbonAction::DrawSphere);
    assert_eq!(app.file_display_name(Some("named.emsp")), "named.emsp*");
}

#[test]
fn open_outcomes() {
    let mut app = new_app();
    app.finish_open("/tmp/missing.emsp", Err(BackendError::IoError("not found".to_string())));
    assert!(app.status_text().contains("Open failed"));
    let r = SolveResult { field_preview: "p".to_string(), converged: true };
    app.finish_open("/tmp/ok.emsp", Ok((SimulationStatus::Finished, Some(r))));
    assert_eq!(app.project_status(), SimulationStatus::Finished);
    assert!(app.status_text().contains("Opened"));
    assert!(!app.unsaved_changes());
}

#[test]
fn panels_and_toggles() {
    let mut app = new_app();
    dispatch(&mut app, RibbonAction::ToggleProjectManager);
    assert!(!app.show_project_manager());
    dispatch(&mut app, RibbonAction::ToggleProjectManager);
    assert!(app.show_project_manager());
    dispatch(&mut app, RibbonAction::ToggleMessageManager);
    assert!(!app.show_message_manager());

    let mut r = RibbonState::new();
    assert!(!r.is_toggled("ruler"));
    r.toggle("ruler");
    assert!(r.is_toggled("ruler"));
    r.toggle("ruler");
    assert!(!r.is_toggled("ruler"));
    assert_eq!(r.toggles.len(), 1);
    app.toggle("coord_system");
    dispatch(&mut app, RibbonAction::ToggleCoordSystem);
    assert_eq!(app.status_text(), "Coord System: ON");
}

#[test]
fn local_first_start_reports_loading() {
    let mut s = ShellState::new_headless(RunMode::LocalFirst, Edition::Professional);
    s.loading_default_project();
    assert_eq!(s.status_text(), "Loading default web project...");
    assert!(!s.unsaved_changes());
    assert_eq!(ShellState::unnamed_file_label(), "Unknown");
}

#[test]
fn async_solve_results_are_taken_in() {
    let mut app = new_app();
    app.finish_async_solve(SolveResult { field_preview: "f".to_string(), converged: true });
    assert_eq!(app.project_status(), SimulationStatus::Finished);
    assert_eq!(app.last_result().unwrap().field_preview, "f");
    assert!(app.unsaved_changes());
    assert_eq!(app.status_text(), "Solve completed");
    assert!(app.log_text().ends_with("\n[solver] async solve completed"));
    assert_eq!(app.messages().last().unwrap().text, "Solve completed (async).");

    let mut app = new_app();
    app.finish_async_solve(SolveResult { field_preview: "g".to_string(), converged: false });
    assert_eq!(app.project_status(), SimulationStatus::Failed);
    assert!(app.last_result().is_some());
    assert!(app.unsaved_changes());
}

#[test]
fn async_project_loads_are_taken_in() {
    let mut app = new_app();
    dispatch(&mut app, RibbonAction::Solve);
    assert!(app.unsaved_changes());
    app.finish_async_load("p-7", (SimulationStatus::Idle, None));
    assert_eq!(app.project_status(), SimulationStatus::Idle);
    assert!(app.last_result().is_none());
    assert!(!app.unsaved_changes());
    assert_eq!(app.status_text(), "Opened project: p-7");
    assert!(app.log_text().ends_with("\n[file] opened project p-7 (async)"));
    assert_eq!(app.messages().last().unwrap().text, "Project loaded: p-7");
    assert_eq!(app.messages().last().unwrap().severity, Severity::Info);
}

#[test]
fn ribbon_edits_through_the_shell() {
    let mut app = new_app();
    assert_eq!(app.edition(), Edition::Professional);
    assert_eq!(app.mode(), RunMode::Standalone);
    app.set_active_tab(3);
    assert_eq!(app.ribbon_state().active_tab, 3);
    app.set_toggle("grid", true);
    assert!(app.ribbon_state().is_toggled("grid"));
    app.toggle("grid");
    assert!(!app.ribbon_state().is_toggled("grid"));
    assert_eq!(app.ribbon_state().toggles.len(), 1);
    assert!(!app.unsaved_changes());
}

#[test]
fn design_variables_are_added_numbered_and_edited() {
    let mut app = new_app();
    assert_eq!(app.design_variables().len(), 0);
    assert_eq!(app.add_design_variable(), "var1");
    assert!(app.unsaved_changes());
    assert_eq!(app.add_design_variable(), "var2");
    assert_eq!(app.design_variables().len(), 2);
    let v = app.design_variables().get("var1").unwrap();
    assert_eq!(v.value.as_deref(), Some("0"));
    assert!(v.expression.is_none());
    assert_eq!(v.description, "");
    assert!(v.unit_type.is_none());

    let mut fresh = new_app();
    assert!(!fresh.edit_design_variable("var1", "2mm"));
    assert!(!fresh.unsaved_changes());
    fresh.add_design_variable();
    fresh.finish_save("/tmp/v.emsp", Ok(()));
    assert!(fresh.edit_design_variable("var1", "2mm"));
    assert!(fresh.unsaved_changes());
    assert_eq!(fresh.design_variables().get("var1").unwrap().value.as_deref(), Some("2mm"));
    assert_eq!(fresh.design_variables().len(), 1);
}

#[test]
fn draw_results_report_and_close_the_dialog() {
    let mut app = new_app();
    dispatch(&mut app, RibbonAction::DrawTorus);
    app.finish_draw(Ok(Some("Torus1".to_string())));
    assert!(app.draw_dialog().is_none());
    assert!(app.unsaved_changes());
    assert_eq!(app.status_text(), "Created: Torus1");
    assert_eq!(app.messages().last().unwrap().text, "Created object 'Torus1'");

    let mut app = new_app();
    dispatch(&mut app, RibbonAction::DrawCone);
    app.finish_draw(Err(GeometryError::BuildError("bad radius".to_string())));
    assert!(app.draw_dialog().is_none());
    assert!(!app.unsaved_changes());
    assert_eq!(app.status_text(), "Create failed: build error: bad radius");
    assert_eq!(app.messages().last().unwrap().severity, Severity::Error);

    let mut app = new_app();
    dispatch(&mut app, RibbonAction::DrawCone);
    let before = app.messages().len();
    app.finish_draw(Ok(None));
    assert!(app.draw_dialog().is_none());
    assert_eq!(app.messages().len(), before);
    assert!(!app.unsaved_changes());
}
