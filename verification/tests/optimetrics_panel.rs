use emstudio::optimetrics::{create_default_setup, OptimetricsSetup, OptimetricsType};
use emstudio::optimetrics_panel::{setup_info_line, setup_line, OptimetricsPanel};

#[test]
fn new_panel_offers_a_sweep_named_new_setup() {
    let panel: OptimetricsPanel<u32> = OptimetricsPanel::new(vec![7, 8]);
    assert_eq!(panel.setups, vec![7, 8]);
    assert_eq!(panel.selected_idx, None);
    assert_eq!(panel.add_type, OptimetricsType::ParametricSweep);
    assert_eq!(panel.new_name, "NewSetup");
}

#[test]
fn added_setups_are_selected_and_the_next_name_is_numbered() {
    let mut panel: OptimetricsPanel<u32> = OptimetricsPanel::new(Vec::new());
    assert!(panel.add_setup(1));
    assert_eq!(panel.setups, vec![1]);
    assert_eq!(panel.selected_idx, Some(0));
    assert_eq!(panel.new_name, "Setup2");
    assert!(panel.add_setup(2));
    assert_eq!(panel.selected_idx, Some(1));
    assert_eq!(panel.new_name, "Setup3");
}

#[test]
fn nothing_is_added_without_a_name() {
    let mut panel: OptimetricsPanel<u32> = OptimetricsPanel::new(vec![5]);
    panel.new_name = String::new();
    assert!(!panel.add_setup(9));
    assert_eq!(panel.setups, vec![5]);
    assert_eq!(panel.selected_idx, None);
    assert_eq!(panel.new_name, "");
}

#[test]
fn deleting_keeps_the_selection_in_range() {
    let mut panel: OptimetricsPanel<u32> = OptimetricsPanel::new(vec![1, 2, 3]);
    assert!(!panel.delete_selected());
    panel.select(2);
    assert!(panel.delete_selected());
    assert_eq!(panel.setups, vec![1, 2]);
    assert_eq!(panel.selected_idx, Some(1));
    panel.select(0);
    assert!(panel.delete_selected());
    assert_eq!(panel.setups, vec![2]);
    assert_eq!(panel.selected_idx, Some(0));
    assert!(panel.delete_selected());
    assert!(panel.setups.is_empty());
    assert_eq!(panel.selected_idx, None);
}

#[test]
fn a_selection_past_the_end_deletes_nothing() {
    let mut panel: OptimetricsPanel<u32> = OptimetricsPanel::new(vec![1]);
    panel.select(4);
    assert!(!panel.delete_selected());
    assert_eq!(panel.setups, vec![1]);
    assert_eq!(panel.selected_idx, Some(4));
}

#[test]
fn deleting_the_setup_just_added_restores_the_list() {
    let mut panel: OptimetricsPanel<u32> = OptimetricsPanel::new(vec![3, 4]);
    assert!(panel.add_setup(5));
    assert!(panel.delete_selected());
    assert_eq!(panel.setups, vec![3, 4]);
    assert_eq!(panel.selected_idx, Some(1));
}

#[test]
fn setup_lines_show_state_name_and_kind() {
    assert_eq!(setup_line("S1", OptimetricsType::ParametricSweep, true), "[x] S1 (Sweep)");
    assert_eq!(setup_line("Opt", OptimetricsType::Optimization, false), "[ ] Opt (Optimize)");
    assert_eq!(setup_line("MC", OptimetricsType::Statistical, true), "[x] MC (Statistical)");
    assert_eq!(OptimetricsType::Sensitivity.kind_label(), "Sensitivity");
    assert_eq!(OptimetricsType::Tuning.kind_label(), "Tuning");
}

type Setup = OptimetricsSetup<u8, u8, u8>;

#[test]
fn default_setups_carry_the_panel_defaults() {
    match create_default_setup::<u8, u8, u8>("Opt", OptimetricsType::Optimization) {
        OptimetricsSetup::Optimization { name, enabled, setup, algorithm, max_iterations, variables, goals, constraints } => {
            assert_eq!(name, "Opt");
            assert!(enabled);
            assert_eq!(setup, "Setup1");
            assert_eq!(algorithm, "PatternSearch");
            assert_eq!(max_iterations, 100);
            assert!(variables.is_empty() && goals.is_empty() && constraints.is_empty());
        }
        _ => panic!("wrong kind"),
    }
    match create_default_setup::<u8, u8, u8>("Sens", OptimetricsType::Sensitivity) {
        OptimetricsSetup::Sensitivity { num_samples, output, .. } => {
            assert_eq!(num_samples, 50);
            assert_eq!(output, "");
        }
        _ => panic!("wrong kind"),
    }
    match create_default_setup::<u8, u8, u8>("MC", OptimetricsType::Statistical) {
        OptimetricsSetup::Statistical { num_trials, .. } => assert_eq!(num_trials, 1000),
        _ => panic!("wrong kind"),
    }
    let sweep: Setup = create_default_setup("S1", OptimetricsType::ParametricSweep);
    assert_eq!(sweep.kind(), OptimetricsType::ParametricSweep);
    assert_eq!(setup_info_line(&sweep), "[x] S1 (Sweep)");
    let tuning: Setup = create_default_setup("T", OptimetricsType::Tuning);
    assert_eq!(tuning.name(), "T");
    assert!(tuning.enabled());
    assert_eq!(setup_info_line(&tuning), "[x] T (Tuning)");
}
