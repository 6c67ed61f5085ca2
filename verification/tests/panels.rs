use emstudio::design::{AssignmentTarget, ExcitationType, Net};
use emstudio::panels::{
    add_net, add_terminal, available_objects, net_label, parameter_buffer_key, parameter_edit, remove_selected_net,
    selected_net_name, Q3dNetPanelState,
};

fn net(name: &str, objects: &[&str], gnd: bool) -> Net {
    Net {
        name: name.to_string(),
        objects: objects.iter().map(|s| s.to_string()).collect(),
        is_ground_reference: gnd,
        terminals: Vec::new(),
    }
}

#[test]
fn added_nets_are_numbered_and_selected() {
    let mut nets = Vec::new();
    let mut state = Q3dNetPanelState::default();
    add_net(&mut nets, &mut state);
    add_net(&mut nets, &mut state);
    assert_eq!(nets.len(), 2);
    assert_eq!(nets[0].name, "Net1");
    assert_eq!(nets[1].name, "Net2");
    assert_eq!(state.selected_net_idx, Some(1));

    state.new_net_name = "GND".to_string();
    add_net(&mut nets, &mut state);
    assert_eq!(nets[2].name, "GND");
    assert!(nets[2].objects.is_empty() && nets[2].terminals.is_empty() && !nets[2].is_ground_reference);
    assert_eq!(state.selected_net_idx, Some(2));
    assert_eq!(state.new_net_name, "");
    assert_eq!(selected_net_name(&nets, &state), Some("GND".to_string()));
}

#[test]
fn removing_a_net_keeps_a_valid_selection() {
    let mut nets = vec![net("A", &[], false), net("B", &[], false), net("C", &[], false)];
    let mut state = Q3dNetPanelState::default();
    assert!(!remove_selected_net(&mut nets, &mut state));
    assert_eq!(nets.len(), 3);

    state.selected_net_idx = Some(2);
    assert!(remove_selected_net(&mut nets, &mut state));
    assert_eq!(nets.iter().map(|n| n.name.as_str()).collect::<Vec<_>>(), vec!["A", "B"]);
    assert_eq!(state.selected_net_idx, Some(1));

    state.selected_net_idx = Some(0);
    assert!(remove_selected_net(&mut nets, &mut state));
    assert_eq!(nets[0].name, "B");
    assert_eq!(state.selected_net_idx, Some(0));

    assert!(remove_selected_net(&mut nets, &mut state));
    assert!(nets.is_empty());
    assert_eq!(state.selected_net_idx, None);
    assert_eq!(selected_net_name(&nets, &state), None);

    state.selected_net_idx = Some(5);
    assert!(!remove_selected_net(&mut nets, &mut state));
    assert_eq!(state.selected_net_idx, Some(5));
}

#[test]
fn remove_undoes_add() {
    let mut nets = vec![net("A", &["Box1"], true)];
    let mut state = Q3dNetPanelState::default();
    add_net(&mut nets, &mut state);
    assert!(remove_selected_net(&mut nets, &mut state));
    assert_eq!(nets.len(), 1);
    assert_eq!(nets[0].name, "A");
    assert_eq!(state.selected_net_idx, Some(0));
}

#[test]
fn net_labels_mark_ground() {
    assert_eq!(net_label(&net("GND", &[], true)), "GND (GND)");
    assert_eq!(net_label(&net("Sig", &[], false)), "Sig");
}

#[test]
fn only_unassigned_objects_are_offered() {
    let n = net("Sig", &["Trace1", "Pad"], false);
    let geo = vec!["Box1".to_string(), "Trace1".to_string(), "Pad".to_string(), "Via".to_string()];
    assert_eq!(available_objects(&n, &geo), vec!["Box1".to_string(), "Via".to_string()]);
}

#[test]
fn terminals_need_a_name() {
    let mut n = net("Sig", &[], false);
    let mut state = Q3dNetPanelState::default();
    assert!(!add_terminal(&mut n, &mut state));
    assert!(n.terminals.is_empty());

    state.new_terminal_name = "T1".to_string();
    assert!(add_terminal(&mut n, &mut state));
    assert_eq!(n.terminals.len(), 1);
    assert_eq!(n.terminals[0].name, "T1");
    assert_eq!(n.terminals[0].terminal_type, ExcitationType::Source);
    assert_eq!(n.terminals[0].assignment.target_type, AssignmentTarget::Face);
    assert!(n.terminals[0].assignment.targets.is_empty());
    assert_eq!(state.new_terminal_name, "");
}

#[test]
fn parameter_edits_only_when_changed() {
    assert_eq!(parameter_buffer_key("Box1", "size"), "Box1:size");
    assert!(parameter_edit("Box1", "size", "1, 2, 3", "1, 2, 3").is_none());
    let e = parameter_edit("Box1", "size", "2, 2, 3", "1, 2, 3").unwrap();
    assert_eq!(e.object_name, "Box1");
    assert_eq!(e.key, "size");
    assert_eq!(e.new_value, "2, 2, 3");
}
