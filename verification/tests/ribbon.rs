use emstudio::edition::Edition;
use emstudio::ribbon::RibbonAction;
use emstudio::ribbon_tabs::{build_default_tabs, RibbonItem, RibbonTab};

fn enabled_actions(tab: &RibbonTab) -> Vec<RibbonAction> {
    let mut out = Vec::new();
    for g in &tab.groups {
        for c in &g.sub_groups {
            for i in &c.items {
                match i {
                    RibbonItem::LargeButton { action, enabled, .. }
                    | RibbonItem::SmallButton { action, enabled, .. }
                    | RibbonItem::LargeSplitButton { action, enabled, .. } => {
                        if *enabled {
                            out.push(*action)
                        }
                    }
                    RibbonItem::LargeDropdown { .. } => {}
                    RibbonItem::ToggleButton { action, .. } | RibbonItem::ComboBox { action, .. } => out.push(*action),
                }
            }
        }
    }
    out
}

#[test]
fn default_tabs_in_order() {
    let tabs = build_default_tabs(Edition::Professional, false);
    let labels: Vec<&str> = tabs.iter().map(|t| t.label.as_str()).collect();
    assert_eq!(labels, vec!["Desktop", "View", "Simulation", "Draw", "Model", "Results"]);
    assert_eq!(tabs[3].accent_color, Some((0, 120, 200)));
    assert_eq!(tabs[5].accent_color, Some((50, 160, 80)));
    assert_eq!(tabs[0].accent_color, None);
}

#[test]
fn web_desktop_offers_only_close() {
    let web = build_default_tabs(Edition::Professional, true);
    assert_eq!(enabled_actions(&web[0]), vec![RibbonAction::CloseProject]);
    let native = build_default_tabs(Edition::Professional, false);
    assert_eq!(
        enabled_actions(&native[0]),
        vec![
            RibbonAction::NewProject,
            RibbonAction::OpenProject,
            RibbonAction::SaveProject,
            RibbonAction::SaveAs,
            RibbonAction::CloseProject,
            RibbonAction::ImportStep,
            RibbonAction::ExportStep,
        ]
    );
    match &web[0].groups[0].sub_groups[0].items[0] {
        RibbonItem::LargeButton { tooltip, .. } => assert_eq!(tooltip, "Not available in web version"),
        _ => panic!("expected a large button"),
    }
}

#[test]
fn analyze_all_follows_edition() {
    for (edition, enabled) in [(Edition::Basic, false), (Edition::Professional, true), (Edition::Enterprise, true)] {
        let tabs = build_default_tabs(edition, false);
        match &tabs[2].groups[2].sub_groups[0].items[0] {
            RibbonItem::LargeButton { action, enabled: e, tooltip, .. } => {
                assert_eq!(*action, RibbonAction::SolveAll);
                assert_eq!(*e, enabled);
                if !enabled {
                    assert_eq!(tooltip, "Requires Professional edition");
                }
            }
            _ => panic!("expected a large button"),
        }
    }
}

#[test]
fn draw_tab_contents() {
    let tabs = build_default_tabs(Edition::Basic, false);
    let draw = &tabs[3];
    assert_eq!(draw.groups[0].label, "Primitives");
    match &draw.groups[1].sub_groups[0].items[0] {
        RibbonItem::ComboBox { options, selected, action, .. } => {
            assert_eq!(options, &vec!["XY".to_string(), "YZ".to_string(), "XZ".to_string()]);
            assert_eq!(*selected, 0);
            assert_eq!(*action, RibbonAction::SetPlane);
        }
        _ => panic!("expected a combo box"),
    }
    match &draw.groups[2].sub_groups[0].items[0] {
        RibbonItem::LargeDropdown { menu_items, .. } => {
            let units: Vec<&str> = menu_items.iter().map(|m| m.label.as_str()).collect();
            assert_eq!(units, vec!["mm", "cm", "m", "mil", "in"]);
        }
        _ => panic!("expected a dropdown"),
    }
    let view = &tabs[1];
    match &view.groups[0].sub_groups[0].items[2] {
        RibbonItem::ToggleButton { state_key, action, .. } => {
            assert_eq!(state_key, "coord_system");
            assert_eq!(*action, RibbonAction::ToggleCoordSystem);
        }
        _ => panic!("expected a toggle"),
    }
    assert_eq!(tabs[5].groups[1].label, "Field Overlays");
}
