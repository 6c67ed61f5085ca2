use emstudio::edition::Edition;
use emstudio::menu_bar::{menu_bar, MenuEntry};
use emstudio::ribbon::RibbonAction;

fn enabled_actions(edition: Edition, is_web: bool) -> Vec<RibbonAction> {
    let mut out = Vec::new();
    for m in menu_bar(edition, is_web) {
        for e in m.entries {
            match e {
                MenuEntry::Item(i) => {
                    if i.enabled {
                        out.push(i.action.unwrap());
                    }
                }
                MenuEntry::Submenu { items, .. } => {
                    for i in items {
                        if i.enabled {
                            out.push(i.action.unwrap());
                        }
                    }
                }
                MenuEntry::Separator => {}
            }
        }
    }
    out
}

#[test]
fn menus_in_order() {
    let labels: Vec<String> = menu_bar(Edition::Professional, false).into_iter().map(|m| m.label).collect();
    assert_eq!(labels, vec!["File", "Edit", "View", "Project", "Draw", "Simulation", "Results", "Help"]);
}

#[test]
fn file_operations_are_native_only() {
    let native = enabled_actions(Edition::Professional, false);
    let web = enabled_actions(Edition::Professional, true);
    for a in [RibbonAction::NewProject, RibbonAction::OpenProject, RibbonAction::SaveProject, RibbonAction::ImportStep] {
        assert!(native.contains(&a));
        assert!(!web.contains(&a));
    }
    assert!(web.contains(&RibbonAction::CloseProject));
    assert!(web.contains(&RibbonAction::DrawBox));
}

#[test]
fn solve_all_needs_an_edition_that_allows_it() {
    assert!(!enabled_actions(Edition::Basic, false).contains(&RibbonAction::SolveAll));
    assert!(enabled_actions(Edition::Professional, false).contains(&RibbonAction::SolveAll));
    assert!(enabled_actions(Edition::Basic, false).contains(&RibbonAction::Solve));
}

#[test]
fn disabled_entries_are_shown() {
    let bar = menu_bar(Edition::Enterprise, false);
    match &bar[1].entries[0] {
        MenuEntry::Item(i) => {
            assert_eq!(i.label, "Undo");
            assert!(!i.enabled);
            assert!(i.action.is_none());
        }
        _ => panic!("expected an item"),
    }
    match &bar[6].entries[3] {
        MenuEntry::Submenu { label, items } => {
            assert_eq!(label, "Plot Fields");
            assert_eq!(items.len(), 3);
            assert_eq!(items[2].action, Some(RibbonAction::PlotSAR));
        }
        _ => panic!("expected a submenu"),
    }
}
