use emstudio::qat::{qat_buttons, qat_click};
use emstudio::ribbon::RibbonAction;

#[test]
fn toolbar_offers_new_open_and_save() {
    let buttons = qat_buttons();
    assert_eq!(buttons.len(), 3);
    let tooltips: Vec<&str> = buttons.iter().map(|b| b.tooltip).collect();
    assert_eq!(tooltips, vec!["New Project", "Open Project", "Save Project"]);
    assert_eq!(buttons[0].icon, '\u{1F4C4}');
    assert_eq!(buttons[1].icon, '\u{1F4C2}');
    assert_eq!(buttons[2].icon, '\u{1F4BE}');
    assert!(buttons.iter().all(|b| b.enabled));
}

#[test]
fn toolbar_clicks_give_their_commands() {
    let buttons = qat_buttons();
    assert_eq!(qat_click(&buttons, 0), Some(RibbonAction::NewProject));
    assert_eq!(qat_click(&buttons, 1), Some(RibbonAction::OpenProject));
    assert_eq!(qat_click(&buttons, 2), Some(RibbonAction::SaveProject));
    assert_eq!(qat_click(&buttons, 3), None);
}

#[test]
fn disabled_toolbar_buttons_give_nothing() {
    let mut buttons = qat_buttons();
    buttons[1].enabled = false;
    assert_eq!(qat_click(&buttons, 1), None);
    assert_eq!(qat_click(&buttons, 0), Some(RibbonAction::NewProject));
}
