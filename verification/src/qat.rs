//! The quick access toolbar: a strip of icon buttons for the most frequent
//! project commands.
use vstd::prelude::*;

use crate::ribbon::RibbonAction;

verus! {

/// A button of the toolbar: its icon, the tooltip shown on hover, the
/// command it gives and whether it can be clicked.
pub struct QatButton {
    pub icon: char,
    pub tooltip: &'static str,
    pub action: Option<RibbonAction>,
    pub enabled: bool,
}

/// A toolbar button as a value.
pub struct QatButtonModel {
    pub icon: char,
    pub tooltip: Seq<char>,
    pub action: Option<RibbonAction>,
    pub enabled: bool,
}

impl View for QatButton {
    type V = QatButtonModel;

    open spec fn view(&self) -> QatButtonModel {
        QatButtonModel {
            icon: self.icon,
            tooltip: self.tooltip@,
            action: self.action,
            enabled: self.enabled,
        }
    }
}

/// The buttons of a list, as values.
pub open spec fn spec_qat_models(buttons: Seq<QatButton>) -> Seq<QatButtonModel> {
    buttons.map_values(|b: QatButton| b@)
}

/// The toolbar's buttons, left to right: new, open and save project, each
/// enabled.
pub open spec fn spec_qat_buttons() -> Seq<QatButtonModel> {
    seq![
        QatButtonModel {
            icon: '\u{1F4C4}',
            tooltip: "New Project"@,
            action: Some(RibbonAction::NewProject),
            enabled: true,
        },
        QatButtonModel {
            icon: '\u{1F4C2}',
            tooltip: "Open Project"@,
            action: Some(RibbonAction::OpenProject),
            enabled: true,
        },
        QatButtonModel {
            icon: '\u{1F4BE}',
            tooltip: "Save Project"@,
            action: Some(RibbonAction::SaveProject),
            enabled: true,
        },
    ]
}

/// The toolbar's buttons.
pub fn qat_buttons() -> (r: Vec<QatButton>)
    ensures
        spec_qat_models(r@) == spec_qat_buttons(),
{
    let r = vec![
        QatButton {
            icon: '\u{1F4C4}',
            tooltip: "New Project",
            action: Some(RibbonAction::NewProject),
            enabled: true,
        },
        QatButton {
            icon: '\u{1F4C2}',
            tooltip: "Open Project",
            action: Some(RibbonAction::OpenProject),
            enabled: true,
        },
        QatButton {
            icon: '\u{1F4BE}',
            tooltip: "Save Project",
            action: Some(RibbonAction::SaveProject),
            enabled: true,
        },
    ];
    assert(spec_qat_models(r@) =~= spec_qat_buttons());
    r
}

/// What a click on the button at `idx` gives: its command, when there is
/// such a button and it is enabled.
pub open spec fn spec_qat_click(buttons: Seq<QatButtonModel>, idx: int) -> Option<RibbonAction> {
    if 0 <= idx < buttons.len() && buttons[idx].enabled {
        buttons[idx].action
    } else {
        None
    }
}

/// The command a click on the button at `idx` gives.
pub fn qat_click(buttons: &Vec<QatButton>, idx: usize) -> (r: Option<RibbonAction>)
    ensures
        r == spec_qat_click(spec_qat_models(buttons@), idx as int),
{
    if idx < buttons.len() && buttons[idx].enabled {
        buttons[idx].action
    } else {
        None
    }
}

/// Every button of the toolbar can be clicked, and each click gives a
/// project command: new, open or save.
pub proof fn lemma_qat_buttons_give_project_commands(idx: int)
    requires
        0 <= idx < spec_qat_buttons().len(),
    ensures
        spec_qat_click(spec_qat_buttons(), idx) matches Some(a) && (a == RibbonAction::NewProject
            || a == RibbonAction::OpenProject || a == RibbonAction::SaveProject),
{
}

} // verus!
