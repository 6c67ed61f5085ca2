//! The ribbon's layout: tabs of groups of buttons, split buttons,
//! dropdowns, toggles and combo boxes, each bound to a command, and the
//! default tabs, which depend on the edition and on whether the
//! application runs in a browser.
use vstd::prelude::*;
use vstd::string::*;

use crate::design::spec_strings;
use crate::edition::Edition;
use crate::ribbon::RibbonAction;

verus! {

/// An entry of a dropdown or split-button menu.
#[derive(Clone)]
pub struct MenuItem {
    pub label: String,
    pub action: RibbonAction,
    pub enabled: bool,
}

/// A control of a ribbon group.
#[derive(Clone)]
pub enum RibbonItem {
    LargeButton { label: String, icon: char, action: RibbonAction, enabled: bool, tooltip: String },
    SmallButton { label: String, icon: char, action: RibbonAction, enabled: bool, tooltip: String },
    LargeSplitButton {
        label: String,
        icon: char,
        action: RibbonAction,
        enabled: bool,
        tooltip: String,
        menu_items: Vec<MenuItem>,
    },
    LargeDropdown { label: String, icon: char, enabled: bool, tooltip: String, menu_items: Vec<MenuItem> },
    ToggleButton { label: String, icon: char, state_key: String, action: RibbonAction, tooltip: String },
    ComboBox { label: String, options: Vec<String>, selected: usize, action: RibbonAction },
}

/// A column of controls within a group.
#[derive(Clone)]
pub struct RibbonSubGroup {
    pub items: Vec<RibbonItem>,
}

/// A labelled group of controls.
#[derive(Clone)]
pub struct RibbonGroup {
    pub label: String,
    pub sub_groups: Vec<RibbonSubGroup>,
}

/// A ribbon tab; its accent colour, if any, as red, green and blue.
#[derive(Clone)]
pub struct RibbonTab {
    pub label: String,
    pub accent_color: Option<(u8, u8, u8)>,
    pub groups: Vec<RibbonGroup>,
}

/// The mathematical value of a `MenuItem`.
pub struct MenuItemModel {
    pub label: Seq<char>,
    pub action: RibbonAction,
    pub enabled: bool,
}

/// The mathematical value of a `RibbonItem`.
pub enum RibbonItemModel {
    LargeButton { label: Seq<char>, icon: char, action: RibbonAction, enabled: bool, tooltip: Seq<char> },
    SmallButton { label: Seq<char>, icon: char, action: RibbonAction, enabled: bool, tooltip: Seq<char> },
    LargeSplitButton {
        label: Seq<char>,
        icon: char,
        action: RibbonAction,
        enabled: bool,
        tooltip: Seq<char>,
        menu_items: Seq<MenuItemModel>,
    },
    LargeDropdown { label: Seq<char>, icon: char, enabled: bool, tooltip: Seq<char>, menu_items: Seq<MenuItemModel> },
    ToggleButton { label: Seq<char>, icon: char, state_key: Seq<char>, action: RibbonAction, tooltip: Seq<char> },
    ComboBox { label: Seq<char>, options: Seq<Seq<char>>, selected: usize, action: RibbonAction },
}

/// The mathematical value of a `RibbonSubGroup`.
pub struct RibbonSubGroupModel {
    pub items: Seq<RibbonItemModel>,
}

/// The mathematical value of a `RibbonGroup`.
pub struct RibbonGroupModel {
    pub label: Seq<char>,
    pub sub_groups: Seq<RibbonSubGroupModel>,
}

/// The mathematical value of a `RibbonTab`.
pub struct RibbonTabModel {
    pub label: Seq<char>,
    pub accent_color: Option<(u8, u8, u8)>,
    pub groups: Seq<RibbonGroupModel>,
}

/// The values of menu entries.
pub open spec fn spec_menu(v: Seq<MenuItem>) -> Seq<MenuItemModel> {
    v.map_values(|m: MenuItem| m@)
}

/// The values of controls.
pub open spec fn spec_items(v: Seq<RibbonItem>) -> Seq<RibbonItemModel> {
    v.map_values(|i: RibbonItem| i@)
}

/// The values of sub-groups.
pub open spec fn spec_sub_groups(v: Seq<RibbonSubGroup>) -> Seq<RibbonSubGroupModel> {
    v.map_values(|g: RibbonSubGroup| g@)
}

/// The values of groups.
pub open spec fn spec_groups(v: Seq<RibbonGroup>) -> Seq<RibbonGroupModel> {
    v.map_values(|g: RibbonGroup| g@)
}

/// The values of tabs.
pub open spec fn spec_tabs(v: Seq<RibbonTab>) -> Seq<RibbonTabModel> {
    v.map_values(|t: RibbonTab| t@)
}

impl View for MenuItem {
    type V = MenuItemModel;

    open spec fn view(&self) -> MenuItemModel {
        MenuItemModel { label: self.label@, action: self.action, enabled: self.enabled }
    }
}

impl View for RibbonItem {
    type V = RibbonItemModel;

    open spec fn view(&self) -> RibbonItemModel {
        match self {
            RibbonItem::LargeButton { label, icon, action, enabled, tooltip } => RibbonItemModel::LargeButton {
                label: label@,
                icon: *icon,
                action: *action,
                enabled: *enabled,
                tooltip: tooltip@,
            },
            RibbonItem::SmallButton { label, icon, action, enabled, tooltip } => RibbonItemModel::SmallButton {
                label: label@,
                icon: *icon,
                action: *action,
                enabled: *enabled,
                tooltip: tooltip@,
            },
            RibbonItem::LargeSplitButton { label, icon, action, enabled, tooltip, menu_items } => RibbonItemModel::LargeSplitButton {
                label: label@,
                icon: *icon,
                action: *action,
                enabled: *enabled,
                tooltip: tooltip@,
                menu_items: spec_menu(menu_items@),
            },
            RibbonItem::LargeDropdown { label, icon, enabled, tooltip, menu_items } => RibbonItemModel::LargeDropdown {
                label: label@,
                icon: *icon,
                enabled: *enabled,
                tooltip: tooltip@,
                menu_items: spec_menu(menu_items@),
            },
            RibbonItem::ToggleButton { label, icon, state_key, action, tooltip } => RibbonItemModel::ToggleButton {
                label: label@,
                icon: *icon,
                state_key: state_key@,
                action: *action,
                tooltip: tooltip@,
            },
            RibbonItem::ComboBox { label, options, selected, action } => RibbonItemModel::ComboBox {
                label: label@,
                options: spec_strings(options@),
                selected: *selected,
                action: *action,
            },
        }
    }
}

impl View for RibbonSubGroup {
    type V = RibbonSubGroupModel;

    open spec fn view(&self) -> RibbonSubGroupModel {
        RibbonSubGroupModel { items: spec_items(self.items@) }
    }
}

impl View for RibbonGroup {
    type V = RibbonGroupModel;

    open spec fn view(&self) -> RibbonGroupModel {
        RibbonGroupModel { label: self.label@, sub_groups: spec_sub_groups(self.sub_groups@) }
    }
}

impl View for RibbonTab {
    type V = RibbonTabModel;

    open spec fn view(&self) -> RibbonTabModel {
        RibbonTabModel { label: self.label@, accent_color: self.accent_color, groups: spec_groups(self.groups@) }
    }
}

fn menu_item(label: &str, action: RibbonAction, enabled: bool) -> (r: MenuItem)
    ensures
        r@ == (MenuItemModel { label: label@, action, enabled }),
{
    MenuItem { label: String::from_str(label), action, enabled }
}

fn large_button(label: &str, icon: char, action: RibbonAction, enabled: bool, tooltip: &str) -> (r: RibbonItem)
    ensures
        r@ == (RibbonItemModel::LargeButton { label: label@, icon, action, enabled, tooltip: tooltip@ }),
{
    RibbonItem::LargeButton {
        label: String::from_str(label),
        icon,
        action,
        enabled,
        tooltip: String::from_str(tooltip),
    }
}

fn small_button(label: &str, icon: char, action: RibbonAction, enabled: bool, tooltip: &str) -> (r: RibbonItem)
    ensures
        r@ == (RibbonItemModel::SmallButton { label: label@, icon, action, enabled, tooltip: tooltip@ }),
{
    RibbonItem::SmallButton {
        label: String::from_str(label),
        icon,
        action,
        enabled,
        tooltip: String::from_str(tooltip),
    }
}

fn large_split_button(
    label: &str,
    icon: char,
    action: RibbonAction,
    enabled: bool,
    tooltip: &str,
    menu_items: Vec<MenuItem>,
) -> (r: RibbonItem)
    ensures
        r@ == (RibbonItemModel::LargeSplitButton {
            label: label@,
            icon,
            action,
            enabled,
            tooltip: tooltip@,
            menu_items: spec_menu(menu_items@),
        }),
{
    RibbonItem::LargeSplitButton {
        label: String::from_str(label),
        icon,
        action,
        enabled,
        tooltip: String::from_str(tooltip),
        menu_items,
    }
}

fn large_dropdown(label: &str, icon: char, enabled: bool, tooltip: &str, menu_items: Vec<MenuItem>) -> (r: RibbonItem)
    ensures
        r@ == (RibbonItemModel::LargeDropdown {
            label: label@,
            icon,
            enabled,
            tooltip: tooltip@,
            menu_items: spec_menu(menu_items@),
        }),
{
    RibbonItem::LargeDropdown {
        label: String::from_str(label),
        icon,
        enabled,
        tooltip: String::from_str(tooltip),
        menu_items,
    }
}

fn toggle_button(label: &str, icon: char, state_key: &str, action: RibbonAction, tooltip: &str) -> (r: RibbonItem)
    ensures
        r@ == (RibbonItemModel::ToggleButton { label: label@, icon, state_key: state_key@, action, tooltip: tooltip@ }),
{
    RibbonItem::ToggleButton {
        label: String::from_str(label),
        icon,
        state_key: String::from_str(state_key),
        action,
        tooltip: String::from_str(tooltip),
    }
}

fn combo_box(label: &str, options: Vec<String>, selected: usize, action: RibbonAction) -> (r: RibbonItem)
    ensures
        r@ == (RibbonItemModel::ComboBox { label: label@, options: spec_strings(options@), selected, action }),
{
    RibbonItem::ComboBox { label: String::from_str(label), options, selected, action }
}

/// The value of `build_default_tabs`.
pub open spec fn spec_build_default_tabs(edition: Edition, is_web: bool) -> Seq<RibbonTabModel> {
    seq![
        spec_build_desktop_tab(is_web),
        spec_build_view_tab(),
        spec_build_simulation_tab(edition),
        spec_build_draw_tab(),
        spec_build_model_tab(),
        spec_build_results_tab(),
    ]
}

pub fn build_default_tabs(edition: Edition, is_web: bool) -> (r: Vec<RibbonTab>)
    ensures
        spec_tabs(r@) == spec_build_default_tabs(edition, is_web),
{
    let mut tabs_1: Vec<RibbonTab> = Vec::new();
    tabs_1.push(build_desktop_tab(is_web));
    tabs_1.push(build_view_tab());
    tabs_1.push(build_simulation_tab(edition));
    tabs_1.push(build_draw_tab());
    tabs_1.push(build_model_tab());
    tabs_1.push(build_results_tab());
    assert(spec_tabs(tabs_1@) =~= seq![
        spec_build_desktop_tab(is_web),
        spec_build_view_tab(),
        spec_build_simulation_tab(edition),
        spec_build_draw_tab(),
        spec_build_model_tab(),
        spec_build_results_tab(),
    ]);
    let ghost tabs_1_v = tabs_1@;
    tabs_1
}

/// The value of `build_desktop_tab`.
pub open spec fn spec_build_desktop_tab(is_web: bool) -> RibbonTabModel {
    let file_ops = !is_web;
    RibbonTabModel {
        label: "Desktop"@,
        accent_color: None,
        groups: seq![
            RibbonGroupModel {
                label: "Project"@,
                sub_groups: seq![
                    RibbonSubGroupModel {
                        items: seq![
                            RibbonItemModel::LargeButton {
                                label: "New"@,
                                icon: '\u{1F4C4}',
                                action: RibbonAction::NewProject,
                                enabled: file_ops,
                                tooltip: (if is_web { "Not available in web version"@ } else { "Create a new project"@ }),
                            },
                            RibbonItemModel::LargeButton {
                                label: "Open"@,
                                icon: '\u{1F4C2}',
                                action: RibbonAction::OpenProject,
                                enabled: file_ops,
                                tooltip: (if is_web { "Not available in web version"@ } else { "Open an existing project"@ }),
                            },
                            RibbonItemModel::LargeButton {
                                label: "Save"@,
                                icon: '\u{1F4BE}',
                                action: RibbonAction::SaveProject,
                                enabled: file_ops,
                                tooltip: (if is_web { "Not available in web version"@ } else { "Save current project"@ }),
                            },
                        ],
                    },
                    RibbonSubGroupModel {
                        items: seq![
                            RibbonItemModel::SmallButton {
                                label: "Save As"@,
                                icon: '\u{1F4CB}',
                                action: RibbonAction::SaveAs,
                                enabled: file_ops,
                                tooltip: (if is_web { "Not available in web version"@ } else { "Save project as a new file"@ }),
                            },
                            RibbonItemModel::SmallButton {
                                label: "Close"@,
                                icon: '\u{2716}',
                                action: RibbonAction::CloseProject,
                                enabled: true,
                                tooltip: "Close current project"@,
                            },
                        ],
                    },
                ],
            },
            RibbonGroupModel {
                label: "Import / Export"@,
                sub_groups: seq![
                    RibbonSubGroupModel {
                        items: seq![
                            RibbonItemModel::LargeSplitButton {
                                label: "Import"@,
                                icon: '\u{1F4E5}',
                                action: RibbonAction::ImportStep,
                                enabled: file_ops,
                                tooltip: (if is_web { "Not available in web version"@ } else { "Import geometry"@ }),
                                menu_items: seq![
                                    MenuItemModel {
                                        label: "Import STEP"@,
                                        action: RibbonAction::ImportStep,
                                        enabled: file_ops,
                                    },
                                    MenuItemModel {
                                        label: "Import SAT"@,
                                        action: RibbonAction::ImportSat,
                                        enabled: file_ops,
                                    },
                                    MenuItemModel {
                                        label: "Import HFSS (.aedt/.py)"@,
                                        action: RibbonAction::ImportHfssAedt,
                                        enabled: file_ops,
                                    },
                                    MenuItemModel {
                                        label: "Import Q3D (.aedt/.py)"@,
                                        action: RibbonAction::ImportQ3dAedt,
                                        enabled: file_ops,
                                    },
                                ],
                            },
                            RibbonItemModel::LargeSplitButton {
                                label: "Export"@,
                                icon: '\u{1F4E4}',
                                action: RibbonAction::ExportStep,
                                enabled: file_ops,
                                tooltip: (if is_web { "Not available in web version"@ } else { "Export geometry"@ }),
                                menu_items: seq![
                                    MenuItemModel {
                                        label: "Export STEP"@,
                                        action: RibbonAction::ExportStep,
                                        enabled: file_ops,
                                    },
                                    MenuItemModel {
                                        label: "Export SAT"@,
                                        action: RibbonAction::ExportSat,
                                        enabled: file_ops,
                                    },
                                    MenuItemModel {
                                        label: "Export HFSS Script (.py)"@,
                                        action: RibbonAction::ExportHfssPyAedt,
                                        enabled: file_ops,
                                    },
                                    MenuItemModel {
                                        label: "Export Q3D Script (.py)"@,
                                        action: RibbonAction::ExportQ3dPyAedt,
                                        enabled: file_ops,
                                    },
                                ],
                            },
                        ],
                    },
                ],
            },
        ],
    }
}

fn build_desktop_tab(is_web: bool) -> (r: RibbonTab)
    ensures
        r@ == spec_build_desktop_tab(is_web),
{
    let file_ops = !is_web;
    let mut items_4: Vec<RibbonItem> = Vec::new();
    items_4.push(large_button(
        "New",
        '\u{1F4C4}',
        RibbonAction::NewProject,
        file_ops,
        (if is_web { "Not available in web version" } else { "Create a new project" }),
    ));
    items_4.push(large_button(
        "Open",
        '\u{1F4C2}',
        RibbonAction::OpenProject,
        file_ops,
        (if is_web { "Not available in web version" } else { "Open an existing project" }),
    ));
    items_4.push(large_button(
        "Save",
        '\u{1F4BE}',
        RibbonAction::SaveProject,
        file_ops,
        (if is_web { "Not available in web version" } else { "Save current project" }),
    ));
    assert(spec_items(items_4@) =~= seq![
        RibbonItemModel::LargeButton {
            label: "New"@,
            icon: '\u{1F4C4}',
            action: RibbonAction::NewProject,
            enabled: file_ops,
            tooltip: (if is_web { "Not available in web version"@ } else { "Create a new project"@ }),
        },
        RibbonItemModel::LargeButton {
            label: "Open"@,
            icon: '\u{1F4C2}',
            action: RibbonAction::OpenProject,
            enabled: file_ops,
            tooltip: (if is_web { "Not available in web version"@ } else { "Open an existing project"@ }),
        },
        RibbonItemModel::LargeButton {
            label: "Save"@,
            icon: '\u{1F4BE}',
            action: RibbonAction::SaveProject,
            enabled: file_ops,
            tooltip: (if is_web { "Not available in web version"@ } else { "Save current project"@ }),
        },
    ]);
    let ghost items_4_v = items_4@;
    let mut items_5: Vec<RibbonItem> = Vec::new();
    items_5.push(small_button(
        "Save As",
        '\u{1F4CB}',
        RibbonAction::SaveAs,
        file_ops,
        (if is_web { "Not available in web version" } else { "Save project as a new file" }),
    ));
    items_5.push(small_button(
        "Close",
        '\u{2716}',
        RibbonAction::CloseProject,
        true,
        "Close current project",
    ));
    assert(spec_items(items_5@) =~= seq![
        RibbonItemModel::SmallButton {
            label: "Save As"@,
            icon: '\u{1F4CB}',
            action: RibbonAction::SaveAs,
            enabled: file_ops,
            tooltip: (if is_web { "Not available in web version"@ } else { "Save project as a new file"@ }),
        },
        RibbonItemModel::SmallButton {
            label: "Close"@,
            icon: '\u{2716}',
            action: RibbonAction::CloseProject,
            enabled: true,
            tooltip: "Close current project"@,
        },
    ]);
    let ghost items_5_v = items_5@;
    let mut columns_3: Vec<RibbonSubGroup> = Vec::new();
    columns_3.push(RibbonSubGroup { items: items_4 });
    columns_3.push(RibbonSubGroup { items: items_5 });
    assert(spec_sub_groups(columns_3@) =~= seq![
        RibbonSubGroupModel { items: spec_items(items_4_v) },
        RibbonSubGroupModel { items: spec_items(items_5_v) },
    ]);
    let ghost columns_3_v = columns_3@;
    let mut menu_8: Vec<MenuItem> = Vec::new();
    menu_8.push(menu_item("Import STEP", RibbonAction::ImportStep, file_ops));
    menu_8.push(menu_item("Import SAT", RibbonAction::ImportSat, file_ops));
    menu_8.push(menu_item("Import HFSS (.aedt/.py)", RibbonAction::ImportHfssAedt, file_ops));
    menu_8.push(menu_item("Import Q3D (.aedt/.py)", RibbonAction::ImportQ3dAedt, file_ops));
    assert(spec_menu(menu_8@) =~= seq![
        MenuItemModel { label: "Import STEP"@, action: RibbonAction::ImportStep, enabled: file_ops },
        MenuItemModel { label: "Import SAT"@, action: RibbonAction::ImportSat, enabled: file_ops },
        MenuItemModel {
            label: "Import HFSS (.aedt/.py)"@,
            action: RibbonAction::ImportHfssAedt,
            enabled: file_ops,
        },
        MenuItemModel {
            label: "Import Q3D (.aedt/.py)"@,
            action: RibbonAction::ImportQ3dAedt,
            enabled: file_ops,
        },
    ]);
    let ghost menu_8_v = menu_8@;
    let mut menu_9: Vec<MenuItem> = Vec::new();
    menu_9.push(menu_item("Export STEP", RibbonAction::ExportStep, file_ops));
    menu_9.push(menu_item("Export SAT", RibbonAction::ExportSat, file_ops));
    menu_9.push(menu_item("Export HFSS Script (.py)", RibbonAction::ExportHfssPyAedt, file_ops));
    menu_9.push(menu_item("Export Q3D Script (.py)", RibbonAction::ExportQ3dPyAedt, file_ops));
    assert(spec_menu(menu_9@) =~= seq![
        MenuItemModel { label: "Export STEP"@, action: RibbonAction::ExportStep, enabled: file_ops },
        MenuItemModel { label: "Export SAT"@, action: RibbonAction::ExportSat, enabled: file_ops },
        MenuItemModel {
            label: "Export HFSS Script (.py)"@,
            action: RibbonAction::ExportHfssPyAedt,
            enabled: file_ops,
        },
        MenuItemModel {
            label: "Export Q3D Script (.py)"@,
            action: RibbonAction::ExportQ3dPyAedt,
            enabled: file_ops,
        },
    ]);
    let ghost menu_9_v = menu_9@;
    let mut items_7: Vec<RibbonItem> = Vec::new();
    items_7.push(large_split_button(
        "Import",
        '\u{1F4E5}',
        RibbonAction::ImportStep,
        file_ops,
        (if is_web { "Not available in web version" } else { "Import geometry" }),
        menu_8,
    ));
    items_7.push(large_split_button(
        "Export",
        '\u{1F4E4}',
        RibbonAction::ExportStep,
        file_ops,
        (if is_web { "Not available in web version" } else { "Export geometry" }),
        menu_9,
    ));
    assert(spec_items(items_7@) =~= seq![
        RibbonItemModel::LargeSplitButton {
            label: "Import"@,
            icon: '\u{1F4E5}',
            action: RibbonAction::ImportStep,
            enabled: file_ops,
            tooltip: (if is_web { "Not available in web version"@ } else { "Import geometry"@ }),
            menu_items: spec_menu(menu_8_v),
        },
        RibbonItemModel::LargeSplitButton {
            label: "Export"@,
            icon: '\u{1F4E4}',
            action: RibbonAction::ExportStep,
            enabled: file_ops,
            tooltip: (if is_web { "Not available in web version"@ } else { "Export geometry"@ }),
            menu_items: spec_menu(menu_9_v),
        },
    ]);
    let ghost items_7_v = items_7@;
    let mut columns_6: Vec<RibbonSubGroup> = Vec::new();
    columns_6.push(RibbonSubGroup { items: items_7 });
    assert(spec_sub_groups(columns_6@) =~= seq![RibbonSubGroupModel { items: spec_items(items_7_v) }]);
    let ghost columns_6_v = columns_6@;
    let mut groups_2: Vec<RibbonGroup> = Vec::new();
    groups_2.push(RibbonGroup { label: String::from_str("Project"), sub_groups: columns_3 });
    groups_2.push(RibbonGroup { label: String::from_str("Import / Export"), sub_groups: columns_6 });
    assert(spec_groups(groups_2@) =~= seq![
        RibbonGroupModel { label: "Project"@, sub_groups: spec_sub_groups(columns_3_v) },
        RibbonGroupModel { label: "Import / Export"@, sub_groups: spec_sub_groups(columns_6_v) },
    ]);
    let ghost groups_2_v = groups_2@;
    RibbonTab { label: String::from_str("Desktop"), accent_color: None, groups: groups_2 }
}

/// The value of `build_view_tab`.
pub open spec fn spec_build_view_tab() -> RibbonTabModel {
    RibbonTabModel {
        label: "View"@,
        accent_color: None,
        groups: seq![
            RibbonGroupModel {
                label: "Visibility"@,
                sub_groups: seq![
                    RibbonSubGroupModel {
                        items: seq![
                            RibbonItemModel::ToggleButton {
                                label: "Grid"@,
                                icon: '\u{2630}',
                                state_key: "grid"@,
                                action: RibbonAction::ToggleGrid,
                                tooltip: "Toggle grid display"@,
                            },
                            RibbonItemModel::ToggleButton {
                                label: "Ruler"@,
                                icon: '\u{1F4CF}',
                                state_key: "ruler"@,
                                action: RibbonAction::ToggleRuler,
                                tooltip: "Toggle ruler display"@,
                            },
                            RibbonItemModel::ToggleButton {
                                label: "Axes"@,
                                icon: '\u{2742}',
                                state_key: "coord_system"@,
                                action: RibbonAction::ToggleCoordSystem,
                                tooltip: "Toggle coordinate system display"@,
                            },
                        ],
                    },
                ],
            },
            RibbonGroupModel {
                label: "Render"@,
                sub_groups: seq![
                    RibbonSubGroupModel {
                        items: seq![
                            RibbonItemModel::ToggleButton {
                                label: "Shaded"@,
                                icon: '\u{25A3}',
                                state_key: "shaded"@,
                                action: RibbonAction::RenderShaded,
                                tooltip: "Shaded render mode"@,
                            },
                            RibbonItemModel::ToggleButton {
                                label: "Wireframe"@,
                                icon: '\u{25A1}',
                                state_key: "wireframe"@,
                                action: RibbonAction::RenderWireframe,
                                tooltip: "Wireframe render mode"@,
                            },
                        ],
                    },
                ],
            },
            RibbonGroupModel {
                label: "Zoom"@,
                sub_groups: seq![
                    RibbonSubGroupModel {
                        items: seq![
                            RibbonItemModel::LargeButton {
                                label: "Fit All"@,
                                icon: '\u{26F6}',
                                action: RibbonAction::FitAll,
                                enabled: true,
                                tooltip: "Fit all objects in view"@,
                            },
                            RibbonItemModel::SmallButton {
                                label: "Zoom In"@,
                                icon: '\u{1F50D}',
                                action: RibbonAction::ZoomIn,
                                enabled: true,
                                tooltip: "Zoom in"@,
                            },
                            RibbonItemModel::SmallButton {
                                label: "Zoom Out"@,
                                icon: '\u{1F50E}',
                                action: RibbonAction::ZoomOut,
                                enabled: true,
                                tooltip: "Zoom out"@,
                            },
                        ],
                    },
                ],
            },
        ],
    }
}

fn build_view_tab() -> (r: RibbonTab)
    ensures
        r@ == spec_build_view_tab(),
{
    let mut items_12: Vec<RibbonItem> = Vec::new();
    items_12.push(toggle_button("Grid", '\u{2630}', "grid", RibbonAction::ToggleGrid, "Toggle grid display"));
    items_12.push(toggle_button(
        "Ruler",
        '\u{1F4CF}',
        "ruler",
        RibbonAction::ToggleRuler,
        "Toggle ruler display",
    ));
    items_12.push(toggle_button(
        "Axes",
        '\u{2742}',
        "coord_system",
        RibbonAction::ToggleCoordSystem,
        "Toggle coordinate system display",
    ));
    assert(spec_items(items_12@) =~= seq![
        RibbonItemModel::ToggleButton {
            label: "Grid"@,
            icon: '\u{2630}',
            state_key: "grid"@,
            action: RibbonAction::ToggleGrid,
            tooltip: "Toggle grid display"@,
        },
        RibbonItemModel::ToggleButton {
            label: "Ruler"@,
            icon: '\u{1F4CF}',
            state_key: "ruler"@,
            action: RibbonAction::ToggleRuler,
            tooltip: "Toggle ruler display"@,
        },
        RibbonItemModel::ToggleButton {
            label: "Axes"@,
            icon: '\u{2742}',
            state_key: "coord_system"@,
            action: RibbonAction::ToggleCoordSystem,
            tooltip: "Toggle coordinate system display"@,
        },
    ]);
    let ghost items_12_v = items_12@;
    let mut columns_11: Vec<RibbonSubGroup> = Vec::new();
    columns_11.push(RibbonSubGroup { items: items_12 });
    assert(spec_sub_groups(columns_11@) =~= seq![RibbonSubGroupModel { items: spec_items(items_12_v) }]);
    let ghost columns_11_v = columns_11@;
    let mut items_14: Vec<RibbonItem> = Vec::new();
    items_14.push(toggle_button(
        "Shaded",
        '\u{25A3}',
        "shaded",
        RibbonAction::RenderShaded,
        "Shaded render mode",
    ));
    items_14.push(toggle_button(
        "Wireframe",
        '\u{25A1}',
        "wireframe",
        RibbonAction::RenderWireframe,
        "Wireframe render mode",
    ));
    assert(spec_items(items_14@) =~= seq![
        RibbonItemModel::ToggleButton {
            label: "Shaded"@,
            icon: '\u{25A3}',
            state_key: "shaded"@,
            action: RibbonAction::RenderShaded,
            tooltip: "Shaded render mode"@,
        },
        RibbonItemModel::ToggleButton {
            label: "Wireframe"@,
            icon: '\u{25A1}',
            state_key: "wireframe"@,
            action: RibbonAction::RenderWireframe,
            tooltip: "Wireframe render mode"@,
        },
    ]);
    let ghost items_14_v = items_14@;
    let mut columns_13: Vec<RibbonSubGroup> = Vec::new();
    columns_13.push(RibbonSubGroup { items: items_14 });
    assert(spec_sub_groups(columns_13@) =~= seq![RibbonSubGroupModel { items: spec_items(items_14_v) }]);
    let ghost columns_13_v = columns_13@;
    let mut items_16: Vec<RibbonItem> = Vec::new();
    items_16.push(large_button("Fit All", '\u{26F6}', RibbonAction::FitAll, true, "Fit all objects in view"));
    items_16.push(small_button("Zoom In", '\u{1F50D}', RibbonAction::ZoomIn, true, "Zoom in"));
    items_16.push(small_button("Zoom Out", '\u{1F50E}', RibbonAction::ZoomOut, true, "Zoom out"));
    assert(spec_items(items_16@) =~= seq![
        RibbonItemModel::LargeButton {
            label: "Fit All"@,
            icon: '\u{26F6}',
            action: RibbonAction::FitAll,
            enabled: true,
            tooltip: "Fit all objects in view"@,
        },
        RibbonItemModel::SmallButton {
            label: "Zoom In"@,
            icon: '\u{1F50D}',
            action: RibbonAction::ZoomIn,
            enabled: true,
            tooltip: "Zoom in"@,
        },
        RibbonItemModel::SmallButton {
            label: "Zoom Out"@,
            icon: '\u{1F50E}',
            action: RibbonAction::ZoomOut,
            enabled: true,
            tooltip: "Zoom out"@,
        },
    ]);
    let ghost items_16_v = items_16@;
    let mut columns_15: Vec<RibbonSubGroup> = Vec::new();
    columns_15.push(RibbonSubGroup { items: items_16 });
    assert(spec_sub_groups(columns_15@) =~= seq![RibbonSubGroupModel { items: spec_items(items_16_v) }]);
    let ghost columns_15_v = columns_15@;
    let mut groups_10: Vec<RibbonGroup> = Vec::new();
    groups_10.push(RibbonGroup { label: String::from_str("Visibility"), sub_groups: columns_11 });
    groups_10.push(RibbonGroup { label: String::from_str("Render"), sub_groups: columns_13 });
    groups_10.push(RibbonGroup { label: String::from_str("Zoom"), sub_groups: columns_15 });
    assert(spec_groups(groups_10@) =~= seq![
        RibbonGroupModel { label: "Visibility"@, sub_groups: spec_sub_groups(columns_11_v) },
        RibbonGroupModel { label: "Render"@, sub_groups: spec_sub_groups(columns_13_v) },
        RibbonGroupModel { label: "Zoom"@, sub_groups: spec_sub_groups(columns_15_v) },
    ]);
    let ghost groups_10_v = groups_10@;
    RibbonTab { label: String::from_str("View"), accent_color: None, groups: groups_10 }
}

/// The value of `build_simulation_tab`.
pub open spec fn spec_build_simulation_tab(edition: Edition) -> RibbonTabModel {
    RibbonTabModel {
        label: "Simulation"@,
        accent_color: None,
        groups: seq![
            RibbonGroupModel {
                label: "Validate"@,
                sub_groups: seq![
                    RibbonSubGroupModel {
                        items: seq![
                            RibbonItemModel::LargeButton {
                                label: "Validate"@,
                                icon: '\u{2714}',
                                action: RibbonAction::Validate,
                                enabled: true,
                                tooltip: "Validate current design"@,
                            },
                        ],
                    },
                ],
            },
            RibbonGroupModel {
                label: "Analysis"@,
                sub_groups: seq![
                    RibbonSubGroupModel {
                        items: seq![
                            RibbonItemModel::LargeButton {
                                label: "Add\nSetup"@,
                                icon: '\u{2699}',
                                action: RibbonAction::AddSetup,
                                enabled: true,
                                tooltip: "Add solution setup"@,
                            },
                            RibbonItemModel::SmallButton {
                                label: "Add Sweep"@,
                                icon: '\u{27A1}',
                                action: RibbonAction::AddSweep,
                                enabled: true,
                                tooltip: "Add frequency sweep"@,
                            },
                        ],
                    },
                ],
            },
            RibbonGroupModel {
                label: "Solve"@,
                sub_groups: seq![
                    RibbonSubGroupModel {
                        items: seq![
                            RibbonItemModel::LargeButton {
                                label: "Analyze\nAll"@,
                                icon: '\u{25B6}',
                                action: RibbonAction::SolveAll,
                                enabled: edition.spec_allows_solve_all(),
                                tooltip: (if edition.spec_allows_solve_all() { "Analyze all setups"@ } else { "Requires Professional edition"@ }),
                            },
                            RibbonItemModel::LargeButton {
                                label: "Solve"@,
                                icon: '\u{23EF}',
                                action: RibbonAction::Solve,
                                enabled: true,
                                tooltip: "Solve current setup"@,
                            },
                        ],
                    },
                    RibbonSubGroupModel {
                        items: seq![
                            RibbonItemModel::SmallButton {
                                label: "Abort"@,
                                icon: '\u{23F9}',
                                action: RibbonAction::Abort,
                                enabled: false,
                                tooltip: "Abort current simulation"@,
                            },
                        ],
                    },
                ],
            },
        ],
    }
}

fn build_simulation_tab(edition: Edition) -> (r: RibbonTab)
    ensures
        r@ == spec_build_simulation_tab(edition),
{
    let mut items_19: Vec<RibbonItem> = Vec::new();
    items_19.push(large_button(
        "Validate",
        '\u{2714}',
        RibbonAction::Validate,
        true,
        "Validate current design",
    ));
    assert(spec_items(items_19@) =~= seq![
        RibbonItemModel::LargeButton {
            label: "Validate"@,
            icon: '\u{2714}',
            action: RibbonAction::Validate,
            enabled: true,
            tooltip: "Validate current design"@,
        },
    ]);
    let ghost items_19_v = items_19@;
    let mut columns_18: Vec<RibbonSubGroup> = Vec::new();
    columns_18.push(RibbonSubGroup { items: items_19 });
    assert(spec_sub_groups(columns_18@) =~= seq![RibbonSubGroupModel { items: spec_items(items_19_v) }]);
    let ghost columns_18_v = columns_18@;
    let mut items_21: Vec<RibbonItem> = Vec::new();
    items_21.push(large_button("Add\nSetup", '\u{2699}', RibbonAction::AddSetup, true, "Add solution setup"));
    items_21.push(small_button("Add Sweep", '\u{27A1}', RibbonAction::AddSweep, true, "Add frequency sweep"));
    assert(spec_items(items_21@) =~= seq![
        RibbonItemModel::LargeButton {
            label: "Add\nSetup"@,
            icon: '\u{2699}',
            action: RibbonAction::AddSetup,
            enabled: true,
            tooltip: "Add solution setup"@,
        },
        RibbonItemModel::SmallButton {
            label: "Add Sweep"@,
            icon: '\u{27A1}',
            action: RibbonAction::AddSweep,
            enabled: true,
            tooltip: "Add frequency sweep"@,
        },
    ]);
    let ghost items_21_v = items_21@;
    let mut columns_20: Vec<RibbonSubGroup> = Vec::new();
    columns_20.push(RibbonSubGroup { items: items_21 });
    assert(spec_sub_groups(columns_20@) =~= seq![RibbonSubGroupModel { items: spec_items(items_21_v) }]);
    let ghost columns_20_v = columns_20@;
    let mut items_23: Vec<RibbonItem> = Vec::new();
    items_23.push(large_button(
        "Analyze\nAll",
        '\u{25B6}',
        RibbonAction::SolveAll,
        edition.allows_solve_all(),
        (if edition.allows_solve_all() { "Analyze all setups" } else { "Requires Professional edition" }),
    ));
    items_23.push(large_button("Solve", '\u{23EF}', RibbonAction::Solve, true, "Solve current setup"));
    assert(spec_items(items_23@) =~= seq![
        RibbonItemModel::LargeButton {
            label: "Analyze\nAll"@,
            icon: '\u{25B6}',
            action: RibbonAction::SolveAll,
            enabled: edition.spec_allows_solve_all(),
            tooltip: (if edition.spec_allows_solve_all() { "Analyze all setups"@ } else { "Requires Professional edition"@ }),
        },
        RibbonItemModel::LargeButton {
            label: "Solve"@,
            icon: '\u{23EF}',
            action: RibbonAction::Solve,
            enabled: true,
            tooltip: "Solve current setup"@,
        },
    ]);
    let ghost items_23_v = items_23@;
    let mut items_24: Vec<RibbonItem> = Vec::new();
    items_24.push(small_button("Abort", '\u{23F9}', RibbonAction::Abort, false, "Abort current simulation"));
    assert(spec_items(items_24@) =~= seq![
        RibbonItemModel::SmallButton {
            label: "Abort"@,
            icon: '\u{23F9}',
            action: RibbonAction::Abort,
            enabled: false,
            tooltip: "Abort current simulation"@,
        },
    ]);
    let ghost items_24_v = items_24@;
    let mut columns_22: Vec<RibbonSubGroup> = Vec::new();
    columns_22.push(RibbonSubGroup { items: items_23 });
    columns_22.push(RibbonSubGroup { items: items_24 });
    assert(spec_sub_groups(columns_22@) =~= seq![
        RibbonSubGroupModel { items: spec_items(items_23_v) },
        RibbonSubGroupModel { items: spec_items(items_24_v) },
    ]);
    let ghost columns_22_v = columns_22@;
    let mut groups_17: Vec<RibbonGroup> = Vec::new();
    groups_17.push(RibbonGroup { label: String::from_str("Validate"), sub_groups: columns_18 });
    groups_17.push(RibbonGroup { label: String::from_str("Analysis"), sub_groups: columns_20 });
    groups_17.push(RibbonGroup { label: String::from_str("Solve"), sub_groups: columns_22 });
    assert(spec_groups(groups_17@) =~= seq![
        RibbonGroupModel { label: "Validate"@, sub_groups: spec_sub_groups(columns_18_v) },
        RibbonGroupModel { label: "Analysis"@, sub_groups: spec_sub_groups(columns_20_v) },
        RibbonGroupModel { label: "Solve"@, sub_groups: spec_sub_groups(columns_22_v) },
    ]);
    let ghost groups_17_v = groups_17@;
    RibbonTab { label: String::from_str("Simulation"), accent_color: None, groups: groups_17 }
}

/// The value of `build_draw_tab`.
pub open spec fn spec_build_draw_tab() -> RibbonTabModel {
    RibbonTabModel {
        label: "Draw"@,
        accent_color: Some((0u8, 120u8, 200u8)),
        groups: seq![
            RibbonGroupModel {
                label: "Primitives"@,
                sub_groups: seq![
                    RibbonSubGroupModel {
                        items: seq![
                            RibbonItemModel::LargeSplitButton {
                                label: "Box"@,
                                icon: '\u{25A3}',
                                action: RibbonAction::DrawBox,
                                enabled: true,
                                tooltip: "Draw a box"@,
                                menu_items: seq![
                                    MenuItemModel {
                                        label: "Box"@,
                                        action: RibbonAction::DrawBox,
                                        enabled: true,
                                    },
                                    MenuItemModel {
                                        label: "Box by Corner"@,
                                        action: RibbonAction::DrawBox,
                                        enabled: true,
                                    },
                                ],
                            },
                            RibbonItemModel::LargeSplitButton {
                                label: "Cylinder"@,
                                icon: '\u{25CB}',
                                action: RibbonAction::DrawCylinder,
                                enabled: true,
                                tooltip: "Draw a cylinder"@,
                                menu_items: seq![
                                    MenuItemModel {
                                        label: "Cylinder"@,
                                        action: RibbonAction::DrawCylinder,
                                        enabled: true,
                                    },
                                    MenuItemModel {
                                        label: "Cylinder by Axis"@,
                                        action: RibbonAction::DrawCylinder,
                                        enabled: true,
                                    },
                                ],
                            },
                            RibbonItemModel::LargeButton {
                                label: "Sphere"@,
                                icon: '\u{25CF}',
                                action: RibbonAction::DrawSphere,
                                enabled: true,
                                tooltip: "Draw a sphere"@,
                            },
                            RibbonItemModel::LargeButton {
                                label: "Polyline"@,
                                icon: '\u{2571}',
                                action: RibbonAction::DrawPolyline,
                                enabled: true,
                                tooltip: "Draw a polyline"@,
                            },
                        ],
                    },
                    RibbonSubGroupModel {
                        items: seq![
                            RibbonItemModel::SmallButton {
                                label: "Cone"@,
                                icon: '\u{25B3}',
                                action: RibbonAction::DrawCone,
                                enabled: true,
                                tooltip: "Draw a cone"@,
                            },
                            RibbonItemModel::SmallButton {
                                label: "Torus"@,
                                icon: '\u{25CE}',
                                action: RibbonAction::DrawTorus,
                                enabled: true,
                                tooltip: "Draw a torus"@,
                            },
                            RibbonItemModel::SmallButton {
                                label: "Rectangle"@,
                                icon: '\u{25AD}',
                                action: RibbonAction::DrawRectangle,
                                enabled: true,
                                tooltip: "Draw a rectangle"@,
                            },
                            RibbonItemModel::SmallButton {
                                label: "Ellipse"@,
                                icon: '\u{2B2D}',
                                action: RibbonAction::DrawEllipse,
                                enabled: true,
                                tooltip: "Draw an ellipse"@,
                            },
                            RibbonItemModel::SmallButton {
                                label: "Circle"@,
                                icon: '\u{25EF}',
                                action: RibbonAction::DrawCircle,
                                enabled: true,
                                tooltip: "Draw a circle"@,
                            },
                            RibbonItemModel::SmallButton {
                                label: "Polygon"@,
                                icon: '\u{2B23}',
                                action: RibbonAction::DrawPolygon,
                                enabled: true,
                                tooltip: "Draw a regular polygon"@,
                            },
                            RibbonItemModel::SmallButton {
                                label: "Arc"@,
                                icon: '\u{25DC}',
                                action: RibbonAction::DrawArc,
                                enabled: true,
                                tooltip: "Draw an arc"@,
                            },
                            RibbonItemModel::SmallButton {
                                label: "Spline"@,
                                icon: '\u{223F}',
                                action: RibbonAction::DrawSpline,
                                enabled: true,
                                tooltip: "Draw a spline"@,
                            },
                        ],
                    },
                ],
            },
            RibbonGroupModel {
                label: "Plane"@,
                sub_groups: seq![
                    RibbonSubGroupModel {
                        items: seq![
                            RibbonItemModel::ComboBox {
                                label: "Plane"@,
                                options: seq!["XY"@, "YZ"@, "XZ"@],
                                selected: 0usize,
                                action: RibbonAction::SetPlane,
                            },
                        ],
                    },
                ],
            },
            RibbonGroupModel {
                label: "Units"@,
                sub_groups: seq![
                    RibbonSubGroupModel {
                        items: seq![
                            RibbonItemModel::LargeDropdown {
                                label: "Units"@,
                                icon: '\u{1F4D0}',
                                enabled: true,
                                tooltip: "Set model units"@,
                                menu_items: seq![
                                    MenuItemModel {
                                        label: "mm"@,
                                        action: RibbonAction::SetUnits,
                                        enabled: true,
                                    },
                                    MenuItemModel {
                                        label: "cm"@,
                                        action: RibbonAction::SetUnits,
                                        enabled: true,
                                    },
                                    MenuItemModel {
                                        label: "m"@,
                                        action: RibbonAction::SetUnits,
                                        enabled: true,
                                    },
                                    MenuItemModel {
                                        label: "mil"@,
                                        action: RibbonAction::SetUnits,
                                        enabled: true,
                                    },
                                    MenuItemModel {
                                        label: "in"@,
                                        action: RibbonAction::SetUnits,
                                        enabled: true,
                                    },
                                ],
                            },
                        ],
                    },
                ],
            },
            RibbonGroupModel {
                label: "Material"@,
                sub_groups: seq![
                    RibbonSubGroupModel {
                        items: seq![
                            RibbonItemModel::LargeButton {
                                label: "Assign\nMaterial"@,
                                icon: '\u{1F9F1}',
                                action: RibbonAction::AssignMaterial,
                                enabled: true,
                                tooltip: "Assign material to selected object"@,
                            },
                        ],
                    },
                ],
            },
        ],
    }
}

fn build_draw_tab() -> (r: RibbonTab)
    ensures
        r@ == spec_build_draw_tab(),
{
    let mut menu_28: Vec<MenuItem> = Vec::new();
    menu_28.push(menu_item("Box", RibbonAction::DrawBox, true));
    menu_28.push(menu_item("Box by Corner", RibbonAction::DrawBox, true));
    assert(spec_menu(menu_28@) =~= seq![
        MenuItemModel { label: "Box"@, action: RibbonAction::DrawBox, enabled: true },
        MenuItemModel { label: "Box by Corner"@, action: RibbonAction::DrawBox, enabled: true },
    ]);
    let ghost menu_28_v = menu_28@;
    let mut menu_29: Vec<MenuItem> = Vec::new();
    menu_29.push(menu_item("Cylinder", RibbonAction::DrawCylinder, true));
    menu_29.push(menu_item("Cylinder by Axis", RibbonAction::DrawCylinder, true));
    assert(spec_menu(menu_29@) =~= seq![
        MenuItemModel { label: "Cylinder"@, action: RibbonAction::DrawCylinder, enabled: true },
        MenuItemModel {
            label: "Cylinder by Axis"@,
            action: RibbonAction::DrawCylinder,
            enabled: true,
        },
    ]);
    let ghost menu_29_v = menu_29@;
    let mut items_27: Vec<RibbonItem> = Vec::new();
    items_27.push(large_split_button("Box", '\u{25A3}', RibbonAction::DrawBox, true, "Draw a box", menu_28));
    items_27.push(large_split_button(
        "Cylinder",
        '\u{25CB}',
        RibbonAction::DrawCylinder,
        true,
        "Draw a cylinder",
        menu_29,
    ));
    items_27.push(large_button("Sphere", '\u{25CF}', RibbonAction::DrawSphere, true, "Draw a sphere"));
    items_27.push(large_button("Polyline", '\u{2571}', RibbonAction::DrawPolyline, true, "Draw a polyline"));
    assert(spec_items(items_27@) =~= seq![
        RibbonItemModel::LargeSplitButton {
            label: "Box"@,
            icon: '\u{25A3}',
            action: RibbonAction::DrawBox,
            enabled: true,
            tooltip: "Draw a box"@,
            menu_items: spec_menu(menu_28_v),
        },
        RibbonItemModel::LargeSplitButton {
            label: "Cylinder"@,
            icon: '\u{25CB}',
            action: RibbonAction::DrawCylinder,
            enabled: true,
            tooltip: "Draw a cylinder"@,
            menu_items: spec_menu(menu_29_v),
        },
        RibbonItemModel::LargeButton {
            label: "Sphere"@,
            icon: '\u{25CF}',
            action: RibbonAction::DrawSphere,
            enabled: true,
            tooltip: "Draw a sphere"@,
        },
        RibbonItemModel::LargeButton {
            label: "Polyline"@,
            icon: '\u{2571}',
            action: RibbonAction::DrawPolyline,
            enabled: true,
            tooltip: "Draw a polyline"@,
        },
    ]);
    let ghost items_27_v = items_27@;
    let mut items_30: Vec<RibbonItem> = Vec::new();
    items_30.push(small_button("Cone", '\u{25B3}', RibbonAction::DrawCone, true, "Draw a cone"));
    items_30.push(small_button("Torus", '\u{25CE}', RibbonAction::DrawTorus, true, "Draw a torus"));
    items_30.push(small_button(
        "Rectangle",
        '\u{25AD}',
        RibbonAction::DrawRectangle,
        true,
        "Draw a rectangle",
    ));
    items_30.push(small_button("Ellipse", '\u{2B2D}', RibbonAction::DrawEllipse, true, "Draw an ellipse"));
    items_30.push(small_button("Circle", '\u{25EF}', RibbonAction::DrawCircle, true, "Draw a circle"));
    items_30.push(small_button(
        "Polygon",
        '\u{2B23}',
        RibbonAction::DrawPolygon,
        true,
        "Draw a regular polygon",
    ));
    items_30.push(small_button("Arc", '\u{25DC}', RibbonAction::DrawArc, true, "Draw an arc"));
    items_30.push(small_button("Spline", '\u{223F}', RibbonAction::DrawSpline, true, "Draw a spline"));
    assert(spec_items(items_30@) =~= seq![
        RibbonItemModel::SmallButton {
            label: "Cone"@,
            icon: '\u{25B3}',
            action: RibbonAction::DrawCone,
            enabled: true,
            tooltip: "Draw a cone"@,
        },
        RibbonItemModel::SmallButton {
            label: "Torus"@,
            icon: '\u{25CE}',
            action: RibbonAction::DrawTorus,
            enabled: true,
            tooltip: "Draw a torus"@,
        },
        RibbonItemModel::SmallButton {
            label: "Rectangle"@,
            icon: '\u{25AD}',
            action: RibbonAction::DrawRectangle,
            enabled: true,
            tooltip: "Draw a rectangle"@,
        },
        RibbonItemModel::SmallButton {
            label: "Ellipse"@,
            icon: '\u{2B2D}',
            action: RibbonAction::DrawEllipse,
            enabled: true,
            tooltip: "Draw an ellipse"@,
        },
        RibbonItemModel::SmallButton {
            label: "Circle"@,
            icon: '\u{25EF}',
            action: RibbonAction::DrawCircle,
            enabled: true,
            tooltip: "Draw a circle"@,
        },
        RibbonItemModel::SmallButton {
            label: "Polygon"@,
            icon: '\u{2B23}',
            action: RibbonAction::DrawPolygon,
            enabled: true,
            tooltip: "Draw a regular polygon"@,
        },
        RibbonItemModel::SmallButton {
            label: "Arc"@,
            icon: '\u{25DC}',
            action: RibbonAction::DrawArc,
            enabled: true,
            tooltip: "Draw an arc"@,
        },
        RibbonItemModel::SmallButton {
            label: "Spline"@,
            icon: '\u{223F}',
            action: RibbonAction::DrawSpline,
            enabled: true,
            tooltip: "Draw a spline"@,
        },
    ]);
    let ghost items_30_v = items_30@;
    let mut columns_26: Vec<RibbonSubGroup> = Vec::new();
    columns_26.push(RibbonSubGroup { items: items_27 });
    columns_26.push(RibbonSubGroup { items: items_30 });
    assert(spec_sub_groups(columns_26@) =~= seq![
        RibbonSubGroupModel { items: spec_items(items_27_v) },
        RibbonSubGroupModel { items: spec_items(items_30_v) },
    ]);
    let ghost columns_26_v = columns_26@;
    let mut options_33: Vec<String> = Vec::new();
    options_33.push(String::from_str("XY"));
    options_33.push(String::from_str("YZ"));
    options_33.push(String::from_str("XZ"));
    assert(spec_strings(options_33@) =~= seq!["XY"@, "YZ"@, "XZ"@]);
    let ghost options_33_v = options_33@;
    let mut items_32: Vec<RibbonItem> = Vec::new();
    items_32.push(combo_box("Plane", options_33, 0, RibbonAction::SetPlane));
    assert(spec_items(items_32@) =~= seq![
        RibbonItemModel::ComboBox {
            label: "Plane"@,
            options: spec_strings(options_33_v),
            selected: 0usize,
            action: RibbonAction::SetPlane,
        },
    ]);
    let ghost items_32_v = items_32@;
    let mut columns_31: Vec<RibbonSubGroup> = Vec::new();
    columns_31.push(RibbonSubGroup { items: items_32 });
    assert(spec_sub_groups(columns_31@) =~= seq![RibbonSubGroupModel { items: spec_items(items_32_v) }]);
    let ghost columns_31_v = columns_31@;
    let mut menu_36: Vec<MenuItem> = Vec::new();
    menu_36.push(menu_item("mm", RibbonAction::SetUnits, true));
    menu_36.push(menu_item("cm", RibbonAction::SetUnits, true));
    menu_36.push(menu_item("m", RibbonAction::SetUnits, true));
    menu_36.push(menu_item("mil", RibbonAction::SetUnits, true));
    menu_36.push(menu_item("in", RibbonAction::SetUnits, true));
    assert(spec_menu(menu_36@) =~= seq![
        MenuItemModel { label: "mm"@, action: RibbonAction::SetUnits, enabled: true },
        MenuItemModel { label: "cm"@, action: RibbonAction::SetUnits, enabled: true },
        MenuItemModel { label: "m"@, action: RibbonAction::SetUnits, enabled: true },
        MenuItemModel { label: "mil"@, action: RibbonAction::SetUnits, enabled: true },
        MenuItemModel { label: "in"@, action: RibbonAction::SetUnits, enabled: true },
    ]);
    let ghost menu_36_v = menu_36@;
    let mut items_35: Vec<RibbonItem> = Vec::new();
    items_35.push(large_dropdown("Units", '\u{1F4D0}', true, "Set model units", menu_36));
    assert(spec_items(items_35@) =~= seq![
        RibbonItemModel::LargeDropdown {
            label: "Units"@,
            icon: '\u{1F4D0}',
            enabled: true,
            tooltip: "Set model units"@,
            menu_items: spec_menu(menu_36_v),
        },
    ]);
    let ghost items_35_v = items_35@;
    let mut columns_34: Vec<RibbonSubGroup> = Vec::new();
    columns_34.push(RibbonSubGroup { items: items_35 });
    assert(spec_sub_groups(columns_34@) =~= seq![RibbonSubGroupModel { items: spec_items(items_35_v) }]);
    let ghost columns_34_v = columns_34@;
    let mut items_38: Vec<RibbonItem> = Vec::new();
    items_38.push(large_button(
        "Assign\nMaterial",
        '\u{1F9F1}',
        RibbonAction::AssignMaterial,
        true,
        "Assign material to selected object",
    ));
    assert(spec_items(items_38@) =~= seq![
        RibbonItemModel::LargeButton {
            label: "Assign\nMaterial"@,
            icon: '\u{1F9F1}',
            action: RibbonAction::AssignMaterial,
            enabled: true,
            tooltip: "Assign material to selected object"@,
        },
    ]);
    let ghost items_38_v = items_38@;
    let mut columns_37: Vec<RibbonSubGroup> = Vec::new();
    columns_37.push(RibbonSubGroup { items: items_38 });
    assert(spec_sub_groups(columns_37@) =~= seq![RibbonSubGroupModel { items: spec_items(items_38_v) }]);
    let ghost columns_37_v = columns_37@;
    let mut groups_25: Vec<RibbonGroup> = Vec::new();
    groups_25.push(RibbonGroup { label: String::from_str("Primitives"), sub_groups: columns_26 });
    groups_25.push(RibbonGroup { label: String::from_str("Plane"), sub_groups: columns_31 });
    groups_25.push(RibbonGroup { label: String::from_str("Units"), sub_groups: columns_34 });
    groups_25.push(RibbonGroup { label: String::from_str("Material"), sub_groups: columns_37 });
    assert(spec_groups(groups_25@) =~= seq![
        RibbonGroupModel { label: "Primitives"@, sub_groups: spec_sub_groups(columns_26_v) },
        RibbonGroupModel { label: "Plane"@, sub_groups: spec_sub_groups(columns_31_v) },
        RibbonGroupModel { label: "Units"@, sub_groups: spec_sub_groups(columns_34_v) },
        RibbonGroupModel { label: "Material"@, sub_groups: spec_sub_groups(columns_37_v) },
    ]);
    let ghost groups_25_v = groups_25@;
    RibbonTab { label: String::from_str("Draw"), accent_color: Some((0u8, 120u8, 200u8)), groups: groups_25 }
}

/// The value of `build_model_tab`.
pub open spec fn spec_build_model_tab() -> RibbonTabModel {
    RibbonTabModel {
        label: "Model"@,
        accent_color: Some((0u8, 120u8, 200u8)),
        groups: seq![
            RibbonGroupModel {
                label: "Boolean"@,
                sub_groups: seq![
                    RibbonSubGroupModel {
                        items: seq![
                            RibbonItemModel::LargeButton {
                                label: "Unite"@,
                                icon: '\u{222A}',
                                action: RibbonAction::BoolUnite,
                                enabled: true,
                                tooltip: "Unite selected objects"@,
                            },
                            RibbonItemModel::LargeButton {
                                label: "Subtract"@,
                                icon: '\u{2212}',
                                action: RibbonAction::BoolSubtract,
                                enabled: true,
                                tooltip: "Subtract objects"@,
                            },
                            RibbonItemModel::LargeButton {
                                label: "Intersect"@,
                                icon: '\u{2229}',
                                action: RibbonAction::BoolIntersect,
                                enabled: true,
                                tooltip: "Intersect objects"@,
                            },
                        ],
                    },
                    RibbonSubGroupModel {
                        items: seq![
                            RibbonItemModel::SmallButton {
                                label: "Split"@,
                                icon: '\u{2702}',
                                action: RibbonAction::BoolSplit,
                                enabled: true,
                                tooltip: "Split object"@,
                            },
                        ],
                    },
                ],
            },
            RibbonGroupModel {
                label: "Object"@,
                sub_groups: seq![
                    RibbonSubGroupModel {
                        items: seq![
                            RibbonItemModel::SmallButton {
                                label: "Group"@,
                                icon: '\u{1F4E6}',
                                action: RibbonAction::GroupObjects,
                                enabled: true,
                                tooltip: "Group selected objects"@,
                            },
                            RibbonItemModel::SmallButton {
                                label: "Ungroup"@,
                                icon: '\u{1F4E4}',
                                action: RibbonAction::UngroupObjects,
                                enabled: true,
                                tooltip: "Ungroup selected objects"@,
                            },
                            RibbonItemModel::SmallButton {
                                label: "Color"@,
                                icon: '\u{1F3A8}',
                                action: RibbonAction::AssignColor,
                                enabled: true,
                                tooltip: "Assign color to object"@,
                            },
                            RibbonItemModel::SmallButton {
                                label: "Transparency"@,
                                icon: '\u{1F4A7}',
                                action: RibbonAction::SetTransparency,
                                enabled: true,
                                tooltip: "Set object transparency"@,
                            },
                        ],
                    },
                ],
            },
        ],
    }
}

fn build_model_tab() -> (r: RibbonTab)
    ensures
        r@ == spec_build_model_tab(),
{
    let mut items_41: Vec<RibbonItem> = Vec::new();
    items_41.push(large_button("Unite", '\u{222A}', RibbonAction::BoolUnite, true, "Unite selected objects"));
    items_41.push(large_button("Subtract", '\u{2212}', RibbonAction::BoolSubtract, true, "Subtract objects"));
    items_41.push(large_button(
        "Intersect",
        '\u{2229}',
        RibbonAction::BoolIntersect,
        true,
        "Intersect objects",
    ));
    assert(spec_items(items_41@) =~= seq![
        RibbonItemModel::LargeButton {
            label: "Unite"@,
            icon: '\u{222A}',
            action: RibbonAction::BoolUnite,
            enabled: true,
            tooltip: "Unite selected objects"@,
        },
        RibbonItemModel::LargeButton {
            label: "Subtract"@,
            icon: '\u{2212}',
            action: RibbonAction::BoolSubtract,
            enabled: true,
            tooltip: "Subtract objects"@,
        },
        RibbonItemModel::LargeButton {
            label: "Intersect"@,
            icon: '\u{2229}',
            action: RibbonAction::BoolIntersect,
            enabled: true,
            tooltip: "Intersect objects"@,
        },
    ]);
    let ghost items_41_v = items_41@;
    let mut items_42: Vec<RibbonItem> = Vec::new();
    items_42.push(small_button("Split", '\u{2702}', RibbonAction::BoolSplit, true, "Split object"));
    assert(spec_items(items_42@) =~= seq![
        RibbonItemModel::SmallButton {
            label: "Split"@,
            icon: '\u{2702}',
            action: RibbonAction::BoolSplit,
            enabled: true,
            tooltip: "Split object"@,
        },
    ]);
    let ghost items_42_v = items_42@;
    let mut columns_40: Vec<RibbonSubGroup> = Vec::new();
    columns_40.push(RibbonSubGroup { items: items_41 });
    columns_40.push(RibbonSubGroup { items: items_42 });
    assert(spec_sub_groups(columns_40@) =~= seq![
        RibbonSubGroupModel { items: spec_items(items_41_v) },
        RibbonSubGroupModel { items: spec_items(items_42_v) },
    ]);
    let ghost columns_40_v = columns_40@;
    let mut items_44: Vec<RibbonItem> = Vec::new();
    items_44.push(small_button(
        "Group",
        '\u{1F4E6}',
        RibbonAction::GroupObjects,
        true,
        "Group selected objects",
    ));
    items_44.push(small_button(
        "Ungroup",
        '\u{1F4E4}',
        RibbonAction::UngroupObjects,
        true,
        "Ungroup selected objects",
    ));
    items_44.push(small_button(
        "Color",
        '\u{1F3A8}',
        RibbonAction::AssignColor,
        true,
        "Assign color to object",
    ));
    items_44.push(small_button(
        "Transparency",
        '\u{1F4A7}',
        RibbonAction::SetTransparency,
        true,
        "Set object transparency",
    ));
    assert(spec_items(items_44@) =~= seq![
        RibbonItemModel::SmallButton {
            label: "Group"@,
            icon: '\u{1F4E6}',
            action: RibbonAction::GroupObjects,
            enabled: true,
            tooltip: "Group selected objects"@,
        },
        RibbonItemModel::SmallButton {
            label: "Ungroup"@,
            icon: '\u{1F4E4}',
            action: RibbonAction::UngroupObjects,
            enabled: true,
            tooltip: "Ungroup selected objects"@,
        },
        RibbonItemModel::SmallButton {
            label: "Color"@,
            icon: '\u{1F3A8}',
            action: RibbonAction::AssignColor,
            enabled: true,
            tooltip: "Assign color to object"@,
        },
        RibbonItemModel::SmallButton {
            label: "Transparency"@,
            icon: '\u{1F4A7}',
            action: RibbonAction::SetTransparency,
            enabled: true,
            tooltip: "Set object transparency"@,
        },
    ]);
    let ghost items_44_v = items_44@;
    let mut columns_43: Vec<RibbonSubGroup> = Vec::new();
    columns_43.push(RibbonSubGroup { items: items_44 });
    assert(spec_sub_groups(columns_43@) =~= seq![RibbonSubGroupModel { items: spec_items(items_44_v) }]);
    let ghost columns_43_v = columns_43@;
    let mut groups_39: Vec<RibbonGroup> = Vec::new();
    groups_39.push(RibbonGroup { label: String::from_str("Boolean"), sub_groups: columns_40 });
    groups_39.push(RibbonGroup { label: String::from_str("Object"), sub_groups: columns_43 });
    assert(spec_groups(groups_39@) =~= seq![
        RibbonGroupModel { label: "Boolean"@, sub_groups: spec_sub_groups(columns_40_v) },
        RibbonGroupModel { label: "Object"@, sub_groups: spec_sub_groups(columns_43_v) },
    ]);
    let ghost groups_39_v = groups_39@;
    RibbonTab { label: String::from_str("Model"), accent_color: Some((0u8, 120u8, 200u8)), groups: groups_39 }
}

/// The value of `build_results_tab`.
pub open spec fn spec_build_results_tab() -> RibbonTabModel {
    RibbonTabModel {
        label: "Results"@,
        accent_color: Some((50u8, 160u8, 80u8)),
        groups: seq![
            RibbonGroupModel {
                label: "Report"@,
                sub_groups: seq![
                    RibbonSubGroupModel {
                        items: seq![
                            RibbonItemModel::LargeSplitButton {
                                label: "Create\nReport"@,
                                icon: '\u{1F4CA}',
                                action: RibbonAction::CreateReport,
                                enabled: true,
                                tooltip: "Create a new report"@,
                                menu_items: seq![
                                    MenuItemModel {
                                        label: "Rectangular Plot"@,
                                        action: RibbonAction::CreateReport,
                                        enabled: true,
                                    },
                                    MenuItemModel {
                                        label: "Smith Chart"@,
                                        action: RibbonAction::CreateReport,
                                        enabled: true,
                                    },
                                    MenuItemModel {
                                        label: "Polar Plot"@,
                                        action: RibbonAction::CreateReport,
                                        enabled: true,
                                    },
                                    MenuItemModel {
                                        label: "Data Table"@,
                                        action: RibbonAction::CreateReport,
                                        enabled: true,
                                    },
                                ],
                            },
                            RibbonItemModel::LargeButton {
                                label: "Solution\nData"@,
                                icon: '\u{1F4C8}',
                                action: RibbonAction::SolutionData,
                                enabled: true,
                                tooltip: "View solution data"@,
                            },
                        ],
                    },
                ],
            },
            RibbonGroupModel {
                label: "Field Overlays"@,
                sub_groups: seq![
                    RibbonSubGroupModel {
                        items: seq![
                            RibbonItemModel::LargeSplitButton {
                                label: "Plot\nFields"@,
                                icon: '\u{1F30A}',
                                action: RibbonAction::PlotFields,
                                enabled: true,
                                tooltip: "Plot field overlays"@,
                                menu_items: seq![
                                    MenuItemModel {
                                        label: "E-Field"@,
                                        action: RibbonAction::PlotEField,
                                        enabled: true,
                                    },
                                    MenuItemModel {
                                        label: "H-Field"@,
                                        action: RibbonAction::PlotHField,
                                        enabled: true,
                                    },
                                    MenuItemModel {
                                        label: "SAR"@,
                                        action: RibbonAction::PlotSAR,
                                        enabled: true,
                                    },
                                ],
                            },
                            RibbonItemModel::SmallButton {
                                label: "Animate"@,
                                icon: '\u{23EF}',
                                action: RibbonAction::Animate,
                                enabled: true,
                                tooltip: "Animate field results"@,
                            },
                        ],
                    },
                ],
            },
        ],
    }
}

fn build_results_tab() -> (r: RibbonTab)
    ensures
        r@ == spec_build_results_tab(),
{
    let mut menu_48: Vec<MenuItem> = Vec::new();
    menu_48.push(menu_item("Rectangular Plot", RibbonAction::CreateReport, true));
    menu_48.push(menu_item("Smith Chart", RibbonAction::CreateReport, true));
    menu_48.push(menu_item("Polar Plot", RibbonAction::CreateReport, true));
    menu_48.push(menu_item("Data Table", RibbonAction::CreateReport, true));
    assert(spec_menu(menu_48@) =~= seq![
        MenuItemModel {
            label: "Rectangular Plot"@,
            action: RibbonAction::CreateReport,
            enabled: true,
        },
        MenuItemModel { label: "Smith Chart"@, action: RibbonAction::CreateReport, enabled: true },
        MenuItemModel { label: "Polar Plot"@, action: RibbonAction::CreateReport, enabled: true },
        MenuItemModel { label: "Data Table"@, action: RibbonAction::CreateReport, enabled: true },
    ]);
    let ghost menu_48_v = menu_48@;
    let mut items_47: Vec<RibbonItem> = Vec::new();
    items_47.push(large_split_button(
        "Create\nReport",
        '\u{1F4CA}',
        RibbonAction::CreateReport,
        true,
        "Create a new report",
        menu_48,
    ));
    items_47.push(large_button(
        "Solution\nData",
        '\u{1F4C8}',
        RibbonAction::SolutionData,
        true,
        "View solution data",
    ));
    assert(spec_items(items_47@) =~= seq![
        RibbonItemModel::LargeSplitButton {
            label: "Create\nReport"@,
            icon: '\u{1F4CA}',
            action: RibbonAction::CreateReport,
            enabled: true,
            tooltip: "Create a new report"@,
            menu_items: spec_menu(menu_48_v),
        },
        RibbonItemModel::LargeButton {
            label: "Solution\nData"@,
            icon: '\u{1F4C8}',
            action: RibbonAction::SolutionData,
            enabled: true,
            tooltip: "View solution data"@,
        },
    ]);
    let ghost items_47_v = items_47@;
    let mut columns_46: Vec<RibbonSubGroup> = Vec::new();
    columns_46.push(RibbonSubGroup { items: items_47 });
    assert(spec_sub_groups(columns_46@) =~= seq![RibbonSubGroupModel { items: spec_items(items_47_v) }]);
    let ghost columns_46_v = columns_46@;
    let mut menu_51: Vec<MenuItem> = Vec::new();
    menu_51.push(menu_item("E-Field", RibbonAction::PlotEField, true));
    menu_51.push(menu_item("H-Field", RibbonAction::PlotHField, true));
    menu_51.push(menu_item("SAR", RibbonAction::PlotSAR, true));
    assert(spec_menu(menu_51@) =~= seq![
        MenuItemModel { label: "E-Field"@, action: RibbonAction::PlotEField, enabled: true },
        MenuItemModel { label: "H-Field"@, action: RibbonAction::PlotHField, enabled: true },
        MenuItemModel { label: "SAR"@, action: RibbonAction::PlotSAR, enabled: true },
    ]);
    let ghost menu_51_v = menu_51@;
    let mut items_50: Vec<RibbonItem> = Vec::new();
    items_50.push(large_split_button(
        "Plot\nFields",
        '\u{1F30A}',
        RibbonAction::PlotFields,
        true,
        "Plot field overlays",
        menu_51,
    ));
    items_50.push(small_button("Animate", '\u{23EF}', RibbonAction::Animate, true, "Animate field results"));
    assert(spec_items(items_50@) =~= seq![
        RibbonItemModel::LargeSplitButton {
            label: "Plot\nFields"@,
            icon: '\u{1F30A}',
            action: RibbonAction::PlotFields,
            enabled: true,
            tooltip: "Plot field overlays"@,
            menu_items: spec_menu(menu_51_v),
        },
        RibbonItemModel::SmallButton {
            label: "Animate"@,
            icon: '\u{23EF}',
            action: RibbonAction::Animate,
            enabled: true,
            tooltip: "Animate field results"@,
        },
    ]);
    let ghost items_50_v = items_50@;
    let mut columns_49: Vec<RibbonSubGroup> = Vec::new();
    columns_49.push(RibbonSubGroup { items: items_50 });
    assert(spec_sub_groups(columns_49@) =~= seq![RibbonSubGroupModel { items: spec_items(items_50_v) }]);
    let ghost columns_49_v = columns_49@;
    let mut groups_45: Vec<RibbonGroup> = Vec::new();
    groups_45.push(RibbonGroup { label: String::from_str("Report"), sub_groups: columns_46 });
    groups_45.push(RibbonGroup { label: String::from_str("Field Overlays"), sub_groups: columns_49 });
    assert(spec_groups(groups_45@) =~= seq![
        RibbonGroupModel { label: "Report"@, sub_groups: spec_sub_groups(columns_46_v) },
        RibbonGroupModel { label: "Field Overlays"@, sub_groups: spec_sub_groups(columns_49_v) },
    ]);
    let ghost groups_45_v = groups_45@;
    RibbonTab { label: String::from_str("Results"), accent_color: Some((50u8, 160u8, 80u8)), groups: groups_45 }
}


// ---------------------------------------------------------------------------
// What the layout promises
// ---------------------------------------------------------------------------

/// The command of a control, and whether it can be used; a dropdown has no
/// command of its own, and toggles and combo boxes are always usable.
pub open spec fn spec_enabled_action(i: RibbonItemModel) -> Option<RibbonAction> {
    match i {
        RibbonItemModel::LargeButton { action, enabled, .. } => if enabled { Some(action) } else { None },
        RibbonItemModel::SmallButton { action, enabled, .. } => if enabled { Some(action) } else { None },
        RibbonItemModel::LargeSplitButton { action, enabled, .. } => if enabled { Some(action) } else { None },
        RibbonItemModel::LargeDropdown { .. } => None,
        RibbonItemModel::ToggleButton { action, .. } => Some(action),
        RibbonItemModel::ComboBox { action, .. } => Some(action),
    }
}

/// The commands of the usable controls of a column, in order.
pub open spec fn spec_column_actions(items: Seq<RibbonItemModel>) -> Seq<RibbonAction>
    decreases items.len(),
{
    if items.len() == 0 {
        Seq::empty()
    } else {
        spec_column_actions(items.drop_last()) + match spec_enabled_action(items.last()) {
            Some(a) => seq![a],
            None => Seq::empty(),
        }
    }
}

/// The commands of the usable controls of a group, in order.
pub open spec fn spec_group_actions(cols: Seq<RibbonSubGroupModel>) -> Seq<RibbonAction>
    decreases cols.len(),
{
    if cols.len() == 0 {
        Seq::empty()
    } else {
        spec_group_actions(cols.drop_last()) + spec_column_actions(cols.last().items)
    }
}

/// The commands of the usable controls of a tab, in order.
pub open spec fn spec_tab_actions(groups: Seq<RibbonGroupModel>) -> Seq<RibbonAction>
    decreases groups.len(),
{
    if groups.len() == 0 {
        Seq::empty()
    } else {
        spec_tab_actions(groups.drop_last()) + spec_group_actions(groups.last().sub_groups)
    }
}

proof fn lemma_column_actions_append(a: Seq<RibbonItemModel>, b: Seq<RibbonItemModel>)
    ensures
        spec_column_actions(a + b) == spec_column_actions(a) + spec_column_actions(b),
    decreases b.len(),
{
    if b.len() == 0 {
        assert(a + b =~= a);
        assert(spec_column_actions(a) + spec_column_actions(b) =~= spec_column_actions(a));
    } else {
        lemma_column_actions_append(a, b.drop_last());
        assert((a + b).drop_last() =~= a + b.drop_last());
        assert((a + b).last() == b.last());
        let tail = match spec_enabled_action(b.last()) {
            Some(x) => seq![x],
            None => Seq::<RibbonAction>::empty(),
        };
        assert(spec_column_actions(a) + spec_column_actions(b.drop_last()) + tail =~= spec_column_actions(a) + (
        spec_column_actions(b.drop_last()) + tail));
    }
}

proof fn lemma_column_actions_one(x: RibbonItemModel)
    ensures
        spec_column_actions(seq![x]) == (match spec_enabled_action(x) {
            Some(a) => seq![a],
            None => Seq::<RibbonAction>::empty(),
        }),
{
    assert(seq![x].drop_last() =~= Seq::<RibbonItemModel>::empty());
    assert(seq![x].last() == x);
    assert(spec_column_actions(Seq::<RibbonItemModel>::empty()) =~= Seq::<RibbonAction>::empty());
    let tail = match spec_enabled_action(x) {
        Some(a) => seq![a],
        None => Seq::<RibbonAction>::empty(),
    };
    assert(Seq::<RibbonAction>::empty() + tail =~= tail);
}

proof fn lemma_column_actions_of(s: Seq<RibbonItemModel>)
    ensures
        s.len() == 2 ==> spec_column_actions(s) == spec_column_actions(seq![s[0]]) + spec_column_actions(seq![s[1]]),
        s.len() == 3 ==> spec_column_actions(s) == spec_column_actions(seq![s[0]]) + spec_column_actions(seq![s[1]])
            + spec_column_actions(seq![s[2]]),
{
    if s.len() == 2 {
        assert(s =~= seq![s[0]] + seq![s[1]]);
        lemma_column_actions_append(seq![s[0]], seq![s[1]]);
    }
    if s.len() == 3 {
        assert(s =~= seq![s[0]] + seq![s[1]] + seq![s[2]]);
        lemma_column_actions_append(seq![s[0]] + seq![s[1]], seq![s[2]]);
        lemma_column_actions_append(seq![s[0]], seq![s[1]]);
    }
}

/// In a browser the desktop tab offers only Close; on the desktop it
/// offers New, Open, Save, Save As, Close, Import and Export.
pub proof fn lemma_desktop_file_commands(is_web: bool)
    ensures
        spec_tab_actions(spec_build_desktop_tab(is_web).groups) == (if is_web {
            seq![RibbonAction::CloseProject]
        } else {
            seq![
                RibbonAction::NewProject,
                RibbonAction::OpenProject,
                RibbonAction::SaveProject,
                RibbonAction::SaveAs,
                RibbonAction::CloseProject,
                RibbonAction::ImportStep,
                RibbonAction::ExportStep,
            ]
        }),
{
    let t = spec_build_desktop_tab(is_web);
    let g0 = t.groups[0];
    let g1 = t.groups[1];
    let c00 = g0.sub_groups[0].items;
    let c01 = g0.sub_groups[1].items;
    let c10 = g1.sub_groups[0].items;
    lemma_column_actions_of(c00);
    lemma_column_actions_of(c01);
    lemma_column_actions_of(c10);
    lemma_column_actions_one(c00[0]);
    lemma_column_actions_one(c00[1]);
    lemma_column_actions_one(c00[2]);
    lemma_column_actions_one(c01[0]);
    lemma_column_actions_one(c01[1]);
    lemma_column_actions_one(c10[0]);
    lemma_column_actions_one(c10[1]);
    let e = Seq::<RibbonAction>::empty();
    assert(spec_column_actions(c00) =~= (if is_web {
        e
    } else {
        seq![RibbonAction::NewProject, RibbonAction::OpenProject, RibbonAction::SaveProject]
    }));
    assert(spec_column_actions(c01) =~= (if is_web {
        seq![RibbonAction::CloseProject]
    } else {
        seq![RibbonAction::SaveAs, RibbonAction::CloseProject]
    }));
    assert(spec_column_actions(c10) =~= (if is_web {
        e
    } else {
        seq![RibbonAction::ImportStep, RibbonAction::ExportStep]
    }));
    assert(spec_group_actions(Seq::<RibbonSubGroupModel>::empty()) =~= e);
    assert(spec_tab_actions(Seq::<RibbonGroupModel>::empty()) =~= e);
    assert(g0.sub_groups.drop_last() =~= seq![g0.sub_groups[0]]);
    assert(seq![g0.sub_groups[0]].drop_last() =~= Seq::<RibbonSubGroupModel>::empty());
    assert(g1.sub_groups.drop_last() =~= Seq::<RibbonSubGroupModel>::empty());
    assert(t.groups.drop_last() =~= seq![g0]);
    assert(seq![g0].drop_last() =~= Seq::<RibbonGroupModel>::empty());
    assert(spec_group_actions(seq![g0.sub_groups[0]]) =~= e + spec_column_actions(c00));
    assert(spec_group_actions(g0.sub_groups) =~= spec_column_actions(c00) + spec_column_actions(c01));
    assert(spec_group_actions(g1.sub_groups) =~= e + spec_column_actions(c10));
    assert(spec_tab_actions(seq![g0]) =~= e + spec_group_actions(g0.sub_groups));
    assert(spec_tab_actions(t.groups) =~= (if is_web {
        seq![RibbonAction::CloseProject]
    } else {
        seq![
            RibbonAction::NewProject,
            RibbonAction::OpenProject,
            RibbonAction::SaveProject,
            RibbonAction::SaveAs,
            RibbonAction::CloseProject,
            RibbonAction::ImportStep,
            RibbonAction::ExportStep,
        ]
    }));
}

/// The Analyze All button runs Solve All, and can be used exactly when the
/// edition allows solving all setups.
pub proof fn lemma_analyze_all_follows_edition(edition: Edition)
    ensures
        spec_enabled_action(spec_build_simulation_tab(edition).groups[2].sub_groups[0].items[0]) == (if edition.spec_allows_solve_all() {
            Some(RibbonAction::SolveAll)
        } else {
            None
        }),
{
}

/// The default tabs, in order: Desktop, View, Simulation, Draw, Model,
/// Results.
pub proof fn lemma_default_tab_labels(edition: Edition, is_web: bool)
    ensures
        spec_build_default_tabs(edition, is_web).map_values(|t: RibbonTabModel| t.label) =~= seq![
            "Desktop"@,
            "View"@,
            "Simulation"@,
            "Draw"@,
            "Model"@,
            "Results"@,
        ],
{
}

/// The view tab's grid, ruler and axes toggles keep their state under the
/// keys `grid`, `ruler` and `coord_system`, the keys the shell reads when
/// it reports them.
pub proof fn lemma_view_toggle_keys()
    ensures
        spec_build_view_tab().groups[0].sub_groups[0].items == seq![
            RibbonItemModel::ToggleButton {
                label: "Grid"@,
                icon: '\u{2630}',
                state_key: "grid"@,
                action: RibbonAction::ToggleGrid,
                tooltip: "Toggle grid display"@,
            },
            RibbonItemModel::ToggleButton {
                label: "Ruler"@,
                icon: '\u{1F4CF}',
                state_key: "ruler"@,
                action: RibbonAction::ToggleRuler,
                tooltip: "Toggle ruler display"@,
            },
            RibbonItemModel::ToggleButton {
                label: "Axes"@,
                icon: '\u{2742}',
                state_key: "coord_system"@,
                action: RibbonAction::ToggleCoordSystem,
                tooltip: "Toggle coordinate system display"@,
            },
        ],
{
}

} // verus!
