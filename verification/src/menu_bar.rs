//! The menu bar: its menus, in order, and for each entry its label, the
//! command it gives and whether it can be chosen. File operations need a
//! file system, so they cannot be chosen on the web; Solve All needs an
//! edition that allows it.
use vstd::prelude::*;
use vstd::string::*;

use crate::edition::Edition;
use crate::ribbon::RibbonAction;

verus! {

/// An entry that can be chosen, or shown disabled.
#[derive(Debug, Clone)]
pub struct MenuBarItem {
    pub label: String,
    /// The command the entry gives; none for an entry that does nothing yet.
    pub action: Option<RibbonAction>,
    pub enabled: bool,
}

/// An entry of a menu.
#[derive(Debug, Clone)]
pub enum MenuEntry {
    Item(MenuBarItem),
    Separator,
    Submenu { label: String, items: Vec<MenuBarItem> },
}

/// A menu of the menu bar.
#[derive(Debug, Clone)]
pub struct Menu {
    pub label: String,
    pub entries: Vec<MenuEntry>,
}

/// The mathematical value of a `MenuBarItem`.
pub struct MenuBarItemModel {
    pub label: Seq<char>,
    pub action: Option<RibbonAction>,
    pub enabled: bool,
}

/// The mathematical value of a `MenuEntry`.
pub enum MenuEntryModel {
    Item(MenuBarItemModel),
    Separator,
    Submenu { label: Seq<char>, items: Seq<MenuBarItemModel> },
}

/// The mathematical value of a `Menu`.
pub struct MenuModel {
    pub label: Seq<char>,
    pub entries: Seq<MenuEntryModel>,
}

impl View for MenuBarItem {
    type V = MenuBarItemModel;

    open spec fn view(&self) -> MenuBarItemModel {
        MenuBarItemModel { label: self.label@, action: self.action, enabled: self.enabled }
    }
}

/// The items as values.
pub open spec fn spec_items(v: Seq<MenuBarItem>) -> Seq<MenuBarItemModel> {
    v.map_values(|i: MenuBarItem| i@)
}

impl View for MenuEntry {
    type V = MenuEntryModel;

    open spec fn view(&self) -> MenuEntryModel {
        match self {
            MenuEntry::Item(i) => MenuEntryModel::Item(i@),
            MenuEntry::Separator => MenuEntryModel::Separator,
            MenuEntry::Submenu { label, items } => MenuEntryModel::Submenu { label: label@, items: spec_items(items@) },
        }
    }
}

impl View for Menu {
    type V = MenuModel;

    open spec fn view(&self) -> MenuModel {
        MenuModel { label: self.label@, entries: self.entries@.map_values(|e: MenuEntry| e@) }
    }
}

/// An entry giving `action`.
pub open spec fn spec_item(label: Seq<char>, action: RibbonAction, enabled: bool) -> MenuEntryModel {
    MenuEntryModel::Item(MenuBarItemModel { label, action: Some(action), enabled })
}

/// A submenu entry giving `action`.
pub open spec fn spec_sub_item(label: Seq<char>, action: RibbonAction, enabled: bool) -> MenuBarItemModel {
    MenuBarItemModel { label, action: Some(action), enabled }
}

/// An entry shown disabled, giving nothing.
pub open spec fn spec_inert(label: Seq<char>) -> MenuEntryModel {
    MenuEntryModel::Item(MenuBarItemModel { label, action: None, enabled: false })
}

fn item(label: &str, action: RibbonAction, enabled: bool) -> (r: MenuEntry)
    ensures
        r@ == spec_item(label@, action, enabled),
{
    MenuEntry::Item(MenuBarItem { label: String::from_str(label), action: Some(action), enabled })
}

fn sub_item(label: &str, action: RibbonAction, enabled: bool) -> (r: MenuBarItem)
    ensures
        r@ == spec_sub_item(label@, action, enabled),
{
    MenuBarItem { label: String::from_str(label), action: Some(action), enabled }
}

fn inert(label: &str) -> (r: MenuEntry)
    ensures
        r@ == spec_inert(label@),
{
    MenuEntry::Item(MenuBarItem { label: String::from_str(label), action: None, enabled: false })
}

/// The `File` menu.
pub open spec fn spec_file_menu(edition: Edition, is_web: bool) -> MenuModel {
    MenuModel {
        label: "File"@,
        entries: seq![
            spec_item("New Project"@, RibbonAction::NewProject, !is_web),
            spec_item("Open..."@, RibbonAction::OpenProject, !is_web),
            spec_item("Save"@, RibbonAction::SaveProject, !is_web),
            spec_item("Save As..."@, RibbonAction::SaveAs, !is_web),
            MenuEntryModel::Separator,
            spec_item("Close Project"@, RibbonAction::CloseProject, true),
            MenuEntryModel::Separator,
            MenuEntryModel::Submenu {
                label: "Import"@,
                items: seq![
                    spec_sub_item("Import STEP"@, RibbonAction::ImportStep, !is_web),
                    spec_sub_item("Import SAT"@, RibbonAction::ImportSat, !is_web),
                ],
            },
            MenuEntryModel::Submenu {
                label: "Export"@,
                items: seq![
                    spec_sub_item("Export STEP"@, RibbonAction::ExportStep, !is_web),
                    spec_sub_item("Export SAT"@, RibbonAction::ExportSat, !is_web),
                ],
            },
        ],
    }
}

/// The `Edit` menu.
pub open spec fn spec_edit_menu(edition: Edition, is_web: bool) -> MenuModel {
    MenuModel {
        label: "Edit"@,
        entries: seq![
            spec_inert("Undo"@),
            spec_inert("Redo"@),
        ],
    }
}

/// The `View` menu.
pub open spec fn spec_view_menu(edition: Edition, is_web: bool) -> MenuModel {
    MenuModel {
        label: "View"@,
        entries: seq![
            spec_item("Toggle Grid"@, RibbonAction::ToggleGrid, true),
            spec_item("Toggle Ruler"@, RibbonAction::ToggleRuler, true),
            spec_item("Toggle Axes"@, RibbonAction::ToggleCoordSystem, true),
            MenuEntryModel::Separator,
            spec_item("Shaded"@, RibbonAction::RenderShaded, true),
            spec_item("Wireframe"@, RibbonAction::RenderWireframe, true),
            MenuEntryModel::Separator,
            spec_item("Fit All"@, RibbonAction::FitAll, true),
            spec_item("Zoom In"@, RibbonAction::ZoomIn, true),
            spec_item("Zoom Out"@, RibbonAction::ZoomOut, true),
            MenuEntryModel::Separator,
            spec_item("Toggle Project Manager"@, RibbonAction::ToggleProjectManager, true),
            spec_item("Toggle Message Manager"@, RibbonAction::ToggleMessageManager, true),
        ],
    }
}

/// The `Project` menu.
pub open spec fn spec_project_menu(edition: Edition, is_web: bool) -> MenuModel {
    MenuModel {
        label: "Project"@,
        entries: seq![
            spec_item("Validate"@, RibbonAction::Validate, true),
            spec_item("Add Setup"@, RibbonAction::AddSetup, true),
            spec_item("Add Sweep"@, RibbonAction::AddSweep, true),
        ],
    }
}

/// The `Draw` menu.
pub open spec fn spec_draw_menu(edition: Edition, is_web: bool) -> MenuModel {
    MenuModel {
        label: "Draw"@,
        entries: seq![
            spec_item("Box"@, RibbonAction::DrawBox, true),
            spec_item("Cylinder"@, RibbonAction::DrawCylinder, true),
            spec_item("Sphere"@, RibbonAction::DrawSphere, true),
            spec_item("Cone"@, RibbonAction::DrawCone, true),
            spec_item("Torus"@, RibbonAction::DrawTorus, true),
            MenuEntryModel::Separator,
            spec_item("Rectangle"@, RibbonAction::DrawRectangle, true),
            spec_item("Ellipse"@, RibbonAction::DrawEllipse, true),
            spec_item("Circle"@, RibbonAction::DrawCircle, true),
            spec_item("Polygon"@, RibbonAction::DrawPolygon, true),
            spec_item("Polyline"@, RibbonAction::DrawPolyline, true),
            spec_item("Arc"@, RibbonAction::DrawArc, true),
            spec_item("Spline"@, RibbonAction::DrawSpline, true),
        ],
    }
}

/// The `Simulation` menu.
pub open spec fn spec_simulation_menu(edition: Edition, is_web: bool) -> MenuModel {
    MenuModel {
        label: "Simulation"@,
        entries: seq![
            spec_item("Solve"@, RibbonAction::Solve, true),
            spec_item("Solve All"@, RibbonAction::SolveAll, edition.spec_allows_solve_all()),
            MenuEntryModel::Separator,
            spec_inert("Abort"@),
        ],
    }
}

/// The `Results` menu.
pub open spec fn spec_results_menu(edition: Edition, is_web: bool) -> MenuModel {
    MenuModel {
        label: "Results"@,
        entries: seq![
            spec_item("Create Report"@, RibbonAction::CreateReport, true),
            spec_item("Solution Data"@, RibbonAction::SolutionData, true),
            MenuEntryModel::Separator,
            MenuEntryModel::Submenu {
                label: "Plot Fields"@,
                items: seq![
                    spec_sub_item("E-Field"@, RibbonAction::PlotEField, true),
                    spec_sub_item("H-Field"@, RibbonAction::PlotHField, true),
                    spec_sub_item("SAR"@, RibbonAction::PlotSAR, true),
                ],
            },
            spec_item("Animate"@, RibbonAction::Animate, true),
        ],
    }
}

/// The `Help` menu.
pub open spec fn spec_help_menu(edition: Edition, is_web: bool) -> MenuModel {
    MenuModel {
        label: "Help"@,
        entries: seq![
            spec_inert("About EmStudio"@),
        ],
    }
}

fn file_menu(edition: Edition, is_web: bool) -> (r: Menu)
    ensures
        r@ == spec_file_menu(edition, is_web),
{
    let mut entries: Vec<MenuEntry> = Vec::new();
    entries.push(item("New Project", RibbonAction::NewProject, !is_web));
    entries.push(item("Open...", RibbonAction::OpenProject, !is_web));
    entries.push(item("Save", RibbonAction::SaveProject, !is_web));
    entries.push(item("Save As...", RibbonAction::SaveAs, !is_web));
    entries.push(MenuEntry::Separator);
    entries.push(item("Close Project", RibbonAction::CloseProject, true));
    entries.push(MenuEntry::Separator);
    let mut items: Vec<MenuBarItem> = Vec::new();
    items.push(sub_item("Import STEP", RibbonAction::ImportStep, !is_web));
    items.push(sub_item("Import SAT", RibbonAction::ImportSat, !is_web));
    assert(spec_items(items@) =~= seq![
        spec_sub_item("Import STEP"@, RibbonAction::ImportStep, !is_web),
        spec_sub_item("Import SAT"@, RibbonAction::ImportSat, !is_web),
    ]);
    entries.push(MenuEntry::Submenu { label: String::from_str("Import"), items });
    let mut items: Vec<MenuBarItem> = Vec::new();
    items.push(sub_item("Export STEP", RibbonAction::ExportStep, !is_web));
    items.push(sub_item("Export SAT", RibbonAction::ExportSat, !is_web));
    assert(spec_items(items@) =~= seq![
        spec_sub_item("Export STEP"@, RibbonAction::ExportStep, !is_web),
        spec_sub_item("Export SAT"@, RibbonAction::ExportSat, !is_web),
    ]);
    entries.push(MenuEntry::Submenu { label: String::from_str("Export"), items });
    let r = Menu { label: String::from_str("File"), entries };
    assert(r@.entries =~= spec_file_menu(edition, is_web).entries);
    r
}

fn edit_menu(edition: Edition, is_web: bool) -> (r: Menu)
    ensures
        r@ == spec_edit_menu(edition, is_web),
{
    let mut entries: Vec<MenuEntry> = Vec::new();
    entries.push(inert("Undo"));
    entries.push(inert("Redo"));
    let r = Menu { label: String::from_str("Edit"), entries };
    assert(r@.entries =~= spec_edit_menu(edition, is_web).entries);
    r
}

fn view_menu(edition: Edition, is_web: bool) -> (r: Menu)
    ensures
        r@ == spec_view_menu(edition, is_web),
{
    let mut entries: Vec<MenuEntry> = Vec::new();
    entries.push(item("Toggle Grid", RibbonAction::ToggleGrid, true));
    entries.push(item("Toggle Ruler", RibbonAction::ToggleRuler, true));
    entries.push(item("Toggle Axes", RibbonAction::ToggleCoordSystem, true));
    entries.push(MenuEntry::Separator);
    entries.push(item("Shaded", RibbonAction::RenderShaded, true));
    entries.push(item("Wireframe", RibbonAction::RenderWireframe, true));
    entries.push(MenuEntry::Separator);
    entries.push(item("Fit All", RibbonAction::FitAll, true));
    entries.push(item("Zoom In", RibbonAction::ZoomIn, true));
    entries.push(item("Zoom Out", RibbonAction::ZoomOut, true));
    entries.push(MenuEntry::Separator);
    entries.push(item("Toggle Project Manager", RibbonAction::ToggleProjectManager, true));
    entries.push(item("Toggle Message Manager", RibbonAction::ToggleMessageManager, true));
    let r = Menu { label: String::from_str("View"), entries };
    assert(r@.entries =~= spec_view_menu(edition, is_web).entries);
    r
}

fn project_menu(edition: Edition, is_web: bool) -> (r: Menu)
    ensures
        r@ == spec_project_menu(edition, is_web),
{
    let mut entries: Vec<MenuEntry> = Vec::new();
    entries.push(item("Validate", RibbonAction::Validate, true));
    entries.push(item("Add Setup", RibbonAction::AddSetup, true));
    entries.push(item("Add Sweep", RibbonAction::AddSweep, true));
    let r = Menu { label: String::from_str("Project"), entries };
    assert(r@.entries =~= spec_project_menu(edition, is_web).entries);
    r
}

fn draw_menu(edition: Edition, is_web: bool) -> (r: Menu)
    ensures
        r@ == spec_draw_menu(edition, is_web),
{
    let mut entries: Vec<MenuEntry> = Vec::new();
    entries.push(item("Box", RibbonAction::DrawBox, true));
    entries.push(item("Cylinder", RibbonAction::DrawCylinder, true));
    entries.push(item("Sphere", RibbonAction::DrawSphere, true));
    entries.push(item("Cone", RibbonAction::DrawCone, true));
    entries.push(item("Torus", RibbonAction::DrawTorus, true));
    entries.push(MenuEntry::Separator);
    entries.push(item("Rectangle", RibbonAction::DrawRectangle, true));
    entries.push(item("Ellipse", RibbonAction::DrawEllipse, true));
    entries.push(item("Circle", RibbonAction::DrawCircle, true));
    entries.push(item("Polygon", RibbonAction::DrawPolygon, true));
    entries.push(item("Polyline", RibbonAction::DrawPolyline, true));
    entries.push(item("Arc", RibbonAction::DrawArc, true));
    entries.push(item("Spline", RibbonAction::DrawSpline, true));
    let r = Menu { label: String::from_str("Draw"), entries };
    assert(r@.entries =~= spec_draw_menu(edition, is_web).entries);
    r
}

fn simulation_menu(edition: Edition, is_web: bool) -> (r: Menu)
    ensures
        r@ == spec_simulation_menu(edition, is_web),
{
    let mut entries: Vec<MenuEntry> = Vec::new();
    entries.push(item("Solve", RibbonAction::Solve, true));
    entries.push(item("Solve All", RibbonAction::SolveAll, edition.allows_solve_all()));
    entries.push(MenuEntry::Separator);
    entries.push(inert("Abort"));
    let r = Menu { label: String::from_str("Simulation"), entries };
    assert(r@.entries =~= spec_simulation_menu(edition, is_web).entries);
    r
}

fn results_menu(edition: Edition, is_web: bool) -> (r: Menu)
    ensures
        r@ == spec_results_menu(edition, is_web),
{
    let mut entries: Vec<MenuEntry> = Vec::new();
    entries.push(item("Create Report", RibbonAction::CreateReport, true));
    entries.push(item("Solution Data", RibbonAction::SolutionData, true));
    entries.push(MenuEntry::Separator);
    let mut items: Vec<MenuBarItem> = Vec::new();
    items.push(sub_item("E-Field", RibbonAction::PlotEField, true));
    items.push(sub_item("H-Field", RibbonAction::PlotHField, true));
    items.push(sub_item("SAR", RibbonAction::PlotSAR, true));
    assert(spec_items(items@) =~= seq![
        spec_sub_item("E-Field"@, RibbonAction::PlotEField, true),
        spec_sub_item("H-Field"@, RibbonAction::PlotHField, true),
        spec_sub_item("SAR"@, RibbonAction::PlotSAR, true),
    ]);
    entries.push(MenuEntry::Submenu { label: String::from_str("Plot Fields"), items });
    entries.push(item("Animate", RibbonAction::Animate, true));
    let r = Menu { label: String::from_str("Results"), entries };
    assert(r@.entries =~= spec_results_menu(edition, is_web).entries);
    r
}

fn help_menu(edition: Edition, is_web: bool) -> (r: Menu)
    ensures
        r@ == spec_help_menu(edition, is_web),
{
    let mut entries: Vec<MenuEntry> = Vec::new();
    entries.push(inert("About EmStudio"));
    let r = Menu { label: String::from_str("Help"), entries };
    assert(r@.entries =~= spec_help_menu(edition, is_web).entries);
    r
}

/// The menus of the menu bar, in order.
pub open spec fn spec_menu_bar(edition: Edition, is_web: bool) -> Seq<MenuModel> {
    seq![
        spec_file_menu(edition, is_web),
        spec_edit_menu(edition, is_web),
        spec_view_menu(edition, is_web),
        spec_project_menu(edition, is_web),
        spec_draw_menu(edition, is_web),
        spec_simulation_menu(edition, is_web),
        spec_results_menu(edition, is_web),
        spec_help_menu(edition, is_web),
    ]
}

/// The menus of the menu bar for an edition, on the web or natively.
pub fn menu_bar(edition: Edition, is_web: bool) -> (r: Vec<Menu>)
    ensures
        r@.map_values(|m: Menu| m@) == spec_menu_bar(edition, is_web),
{
    let mut v: Vec<Menu> = Vec::new();
    v.push(file_menu(edition, is_web));
    v.push(edit_menu(edition, is_web));
    v.push(view_menu(edition, is_web));
    v.push(project_menu(edition, is_web));
    v.push(draw_menu(edition, is_web));
    v.push(simulation_menu(edition, is_web));
    v.push(results_menu(edition, is_web));
    v.push(help_menu(edition, is_web));
    assert(v@.map_values(|m: Menu| m@) =~= spec_menu_bar(edition, is_web));
    v
}

/// Whether a command works on files: new, open, save, save as, import and
/// export.
pub open spec fn spec_file_command(a: RibbonAction) -> bool {
    a == RibbonAction::NewProject || a == RibbonAction::OpenProject || a == RibbonAction::SaveProject || a
        == RibbonAction::SaveAs || a == RibbonAction::ImportStep || a == RibbonAction::ImportSat || a
        == RibbonAction::ExportStep || a == RibbonAction::ExportSat
}

/// An entry that can be chosen.
pub open spec fn spec_enabled_entry(e: MenuEntryModel) -> bool {
    match e {
        MenuEntryModel::Item(i) => i.enabled,
        _ => false,
    }
}

/// In the File menu, the commands that work on files can be chosen exactly
/// when not on the web, with their submenus likewise; closing the project
/// always can.
pub proof fn lemma_file_commands_need_a_file_system(edition: Edition, is_web: bool)
    ensures
        forall|k: int|
            0 <= k < spec_menu_bar(edition, is_web)[0].entries.len() ==> match #[trigger] spec_menu_bar(
                edition,
                is_web,
            )[0].entries[k] {
                MenuEntryModel::Item(i) => (i.action matches Some(a) && spec_file_command(a)) ==> i.enabled == !is_web,
                MenuEntryModel::Submenu { items, .. } => forall|j: int|
                    0 <= j < items.len() ==> (#[trigger] items[j]).enabled == !is_web && (items[j].action matches Some(
                        a,
                    ) && spec_file_command(a)),
                MenuEntryModel::Separator => true,
            },
        spec_menu_bar(edition, is_web)[0].entries[5] == spec_item("Close Project"@, RibbonAction::CloseProject, true),
{
}

/// Solve All can be chosen exactly when the edition allows solving all
/// setups.
pub proof fn lemma_solve_all_follows_edition(edition: Edition, is_web: bool)
    ensures
        spec_menu_bar(edition, is_web)[5].entries[1] == spec_item(
            "Solve All"@,
            RibbonAction::SolveAll,
            edition.spec_allows_solve_all(),
        ),
{
}

/// Every entry that can be chosen gives a command.
pub proof fn lemma_enabled_entries_give_commands(edition: Edition, is_web: bool)
    ensures
        forall|m: int, k: int|
            0 <= m < spec_menu_bar(edition, is_web).len() && 0 <= k < spec_menu_bar(edition, is_web)[m].entries.len()
                ==> match #[trigger] spec_menu_bar(edition, is_web)[m].entries[k] {
                MenuEntryModel::Item(i) => i.enabled ==> i.action is Some,
                MenuEntryModel::Submenu { items, .. } => forall|j: int|
                    0 <= j < items.len() ==> (#[trigger] items[j]).action is Some,
                MenuEntryModel::Separator => true,
            },
{
}

} // verus!
