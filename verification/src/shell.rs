//! The application shell's decisions: what a ribbon command does to the
//! shell's state (status line, log, messages, panels, the draw dialog, the
//! project's solve state and its unsaved-changes flag), and what outside
//! work it asks for (a solve, a project reset, a report). The caller does
//! that work and reports back.
use vstd::prelude::*;
use vstd::string::*;

use crate::backend::{mode_label, spec_backend_error_message, spec_mode_label, BackendError, RunMode, SimulationStatus, SolveResult};
use crate::design::concat2;
use crate::draw_dialog::{
    spec_new_cone, spec_new_torus, DrawDialog, DrawDialogModel,
};
use crate::design_vars::{spec_new_variable, spec_new_variable_name, spec_with_value, DesignVariables, VariableModel};
use crate::edition::Edition;
use crate::results::{spec_geometry_message, GeometryError};
use crate::messages::{MessageEntry, Severity};
use crate::text::{spec_decimal, to_decimal};
use crate::ribbon::{
    action_name, spec_action_name, spec_is_toggled, spec_keys_unique, spec_toggle_lookup, RibbonAction, RibbonState,
};

verus! {

/// Outside work a command asks for.
#[derive(Debug, Clone, Copy, PartialEq, Eq, Structural)]
pub enum ShellEffect {
    /// Nothing to do.
    Nothing,
    /// Solve the project (all setups when `all`), then report the outcome
    /// with `finish_solve`.
    Solve { all: bool },
    /// Replace the project with a new default one and forget its file.
    ResetProject,
    /// Open a default report on the project.
    CreateReport,
}

/// The state of the application shell.
pub struct ShellState {
    edition: Edition,
    mode: RunMode,
    project_status: SimulationStatus,
    last_result: Option<SolveResult>,
    unsaved_changes: bool,
    status_text: String,
    log_text: String,
    messages: Vec<MessageEntry>,
    ribbon_state: RibbonState,
    show_project_manager: bool,
    show_message_manager: bool,
    draw_dialog: Option<DrawDialog>,
    design_variables: DesignVariables,
}

/// The mathematical value of a `SolveResult`.
pub struct SolveResultModel {
    pub field_preview: Seq<char>,
    pub converged: bool,
}

/// The mathematical value of a `MessageEntry`.
pub struct MessageModel {
    pub severity: Severity,
    pub text: Seq<char>,
}

/// The mathematical value of a `ShellState`.
pub struct ShellModel {
    pub edition: Edition,
    pub mode: RunMode,
    pub project_status: SimulationStatus,
    pub last_result: Option<SolveResultModel>,
    pub unsaved_changes: bool,
    pub status_text: Seq<char>,
    pub log_text: Seq<char>,
    pub messages: Seq<MessageModel>,
    pub toggles: Seq<(String, bool)>,
    pub active_tab: usize,
    pub show_project_manager: bool,
    pub show_message_manager: bool,
    pub draw_dialog: Option<DrawDialogModel>,
    pub design_variables: Map<Seq<char>, VariableModel>,
}

impl View for SolveResult {
    type V = SolveResultModel;

    open spec fn view(&self) -> SolveResultModel {
        SolveResultModel { field_preview: self.field_preview@, converged: self.converged }
    }
}

impl View for MessageEntry {
    type V = MessageModel;

    open spec fn view(&self) -> MessageModel {
        MessageModel { severity: self.severity, text: self.text@ }
    }
}

impl View for ShellState {
    type V = ShellModel;

    closed spec fn view(&self) -> ShellModel {
        ShellModel {
            edition: self.edition,
            mode: self.mode,
            project_status: self.project_status,
            last_result: match self.last_result {
                Some(r) => Some(r@),
                None => None,
            },
            unsaved_changes: self.unsaved_changes,
            status_text: self.status_text@,
            log_text: self.log_text@,
            messages: self.messages@.map_values(|m: MessageEntry| m@),
            toggles: self.ribbon_state.toggles@,
            active_tab: self.ribbon_state.active_tab,
            show_project_manager: self.show_project_manager,
            show_message_manager: self.show_message_manager,
            draw_dialog: match self.draw_dialog {
                Some(d) => Some(d@),
                None => None,
            },
            design_variables: self.design_variables.var_map(),
        }
    }
}

/// A message.
pub open spec fn spec_msg(severity: Severity, text: Seq<char>) -> MessageModel {
    MessageModel { severity, text }
}

/// `ON` or `OFF`.
pub open spec fn spec_on_off(on: bool) -> Seq<char> {
    if on {
        "ON"@
    } else {
        "OFF"@
    }
}

/// Commands with no behaviour of their own yet: they mark the project
/// changed and say so.
pub open spec fn spec_is_stub(a: RibbonAction) -> bool {
    !(a is NewProject || a is CloseProject || a is Solve || a is SolveAll || a is ToggleGrid || a is ToggleRuler
        || a is ToggleCoordSystem || a is RenderShaded || a is RenderWireframe || a is ToggleProjectManager
        || a is ToggleMessageManager || a is SaveProject || a is SaveAs || a is OpenProject || a is CreateReport
        || a is DrawCone || a is DrawTorus)
}

/// The shell after a new project was created.
pub open spec fn spec_new_project(s: ShellModel) -> ShellModel {
    ShellModel {
        project_status: SimulationStatus::Idle,
        last_result: None,
        unsaved_changes: false,
        status_text: "New project created"@,
        log_text: s.log_text + "\n[file] new project"@,
        messages: s.messages.push(spec_msg(Severity::Info, "New project created."@)),
        ..s
    }
}

/// The shell after a command, before any outside work it asks for.
pub open spec fn spec_on_action(s: ShellModel, a: RibbonAction) -> ShellModel {
    match a {
        RibbonAction::NewProject | RibbonAction::CloseProject => spec_new_project(s),
        RibbonAction::Solve => ShellModel { project_status: SimulationStatus::Solving, ..s },
        RibbonAction::SolveAll => if s.edition.spec_allows_solve_all() {
            ShellModel { project_status: SimulationStatus::Solving, ..s }
        } else {
            ShellModel {
                status_text: "Solve All requires Professional edition or higher"@,
                messages: s.messages.push(spec_msg(Severity::Warning, "Solve All is not available in Basic edition."@)),
                ..s
            }
        },
        RibbonAction::ToggleGrid => ShellModel {
            status_text: "Grid: "@ + spec_on_off(spec_is_toggled(s.toggles, "grid"@)),
            ..s
        },
        RibbonAction::ToggleRuler => ShellModel {
            status_text: "Ruler: "@ + spec_on_off(spec_is_toggled(s.toggles, "ruler"@)),
            ..s
        },
        RibbonAction::ToggleCoordSystem => ShellModel {
            status_text: "Coord System: "@ + spec_on_off(spec_is_toggled(s.toggles, "coord_system"@)),
            ..s
        },
        RibbonAction::RenderShaded | RibbonAction::RenderWireframe => ShellModel {
            status_text: spec_action_name(a) + " mode selected"@,
            ..s
        },
        RibbonAction::ToggleProjectManager => ShellModel { show_project_manager: !s.show_project_manager, ..s },
        RibbonAction::ToggleMessageManager => ShellModel { show_message_manager: !s.show_message_manager, ..s },
        RibbonAction::SaveProject | RibbonAction::SaveAs | RibbonAction::OpenProject | RibbonAction::CreateReport => s,
        RibbonAction::DrawCone => ShellModel { draw_dialog: Some(spec_new_cone()), ..s },
        RibbonAction::DrawTorus => ShellModel { draw_dialog: Some(spec_new_torus()), ..s },
        _ => ShellModel {
            status_text: spec_action_name(a) + " (not implemented yet)"@,
            log_text: s.log_text + "\n[action] "@ + spec_action_name(a) + " (stub)"@,
            unsaved_changes: true,
            ..s
        },
    }
}

/// The outside work a command asks for.
pub open spec fn spec_action_effect(s: ShellModel, a: RibbonAction) -> ShellEffect {
    match a {
        RibbonAction::NewProject | RibbonAction::CloseProject => ShellEffect::ResetProject,
        RibbonAction::Solve => ShellEffect::Solve { all: false },
        RibbonAction::SolveAll => if s.edition.spec_allows_solve_all() {
            ShellEffect::Solve { all: true }
        } else {
            ShellEffect::Nothing
        },
        RibbonAction::CreateReport => ShellEffect::CreateReport,
        _ => ShellEffect::Nothing,
    }
}

/// The name of a solve in messages: `Solve` or `Solve All`.
pub open spec fn spec_solve_label(all: bool) -> Seq<char> {
    if all {
        "Solve All"@
    } else {
        "Solve"@
    }
}

/// The shell after a solve finished with `outcome`: a successful one, of
/// either kind, reports `Solve completed`.
pub open spec fn spec_finish_solve(s: ShellModel, all: bool, outcome: Result<SolveResultModel, Seq<char>>) -> ShellModel {
    match outcome {
        Ok(r) => ShellModel {
            project_status: SimulationStatus::Finished,
            last_result: Some(r),
            status_text: "Solve completed"@,
            log_text: s.log_text + (if all {
                "\n[action] solve all"@
            } else {
                "\n[action] solve"@
            }),
            messages: s.messages.push(spec_msg(Severity::Info, spec_solve_label(all) + " completed successfully."@)),
            unsaved_changes: true,
            ..s
        },
        Err(e) => ShellModel {
            project_status: SimulationStatus::Failed,
            status_text: spec_solve_label(all) + " failed: "@ + e,
            messages: s.messages.push(spec_msg(Severity::Error, spec_solve_label(all) + " failed: "@ + e)),
            ..s
        },
    }
}

/// The name of the project file shown in the title: `Untitled` when there
/// is none, and a trailing `*` when there are unsaved changes.
pub open spec fn spec_file_display_name(file_name: Option<Seq<char>>, unsaved: bool) -> Seq<char> {
    let name = match file_name {
        Some(n) => n,
        None => "Untitled"@,
    };
    if unsaved {
        name + "*"@
    } else {
        name
    }
}

impl ShellState {
    /// No ribbon toggle is recorded twice.
    pub open spec fn wf(&self) -> bool {
        spec_keys_unique(self@.toggles)
    }

    /// The edition the application runs as.
    pub fn edition(&self) -> (r: Edition)
        ensures
            r == self@.edition,
    {
        self.edition
    }

    /// Where projects are kept and solved.
    pub fn mode(&self) -> (r: RunMode)
        ensures
            r == self@.mode,
    {
        self.mode
    }

    /// The project's solve state.
    pub fn project_status(&self) -> (r: SimulationStatus)
        ensures
            r == self@.project_status,
    {
        self.project_status
    }

    /// The project's last solve result, if any.
    pub fn last_result(&self) -> (r: Option<&SolveResult>)
        ensures
            match r {
                Some(x) => self@.last_result == Some(x@),
                None => self@.last_result is None,
            },
    {
        match &self.last_result {
            Some(x) => Some(x),
            None => None,
        }
    }

    /// Whether the project has changes not yet saved.
    pub fn unsaved_changes(&self) -> (r: bool)
        ensures
            r == self@.unsaved_changes,
    {
        self.unsaved_changes
    }

    /// The status line.
    pub fn status_text(&self) -> (r: &str)
        ensures
            r@ == self@.status_text,
    {
        self.status_text.as_str()
    }

    /// The log.
    pub fn log_text(&self) -> (r: &str)
        ensures
            r@ == self@.log_text,
    {
        self.log_text.as_str()
    }

    /// The messages, oldest first.
    pub fn messages(&self) -> (r: &Vec<MessageEntry>)
        ensures
            r@.map_values(|m: MessageEntry| m@) == self@.messages,
    {
        &self.messages
    }

    /// The ribbon's state.
    pub fn ribbon_state(&self) -> (r: &RibbonState)
        ensures
            r.toggles@ == self@.toggles,
            r.active_tab == self@.active_tab,
    {
        &self.ribbon_state
    }

    /// Whether the project manager panel is shown.
    pub fn show_project_manager(&self) -> (r: bool)
        ensures
            r == self@.show_project_manager,
    {
        self.show_project_manager
    }

    /// Whether the message manager panel is shown.
    pub fn show_message_manager(&self) -> (r: bool)
        ensures
            r == self@.show_message_manager,
    {
        self.show_message_manager
    }

    /// The draw dialog, if one is open.
    pub fn draw_dialog(&self) -> (r: Option<&DrawDialog>)
        ensures
            match r {
                Some(d) => self@.draw_dialog == Some(d@),
                None => self@.draw_dialog is None,
            },
    {
        match &self.draw_dialog {
            Some(d) => Some(d),
            None => None,
        }
    }

    /// Record the ribbon toggle `key` as on or off; nothing else changes.
    pub fn set_toggle(&mut self, key: &str, on: bool)
        requires
            old(self).wf(),
        ensures
            final(self).wf(),
            forall|k: Seq<char>| #[trigger] spec_toggle_lookup(final(self)@.toggles, k) == (if k == key@ {
                Some(on)
            } else {
                spec_toggle_lookup(old(self)@.toggles, k)
            }),
            final(self)@ == (ShellModel { toggles: final(self)@.toggles, ..old(self)@ }),
    {
        self.ribbon_state.insert(key, on);
    }

    /// Flip the ribbon toggle `key`; nothing else changes.
    pub fn toggle(&mut self, key: &str)
        requires
            old(self).wf(),
        ensures
            final(self).wf(),
            forall|k: Seq<char>| #[trigger] spec_toggle_lookup(final(self)@.toggles, k) == (if k == key@ {
                Some(!spec_is_toggled(old(self)@.toggles, key@))
            } else {
                spec_toggle_lookup(old(self)@.toggles, k)
            }),
            final(self)@ == (ShellModel { toggles: final(self)@.toggles, ..old(self)@ }),
    {
        self.ribbon_state.toggle(key);
    }

    /// Show the ribbon tab `tab`; nothing else changes.
    pub fn set_active_tab(&mut self, tab: usize)
        ensures
            final(self)@ == (ShellModel { active_tab: tab, ..old(self)@ }),
    {
        self.ribbon_state.active_tab = tab;
    }
}

impl ShellState {
    /// The shell as it starts: ready, nothing solved, nothing unsaved, both
    /// panels shown, a start message in the list.
    pub fn new_headless(mode: RunMode, edition: Edition) -> (r: Self)
        ensures
            r.wf(),
            r@.edition == edition,
            r@.mode == mode,
            r@.project_status == SimulationStatus::Idle,
            r@.last_result is None,
            !r@.unsaved_changes,
            r@.status_text == "Ready ("@ + spec_mode_label(mode) + ", "@ + edition.spec_display_name() + ")"@,
            r@.log_text == "[boot] EmStudio shell started (mode="@ + spec_mode_label(mode) + ", edition="@
                + edition.spec_display_name() + ")"@,
            r@.messages == seq![spec_msg(Severity::Info, "EmStudio started."@)],
            r@.toggles.len() == 0,
            r@.active_tab == 0,
            r@.show_project_manager,
            r@.show_message_manager,
            r@.draw_dialog is None,
            r@.design_variables == Map::<Seq<char>, VariableModel>::empty(),
    {
        let label = mode_label(mode);
        let name = edition.display_name();
        let mut status = concat2("Ready (", label);
        status.append(", ");
        status.append(name);
        status.append(")");
        let mut log = concat2("[boot] EmStudio shell started (mode=", label);
        log.append(", edition=");
        log.append(name);
        log.append(")");
        let mut messages: Vec<MessageEntry> = Vec::new();
        messages.push(MessageEntry::info("EmStudio started."));
        let r = ShellState {
            edition,
            mode,
            project_status: SimulationStatus::Idle,
            last_result: None,
            unsaved_changes: false,
            status_text: status,
            log_text: log,
            messages,
            ribbon_state: RibbonState::new(),
            show_project_manager: true,
            show_message_manager: true,
            draw_dialog: None,
            design_variables: DesignVariables::new(),
        };
        assert(r@.messages =~= seq![spec_msg(Severity::Info, "EmStudio started."@)]);
        r
    }

    /// What the title shows for a project file whose path has no file name.
    pub fn unnamed_file_label() -> (r: &'static str)
        ensures
            r@ == "Unknown"@,
    {
        "Unknown"
    }

    /// The project file's name as shown in the title.
    pub fn file_display_name(&self, file_name: Option<&str>) -> (r: String)
        ensures
            r@ == spec_file_display_name(
                match file_name {
                    Some(n) => Some(n@),
                    None => None,
                },
                self@.unsaved_changes,
            ),
    {
        let mut name = match file_name {
            Some(n) => String::from_str(n),
            None => String::from_str("Untitled"),
        };
        if self.unsaved_changes {
            name.append("*");
        }
        name
    }

    fn push_message(&mut self, m: MessageEntry)
        ensures
            final(self)@ == (ShellModel { messages: old(self)@.messages.push(m@), ..old(self)@ }),
            final(self).ribbon_state == old(self).ribbon_state,
    {
        let ghost mv = m@;
        self.messages.push(m);
        assert(self@.messages =~= old(self)@.messages.push(mv));
    }

    fn do_new(&mut self)
        ensures
            final(self)@ == spec_new_project(old(self)@),
            final(self).ribbon_state == old(self).ribbon_state,
    {
        self.project_status = SimulationStatus::Idle;
        self.last_result = None;
        self.unsaved_changes = false;
        self.status_text = String::from_str("New project created");
        self.log_text.append("\n[file] new project");
        self.push_message(MessageEntry::info("New project created."));
    }

    fn toggle_status(&mut self, label: &str, key: &str)
        requires
            old(self).wf(),
        ensures
            final(self)@ == (ShellModel {
                status_text: label@ + spec_on_off(spec_is_toggled(old(self)@.toggles, key@)),
                ..old(self)@
            }),
            final(self).ribbon_state == old(self).ribbon_state,
    {
        let on = self.ribbon_state.is_toggled(key);
        let mut s = String::from_str(label);
        if on {
            s.append("ON");
        } else {
            s.append("OFF");
        }
        self.status_text = s;
    }

    /// Apply a ribbon command and say what outside work it asks for.
    pub fn on_ribbon_action(&mut self, action: RibbonAction) -> (r: ShellEffect)
        requires
            old(self).wf(),
        ensures
            final(self)@ == spec_on_action(old(self)@, action),
            r == spec_action_effect(old(self)@, action),
            final(self).wf(),
    {
        match action {
            RibbonAction::NewProject | RibbonAction::CloseProject => {
                self.do_new();
                ShellEffect::ResetProject
            },
            RibbonAction::Solve => {
                self.project_status = SimulationStatus::Solving;
                ShellEffect::Solve { all: false }
            },
            RibbonAction::SolveAll => {
                if !self.edition.allows_solve_all() {
                    self.status_text = String::from_str("Solve All requires Professional edition or higher");
                    self.push_message(MessageEntry::warning("Solve All is not available in Basic edition."));
                    return ShellEffect::Nothing;
                }
                self.project_status = SimulationStatus::Solving;
                ShellEffect::Solve { all: true }
            },
            RibbonAction::ToggleGrid => {
                self.toggle_status("Grid: ", "grid");
                ShellEffect::Nothing
            },
            RibbonAction::ToggleRuler => {
                self.toggle_status("Ruler: ", "ruler");
                ShellEffect::Nothing
            },
            RibbonAction::ToggleCoordSystem => {
                self.toggle_status("Coord System: ", "coord_system");
                ShellEffect::Nothing
            },
            RibbonAction::RenderShaded | RibbonAction::RenderWireframe => {
                self.status_text = concat2(action_name(action), " mode selected");
                ShellEffect::Nothing
            },
            RibbonAction::ToggleProjectManager => {
                self.show_project_manager = !self.show_project_manager;
                ShellEffect::Nothing
            },
            RibbonAction::ToggleMessageManager => {
                self.show_message_manager = !self.show_message_manager;
                ShellEffect::Nothing
            },
            RibbonAction::SaveProject | RibbonAction::SaveAs | RibbonAction::OpenProject => ShellEffect::Nothing,
            RibbonAction::CreateReport => ShellEffect::CreateReport,
            RibbonAction::DrawCone => {
                self.draw_dialog = Some(DrawDialog::new_cone());
                ShellEffect::Nothing
            },
            RibbonAction::DrawTorus => {
                self.draw_dialog = Some(DrawDialog::new_torus());
                ShellEffect::Nothing
            },
            _ => {
                let name = action_name(action);
                self.status_text = concat2(name, " (not implemented yet)");
                self.log_text.append("\n[action] ");
                self.log_text.append(name);
                self.log_text.append(" (stub)");
                self.unsaved_changes = true;
                ShellEffect::Nothing
            },
        }
    }

    /// Record how a solve asked for by a command ended.
    pub fn finish_solve(&mut self, all: bool, outcome: Result<SolveResult, BackendError>)
        ensures
            final(self)@ == spec_finish_solve(
                old(self)@,
                all,
                match outcome {
                    Ok(r) => Ok(r@),
                    Err(e) => Err(spec_backend_error_message(e)),
                },
            ),
    {
        let label = if all { "Solve All" } else { "Solve" };
        match outcome {
            Ok(result) => {
                self.project_status = SimulationStatus::Finished;
                self.last_result = Some(result);
                self.status_text = String::from_str("Solve completed");
                if all {
                    self.log_text.append("\n[action] solve all");
                } else {
                    self.log_text.append("\n[action] solve");
                }
                let text = concat2(label, " completed successfully.");
                self.push_message(MessageEntry::info(text.as_str()));
                self.unsaved_changes = true;
            },
            Err(e) => {
                self.project_status = SimulationStatus::Failed;
                let mut text = concat2(label, " failed: ");
                let m = e.message();
                text.append(m.as_str());
                self.status_text = text.clone();
                self.push_message(MessageEntry::error(text.as_str()));
            },
        }
    }
}

/// The state of a project as loaded: its solve status and last result.
pub open spec fn spec_loaded(p: (SimulationStatus, Option<SolveResult>)) -> (SimulationStatus, Option<SolveResultModel>) {
    (p.0, match p.1 {
        Some(r) => Some(r@),
        None => None,
    })
}

/// The shell after the project was written to `path` with `outcome`.
pub open spec fn spec_finish_save(s: ShellModel, path: Seq<char>, outcome: Result<(), Seq<char>>) -> ShellModel {
    match outcome {
        Ok(()) => ShellModel {
            unsaved_changes: false,
            status_text: "Saved: "@ + path,
            log_text: s.log_text + "\n[file] saved to "@ + path,
            ..s
        },
        Err(e) => ShellModel {
            status_text: "Save failed: "@ + e,
            messages: s.messages.push(spec_msg(Severity::Error, "Save failed: "@ + e)),
            ..s
        },
    }
}

/// The shell after the project file `path` was read with `outcome` (the
/// loaded project's solve status and result).
pub open spec fn spec_finish_open(
    s: ShellModel,
    path: Seq<char>,
    outcome: Result<(SimulationStatus, Option<SolveResultModel>), Seq<char>>,
) -> ShellModel {
    match outcome {
        Ok(p) => ShellModel {
            project_status: p.0,
            last_result: p.1,
            unsaved_changes: false,
            status_text: "Opened: "@ + path,
            log_text: s.log_text + "\n[file] opened "@ + path,
            ..s
        },
        Err(e) => ShellModel {
            status_text: "Open failed: "@ + e,
            messages: s.messages.push(spec_msg(Severity::Error, "Open failed: "@ + e)),
            log_text: s.log_text + "\n[file] open failed: "@ + e,
            ..s
        },
    }
}

impl ShellState {
    /// Record how writing the project to the file shown as `path` ended.
    pub fn finish_save(&mut self, path: &str, outcome: Result<(), BackendError>)
        ensures
            final(self)@ == spec_finish_save(
                old(self)@,
                path@,
                match outcome {
                    Ok(()) => Ok(()),
                    Err(e) => Err(spec_backend_error_message(e)),
                },
            ),
    {
        match outcome {
            Ok(()) => {
                self.unsaved_changes = false;
                self.status_text = concat2("Saved: ", path);
                self.log_text.append("\n[file] saved to ");
                self.log_text.append(path);
            },
            Err(e) => {
                let m = e.message();
                let text = concat2("Save failed: ", m.as_str());
                self.status_text = text.clone();
                self.push_message(MessageEntry::error(text.as_str()));
            },
        }
    }

    /// Record how reading the project file shown as `path` ended; on
    /// success, `outcome` holds the loaded project's solve status and
    /// result.
    pub fn finish_open(&mut self, path: &str, outcome: Result<(SimulationStatus, Option<SolveResult>), BackendError>)
        ensures
            final(self)@ == spec_finish_open(
                old(self)@,
                path@,
                match outcome {
                    Ok(p) => Ok(spec_loaded(p)),
                    Err(e) => Err(spec_backend_error_message(e)),
                },
            ),
    {
        match outcome {
            Ok(p) => {
                self.project_status = p.0;
                self.last_result = p.1;
                self.unsaved_changes = false;
                self.status_text = concat2("Opened: ", path);
                self.log_text.append("\n[file] opened ");
                self.log_text.append(path);
            },
            Err(e) => {
                let m = e.message();
                let text = concat2("Open failed: ", m.as_str());
                self.status_text = text.clone();
                self.push_message(MessageEntry::error(text.as_str()));
                self.log_text.append("\n[file] open failed: ");
                self.log_text.append(m.as_str());
            },
        }
    }
}

/// The shell after the backend stored the project with `outcome`.
pub open spec fn spec_finish_backend_save(s: ShellModel, outcome: Result<(), Seq<char>>) -> ShellModel {
    match outcome {
        Ok(()) => ShellModel {
            unsaved_changes: false,
            status_text: "Saved to OPFS"@,
            log_text: s.log_text + "\n[file] saved to OPFS"@,
            ..s
        },
        Err(e) => ShellModel {
            status_text: "Save failed: "@ + e,
            messages: s.messages.push(spec_msg(Severity::Error, "Save failed: "@ + e)),
            ..s
        },
    }
}

/// The shell after the backend answered a request for project `id`; a
/// refusal means the project is still on its way.
pub open spec fn spec_finish_backend_load(
    s: ShellModel,
    id: Seq<char>,
    outcome: Result<(SimulationStatus, Option<SolveResultModel>), Seq<char>>,
) -> ShellModel {
    match outcome {
        Ok(p) => ShellModel {
            project_status: p.0,
            last_result: p.1,
            unsaved_changes: false,
            status_text: "Opened project: "@ + id,
            log_text: s.log_text + "\n[file] opened project "@ + id,
            ..s
        },
        Err(_) => ShellModel { status_text: "Loading project: "@ + id + "..."@, ..s },
    }
}

impl ShellState {
    /// Record how storing the project through the backend ended.
    pub fn finish_backend_save(&mut self, outcome: Result<(), BackendError>)
        ensures
            final(self)@ == spec_finish_backend_save(
                old(self)@,
                match outcome {
                    Ok(()) => Ok(()),
                    Err(e) => Err(spec_backend_error_message(e)),
                },
            ),
    {
        match outcome {
            Ok(()) => {
                self.unsaved_changes = false;
                self.status_text = String::from_str("Saved to OPFS");
                self.log_text.append("\n[file] saved to OPFS");
            },
            Err(e) => {
                let m = e.message();
                let text = concat2("Save failed: ", m.as_str());
                self.status_text = text.clone();
                self.push_message(MessageEntry::error(text.as_str()));
            },
        }
    }

    /// Record the backend's answer to a request for project `id`; on
    /// success, `outcome` holds the project's solve status and result.
    pub fn finish_backend_load(&mut self, id: &str, outcome: Result<(SimulationStatus, Option<SolveResult>), BackendError>)
        ensures
            final(self)@ == spec_finish_backend_load(
                old(self)@,
                id@,
                match outcome {
                    Ok(p) => Ok(spec_loaded(p)),
                    Err(e) => Err(spec_backend_error_message(e)),
                },
            ),
    {
        match outcome {
            Ok(p) => {
                self.project_status = p.0;
                self.last_result = p.1;
                self.unsaved_changes = false;
                self.status_text = concat2("Opened project: ", id);
                self.log_text.append("\n[file] opened project ");
                self.log_text.append(id);
            },
            Err(_) => {
                let mut text = concat2("Loading project: ", id);
                text.append("...");
                self.status_text = text;
            },
        }
    }
}

/// The shell after a solve that ran in the background delivered `r`: the
/// project finished if the solve converged and failed if not, the result
/// kept, and the project marked changed.
pub open spec fn spec_finish_async_solve(s: ShellModel, r: SolveResultModel) -> ShellModel {
    ShellModel {
        project_status: if r.converged {
            SimulationStatus::Finished
        } else {
            SimulationStatus::Failed
        },
        last_result: Some(r),
        unsaved_changes: true,
        status_text: "Solve completed"@,
        log_text: s.log_text + "\n[solver] async solve completed"@,
        messages: s.messages.push(spec_msg(Severity::Info, "Solve completed (async)."@)),
        ..s
    }
}

/// The shell after the project `id`, requested in the background, arrived
/// with solve state `p`: nothing is unsaved.
pub open spec fn spec_finish_async_load(
    s: ShellModel,
    id: Seq<char>,
    p: (SimulationStatus, Option<SolveResultModel>),
) -> ShellModel {
    ShellModel {
        project_status: p.0,
        last_result: p.1,
        unsaved_changes: false,
        status_text: "Opened project: "@ + id,
        log_text: s.log_text + "\n[file] opened project "@ + id + " (async)"@,
        messages: s.messages.push(spec_msg(Severity::Info, "Project loaded: "@ + id)),
        ..s
    }
}

impl ShellState {
    /// Record the result of a solve that ran in the background.
    pub fn finish_async_solve(&mut self, result: SolveResult)
        ensures
            final(self)@ == spec_finish_async_solve(old(self)@, result@),
    {
        self.project_status = if result.converged {
            SimulationStatus::Finished
        } else {
            SimulationStatus::Failed
        };
        self.last_result = Some(result);
        self.unsaved_changes = true;
        self.status_text = String::from_str("Solve completed");
        self.log_text.append("\n[solver] async solve completed");
        self.push_message(MessageEntry::info("Solve completed (async)."));
    }

    /// Record that the project `id`, requested in the background, arrived;
    /// `loaded` holds its solve status and result.
    pub fn finish_async_load(&mut self, id: &str, loaded: (SimulationStatus, Option<SolveResult>))
        ensures
            final(self)@ == spec_finish_async_load(old(self)@, id@, spec_loaded(loaded)),
    {
        self.project_status = loaded.0;
        self.last_result = loaded.1;
        self.unsaved_changes = false;
        self.status_text = concat2("Opened project: ", id);
        self.log_text.append("\n[file] opened project ");
        self.log_text.append(id);
        self.log_text.append(" (async)");
        let text = concat2("Project loaded: ", id);
        self.push_message(MessageEntry::info(text.as_str()));
    }
}

/// The shell after the draw dialog's operation ran with `outcome`: the
/// name of the object it made (none for an operation that makes none), or
/// the text of the error. The dialog closes either way.
pub open spec fn spec_finish_draw(s: ShellModel, outcome: Result<Option<Seq<char>>, Seq<char>>) -> ShellModel {
    match outcome {
        Ok(Some(name)) => ShellModel {
            unsaved_changes: true,
            status_text: "Created: "@ + name,
            messages: s.messages.push(spec_msg(Severity::Info, "Created object '"@ + name + "'"@)),
            draw_dialog: None,
            ..s
        },
        Ok(None) => ShellModel { draw_dialog: None, ..s },
        Err(e) => ShellModel {
            status_text: "Create failed: "@ + e,
            messages: s.messages.push(spec_msg(Severity::Error, "Create failed: "@ + e)),
            draw_dialog: None,
            ..s
        },
    }
}

impl ShellState {
    /// The design's variables.
    pub fn design_variables(&self) -> (r: &DesignVariables)
        ensures
            r.var_map() == self@.design_variables,
    {
        &self.design_variables
    }

    /// Add a design variable (`var<n+1>`, set to `0`) and mark the project
    /// changed; returns the variable's name.
    pub fn add_design_variable(&mut self) -> (r: String)
        requires
            old(self)@.design_variables.dom().len() < usize::MAX,
        ensures
            r@ == spec_new_variable_name(old(self)@.design_variables.dom().len()),
            final(self)@ == (ShellModel {
                design_variables: old(self)@.design_variables.insert(r@, spec_new_variable()),
                unsaved_changes: true,
                ..old(self)@
            }),
    {
        let name = self.design_variables.add_variable();
        self.unsaved_changes = true;
        name
    }

    /// Set the constant of the design variable `name` to `value` and mark
    /// the project changed; a name of no variable changes nothing. Returns
    /// whether there was such a variable.
    pub fn edit_design_variable(&mut self, name: &str, value: &str) -> (r: bool)
        ensures
            r == old(self)@.design_variables.contains_key(name@),
            r ==> final(self)@ == (ShellModel {
                design_variables: old(self)@.design_variables.insert(
                    name@,
                    spec_with_value(old(self)@.design_variables[name@], value@),
                ),
                unsaved_changes: true,
                ..old(self)@
            }),
            !r ==> final(self)@ == old(self)@,
    {
        if self.design_variables.set_value(name, value) {
            self.unsaved_changes = true;
            true
        } else {
            false
        }
    }

    /// Record how the draw dialog's operation ran: the object it made, if
    /// any, or the engine's error.
    pub fn finish_draw(&mut self, outcome: Result<Option<String>, GeometryError>)
        ensures
            final(self)@ == spec_finish_draw(
                old(self)@,
                match outcome {
                    Ok(Some(n)) => Ok(Some(n@)),
                    Ok(None) => Ok(None),
                    Err(e) => Err(spec_geometry_message(e)),
                },
            ),
    {
        match outcome {
            Ok(Some(name)) => {
                self.unsaved_changes = true;
                self.status_text = concat2("Created: ", name.as_str());
                let mut text = concat2("Created object '", name.as_str());
                text.append("'");
                self.push_message(MessageEntry::info(text.as_str()));
            },
            Ok(None) => {},
            Err(e) => {
                let m = e.message();
                let text = concat2("Create failed: ", m.as_str());
                self.status_text = text.clone();
                self.push_message(MessageEntry::error(text.as_str()));
            },
        }
        self.draw_dialog = None;
    }
}

/// After the project was written or read successfully, nothing is unsaved.
pub proof fn lemma_saved_or_opened_is_clean(
    s: ShellModel,
    path: Seq<char>,
    p: (SimulationStatus, Option<SolveResultModel>),
)
    ensures
        !spec_finish_save(s, path, Ok(())).unsaved_changes,
        !spec_finish_open(s, path, Ok(p)).unsaved_changes,
{
}

/// The name of the next default report when `existing` reports are open:
/// `S Parameter Plot <existing + 1>`.
pub fn default_report_name(existing: usize) -> (r: String)
    requires
        existing < usize::MAX,
    ensures
        r@ == "S Parameter Plot "@ + spec_decimal(existing as nat + 1),
{
    let n = to_decimal((existing + 1) as u128);
    concat2("S Parameter Plot ", n.as_str())
}

impl ShellState {
    /// Record that the report `name` was opened.
    pub fn report_created(&mut self, name: &str)
        ensures
            final(self)@ == (ShellModel {
                status_text: "Created report: "@ + name@,
                log_text: old(self)@.log_text + "\n[report] created: "@ + name@,
                messages: old(self)@.messages.push(spec_msg(Severity::Info, "Report '"@ + name@ + "' created"@)),
                ..old(self)@
            }),
    {
        self.status_text = concat2("Created report: ", name);
        self.log_text.append("\n[report] created: ");
        self.log_text.append(name);
        let mut text = concat2("Report '", name);
        text.append("' created");
        self.push_message(MessageEntry::info(text.as_str()));
    }

    /// Report, in local-first mode, that the default project is being
    /// loaded from the web backend.
    pub fn loading_default_project(&mut self)
        ensures
            final(self)@ == (ShellModel { status_text: "Loading default web project..."@, ..old(self)@ }),
    {
        self.status_text = String::from_str("Loading default web project...");
    }
}

/// Commands that only change the view (toggles, render modes, panels, the
/// draw dialog, file dialogs, reports) and a refused Solve All leave the
/// unsaved-changes flag as it was.
pub proof fn lemma_view_commands_keep_unsaved_flag(s: ShellModel, a: RibbonAction)
    requires
        !spec_is_stub(a),
        !(a is NewProject || a is CloseProject),
    ensures
        spec_on_action(s, a).unsaved_changes == s.unsaved_changes,
{
}

/// A command without behaviour of its own marks the project changed and
/// says it is not implemented yet.
pub proof fn lemma_stub_commands_mark_unsaved(s: ShellModel, a: RibbonAction)
    requires
        spec_is_stub(a),
    ensures
        spec_on_action(s, a).unsaved_changes,
        spec_on_action(s, a).status_text == spec_action_name(a) + " (not implemented yet)"@,
        spec_action_effect(s, a) == ShellEffect::Nothing,
{
}

/// A new project (or closing the current one) starts clean: idle, with no
/// result and nothing unsaved, and asks for the project to be reset.
pub proof fn lemma_new_project_is_clean(s: ShellModel, a: RibbonAction)
    requires
        a is NewProject || a is CloseProject,
    ensures
        spec_on_action(s, a).project_status == SimulationStatus::Idle,
        spec_on_action(s, a).last_result is None,
        !spec_on_action(s, a).unsaved_changes,
        spec_action_effect(s, a) == ShellEffect::ResetProject,
{
}

/// A successful solve, Solve or Solve All, leaves the project finished with
/// its result, reports `Solve completed`, and marks the project changed.
pub proof fn lemma_successful_solve(s: ShellModel, a: RibbonAction, r: SolveResultModel)
    requires
        spec_action_effect(s, a) matches ShellEffect::Solve { all },
    ensures
        spec_on_action(s, a).project_status == SimulationStatus::Solving,
        ({
            let all = spec_action_effect(s, a)->all;
            let after = spec_finish_solve(spec_on_action(s, a), all, Ok(r));
            &&& after.project_status == SimulationStatus::Finished
            &&& after.last_result == Some(r)
            &&& after.status_text == "Solve completed"@
            &&& after.unsaved_changes
        }),
{
}

/// A failed solve leaves the project failed and its result and
/// unsaved-changes flag as they were.
pub proof fn lemma_failed_solve(s: ShellModel, all: bool, e: Seq<char>)
    ensures
        spec_finish_solve(s, all, Err(e)).project_status == SimulationStatus::Failed,
        spec_finish_solve(s, all, Err(e)).last_result == s.last_result,
        spec_finish_solve(s, all, Err(e)).unsaved_changes == s.unsaved_changes,
{
}

/// The Basic edition refuses Solve All: no solve is asked for and the
/// project's solve state is unchanged.
pub proof fn lemma_basic_refuses_solve_all(s: ShellModel)
    requires
        s.edition == Edition::Basic,
    ensures
        spec_action_effect(s, RibbonAction::SolveAll) == ShellEffect::Nothing,
        spec_on_action(s, RibbonAction::SolveAll).project_status == s.project_status,
{
}

} // verus!
