//! The ribbon's actions and toggle state.
use vstd::prelude::*;
use vstd::string::*;

use crate::text::str_eq;

verus! {

/// What a ribbon command asks for.
#[derive(Debug, Clone, Copy, PartialEq, Eq, Structural)]
pub enum RibbonAction {
    // Desktop
    NewProject,
    OpenProject,
    SaveProject,
    SaveAs,
    CloseProject,
    ImportStep,
    ImportSat,
    ImportHfssAedt,
    ImportQ3dAedt,
    ExportStep,
    ExportSat,
    ExportHfssPyAedt,
    ExportQ3dPyAedt,
    // View
    ToggleGrid,
    ToggleRuler,
    ToggleCoordSystem,
    RenderShaded,
    RenderWireframe,
    FitAll,
    ZoomIn,
    ZoomOut,
    // Simulation
    Validate,
    AddSetup,
    AddSweep,
    Solve,
    SolveAll,
    Abort,
    // Draw
    DrawBox,
    DrawCylinder,
    DrawSphere,
    DrawCone,
    DrawTorus,
    DrawRectangle,
    DrawEllipse,
    DrawCircle,
    DrawPolygon,
    DrawPolyline,
    DrawArc,
    DrawSpline,
    SetPlane,
    SetUnits,
    AssignMaterial,
    // Model
    BoolUnite,
    BoolSubtract,
    BoolIntersect,
    BoolSplit,
    GroupObjects,
    UngroupObjects,
    AssignColor,
    SetTransparency,
    // Results
    CreateReport,
    SolutionData,
    PlotFields,
    PlotEField,
    PlotHField,
    PlotSAR,
    Animate,
    // Layout
    ToggleProjectManager,
    ToggleMessageManager,
}

/// The name of an action, as `{:?}` writes it.
pub open spec fn spec_action_name(a: RibbonAction) -> Seq<char> {
    match a {
        RibbonAction::NewProject => "NewProject"@,
        RibbonAction::OpenProject => "OpenProject"@,
        RibbonAction::SaveProject => "SaveProject"@,
        RibbonAction::SaveAs => "SaveAs"@,
        RibbonAction::CloseProject => "CloseProject"@,
        RibbonAction::ImportStep => "ImportStep"@,
        RibbonAction::ImportSat => "ImportSat"@,
        RibbonAction::ImportHfssAedt => "ImportHfssAedt"@,
        RibbonAction::ImportQ3dAedt => "ImportQ3dAedt"@,
        RibbonAction::ExportStep => "ExportStep"@,
        RibbonAction::ExportSat => "ExportSat"@,
        RibbonAction::ExportHfssPyAedt => "ExportHfssPyAedt"@,
        RibbonAction::ExportQ3dPyAedt => "ExportQ3dPyAedt"@,
        RibbonAction::ToggleGrid => "ToggleGrid"@,
        RibbonAction::ToggleRuler => "ToggleRuler"@,
        RibbonAction::ToggleCoordSystem => "ToggleCoordSystem"@,
        RibbonAction::RenderShaded => "RenderShaded"@,
        RibbonAction::RenderWireframe => "RenderWireframe"@,
        RibbonAction::FitAll => "FitAll"@,
        RibbonAction::ZoomIn => "ZoomIn"@,
        RibbonAction::ZoomOut => "ZoomOut"@,
        RibbonAction::Validate => "Validate"@,
        RibbonAction::AddSetup => "AddSetup"@,
        RibbonAction::AddSweep => "AddSweep"@,
        RibbonAction::Solve => "Solve"@,
        RibbonAction::SolveAll => "SolveAll"@,
        RibbonAction::Abort => "Abort"@,
        RibbonAction::DrawBox => "DrawBox"@,
        RibbonAction::DrawCylinder => "DrawCylinder"@,
        RibbonAction::DrawSphere => "DrawSphere"@,
        RibbonAction::DrawCone => "DrawCone"@,
        RibbonAction::DrawTorus => "DrawTorus"@,
        RibbonAction::DrawRectangle => "DrawRectangle"@,
        RibbonAction::DrawEllipse => "DrawEllipse"@,
        RibbonAction::DrawCircle => "DrawCircle"@,
        RibbonAction::DrawPolygon => "DrawPolygon"@,
        RibbonAction::DrawPolyline => "DrawPolyline"@,
        RibbonAction::DrawArc => "DrawArc"@,
        RibbonAction::DrawSpline => "DrawSpline"@,
        RibbonAction::SetPlane => "SetPlane"@,
        RibbonAction::SetUnits => "SetUnits"@,
        RibbonAction::AssignMaterial => "AssignMaterial"@,
        RibbonAction::BoolUnite => "BoolUnite"@,
        RibbonAction::BoolSubtract => "BoolSubtract"@,
        RibbonAction::BoolIntersect => "BoolIntersect"@,
        RibbonAction::BoolSplit => "BoolSplit"@,
        RibbonAction::GroupObjects => "GroupObjects"@,
        RibbonAction::UngroupObjects => "UngroupObjects"@,
        RibbonAction::AssignColor => "AssignColor"@,
        RibbonAction::SetTransparency => "SetTransparency"@,
        RibbonAction::CreateReport => "CreateReport"@,
        RibbonAction::SolutionData => "SolutionData"@,
        RibbonAction::PlotFields => "PlotFields"@,
        RibbonAction::PlotEField => "PlotEField"@,
        RibbonAction::PlotHField => "PlotHField"@,
        RibbonAction::PlotSAR => "PlotSAR"@,
        RibbonAction::Animate => "Animate"@,
        RibbonAction::ToggleProjectManager => "ToggleProjectManager"@,
        RibbonAction::ToggleMessageManager => "ToggleMessageManager"@,
    }
}

/// The name of an action, as `{:?}` writes it.
pub fn action_name(a: RibbonAction) -> (r: &'static str)
    ensures
        r@ == spec_action_name(a),
{
    match a {
        RibbonAction::NewProject => "NewProject",
        RibbonAction::OpenProject => "OpenProject",
        RibbonAction::SaveProject => "SaveProject",
        RibbonAction::SaveAs => "SaveAs",
        RibbonAction::CloseProject => "CloseProject",
        RibbonAction::ImportStep => "ImportStep",
        RibbonAction::ImportSat => "ImportSat",
        RibbonAction::ImportHfssAedt => "ImportHfssAedt",
        RibbonAction::ImportQ3dAedt => "ImportQ3dAedt",
        RibbonAction::ExportStep => "ExportStep",
        RibbonAction::ExportSat => "ExportSat",
        RibbonAction::ExportHfssPyAedt => "ExportHfssPyAedt",
        RibbonAction::ExportQ3dPyAedt => "ExportQ3dPyAedt",
        RibbonAction::ToggleGrid => "ToggleGrid",
        RibbonAction::ToggleRuler => "ToggleRuler",
        RibbonAction::ToggleCoordSystem => "ToggleCoordSystem",
        RibbonAction::RenderShaded => "RenderShaded",
        RibbonAction::RenderWireframe => "RenderWireframe",
        RibbonAction::FitAll => "FitAll",
        RibbonAction::ZoomIn => "ZoomIn",
        RibbonAction::ZoomOut => "ZoomOut",
        RibbonAction::Validate => "Validate",
        RibbonAction::AddSetup => "AddSetup",
        RibbonAction::AddSweep => "AddSweep",
        RibbonAction::Solve => "Solve",
        RibbonAction::SolveAll => "SolveAll",
        RibbonAction::Abort => "Abort",
        RibbonAction::DrawBox => "DrawBox",
        RibbonAction::DrawCylinder => "DrawCylinder",
        RibbonAction::DrawSphere => "DrawSphere",
        RibbonAction::DrawCone => "DrawCone",
        RibbonAction::DrawTorus => "DrawTorus",
        RibbonAction::DrawRectangle => "DrawRectangle",
        RibbonAction::DrawEllipse => "DrawEllipse",
        RibbonAction::DrawCircle => "DrawCircle",
        RibbonAction::DrawPolygon => "DrawPolygon",
        RibbonAction::DrawPolyline => "DrawPolyline",
        RibbonAction::DrawArc => "DrawArc",
        RibbonAction::DrawSpline => "DrawSpline",
        RibbonAction::SetPlane => "SetPlane",
        RibbonAction::SetUnits => "SetUnits",
        RibbonAction::AssignMaterial => "AssignMaterial",
        RibbonAction::BoolUnite => "BoolUnite",
        RibbonAction::BoolSubtract => "BoolSubtract",
        RibbonAction::BoolIntersect => "BoolIntersect",
        RibbonAction::BoolSplit => "BoolSplit",
        RibbonAction::GroupObjects => "GroupObjects",
        RibbonAction::UngroupObjects => "UngroupObjects",
        RibbonAction::AssignColor => "AssignColor",
        RibbonAction::SetTransparency => "SetTransparency",
        RibbonAction::CreateReport => "CreateReport",
        RibbonAction::SolutionData => "SolutionData",
        RibbonAction::PlotFields => "PlotFields",
        RibbonAction::PlotEField => "PlotEField",
        RibbonAction::PlotHField => "PlotHField",
        RibbonAction::PlotSAR => "PlotSAR",
        RibbonAction::Animate => "Animate",
        RibbonAction::ToggleProjectManager => "ToggleProjectManager",
        RibbonAction::ToggleMessageManager => "ToggleMessageManager",
    }
}

/// The on/off state of the ribbon's toggle buttons, by key, and the
/// active tab. Each key is listed at most once.
pub struct RibbonState {
    pub active_tab: usize,
    pub toggles: Vec<(String, bool)>,
}

/// The value recorded for `key`, if any.
pub open spec fn spec_toggle_lookup(v: Seq<(String, bool)>, key: Seq<char>) -> Option<bool>
    decreases v.len(),
{
    if v.len() == 0 {
        None
    } else if v.last().0@ == key {
        Some(v.last().1)
    } else {
        spec_toggle_lookup(v.drop_last(), key)
    }
}

/// No key is listed twice.
pub open spec fn spec_keys_unique(v: Seq<(String, bool)>) -> bool {
    forall|i: int, j: int| 0 <= i < j < v.len() ==> v[i].0@ != v[j].0@
}

/// Whether the toggle `key` is on; a key never set is off.
pub open spec fn spec_is_toggled(v: Seq<(String, bool)>, key: Seq<char>) -> bool {
    match spec_toggle_lookup(v, key) {
        Some(b) => b,
        None => false,
    }
}

proof fn lemma_lookup_found(v: Seq<(String, bool)>, key: Seq<char>, i: int)
    requires
        spec_keys_unique(v),
        0 <= i < v.len(),
        v[i].0@ == key,
    ensures
        spec_toggle_lookup(v, key) == Some(v[i].1),
    decreases v.len(),
{
    if i < v.len() - 1 {
        lemma_lookup_found(v.drop_last(), key, i);
    }
}

proof fn lemma_lookup_absent(v: Seq<(String, bool)>, key: Seq<char>)
    requires
        forall|i: int| 0 <= i < v.len() ==> v[i].0@ != key,
    ensures
        spec_toggle_lookup(v, key) is None,
    decreases v.len(),
{
    if v.len() > 0 {
        lemma_lookup_absent(v.drop_last(), key);
    }
}

proof fn lemma_lookup_update(v: Seq<(String, bool)>, i: int, nv: (String, bool), key: Seq<char>)
    requires
        spec_keys_unique(v),
        0 <= i < v.len(),
        nv.0@ == v[i].0@,
    ensures
        spec_toggle_lookup(v.update(i, nv), key) == (if key == v[i].0@ {
            Some(nv.1)
        } else {
            spec_toggle_lookup(v, key)
        }),
    decreases v.len(),
{
    let w = v.update(i, nv);
    if i < v.len() - 1 {
        assert(w.drop_last() =~= v.drop_last().update(i, nv));
        lemma_lookup_update(v.drop_last(), i, nv, key);
    } else {
        assert(w.drop_last() =~= v.drop_last());
        if key == v[i].0@ {
        } else {
        }
    }
}

impl RibbonState {
    /// No toggle key is listed twice.
    pub open spec fn wf(&self) -> bool {
        spec_keys_unique(self.toggles@)
    }

    /// The first tab, no toggle set.
    pub fn new() -> (r: Self)
        ensures
            r.wf(),
            r.active_tab == 0,
            r.toggles@.len() == 0,
    {
        RibbonState { active_tab: 0, toggles: Vec::new() }
    }

    /// Where `key` is listed.
    fn position(&self, key: &str) -> (r: Option<usize>)
        requires
            self.wf(),
        ensures
            match r {
                Some(i) => i < self.toggles@.len() && self.toggles@[i as int].0@ == key@,
                None => forall|i: int| 0 <= i < self.toggles@.len() ==> self.toggles@[i].0@ != key@,
            },
    {
        let mut i: usize = 0;
        while i < self.toggles.len()
            invariant
                i <= self.toggles@.len(),
                forall|k: int| 0 <= k < i ==> self.toggles@[k].0@ != key@,
            decreases self.toggles@.len() - i,
        {
            if str_eq(self.toggles[i].0.as_str(), key) {
                return Some(i);
            }
            i = i + 1;
        }
        None
    }

    /// Whether the toggle `key` is on; a key never set is off.
    pub fn is_toggled(&self, key: &str) -> (r: bool)
        requires
            self.wf(),
        ensures
            r == spec_is_toggled(self.toggles@, key@),
    {
        match self.position(key) {
            Some(i) => {
                proof {
                    lemma_lookup_found(self.toggles@, key@, i as int);
                }
                self.toggles[i].1
            },
            None => {
                proof {
                    lemma_lookup_absent(self.toggles@, key@);
                }
                false
            },
        }
    }

    /// Set the toggle `key` to `value`.
    pub fn insert(&mut self, key: &str, value: bool)
        requires
            old(self).wf(),
        ensures
            final(self).wf(),
            final(self).active_tab == old(self).active_tab,
            forall|k: Seq<char>| #[trigger] spec_toggle_lookup(final(self).toggles@, k) == (if k == key@ {
                Some(value)
            } else {
                spec_toggle_lookup(old(self).toggles@, k)
            }),
    {
        let ghost before = self.toggles@;
        match self.position(key) {
            Some(i) => {
                let nv = (String::from_str(key), value);
                proof {
                    assert forall|k: Seq<char>| #[trigger] spec_toggle_lookup(before.update(i as int, nv), k) == (if k == key@ {
                        Some(value)
                    } else {
                        spec_toggle_lookup(before, k)
                    }) by {
                        lemma_lookup_update(before, i as int, nv, k);
                    }
                }
                self.toggles.set(i, nv);
                assert(self.toggles@ =~= before.update(i as int, nv));
            },
            None => {
                let nv = (String::from_str(key), value);
                self.toggles.push(nv);
                assert(self.toggles@.drop_last() =~= before);
            },
        }
    }

    /// Flip the toggle `key`; a key never set becomes on.
    pub fn toggle(&mut self, key: &str)
        requires
            old(self).wf(),
        ensures
            final(self).wf(),
            final(self).active_tab == old(self).active_tab,
            forall|k: Seq<char>| #[trigger] spec_toggle_lookup(final(self).toggles@, k) == (if k == key@ {
                Some(!spec_is_toggled(old(self).toggles@, key@))
            } else {
                spec_toggle_lookup(old(self).toggles@, k)
            }),
    {
        let on = self.is_toggled(key);
        self.insert(key, !on);
    }
}

/// Flipping a toggle twice leaves every toggle reading as before.
pub proof fn lemma_toggle_twice(v0: Seq<(String, bool)>, v1: Seq<(String, bool)>, v2: Seq<(String, bool)>, key: Seq<char>)
    requires
        forall|k: Seq<char>| #[trigger] spec_toggle_lookup(v1, k) == (if k == key {
            Some(!spec_is_toggled(v0, key))
        } else {
            spec_toggle_lookup(v0, k)
        }),
        forall|k: Seq<char>| #[trigger] spec_toggle_lookup(v2, k) == (if k == key {
            Some(!spec_is_toggled(v1, key))
        } else {
            spec_toggle_lookup(v1, k)
        }),
    ensures
        forall|k: Seq<char>| spec_is_toggled(v2, k) == spec_is_toggled(v0, k),
{
    assert forall|k: Seq<char>| spec_is_toggled(v2, k) == spec_is_toggled(v0, k) by {
        assert(spec_toggle_lookup(v1, key) == Some(!spec_is_toggled(v0, key)));
        assert(spec_toggle_lookup(v2, k) == spec_toggle_lookup(v2, k));
        assert(spec_toggle_lookup(v1, k) == spec_toggle_lookup(v1, k));
    }
}

} // verus!
