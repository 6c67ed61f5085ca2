//! The list of optimetrics setups that the user edits: adding a setup of a
//! chosen kind under a typed name, deleting the selected one, and the line
//! that lists each.
use vstd::prelude::*;
use vstd::string::*;

use crate::design::concat2;
use crate::optimetrics::{OptimetricsSetup, OptimetricsType};
use crate::panels::spec_selection_after_removal;
use crate::text::{spec_decimal, to_decimal};

verus! {

/// The setups being edited, which of them is selected, the kind of setup
/// the next one added will be, and the name typed for it.
pub struct OptimetricsPanel<S> {
    pub setups: Vec<S>,
    pub selected_idx: Option<usize>,
    pub add_type: OptimetricsType,
    pub new_name: String,
}

/// The name offered for the next setup once there are `count` setups.
pub open spec fn spec_next_setup_name(count: nat) -> Seq<char> {
    "Setup"@ + spec_decimal(count + 1)
}

/// The short name of a kind of setup in the list.
pub open spec fn spec_setup_kind_label(t: OptimetricsType) -> Seq<char> {
    match t {
        OptimetricsType::ParametricSweep => "Sweep"@,
        OptimetricsType::Optimization => "Optimize"@,
        OptimetricsType::Sensitivity => "Sensitivity"@,
        OptimetricsType::Statistical => "Statistical"@,
        OptimetricsType::Tuning => "Tuning"@,
    }
}

/// The line listing a setup: `[x] name (kind)` when it is enabled, with a
/// blank in place of the `x` when it is not.
pub open spec fn spec_setup_line(name: Seq<char>, kind: OptimetricsType, enabled: bool) -> Seq<char> {
    "["@ + (if enabled {
        "x"@
    } else {
        " "@
    }) + "] "@ + name + " ("@ + spec_setup_kind_label(kind) + ")"@
}

impl OptimetricsType {
    /// The short name of this kind of setup in the list of setups.
    pub fn kind_label(&self) -> (r: &'static str)
        ensures
            r@ == spec_setup_kind_label(*self),
    {
        match self {
            OptimetricsType::ParametricSweep => "Sweep",
            OptimetricsType::Optimization => "Optimize",
            OptimetricsType::Sensitivity => "Sensitivity",
            OptimetricsType::Statistical => "Statistical",
            OptimetricsType::Tuning => "Tuning",
        }
    }
}

/// The line listing a setup of the given name and kind.
pub fn setup_line(name: &str, kind: OptimetricsType, enabled: bool) -> (r: String)
    ensures
        r@ == spec_setup_line(name@, kind, enabled),
{
    let mark = if enabled {
        "[x] "
    } else {
        "[ ] "
    };
    proof {
        reveal_strlit("[x] ");
        reveal_strlit("[ ] ");
        reveal_strlit("[");
        reveal_strlit("x");
        reveal_strlit(" ");
        reveal_strlit("] ");
    }
    let mut s = String::from_str(mark);
    s.append(name);
    s.append(" (");
    s.append(kind.kind_label());
    s.append(")");
    proof {
        let head = "["@ + (if enabled {
            "x"@
        } else {
            " "@
        }) + "] "@;
        assert(mark@ =~= head);
    }
    s
}

/// The line listing `setup`: its state, name and kind.
pub fn setup_info_line<D, G, J>(setup: &OptimetricsSetup<D, G, J>) -> (r: String)
    ensures
        r@ == spec_setup_line(setup.spec_name(), setup.spec_kind(), setup.spec_enabled()),
{
    setup_line(setup.name(), setup.kind(), setup.enabled())
}

impl<S> OptimetricsPanel<S> {
    /// A panel over the given setups, none selected, offering a parametric
    /// sweep named `NewSetup`.
    pub fn new(setups: Vec<S>) -> (r: Self)
        ensures
            r.setups@ == setups@,
            r.selected_idx is None,
            r.add_type == OptimetricsType::ParametricSweep,
            r.new_name@ == "NewSetup"@,
    {
        OptimetricsPanel {
            setups,
            selected_idx: None,
            add_type: OptimetricsType::ParametricSweep,
            new_name: String::from_str("NewSetup"),
        }
    }

    /// Add a setup (the `Add` button), which the panel takes only while a
    /// name is typed: the setup goes last and is selected, and the name
    /// offered next is numbered after the setups. Returns whether it was
    /// added.
    pub fn add_setup(&mut self, setup: S) -> (r: bool)
        requires
            old(self).setups@.len() + 1 < usize::MAX,
        ensures
            r == (old(self).new_name@.len() > 0),
            r ==> final(self).setups@ == old(self).setups@.push(setup) && final(self).selected_idx
                == Some(old(self).setups@.len() as usize) && final(self).new_name@
                == spec_next_setup_name(old(self).setups@.len() + 1),
            !r ==> final(self).setups@ == old(self).setups@ && final(self).selected_idx
                == old(self).selected_idx && final(self).new_name@ == old(self).new_name@,
            final(self).add_type == old(self).add_type,
    {
        if self.new_name.as_str().unicode_len() == 0 {
            return false;
        }
        let count = self.setups.len();
        self.setups.push(setup);
        self.selected_idx = Some(count);
        let digits = to_decimal((count as u128) + 2);
        self.new_name = concat2("Setup", digits.as_str());
        proof {
            reveal_strlit("Setup");
        }
        true
    }

    /// Delete the selected setup (the `Delete Selected` button), which
    /// exists only while the selection names a setup; the selection then
    /// stays in place, moving to the last setup if it was past it. Returns
    /// whether a setup was deleted.
    pub fn delete_selected(&mut self) -> (r: bool)
        ensures
            r == (old(self).selected_idx matches Some(i) && i < old(self).setups@.len()),
            r ==> ({
                let i = old(self).selected_idx.unwrap() as int;
                &&& final(self).setups@ == old(self).setups@.remove(i)
                &&& final(self).selected_idx == spec_selection_after_removal(
                    i as nat,
                    old(self).setups@.len(),
                )
            }),
            !r ==> final(self).setups@ == old(self).setups@ && final(self).selected_idx
                == old(self).selected_idx,
            final(self).add_type == old(self).add_type,
            final(self).new_name@ == old(self).new_name@,
    {
        match self.selected_idx {
            Some(idx) => {
                if idx < self.setups.len() {
                    self.setups.remove(idx);
                    self.selected_idx = if self.setups.len() == 0 {
                        None
                    } else if idx < self.setups.len() - 1 {
                        Some(idx)
                    } else {
                        Some(self.setups.len() - 1)
                    };
                    true
                } else {
                    false
                }
            },
            None => false,
        }
    }

    /// Select the setup at `idx` (a click on its line).
    pub fn select(&mut self, idx: usize)
        ensures
            final(self).selected_idx == Some(idx),
            final(self).setups@ == old(self).setups@,
            final(self).add_type == old(self).add_type,
            final(self).new_name@ == old(self).new_name@,
    {
        self.selected_idx = Some(idx);
    }
}

/// Deleting the setup just added, which `add_setup` leaves selected, gives
/// the setups back as they were.
pub proof fn lemma_delete_undoes_add<S>(setups: Seq<S>, added: S)
    ensures
        setups.push(added).remove(setups.len() as int) == setups,
{
    assert(setups.push(added).remove(setups.len() as int) =~= setups);
}

} // verus!
