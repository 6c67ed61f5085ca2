//! What the side panels hand back to the application, and the edits the
//! Q3D net panel makes to the nets of a design when its buttons are pressed.
use vstd::prelude::*;
use vstd::string::*;

use crate::design::{
    concat2, contains_string, spec_strings, Assignment, AssignmentModel, AssignmentTarget,
    ExcitationType, Net, NetModel, Terminal, TerminalModel,
};
use crate::text::{spec_decimal, str_eq, to_decimal};

verus! {

// ---------------------------------------------------------------------------
// Panel responses
// ---------------------------------------------------------------------------

/// A parameter of a geometry operation that the user changed.
#[derive(Debug, Clone)]
pub struct ParameterEdit {
    pub object_name: String,
    pub key: String,
    pub new_value: String,
}

/// What the Properties panel reports.
#[derive(Debug, Clone)]
pub struct PropertiesResponse {
    /// If set, the user modified a geometry parameter and a rebuild is needed.
    pub parameter_changed: Option<ParameterEdit>,
}

/// What the project tree reports.
#[derive(Debug, Clone)]
pub struct ProjectTreeResponse {
    /// User clicked on a geometry object.
    pub selected_object: Option<String>,
    /// User wants to add a new variable.
    pub add_variable: bool,
    /// User edited a variable value: its name and new text.
    pub variable_edited: Option<(String, String)>,
}

/// What the left dock (project tree and properties) reports.
#[derive(Debug, Clone)]
pub struct LeftDockResponse {
    pub tree: ProjectTreeResponse,
    pub properties: PropertiesResponse,
}

/// What the status bar reports.
#[derive(Debug, Clone, Copy)]
pub struct StatusBarResponse {
    pub toggle_message_manager: bool,
}

/// What the Q3D net panel reports.
#[derive(Debug, Clone)]
pub struct Q3dNetResponse {
    /// Whether any nets were modified.
    pub nets_modified: bool,
    /// Currently selected net name.
    pub selected_net: Option<String>,
}

/// State of the Q3D net panel between frames.
#[derive(Debug, Clone)]
pub struct Q3dNetPanelState {
    pub selected_net_idx: Option<usize>,
    pub new_net_name: String,
    pub new_terminal_name: String,
}

impl Default for Q3dNetPanelState {
    /// Nothing selected, nothing typed.
    fn default() -> (r: Self)
        ensures
            r.selected_net_idx is None,
            r.new_net_name@ == Seq::<char>::empty(),
            r.new_terminal_name@ == Seq::<char>::empty(),
    {
        Q3dNetPanelState { selected_net_idx: None, new_net_name: String::new(), new_terminal_name: String::new() }
    }
}

/// The key under which the text typed for a parameter of an object is kept:
/// `object:key`.
pub open spec fn spec_parameter_buffer_key(object_name: Seq<char>, key: Seq<char>) -> Seq<char> {
    object_name + ":"@ + key
}

/// The key under which the text typed for a parameter of an object is kept.
pub fn parameter_buffer_key(object_name: &str, key: &str) -> (r: String)
    ensures
        r@ == spec_parameter_buffer_key(object_name@, key@),
{
    let mut s = concat2(object_name, ":");
    s.append(key);
    s
}

/// The edit reported when the user confirms the text typed for a
/// parameter: one only where the text differs from the value shown.
pub fn parameter_edit(object_name: &str, key: &str, typed: &str, shown: &str) -> (r: Option<ParameterEdit>)
    ensures
        typed@ == shown@ <==> r is None,
        r matches Some(e) ==> e.object_name@ == object_name@ && e.key@ == key@ && e.new_value@ == typed@,
{
    if str_eq(typed, shown) {
        None
    } else {
        Some(
            ParameterEdit {
                object_name: String::from_str(object_name),
                key: String::from_str(key),
                new_value: String::from_str(typed),
            },
        )
    }
}

// ---------------------------------------------------------------------------
// Q3D net edits
// ---------------------------------------------------------------------------

/// The nets as values.
pub open spec fn spec_nets(nets: Seq<Net>) -> Seq<NetModel> {
    nets.map_values(|n: Net| n@)
}

/// The label of a net in the list: its name, and ` (GND)` for a ground
/// reference.
pub open spec fn spec_net_label(n: NetModel) -> Seq<char> {
    if n.is_ground_reference {
        n.name + " (GND)"@
    } else {
        n.name
    }
}

/// The label of a net in the list.
pub fn net_label(net: &Net) -> (r: String)
    ensures
        r@ == spec_net_label(net@),
{
    if net.is_ground_reference {
        concat2(net.name.as_str(), " (GND)")
    } else {
        String::from_str(net.name.as_str())
    }
}

/// The name of a net added when `typed` is what the user typed and there
/// are `count` nets: what was typed, or `Net<count + 1>` when nothing was.
pub open spec fn spec_new_net_name(typed: Seq<char>, count: nat) -> Seq<char> {
    if typed.len() == 0 {
        "Net"@ + spec_decimal(count + 1)
    } else {
        typed
    }
}

/// A net with a name and nothing else.
pub open spec fn spec_empty_net(name: Seq<char>) -> NetModel {
    NetModel { name, objects: Seq::empty(), is_ground_reference: false, terminals: Seq::empty() }
}

/// Add a net (the `+` button): named by the text typed, or numbered after
/// the nets so far; it becomes the selected net, and the typed name is
/// cleared.
pub fn add_net(nets: &mut Vec<Net>, state: &mut Q3dNetPanelState)
    requires
        old(nets)@.len() < usize::MAX,
    ensures
        spec_nets(final(nets)@) == spec_nets(old(nets)@).push(
            spec_empty_net(spec_new_net_name(old(state).new_net_name@, old(nets)@.len())),
        ),
        final(state).selected_net_idx == Some(old(nets)@.len() as usize),
        final(state).new_net_name@ == Seq::<char>::empty(),
        final(state).new_terminal_name@ == old(state).new_terminal_name@,
{
    let count = nets.len();
    let name = if state.new_net_name.as_str().unicode_len() == 0 {
        let digits = to_decimal((count as u128) + 1);
        concat2("Net", digits.as_str())
    } else {
        String::from_str(state.new_net_name.as_str())
    };
    let ghost old_nets = nets@;
    nets.push(Net { name, objects: Vec::new(), is_ground_reference: false, terminals: Vec::new() });
    assert(spec_nets(nets@) =~= spec_nets(old_nets).push(nets@[count as int]@));
    assert(nets@[count as int]@.objects =~= Seq::<Seq<char>>::empty());
    assert(nets@[count as int]@.terminals =~= Seq::<TerminalModel>::empty());
    state.selected_net_idx = Some(count);
    state.new_net_name = String::new();
}

/// The selection after removing net `idx` of `count`: none when no net is
/// left, else the same position, or the last net when that was the last.
pub open spec fn spec_selection_after_removal(idx: nat, count: nat) -> Option<usize> {
    if count <= 1 {
        None
    } else if idx < count - 1 {
        Some(idx as usize)
    } else {
        Some((count - 2) as usize)
    }
}

/// Remove the selected net (the `-` button), which exists only while the
/// selection names a net; the selection then stays in place, moving to the
/// last net if it was past it. Returns whether a net was removed.
pub fn remove_selected_net(nets: &mut Vec<Net>, state: &mut Q3dNetPanelState) -> (r: bool)
    ensures
        r == (old(state).selected_net_idx matches Some(i) && i < old(nets)@.len()),
        r ==> ({
            let i = old(state).selected_net_idx.unwrap() as int;
            &&& spec_nets(final(nets)@) == spec_nets(old(nets)@).remove(i)
            &&& final(state).selected_net_idx == spec_selection_after_removal(i as nat, old(nets)@.len())
        }),
        !r ==> spec_nets(final(nets)@) == spec_nets(old(nets)@) && final(state).selected_net_idx
            == old(state).selected_net_idx,
        final(state).new_net_name@ == old(state).new_net_name@,
        final(state).new_terminal_name@ == old(state).new_terminal_name@,
{
    match state.selected_net_idx {
        Some(idx) => {
            if idx < nets.len() {
                let ghost old_nets = nets@;
                nets.remove(idx);
                assert(spec_nets(nets@) =~= spec_nets(old_nets).remove(idx as int));
                state.selected_net_idx = if nets.len() == 0 {
                    None
                } else if idx < nets.len() - 1 {
                    Some(idx)
                } else {
                    Some(nets.len() - 1)
                };
                true
            } else {
                false
            }
        },
        None => false,
    }
}

/// Removing the net just added, which `add_net` leaves selected, gives the
/// nets back as they were, and selects the last of them if there is one.
pub proof fn lemma_remove_undoes_add(nets: Seq<NetModel>, added: NetModel)
    requires
        nets.len() < usize::MAX,
    ensures
        nets.push(added).remove(nets.len() as int) == nets,
        spec_selection_after_removal(nets.len(), nets.len() + 1) == (if nets.len() == 0 {
            None
        } else {
            Some((nets.len() - 1) as usize)
        }),
{
    assert(nets.push(added).remove(nets.len() as int) =~= nets);
}

/// The geometry objects that can still be assigned to a net: those it does
/// not hold yet, in the order given.
pub open spec fn spec_available_objects(assigned: Seq<Seq<char>>, objects: Seq<Seq<char>>) -> Seq<Seq<char>> {
    objects.filter(|o: Seq<char>| !assigned.contains(o))
}

/// The geometry objects that can still be assigned to `net`.
pub fn available_objects(net: &Net, geo_objects: &Vec<String>) -> (r: Vec<String>)
    ensures
        spec_strings(r@) == spec_available_objects(spec_strings(net.objects@), spec_strings(geo_objects@)),
{
    let ghost assigned = spec_strings(net.objects@);
    let ghost all = spec_strings(geo_objects@);
    let mut out: Vec<String> = Vec::new();
    let mut i: usize = 0;
    assert(all.take(0) =~= Seq::<Seq<char>>::empty());
    assert(spec_strings(out@) =~= Seq::<Seq<char>>::empty());
    while i < geo_objects.len()
        invariant
            assigned == spec_strings(net.objects@),
            all == spec_strings(geo_objects@),
            i <= geo_objects@.len(),
            spec_strings(out@) == all.take(i as int).filter(|o: Seq<char>| !assigned.contains(o)),
        decreases geo_objects@.len() - i,
    {
        let o = &geo_objects[i];
        let ghost before = spec_strings(out@);
        assert(all.take(i + 1).drop_last() =~= all.take(i as int));
        assert(all.take(i + 1).last() == o@);
        reveal(Seq::filter);
        if !contains_string(&net.objects, o.as_str()) {
            out.push(String::from_str(o.as_str()));
            assert(spec_strings(out@) =~= before.push(o@));
        } else {
            assert(spec_strings(out@) =~= before);
        }
        i = i + 1;
    }
    assert(all.take(geo_objects@.len() as int) =~= all);
    out
}

/// A net with one more terminal.
pub open spec fn spec_with_terminal(n: NetModel, t: TerminalModel) -> NetModel {
    NetModel { terminals: n.terminals.push(t), ..n }
}

/// The terminal added under a typed name: a source on faces, not yet
/// assigned.
pub open spec fn spec_new_terminal(name: Seq<char>) -> TerminalModel {
    TerminalModel {
        name,
        terminal_type: ExcitationType::Source,
        assignment: AssignmentModel { target_type: AssignmentTarget::Face, targets: Seq::empty() },
    }
}

/// Add a terminal to a net (the `Add Terminal` button): only when a name
/// was typed, which is then cleared. Returns whether one was added.
pub fn add_terminal(net: &mut Net, state: &mut Q3dNetPanelState) -> (r: bool)
    ensures
        r == (old(state).new_terminal_name@.len() > 0),
        r ==> final(net)@ == spec_with_terminal(old(net)@, spec_new_terminal(old(state).new_terminal_name@))
            && final(state).new_terminal_name@ == Seq::<char>::empty(),
        !r ==> final(net)@ == old(net)@ && final(state).new_terminal_name@ == old(state).new_terminal_name@,
        final(state).selected_net_idx == old(state).selected_net_idx,
        final(state).new_net_name@ == old(state).new_net_name@,
{
    if state.new_terminal_name.as_str().unicode_len() == 0 {
        return false;
    }
    let ghost old_terms = net@.terminals;
    let t = Terminal {
        name: String::from_str(state.new_terminal_name.as_str()),
        terminal_type: ExcitationType::Source,
        assignment: Assignment { target_type: AssignmentTarget::Face, targets: Vec::new() },
    };
    assert(t@.assignment.targets =~= Seq::<Seq<char>>::empty());
    net.terminals.push(t);
    assert(net@.terminals =~= old_terms.push(t@));
    state.new_terminal_name = String::new();
    true
}

/// The name of the selected net, if the selection names one.
pub fn selected_net_name(nets: &Vec<Net>, state: &Q3dNetPanelState) -> (r: Option<String>)
    ensures
        match state.selected_net_idx {
            Some(i) => if i < nets@.len() {
                r matches Some(n) && n@ == nets@[i as int].name@
            } else {
                r is None
            },
            None => r is None,
        },
{
    match state.selected_net_idx {
        Some(idx) => {
            if idx < nets.len() {
                Some(String::from_str(nets[idx].name.as_str()))
            } else {
                None
            }
        },
        None => None,
    }
}

} // verus!
