//! The definition-reference dependency graph: which definitions (materials,
//! variables, coordinate systems, named selections, geometry objects) a
//! design has, and which consumers (objects, boundaries, excitations, nets)
//! refer to them.
use vstd::prelude::*;
use vstd::string::*;

use crate::design::{contains_string, ObjectRef, SetupSolutionStatus, SetupStatusModel, SolutionIndexModel, 
    concat2, spec_strings, BoundaryModel, DesignModel, DesignOutline, ExcitationModel, NetModel,
    ObjectModel,
};
use crate::text::str_eq;

verus! {

/// A unique identifier for a definition.
#[derive(Debug, Clone)]
pub enum DefinitionId {
    ProjectVariable(String),
    DesignVariable(String),
    Dataset(String),
    Material(String),
    CoordinateSystem(String),
    NamedSelection(String),
    GeometryObject(String),
}

/// A reference from a consumer to a definition.
#[derive(Debug, Clone)]
pub struct Reference {
    /// Source description, e.g. `"Boundary:Radiation1"`.
    pub from: String,
    /// The definition being referenced.
    pub to: DefinitionId,
    /// Which field holds the reference, e.g. `"material"`.
    pub field: String,
}

/// All definitions of a design and all references to them.
#[derive(Debug)]
pub struct DependencyGraph {
    /// All known definitions, each once.
    pub definitions: Vec<DefinitionId>,
    /// All references from consumers to definitions.
    pub references: Vec<Reference>,
}

/// The mathematical value of a `DefinitionId`.
pub enum DefinitionIdModel {
    ProjectVariable(Seq<char>),
    DesignVariable(Seq<char>),
    Dataset(Seq<char>),
    Material(Seq<char>),
    CoordinateSystem(Seq<char>),
    NamedSelection(Seq<char>),
    GeometryObject(Seq<char>),
}

/// The mathematical value of a `Reference`.
pub struct ReferenceModel {
    pub from: Seq<char>,
    pub to: DefinitionIdModel,
    pub field: Seq<char>,
}

impl View for DefinitionId {
    type V = DefinitionIdModel;

    open spec fn view(&self) -> DefinitionIdModel {
        match self {
            DefinitionId::ProjectVariable(n) => DefinitionIdModel::ProjectVariable(n@),
            DefinitionId::DesignVariable(n) => DefinitionIdModel::DesignVariable(n@),
            DefinitionId::Dataset(n) => DefinitionIdModel::Dataset(n@),
            DefinitionId::Material(n) => DefinitionIdModel::Material(n@),
            DefinitionId::CoordinateSystem(n) => DefinitionIdModel::CoordinateSystem(n@),
            DefinitionId::NamedSelection(n) => DefinitionIdModel::NamedSelection(n@),
            DefinitionId::GeometryObject(n) => DefinitionIdModel::GeometryObject(n@),
        }
    }
}

/// How a definition is written in messages: its kind, a colon, its name.
pub open spec fn spec_definition_label(d: DefinitionIdModel) -> Seq<char> {
    match d {
        DefinitionIdModel::ProjectVariable(n) => "Variable:"@ + n,
        DefinitionIdModel::DesignVariable(n) => "Variable:"@ + n,
        DefinitionIdModel::Dataset(n) => "Dataset:"@ + n,
        DefinitionIdModel::Material(n) => "Material:"@ + n,
        DefinitionIdModel::CoordinateSystem(n) => "CoordSys:"@ + n,
        DefinitionIdModel::NamedSelection(n) => "NamedSelection:"@ + n,
        DefinitionIdModel::GeometryObject(n) => "Object:"@ + n,
    }
}

impl DefinitionId {
    /// The definition as written in messages, e.g. `Material:copper`.
    pub fn to_string(&self) -> (r: String)
        ensures
            r@ == spec_definition_label(self@),
    {
        match self {
            DefinitionId::ProjectVariable(n) => concat2("Variable:", n.as_str()),
            DefinitionId::DesignVariable(n) => concat2("Variable:", n.as_str()),
            DefinitionId::Dataset(n) => concat2("Dataset:", n.as_str()),
            DefinitionId::Material(n) => concat2("Material:", n.as_str()),
            DefinitionId::CoordinateSystem(n) => concat2("CoordSys:", n.as_str()),
            DefinitionId::NamedSelection(n) => concat2("NamedSelection:", n.as_str()),
            DefinitionId::GeometryObject(n) => concat2("Object:", n.as_str()),
        }
    }
}

impl View for Reference {
    type V = ReferenceModel;

    open spec fn view(&self) -> ReferenceModel {
        ReferenceModel { from: self.from@, to: self.to@, field: self.field@ }
    }
}

/// The values of a list of definitions.
pub open spec fn spec_defs(v: Seq<DefinitionId>) -> Seq<DefinitionIdModel> {
    v.map_values(|d: DefinitionId| d@)
}

/// The values of a list of references.
pub open spec fn spec_refs(v: Seq<Reference>) -> Seq<ReferenceModel> {
    v.map_values(|r: Reference| r@)
}

impl DefinitionId {
    /// Whether two identifiers are the same definition.
    pub fn same_as(&self, other: &DefinitionId) -> (r: bool)
        ensures
            r == (self@ == other@),
    {
        match (self, other) {
            (DefinitionId::ProjectVariable(a), DefinitionId::ProjectVariable(b)) => str_eq(a.as_str(), b.as_str()),
            (DefinitionId::DesignVariable(a), DefinitionId::DesignVariable(b)) => str_eq(a.as_str(), b.as_str()),
            (DefinitionId::Dataset(a), DefinitionId::Dataset(b)) => str_eq(a.as_str(), b.as_str()),
            (DefinitionId::Material(a), DefinitionId::Material(b)) => str_eq(a.as_str(), b.as_str()),
            (DefinitionId::CoordinateSystem(a), DefinitionId::CoordinateSystem(b)) => str_eq(a.as_str(), b.as_str()),
            (DefinitionId::NamedSelection(a), DefinitionId::NamedSelection(b)) => str_eq(a.as_str(), b.as_str()),
            (DefinitionId::GeometryObject(a), DefinitionId::GeometryObject(b)) => str_eq(a.as_str(), b.as_str()),
            _ => false,
        }
    }

    /// The identifier as displayed: `Variable:<n>` for project and design
    /// variables, `Dataset:<n>`, `Material:<n>`, `CoordSys:<n>`,
    /// `NamedSelection:<n>`, `Object:<n>`.
    pub fn to_display_string(&self) -> (r: String)
        ensures
            r@ == spec_display(self@),
    {
        match self {
            DefinitionId::ProjectVariable(n) => concat2("Variable:", n.as_str()),
            DefinitionId::DesignVariable(n) => concat2("Variable:", n.as_str()),
            DefinitionId::Dataset(n) => concat2("Dataset:", n.as_str()),
            DefinitionId::Material(n) => concat2("Material:", n.as_str()),
            DefinitionId::CoordinateSystem(n) => concat2("CoordSys:", n.as_str()),
            DefinitionId::NamedSelection(n) => concat2("NamedSelection:", n.as_str()),
            DefinitionId::GeometryObject(n) => concat2("Object:", n.as_str()),
        }
    }
}

/// The displayed form of a definition identifier.
pub open spec fn spec_display(d: DefinitionIdModel) -> Seq<char> {
    match d {
        DefinitionIdModel::ProjectVariable(n) => "Variable:"@ + n,
        DefinitionIdModel::DesignVariable(n) => "Variable:"@ + n,
        DefinitionIdModel::Dataset(n) => "Dataset:"@ + n,
        DefinitionIdModel::Material(n) => "Material:"@ + n,
        DefinitionIdModel::CoordinateSystem(n) => "CoordSys:"@ + n,
        DefinitionIdModel::NamedSelection(n) => "NamedSelection:"@ + n,
        DefinitionIdModel::GeometryObject(n) => "Object:"@ + n,
    }
}

// ---------------------------------------------------------------------------
// Specification
// ---------------------------------------------------------------------------

/// The definitions a design declares: its materials, coordinate systems,
/// named selections, design variables and geometry objects.
pub open spec fn spec_declared(d: DesignModel) -> Set<DefinitionIdModel> {
    Set::new(|x: DefinitionIdModel| match x {
        DefinitionIdModel::Material(n) => d.materials.contains(n),
        DefinitionIdModel::CoordinateSystem(n) => d.coordinate_systems.contains(n),
        DefinitionIdModel::NamedSelection(n) => d.named_selections.contains(n),
        DefinitionIdModel::DesignVariable(n) => d.local_variables.contains(n),
        DefinitionIdModel::GeometryObject(n) => d.objects.map_values(|o: ObjectModel| o.name).contains(n),
        _ => false,
    })
}

/// References from a consumer to the objects it targets, in order.
pub open spec fn spec_target_refs(from: Seq<char>, targets: Seq<Seq<char>>, field: Seq<char>) -> Seq<ReferenceModel> {
    targets.map_values(|t: Seq<char>| ReferenceModel { from, to: DefinitionIdModel::GeometryObject(t), field })
}

/// Each geometry object refers to its material.
pub open spec fn spec_material_refs(objects: Seq<ObjectModel>) -> Seq<ReferenceModel> {
    objects.map_values(|o: ObjectModel| ReferenceModel {
        from: "GeometryObject:"@ + o.name,
        to: DefinitionIdModel::Material(o.material),
        field: "material"@,
    })
}

/// Each boundary refers to its targets.
pub open spec fn spec_boundary_refs(bs: Seq<BoundaryModel>) -> Seq<ReferenceModel>
    decreases bs.len(),
{
    if bs.len() == 0 {
        Seq::empty()
    } else {
        spec_boundary_refs(bs.drop_last()) + spec_target_refs("Boundary:"@ + bs.last().name, bs.last().assignment.targets, "assignment.targets"@)
    }
}

/// Each assigned excitation refers to its targets.
pub open spec fn spec_excitation_refs(es: Seq<ExcitationModel>) -> Seq<ReferenceModel>
    decreases es.len(),
{
    if es.len() == 0 {
        Seq::empty()
    } else {
        spec_excitation_refs(es.drop_last()) + match es.last().assignment {
            Some(a) => spec_target_refs("Excitation:"@ + es.last().name, a.targets, "assignment.targets"@),
            None => Seq::empty(),
        }
    }
}

/// Each net refers to its objects.
pub open spec fn spec_net_refs(nets: Seq<NetModel>) -> Seq<ReferenceModel>
    decreases nets.len(),
{
    if nets.len() == 0 {
        Seq::empty()
    } else {
        spec_net_refs(nets.drop_last()) + spec_target_refs("Net:"@ + nets.last().name, nets.last().objects, "objects"@)
    }
}

/// All references of a design: objects to materials, then boundaries,
/// excitations and nets to objects.
pub open spec fn spec_design_refs(d: DesignModel) -> Seq<ReferenceModel> {
    spec_material_refs(d.objects) + spec_boundary_refs(d.boundaries) + spec_excitation_refs(d.excitations)
        + spec_net_refs(d.nets)
}

/// The references to a definition, in order.
pub open spec fn spec_dependents(refs: Seq<ReferenceModel>, d: DefinitionIdModel) -> Seq<ReferenceModel>
    decreases refs.len(),
{
    if refs.len() == 0 {
        Seq::empty()
    } else {
        let rest = spec_dependents(refs.drop_last(), d);
        if refs.last().to == d {
            rest.push(refs.last())
        } else {
            rest
        }
    }
}

/// No definition occurs twice.
pub open spec fn spec_no_duplicates(v: Seq<DefinitionIdModel>) -> bool {
    forall|i: int, j: int| 0 <= i < j < v.len() ==> v[i] != v[j]
}


/// What a definition kind builds from a name.
enum DefKind {
    Material,
    CoordinateSystem,
    NamedSelection,
    DesignVariable,
    GeometryObject,
}

spec fn spec_kind(k: DefKind, n: Seq<char>) -> DefinitionIdModel {
    match k {
        DefKind::Material => DefinitionIdModel::Material(n),
        DefKind::CoordinateSystem => DefinitionIdModel::CoordinateSystem(n),
        DefKind::NamedSelection => DefinitionIdModel::NamedSelection(n),
        DefKind::DesignVariable => DefinitionIdModel::DesignVariable(n),
        DefKind::GeometryObject => DefinitionIdModel::GeometryObject(n),
    }
}

fn make_def(k: &DefKind, n: String) -> (r: DefinitionId)
    ensures
        r@ == spec_kind(*k, n@),
{
    match k {
        DefKind::Material => DefinitionId::Material(n),
        DefKind::CoordinateSystem => DefinitionId::CoordinateSystem(n),
        DefKind::NamedSelection => DefinitionId::NamedSelection(n),
        DefKind::DesignVariable => DefinitionId::DesignVariable(n),
        DefKind::GeometryObject => DefinitionId::GeometryObject(n),
    }
}

/// The names of a list of objects.
fn object_names(objects: &Vec<ObjectRef>) -> (r: Vec<String>)
    ensures
        spec_strings(r@) == objects@.map_values(|o: ObjectRef| o@).map_values(|o: ObjectModel| o.name),
{
    let ghost want = objects@.map_values(|o: ObjectRef| o@).map_values(|o: ObjectModel| o.name);
    let mut r: Vec<String> = Vec::new();
    let mut i: usize = 0;
    while i < objects.len()
        invariant
            i <= objects@.len(),
            want.len() == objects@.len(),
            want == objects@.map_values(|o: ObjectRef| o@).map_values(|o: ObjectModel| o.name),
            spec_strings(r@) =~= want.take(i as int),
        decreases objects@.len() - i,
    {
        let n = objects[i].name.clone();
        let ghost prev = spec_strings(r@);
        assert(want[i as int] == n@);
        r.push(n);
        assert(spec_strings(r@) =~= prev.push(n@));
        assert(want.take(i as int + 1) =~= want.take(i as int).push(want[i as int]));
        i = i + 1;
    }
    assert(want.take(i as int) =~= want);
    r
}

impl DependencyGraph {
    /// No definition is listed twice.
    pub open spec fn wf(&self) -> bool {
        spec_no_duplicates(spec_defs(self.definitions@))
    }

    /// The set of definitions.
    pub open spec fn spec_definition_set(&self) -> Set<DefinitionIdModel> {
        spec_defs(self.definitions@).to_set()
    }

    /// An empty graph.
    pub fn new() -> (g: Self)
        ensures
            g.wf(),
            g.definitions@.len() == 0,
            g.references@.len() == 0,
    {
        DependencyGraph { definitions: Vec::new(), references: Vec::new() }
    }

    /// Whether a definition is registered.
    fn has_definition(&self, d: &DefinitionId) -> (r: bool)
        ensures
            r == spec_defs(self.definitions@).contains(d@),
    {
        let ghost defs = spec_defs(self.definitions@);
        let mut i: usize = 0;
        while i < self.definitions.len()
            invariant
                i <= self.definitions@.len(),
                defs == spec_defs(self.definitions@),
                forall|k: int| 0 <= k < i ==> defs[k] != d@,
            decreases self.definitions@.len() - i,
        {
            if self.definitions[i].same_as(d) {
                assert(defs[i as int] == d@);
                return true;
            }
            i = i + 1;
        }
        false
    }

    /// Register a definition; one already there is not listed again.
    fn insert_definition(&mut self, d: DefinitionId)
        requires
            old(self).wf(),
        ensures
            final(self).wf(),
            final(self).spec_definition_set() == old(self).spec_definition_set().insert(d@),
            final(self).references@ == old(self).references@,
    {
        let ghost before = spec_defs(self.definitions@);
        if !self.has_definition(&d) {
            let ghost dv = d@;
            self.definitions.push(d);
            assert(spec_defs(self.definitions@) =~= before.push(dv));
            proof { before.lemma_push_to_set_commute(dv); }
        } else {
            assert(self.spec_definition_set() =~= self.spec_definition_set().insert(d@));
        }
    }

    /// Register one definition of kind `k` per name.
    fn register(&mut self, k: &DefKind, names: &Vec<String>)
        requires
            old(self).wf(),
        ensures
            final(self).wf(),
            final(self).spec_definition_set() == old(self).spec_definition_set().union(
                spec_strings(names@).map_values(|n: Seq<char>| spec_kind(*k, n)).to_set(),
            ),
            final(self).references@ == old(self).references@,
    {
        let ghost made = spec_strings(names@).map_values(|n: Seq<char>| spec_kind(*k, n));
        let ghost start = self.spec_definition_set();
        let mut i: usize = 0;
        while i < names.len()
            invariant
                i <= names@.len(),
                made.len() == names@.len(),
                made == spec_strings(names@).map_values(|n: Seq<char>| spec_kind(*k, n)),
                self.wf(),
                self.references@ == old(self).references@,
                self.spec_definition_set() =~= start.union(made.take(i as int).to_set()),
            decreases names@.len() - i,
        {
            let d = make_def(k, names[i].clone());
            self.insert_definition(d);
            assert(made[i as int] == spec_kind(*k, names@[i as int]@));
            assert(made.take(i as int + 1).to_set() =~= made.take(i as int).to_set().insert(made[i as int])) by {
                assert(made.take(i as int + 1) =~= made.take(i as int).push(made[i as int]));
                made.take(i as int).lemma_push_to_set_commute(made[i as int]);
            }
            i = i + 1;
        }
        assert(made.take(i as int) =~= made);
    }
}

/// Append one reference to an object per target, all from `prefix + name`.
fn push_target_refs(refs: &mut Vec<Reference>, prefix: &str, name: &str, targets: &Vec<String>, field: &str)
    ensures
        spec_refs(final(refs)@) == spec_refs(old(refs)@) + spec_target_refs(
            prefix@ + name@,
            spec_strings(targets@),
            field@,
        ),
{
    let ghost from = prefix@ + name@;
    let ghost want = spec_target_refs(from, spec_strings(targets@), field@);
    let ghost start = spec_refs(refs@);
    let mut i: usize = 0;
    while i < targets.len()
        invariant
            i <= targets@.len(),
            from == prefix@ + name@,
            want == spec_target_refs(from, spec_strings(targets@), field@),
            want.len() == targets@.len(),
            spec_refs(refs@) =~= start + want.take(i as int),
        decreases targets@.len() - i,
    {
        let r = Reference {
            from: concat2(prefix, name),
            to: DefinitionId::GeometryObject(targets[i].clone()),
            field: String::from_str(field),
        };
        let ghost prev = spec_refs(refs@);
        assert(r@ == want[i as int]);
        refs.push(r);
        assert(spec_refs(refs@) =~= prev.push(want[i as int]));
        assert(want.take(i as int + 1) =~= want.take(i as int).push(want[i as int]));
        i = i + 1;
    }
    assert(want.take(i as int) =~= want);
}

impl DependencyGraph {
    /// Build the graph of a design: its declared definitions, and the
    /// references of its objects (to materials), boundaries, assigned
    /// excitations and nets (to objects), in that order.
    pub fn from_design(design: &DesignOutline) -> (g: Self)
        ensures
            g.wf(),
            g.spec_definition_set() == spec_declared(design@),
            spec_refs(g.references@) == spec_design_refs(design@),
    {
        let mut g = DependencyGraph::new();
        g.register(&DefKind::Material, &design.materials);
        g.register(&DefKind::CoordinateSystem, &design.coordinate_systems);
        g.register(&DefKind::NamedSelection, &design.named_selections);
        g.register(&DefKind::DesignVariable, &design.local_variables);
        let names = object_names(&design.objects);
        g.register(&DefKind::GeometryObject, &names);
        proof {
            let d = design@;
            let onames = d.objects.map_values(|o: ObjectModel| o.name);
            assert(d.objects == design.objects@.map_values(|o: ObjectRef| o@));
            assert(g.spec_definition_set() =~= spec_declared(d)) by {
                assert forall|x: DefinitionIdModel| g.spec_definition_set().contains(x) <==> #[trigger] spec_declared(d).contains(x) by {
                    match x {
                        DefinitionIdModel::Material(n) => {
                            let m = spec_strings(design.materials@).map_values(|n: Seq<char>| spec_kind(DefKind::Material, n));
                            if d.materials.contains(n) {
                                let k = choose|k: int| 0 <= k < d.materials.len() && d.materials[k] == n;
                                assert(m[k] == x);
                            }
                        },
                        DefinitionIdModel::CoordinateSystem(n) => {
                            let m = spec_strings(design.coordinate_systems@).map_values(|n: Seq<char>| spec_kind(DefKind::CoordinateSystem, n));
                            if d.coordinate_systems.contains(n) {
                                let k = choose|k: int| 0 <= k < d.coordinate_systems.len() && d.coordinate_systems[k] == n;
                                assert(m[k] == x);
                            }
                        },
                        DefinitionIdModel::NamedSelection(n) => {
                            let m = spec_strings(design.named_selections@).map_values(|n: Seq<char>| spec_kind(DefKind::NamedSelection, n));
                            if d.named_selections.contains(n) {
                                let k = choose|k: int| 0 <= k < d.named_selections.len() && d.named_selections[k] == n;
                                assert(m[k] == x);
                            }
                        },
                        DefinitionIdModel::DesignVariable(n) => {
                            let m = spec_strings(design.local_variables@).map_values(|n: Seq<char>| spec_kind(DefKind::DesignVariable, n));
                            if d.local_variables.contains(n) {
                                let k = choose|k: int| 0 <= k < d.local_variables.len() && d.local_variables[k] == n;
                                assert(m[k] == x);
                            }
                        },
                        DefinitionIdModel::GeometryObject(n) => {
                            let m = spec_strings(names@).map_values(|n: Seq<char>| spec_kind(DefKind::GeometryObject, n));
                            if onames.contains(n) {
                                let k = choose|k: int| 0 <= k < onames.len() && onames[k] == n;
                                assert(m[k] == x);
                            }
                        },
                        _ => {},
                    }
                }
            }
        }
        let ghost d = design@;
        let mut i: usize = 0;
        while i < design.objects.len()
            invariant
                i <= design.objects@.len(),
                d == design@,
                g.wf(),
                g.spec_definition_set() == spec_declared(d),
                spec_refs(g.references@) =~= spec_material_refs(d.objects.take(i as int)),
            decreases design.objects@.len() - i,
        {
            let o = &design.objects[i];
            let r = Reference {
                from: concat2("GeometryObject:", o.name.as_str()),
                to: DefinitionId::Material(o.material.clone()),
                field: String::from_str("material"),
            };
            let ghost prev = spec_refs(g.references@);
            g.references.push(r);
            assert(spec_refs(g.references@) =~= prev.push(r@));
            assert(d.objects.take(i as int + 1) =~= d.objects.take(i as int).push(d.objects[i as int]));
            i = i + 1;
        }
        assert(d.objects.take(i as int) =~= d.objects);
        let ghost base = spec_refs(g.references@);
        let mut i: usize = 0;
        while i < design.boundaries.len()
            invariant
                i <= design.boundaries@.len(),
                d == design@,
                g.wf(),
                g.spec_definition_set() == spec_declared(d),
                base == spec_material_refs(d.objects),
                spec_refs(g.references@) =~= base + spec_boundary_refs(d.boundaries.take(i as int)),
            decreases design.boundaries@.len() - i,
        {
            let b = &design.boundaries[i];
            push_target_refs(&mut g.references, "Boundary:", b.name.as_str(), &b.assignment.targets, "assignment.targets");
            assert(d.boundaries.take(i as int + 1).drop_last() =~= d.boundaries.take(i as int));
            i = i + 1;
        }
        assert(d.boundaries.take(i as int) =~= d.boundaries);
        let ghost base = spec_refs(g.references@);
        let mut i: usize = 0;
        while i < design.excitations.len()
            invariant
                i <= design.excitations@.len(),
                d == design@,
                g.wf(),
                g.spec_definition_set() == spec_declared(d),
                base == spec_material_refs(d.objects) + spec_boundary_refs(d.boundaries),
                spec_refs(g.references@) =~= base + spec_excitation_refs(d.excitations.take(i as int)),
            decreases design.excitations@.len() - i,
        {
            let e = &design.excitations[i];
            assert(d.excitations.take(i as int + 1).drop_last() =~= d.excitations.take(i as int));
            match &e.assignment {
                Some(a) => {
                    push_target_refs(&mut g.references, "Excitation:", e.name.as_str(), &a.targets, "assignment.targets");
                },
                None => {
                    assert(spec_excitation_refs(d.excitations.take(i as int + 1)) =~= spec_excitation_refs(d.excitations.take(i as int)));
                },
            }
            i = i + 1;
        }
        assert(d.excitations.take(i as int) =~= d.excitations);
        let ghost base = spec_refs(g.references@);
        let mut i: usize = 0;
        while i < design.nets.len()
            invariant
                i <= design.nets@.len(),
                d == design@,
                g.wf(),
                g.spec_definition_set() == spec_declared(d),
                base == spec_material_refs(d.objects) + spec_boundary_refs(d.boundaries) + spec_excitation_refs(d.excitations),
                spec_refs(g.references@) =~= base + spec_net_refs(d.nets.take(i as int)),
            decreases design.nets@.len() - i,
        {
            let n = &design.nets[i];
            push_target_refs(&mut g.references, "Net:", n.name.as_str(), &n.objects, "objects");
            assert(d.nets.take(i as int + 1).drop_last() =~= d.nets.take(i as int));
            i = i + 1;
        }
        assert(d.nets.take(i as int) =~= d.nets);
        g
    }

    /// The references to `def_id`, in order.
    pub fn find_dependents(&self, def_id: &DefinitionId) -> (r: Vec<&Reference>)
        ensures
            r@.map_values(|x: &Reference| x@) == spec_dependents(spec_refs(self.references@), def_id@),
    {
        let ghost all = spec_refs(self.references@);
        let mut out: Vec<&Reference> = Vec::new();
        let mut i: usize = 0;
        while i < self.references.len()
            invariant
                i <= self.references@.len(),
                all == spec_refs(self.references@),
                out@.map_values(|x: &Reference| x@) =~= spec_dependents(all.take(i as int), def_id@),
            decreases self.references@.len() - i,
        {
            let r = &self.references[i];
            let ghost prev = out@.map_values(|x: &Reference| x@);
            assert(all.take(i as int + 1).drop_last() =~= all.take(i as int));
            assert(all.take(i as int + 1).last() == r@);
            if r.to.same_as(def_id) {
                out.push(r);
                assert(out@.map_values(|x: &Reference| x@) =~= prev.push(r@));
            }
            i = i + 1;
        }
        assert(all.take(i as int) =~= all);
        out
    }

    /// `Ok` when nothing refers to `def_id`; otherwise the sources of the
    /// references to it, in order.
    pub fn can_delete(&self, def_id: &DefinitionId) -> (r: Result<(), Vec<String>>)
        ensures
            match r {
                Ok(()) => spec_dependents(spec_refs(self.references@), def_id@).len() == 0,
                Err(v) => spec_dependents(spec_refs(self.references@), def_id@).len() > 0
                    && spec_strings(v@) == spec_dependents(spec_refs(self.references@), def_id@).map_values(
                    |x: ReferenceModel| x.from,
                ),
            },
    {
        let deps = self.find_dependents(def_id);
        let ghost dm = deps@.map_values(|x: &Reference| x@);
        if deps.len() == 0 {
            return Ok(());
        }
        let mut out: Vec<String> = Vec::new();
        let mut i: usize = 0;
        while i < deps.len()
            invariant
                i <= deps@.len(),
                dm == deps@.map_values(|x: &Reference| x@),
                spec_strings(out@) =~= dm.map_values(|x: ReferenceModel| x.from).take(i as int),
            decreases deps@.len() - i,
        {
            let ghost prev = spec_strings(out@);
            let f = deps[i].from.clone();
            assert(dm[i as int].from == f@);
            out.push(f);
            assert(spec_strings(out@) =~= prev.push(f@));
            i = i + 1;
        }
        Err(out)
    }
}

impl DependencyGraph {
    /// The setups made stale by a change of `changed_def`: all of the
    /// design's analysis setups when anything refers to it, none otherwise.
    pub fn affected_setups(&self, changed_def: &DefinitionId, design: &DesignOutline) -> (r: Vec<String>)
        ensures
            spec_strings(r@) == spec_affected(spec_refs(self.references@), changed_def@, design@),
    {
        let deps = self.find_dependents(changed_def);
        if deps.len() == 0 {
            let r: Vec<String> = Vec::new();
            assert(spec_strings(r@) =~= Seq::<Seq<char>>::empty());
            return r;
        }
        let ghost want = design@.analysis_setups;
        let mut out: Vec<String> = Vec::new();
        let mut i: usize = 0;
        while i < design.analysis_setups.len()
            invariant
                i <= design.analysis_setups@.len(),
                want == spec_strings(design.analysis_setups@),
                spec_strings(out@) =~= want.take(i as int),
            decreases design.analysis_setups@.len() - i,
        {
            let ghost prev = spec_strings(out@);
            let n = design.analysis_setups[i].clone();
            out.push(n);
            assert(spec_strings(out@) =~= prev.push(n@));
            assert(want.take(i as int + 1) =~= want.take(i as int).push(want[i as int]));
            i = i + 1;
        }
        assert(want.take(i as int) =~= want);
        out
    }
}

/// The setups made stale by a change of `c`, given the references `refs`.
pub open spec fn spec_affected(refs: Seq<ReferenceModel>, c: DefinitionIdModel, d: DesignModel) -> Seq<Seq<char>> {
    if spec_dependents(refs, c).len() == 0 {
        Seq::empty()
    } else {
        d.analysis_setups
    }
}

/// A setup entry marked stale when its setup is among `affected`.
pub open spec fn spec_mark_entry(e: SetupStatusModel, affected: Seq<Seq<char>>) -> SetupStatusModel {
    if affected.contains(e.setup) {
        SetupStatusModel { is_stale: true, ..e }
    } else {
        e
    }
}

/// The solution index after a change of `c`: the entries of the affected
/// setups are stale, and when any setup is affected the reason names the
/// changed definition.
pub open spec fn spec_stale_index(d: DesignModel, c: DefinitionIdModel) -> SolutionIndexModel {
    let affected = spec_affected(spec_design_refs(d), c, d);
    SolutionIndexModel {
        setups: d.solution_index.setups.map_values(|e: SetupStatusModel| spec_mark_entry(e, affected)),
        stale_reason: if affected.len() > 0 {
            Some("Modified: "@ + spec_display(c))
        } else {
            d.solution_index.stale_reason
        },
    }
}

/// The design after a change of `c` has been recorded.
pub open spec fn spec_mark_stale(d: DesignModel, c: DefinitionIdModel) -> DesignModel {
    DesignModel { solution_index: spec_stale_index(d, c), ..d }
}

/// Record in the design's solution index that `changed_def` was modified:
/// the results of every setup that depends on it become stale.
pub fn mark_stale(design: &mut DesignOutline, changed_def: &DefinitionId)
    ensures
        final(design)@ == spec_mark_stale(old(design)@, changed_def@),
{
    let graph = DependencyGraph::from_design(design);
    let affected = graph.affected_setups(changed_def, design);
    let ghost aff = spec_strings(affected@);
    let ghost old_setups = design@.solution_index.setups;
    let mut setups: Vec<SetupSolutionStatus> = Vec::new();
    let mut i: usize = 0;
    while i < design.solution_index.setups.len()
        invariant
            i <= design.solution_index.setups@.len(),
            old_setups == design@.solution_index.setups,
            aff == spec_strings(affected@),
            setups@.map_values(|e: SetupSolutionStatus| e@) =~= old_setups.take(i as int).map_values(
                |e: SetupStatusModel| spec_mark_entry(e, aff),
            ),
        decreases design.solution_index.setups@.len() - i,
    {
        let e = &design.solution_index.setups[i];
        let stale = e.is_stale || contains_string(&affected, e.setup.as_str());
        let n = SetupSolutionStatus { setup: e.setup.clone(), status: e.status, is_stale: stale };
        let ghost prev = setups@.map_values(|e: SetupSolutionStatus| e@);
        assert(n@ == spec_mark_entry(old_setups[i as int], aff));
        setups.push(n);
        assert(setups@.map_values(|e: SetupSolutionStatus| e@) =~= prev.push(n@));
        assert(old_setups.take(i as int + 1) =~= old_setups.take(i as int).push(old_setups[i as int]));
        i = i + 1;
    }
    assert(old_setups.take(i as int) =~= old_setups);
    design.solution_index.setups = setups;
    if affected.len() > 0 {
        let shown = changed_def.to_display_string();
        design.solution_index.stale_reason = Some(concat2("Modified: ", shown.as_str()));
    }
}

/// Recording the same change twice leaves the design as recording it once.
pub proof fn lemma_mark_stale_idempotent(d: DesignModel, c: DefinitionIdModel)
    ensures
        spec_mark_stale(spec_mark_stale(d, c), c) == spec_mark_stale(d, c),
{
    let once = spec_mark_stale(d, c);
    assert(spec_design_refs(once) == spec_design_refs(d));
    let aff = spec_affected(spec_design_refs(d), c, d);
    assert(spec_affected(spec_design_refs(once), c, once) == aff);
    let twice = spec_mark_stale(once, c);
    assert(twice.solution_index.setups =~= once.solution_index.setups);
    assert(twice.solution_index == once.solution_index);
}

/// A change of a definition that nothing refers to leaves the design as it
/// was.
pub proof fn lemma_unreferenced_change_keeps_design(d: DesignModel, c: DefinitionIdModel)
    requires
        spec_dependents(spec_design_refs(d), c).len() == 0,
    ensures
        spec_mark_stale(d, c) == d,
{
    let after = spec_mark_stale(d, c);
    assert(after.solution_index.setups =~= d.solution_index.setups);
    assert(after.solution_index == d.solution_index);
}

/// A change of a definition that something refers to makes every entry of
/// the design's analysis setups stale, and names the definition as the
/// reason when the design has a setup.
pub proof fn lemma_referenced_change_marks_setups(d: DesignModel, c: DefinitionIdModel, k: int)
    requires
        spec_dependents(spec_design_refs(d), c).len() > 0,
        0 <= k < d.solution_index.setups.len(),
        d.analysis_setups.contains(d.solution_index.setups[k].setup),
    ensures
        spec_mark_stale(d, c).solution_index.setups[k].is_stale,
        spec_mark_stale(d, c).solution_index.stale_reason == Some("Modified: "@ + spec_display(c)),
{
}

/// The dependents of a definition are exactly the references to it: a
/// reference is among them if and only if it is one of `refs` and points at
/// that definition.
pub proof fn lemma_dependents_are_references_to(refs: Seq<ReferenceModel>, d: DefinitionIdModel, r: ReferenceModel)
    ensures
        spec_dependents(refs, d).contains(r) <==> (refs.contains(r) && r.to == d),
    decreases refs.len(),
{
    if refs.len() > 0 {
        let init = refs.drop_last();
        lemma_dependents_are_references_to(init, d, r);
        let rest = spec_dependents(init, d);
        if refs.contains(r) && r.to == d {
            let k = choose|k: int| 0 <= k < refs.len() && refs[k] == r;
            if k < refs.len() - 1 {
                assert(init[k] == r);
                if refs.last().to == d {
                    let j = choose|j: int| 0 <= j < rest.len() && rest[j] == r;
                    assert(rest.push(refs.last())[j] == r);
                }
            } else {
                assert(rest.push(refs.last())[rest.len() as int] == r);
            }
        }
        if spec_dependents(refs, d).contains(r) {
            let j = choose|j: int| 0 <= j < spec_dependents(refs, d).len() && spec_dependents(refs, d)[j] == r;
            if refs.last().to == d && j == rest.len() {
                assert(refs[refs.len() - 1] == r);
            } else {
                assert(rest[j] == r);
                let k = choose|k: int| 0 <= k < init.len() && init[k] == r;
                assert(refs[k] == r);
            }
        }
    }
}

proof fn lemma_contains_in_sum(a: Seq<ReferenceModel>, b: Seq<ReferenceModel>, r: ReferenceModel)
    ensures
        a.contains(r) ==> (a + b).contains(r),
        b.contains(r) ==> (a + b).contains(r),
{
    if a.contains(r) {
        let k = choose|k: int| 0 <= k < a.len() && a[k] == r;
        assert((a + b)[k] == r);
    }
    if b.contains(r) {
        let k = choose|k: int| 0 <= k < b.len() && b[k] == r;
        assert((a + b)[a.len() + k] == r);
    }
}

proof fn lemma_target_ref_listed(from: Seq<char>, targets: Seq<Seq<char>>, field: Seq<char>, j: int)
    requires
        0 <= j < targets.len(),
    ensures
        spec_target_refs(from, targets, field).contains(
            ReferenceModel { from, to: DefinitionIdModel::GeometryObject(targets[j]), field },
        ),
{
    assert(spec_target_refs(from, targets, field)[j] == ReferenceModel {
        from,
        to: DefinitionIdModel::GeometryObject(targets[j]),
        field,
    });
}

proof fn lemma_net_ref_listed(nets: Seq<NetModel>, k: int, j: int)
    requires
        0 <= k < nets.len(),
        0 <= j < nets[k].objects.len(),
    ensures
        spec_net_refs(nets).contains(
            ReferenceModel {
                from: "Net:"@ + nets[k].name,
                to: DefinitionIdModel::GeometryObject(nets[k].objects[j]),
                field: "objects"@,
            },
        ),
    decreases nets.len(),
{
    let r = ReferenceModel {
        from: "Net:"@ + nets[k].name,
        to: DefinitionIdModel::GeometryObject(nets[k].objects[j]),
        field: "objects"@,
    };
    let last = spec_target_refs("Net:"@ + nets.last().name, nets.last().objects, "objects"@);
    if k < nets.len() - 1 {
        assert(nets.drop_last()[k] == nets[k]);
        lemma_net_ref_listed(nets.drop_last(), k, j);
        lemma_contains_in_sum(spec_net_refs(nets.drop_last()), last, r);
    } else {
        lemma_target_ref_listed("Net:"@ + nets.last().name, nets.last().objects, "objects"@, j);
        lemma_contains_in_sum(spec_net_refs(nets.drop_last()), last, r);
    }
}

proof fn lemma_boundary_ref_listed(bs: Seq<BoundaryModel>, k: int, j: int)
    requires
        0 <= k < bs.len(),
        0 <= j < bs[k].assignment.targets.len(),
    ensures
        spec_boundary_refs(bs).contains(
            ReferenceModel {
                from: "Boundary:"@ + bs[k].name,
                to: DefinitionIdModel::GeometryObject(bs[k].assignment.targets[j]),
                field: "assignment.targets"@,
            },
        ),
    decreases bs.len(),
{
    let r = ReferenceModel {
        from: "Boundary:"@ + bs[k].name,
        to: DefinitionIdModel::GeometryObject(bs[k].assignment.targets[j]),
        field: "assignment.targets"@,
    };
    let last = spec_target_refs("Boundary:"@ + bs.last().name, bs.last().assignment.targets, "assignment.targets"@);
    if k < bs.len() - 1 {
        assert(bs.drop_last()[k] == bs[k]);
        lemma_boundary_ref_listed(bs.drop_last(), k, j);
    } else {
        lemma_target_ref_listed("Boundary:"@ + bs.last().name, bs.last().assignment.targets, "assignment.targets"@, j);
    }
    lemma_contains_in_sum(spec_boundary_refs(bs.drop_last()), last, r);
}

proof fn lemma_excitation_ref_listed(es: Seq<ExcitationModel>, k: int, j: int)
    requires
        0 <= k < es.len(),
        es[k].assignment is Some,
        0 <= j < es[k].assignment->0.targets.len(),
    ensures
        spec_excitation_refs(es).contains(
            ReferenceModel {
                from: "Excitation:"@ + es[k].name,
                to: DefinitionIdModel::GeometryObject(es[k].assignment->0.targets[j]),
                field: "assignment.targets"@,
            },
        ),
    decreases es.len(),
{
    let r = ReferenceModel {
        from: "Excitation:"@ + es[k].name,
        to: DefinitionIdModel::GeometryObject(es[k].assignment->0.targets[j]),
        field: "assignment.targets"@,
    };
    let last = match es.last().assignment {
        Some(a) => spec_target_refs("Excitation:"@ + es.last().name, a.targets, "assignment.targets"@),
        None => Seq::empty(),
    };
    if k < es.len() - 1 {
        assert(es.drop_last()[k] == es[k]);
        lemma_excitation_ref_listed(es.drop_last(), k, j);
    } else {
        lemma_target_ref_listed(
            "Excitation:"@ + es.last().name,
            es.last().assignment->0.targets,
            "assignment.targets"@,
            j,
        );
    }
    lemma_contains_in_sum(spec_excitation_refs(es.drop_last()), last, r);
}

/// Every object a net lists depends on that net: among the dependents of
/// the object is the reference from `Net:<name>` through its `objects`, so
/// the object cannot be deleted while the net lists it.
pub proof fn lemma_net_objects_have_the_net_as_dependent(d: DesignModel, k: int, j: int)
    requires
        0 <= k < d.nets.len(),
        0 <= j < d.nets[k].objects.len(),
    ensures
        spec_dependents(spec_design_refs(d), DefinitionIdModel::GeometryObject(d.nets[k].objects[j])).contains(
            ReferenceModel {
                from: "Net:"@ + d.nets[k].name,
                to: DefinitionIdModel::GeometryObject(d.nets[k].objects[j]),
                field: "objects"@,
            },
        ),
        spec_dependents(spec_design_refs(d), DefinitionIdModel::GeometryObject(d.nets[k].objects[j])).len() > 0,
{
    let o = DefinitionIdModel::GeometryObject(d.nets[k].objects[j]);
    let r = ReferenceModel { from: "Net:"@ + d.nets[k].name, to: o, field: "objects"@ };
    lemma_net_ref_listed(d.nets, k, j);
    lemma_contains_in_sum(
        spec_material_refs(d.objects) + spec_boundary_refs(d.boundaries) + spec_excitation_refs(d.excitations),
        spec_net_refs(d.nets),
        r,
    );
    lemma_dependents_are_references_to(spec_design_refs(d), o, r);
}

/// Every object a boundary is assigned to depends on that boundary.
pub proof fn lemma_boundary_targets_have_the_boundary_as_dependent(d: DesignModel, k: int, j: int)
    requires
        0 <= k < d.boundaries.len(),
        0 <= j < d.boundaries[k].assignment.targets.len(),
    ensures
        spec_dependents(
            spec_design_refs(d),
            DefinitionIdModel::GeometryObject(d.boundaries[k].assignment.targets[j]),
        ).contains(
            ReferenceModel {
                from: "Boundary:"@ + d.boundaries[k].name,
                to: DefinitionIdModel::GeometryObject(d.boundaries[k].assignment.targets[j]),
                field: "assignment.targets"@,
            },
        ),
{
    let o = DefinitionIdModel::GeometryObject(d.boundaries[k].assignment.targets[j]);
    let r = ReferenceModel { from: "Boundary:"@ + d.boundaries[k].name, to: o, field: "assignment.targets"@ };
    lemma_boundary_ref_listed(d.boundaries, k, j);
    lemma_contains_in_sum(spec_material_refs(d.objects), spec_boundary_refs(d.boundaries), r);
    lemma_contains_in_sum(
        spec_material_refs(d.objects) + spec_boundary_refs(d.boundaries),
        spec_excitation_refs(d.excitations),
        r,
    );
    lemma_contains_in_sum(
        spec_material_refs(d.objects) + spec_boundary_refs(d.boundaries) + spec_excitation_refs(d.excitations),
        spec_net_refs(d.nets),
        r,
    );
    lemma_dependents_are_references_to(spec_design_refs(d), o, r);
}

/// Every object an assigned excitation targets depends on that excitation.
pub proof fn lemma_excitation_targets_have_the_excitation_as_dependent(d: DesignModel, k: int, j: int)
    requires
        0 <= k < d.excitations.len(),
        d.excitations[k].assignment is Some,
        0 <= j < d.excitations[k].assignment->0.targets.len(),
    ensures
        spec_dependents(
            spec_design_refs(d),
            DefinitionIdModel::GeometryObject(d.excitations[k].assignment->0.targets[j]),
        ).contains(
            ReferenceModel {
                from: "Excitation:"@ + d.excitations[k].name,
                to: DefinitionIdModel::GeometryObject(d.excitations[k].assignment->0.targets[j]),
                field: "assignment.targets"@,
            },
        ),
{
    let o = DefinitionIdModel::GeometryObject(d.excitations[k].assignment->0.targets[j]);
    let r = ReferenceModel { from: "Excitation:"@ + d.excitations[k].name, to: o, field: "assignment.targets"@ };
    lemma_excitation_ref_listed(d.excitations, k, j);
    lemma_contains_in_sum(
        spec_material_refs(d.objects) + spec_boundary_refs(d.boundaries),
        spec_excitation_refs(d.excitations),
        r,
    );
    lemma_contains_in_sum(
        spec_material_refs(d.objects) + spec_boundary_refs(d.boundaries) + spec_excitation_refs(d.excitations),
        spec_net_refs(d.nets),
        r,
    );
    lemma_dependents_are_references_to(spec_design_refs(d), o, r);
}

/// Every material an object uses depends on that object.
pub proof fn lemma_object_materials_have_the_object_as_dependent(d: DesignModel, k: int)
    requires
        0 <= k < d.objects.len(),
    ensures
        spec_dependents(spec_design_refs(d), DefinitionIdModel::Material(d.objects[k].material)).contains(
            ReferenceModel {
                from: "GeometryObject:"@ + d.objects[k].name,
                to: DefinitionIdModel::Material(d.objects[k].material),
                field: "material"@,
            },
        ),
{
    let o = DefinitionIdModel::Material(d.objects[k].material);
    let r = ReferenceModel { from: "GeometryObject:"@ + d.objects[k].name, to: o, field: "material"@ };
    assert(spec_material_refs(d.objects)[k] == r);
    lemma_contains_in_sum(spec_material_refs(d.objects), spec_boundary_refs(d.boundaries), r);
    lemma_contains_in_sum(
        spec_material_refs(d.objects) + spec_boundary_refs(d.boundaries),
        spec_excitation_refs(d.excitations),
        r,
    );
    lemma_contains_in_sum(
        spec_material_refs(d.objects) + spec_boundary_refs(d.boundaries) + spec_excitation_refs(d.excitations),
        spec_net_refs(d.nets),
        r,
    );
    lemma_dependents_are_references_to(spec_design_refs(d), o, r);
}

/// The graph of a design knows exactly the design's own definitions: each
/// material, coordinate system, named selection, design variable and
/// geometry object it declares, by name, and no project variable or
/// dataset.
pub proof fn lemma_declared_definitions(d: DesignModel, n: Seq<char>)
    ensures
        spec_declared(d).contains(DefinitionIdModel::Material(n)) == d.materials.contains(n),
        spec_declared(d).contains(DefinitionIdModel::CoordinateSystem(n)) == d.coordinate_systems.contains(n),
        spec_declared(d).contains(DefinitionIdModel::NamedSelection(n)) == d.named_selections.contains(n),
        spec_declared(d).contains(DefinitionIdModel::DesignVariable(n)) == d.local_variables.contains(n),
        spec_declared(d).contains(DefinitionIdModel::GeometryObject(n)) == (exists|i: int|
            0 <= i < d.objects.len() && #[trigger] d.objects[i].name == n),
        !spec_declared(d).contains(DefinitionIdModel::ProjectVariable(n)),
        !spec_declared(d).contains(DefinitionIdModel::Dataset(n)),
{
    let names = d.objects.map_values(|o: ObjectModel| o.name);
    if exists|i: int| 0 <= i < d.objects.len() && #[trigger] d.objects[i].name == n {
        let i = choose|i: int| 0 <= i < d.objects.len() && #[trigger] d.objects[i].name == n;
        assert(names[i] == n);
    }
    if names.contains(n) {
        let i = choose|i: int| 0 <= i < names.len() && names[i] == n;
        assert(d.objects[i].name == n);
    }
}

} // verus!
