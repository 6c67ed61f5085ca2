//! Design validation: reference integrity, name uniqueness, and the
//! solver-specific constraints of HFSS and Q3D designs.
use vstd::prelude::*;
use vstd::string::*;

use crate::design::{
    concat2, contains_string, spec_strings, AssignmentModel, BoundaryModel, DesignModel,
    DesignOutline, ExcitationModel, NetModel, ObjectModel,
};
use crate::solution_type::SolutionType;

verus! {

/// A problem found in a design.
#[derive(Debug)]
pub enum ValidationError {
    DanglingReference { from: String, missing: String, field: String },
    DuplicateName { kind: String, name: String },
    NetWithoutTerminals { net: String },
    NoExcitationPorts { design: String },
    ConductorNotAssigned { object: String },
    NoGroundReference { design: String },
    DuplicateTerminalName { name: String },
    Other(String),
}

/// The text of a validation error, as shown to the user.
pub open spec fn spec_message(e: ValidationErrorModel) -> Seq<char> {
    match e {
        ValidationErrorModel::DanglingReference { from, missing, field } => "dangling reference: "@ + from
            + " references missing "@ + missing + " (field: "@ + field + ")"@,
        ValidationErrorModel::DuplicateName { kind, name } => "duplicate name: "@ + kind + " '"@ + name + "'"@,
        ValidationErrorModel::NetWithoutTerminals { net } => "Q3D net '"@ + net + "' has no terminals"@,
        ValidationErrorModel::NoExcitationPorts { design } => "HFSS design '"@ + design + "' has no excitation ports"@,
        ValidationErrorModel::ConductorNotAssigned { object } => "conductor object '"@ + object
            + "' is not assigned to any net"@,
        ValidationErrorModel::NoGroundReference { design } => "Q3D design '"@ + design + "' has no ground reference net"@,
        ValidationErrorModel::DuplicateTerminalName { name } => "duplicate terminal name '"@ + name + "' across nets"@,
        ValidationErrorModel::Other(m) => m,
    }
}

/// The concatenation of three strings.
fn concat3(a: &str, b: &str, c: &str) -> (r: String)
    ensures
        r@ == a@ + b@ + c@,
{
    let mut s = String::from_str(a);
    s.append(b);
    s.append(c);
    s
}

impl ValidationError {
    /// The text of this error, as shown to the user.
    pub fn message(&self) -> (r: String)
        ensures
            r@ == spec_message(self@),
    {
        match self {
            ValidationError::DanglingReference { from, missing, field } => {
                let mut s = concat3("dangling reference: ", from.as_str(), " references missing ");
                s.append(missing.as_str());
                s.append(" (field: ");
                s.append(field.as_str());
                s.append(")");
                s
            },
            ValidationError::DuplicateName { kind, name } => {
                let mut s = concat3("duplicate name: ", kind.as_str(), " '");
                s.append(name.as_str());
                s.append("'");
                s
            },
            ValidationError::NetWithoutTerminals { net } => concat3("Q3D net '", net.as_str(), "' has no terminals"),
            ValidationError::NoExcitationPorts { design } => concat3("HFSS design '", design.as_str(), "' has no excitation ports"),
            ValidationError::ConductorNotAssigned { object } => concat3(
                "conductor object '",
                object.as_str(),
                "' is not assigned to any net",
            ),
            ValidationError::NoGroundReference { design } => concat3(
                "Q3D design '",
                design.as_str(),
                "' has no ground reference net",
            ),
            ValidationError::DuplicateTerminalName { name } => concat3(
                "duplicate terminal name '",
                name.as_str(),
                "' across nets",
            ),
            ValidationError::Other(m) => m.clone(),
        }
    }
}

/// The mathematical value of a `ValidationError`.
pub enum ValidationErrorModel {
    DanglingReference { from: Seq<char>, missing: Seq<char>, field: Seq<char> },
    DuplicateName { kind: Seq<char>, name: Seq<char> },
    NetWithoutTerminals { net: Seq<char> },
    NoExcitationPorts { design: Seq<char> },
    ConductorNotAssigned { object: Seq<char> },
    NoGroundReference { design: Seq<char> },
    DuplicateTerminalName { name: Seq<char> },
    Other(Seq<char>),
}

impl View for ValidationError {
    type V = ValidationErrorModel;

    open spec fn view(&self) -> ValidationErrorModel {
        match self {
            ValidationError::DanglingReference { from, missing, field } => ValidationErrorModel::DanglingReference {
                from: from@,
                missing: missing@,
                field: field@,
            },
            ValidationError::DuplicateName { kind, name } => ValidationErrorModel::DuplicateName {
                kind: kind@,
                name: name@,
            },
            ValidationError::NetWithoutTerminals { net } => ValidationErrorModel::NetWithoutTerminals { net: net@ },
            ValidationError::NoExcitationPorts { design } => ValidationErrorModel::NoExcitationPorts { design: design@ },
            ValidationError::ConductorNotAssigned { object } => ValidationErrorModel::ConductorNotAssigned { object: object@ },
            ValidationError::NoGroundReference { design } => ValidationErrorModel::NoGroundReference { design: design@ },
            ValidationError::DuplicateTerminalName { name } => ValidationErrorModel::DuplicateTerminalName { name: name@ },
            ValidationError::Other(m) => ValidationErrorModel::Other(m@),
        }
    }
}

/// The values of a list of errors.
pub open spec fn spec_errors(v: Seq<ValidationError>) -> Seq<ValidationErrorModel> {
    v.map_values(|e: ValidationError| e@)
}

// ---------------------------------------------------------------------------
// Specification
// ---------------------------------------------------------------------------

/// The names of the geometry objects.
pub open spec fn spec_object_names(objects: Seq<ObjectModel>) -> Seq<Seq<char>> {
    objects.map_values(|o: ObjectModel| o.name)
}

/// Objects whose material is neither defined nor the implicit `vacuum`.
pub open spec fn spec_material_errors(objects: Seq<ObjectModel>, materials: Seq<Seq<char>>) -> Seq<ValidationErrorModel>
    decreases objects.len(),
{
    if objects.len() == 0 {
        Seq::empty()
    } else {
        let rest = spec_material_errors(objects.drop_last(), materials);
        let o = objects.last();
        if materials.contains(o.material) || o.material == "vacuum"@ {
            rest
        } else {
            rest.push(ValidationErrorModel::DanglingReference {
                from: "GeometryObject:"@ + o.name,
                missing: "Material:"@ + o.material,
                field: "material"@,
            })
        }
    }
}

/// Targets (not named selections, which start with `@`) that name no object.
pub open spec fn spec_target_errors(from: Seq<char>, targets: Seq<Seq<char>>, objects: Seq<Seq<char>>) -> Seq<ValidationErrorModel>
    decreases targets.len(),
{
    if targets.len() == 0 {
        Seq::empty()
    } else {
        let rest = spec_target_errors(from, targets.drop_last(), objects);
        let t = targets.last();
        if (t.len() > 0 && t[0] == '@') || objects.contains(t) {
            rest
        } else {
            rest.push(ValidationErrorModel::DanglingReference {
                from,
                missing: "Object:"@ + t,
                field: "assignment.targets"@,
            })
        }
    }
}

/// Dangling targets of the boundaries, boundary by boundary.
pub open spec fn spec_boundary_errors(bs: Seq<BoundaryModel>, objects: Seq<Seq<char>>) -> Seq<ValidationErrorModel>
    decreases bs.len(),
{
    if bs.len() == 0 {
        Seq::empty()
    } else {
        spec_boundary_errors(bs.drop_last(), objects) + spec_target_errors(
            "Boundary:"@ + bs.last().name,
            bs.last().assignment.targets,
            objects,
        )
    }
}

/// Dangling targets of the assigned excitations, excitation by excitation.
pub open spec fn spec_excitation_errors(es: Seq<ExcitationModel>, objects: Seq<Seq<char>>) -> Seq<ValidationErrorModel>
    decreases es.len(),
{
    if es.len() == 0 {
        Seq::empty()
    } else {
        spec_excitation_errors(es.drop_last(), objects) + match es.last().assignment {
            Some(a) => spec_target_errors("Excitation:"@ + es.last().name, a.targets, objects),
            None => Seq::empty(),
        }
    }
}

/// Each name that already occurred earlier in the list, in order.
pub open spec fn spec_duplicates(names: Seq<Seq<char>>, kind: Seq<char>) -> Seq<ValidationErrorModel>
    decreases names.len(),
{
    if names.len() == 0 {
        Seq::empty()
    } else {
        let rest = spec_duplicates(names.drop_last(), kind);
        if names.drop_last().contains(names.last()) {
            rest.push(ValidationErrorModel::DuplicateName { kind, name: names.last() })
        } else {
            rest
        }
    }
}

/// No name occurs twice.
pub open spec fn spec_distinct(names: Seq<Seq<char>>) -> bool {
    forall|i: int, j: int| 0 <= i < j < names.len() ==> names[i] != names[j]
}

/// Uniqueness checking reports nothing exactly when no name occurs twice.
pub proof fn lemma_no_duplicates_iff_distinct(names: Seq<Seq<char>>, kind: Seq<char>)
    ensures
        spec_duplicates(names, kind).len() == 0 <==> spec_distinct(names),
    decreases names.len(),
{
    if names.len() > 0 {
        let init = names.drop_last();
        lemma_no_duplicates_iff_distinct(init, kind);
        if init.contains(names.last()) {
            let k = choose|k: int| 0 <= k < init.len() && init[k] == names.last();
            assert(names[k] == names[names.len() - 1]);
        } else if spec_distinct(init) {
            assert forall|i: int, j: int| 0 <= i < j < names.len() implies names[i] != names[j] by {
                if j == names.len() - 1 {
                    assert(init[i] == names[i]);
                } else {
                    assert(init[i] == names[i] && init[j] == names[j]);
                }
            }
        } else {
            let (i, j) = choose|i: int, j: int| 0 <= i < j < init.len() && init[i] == init[j];
            assert(names[i] == names[j]);
        }
    }
}

/// Duplicate names among materials, objects, boundaries, excitations and setups.
pub open spec fn spec_name_errors(d: DesignModel) -> Seq<ValidationErrorModel> {
    spec_duplicates(d.materials, "Material"@) + spec_duplicates(spec_object_names(d.objects), "GeometryObject"@)
        + spec_duplicates(d.boundaries.map_values(|b: BoundaryModel| b.name), "Boundary"@)
        + spec_duplicates(d.excitations.map_values(|e: ExcitationModel| e.name), "Excitation"@)
        + spec_duplicates(d.analysis_setups, "AnalysisSetup"@)
}

/// Nets without terminals.
pub open spec fn spec_net_errors(nets: Seq<NetModel>) -> Seq<ValidationErrorModel>
    decreases nets.len(),
{
    if nets.len() == 0 {
        Seq::empty()
    } else {
        let rest = spec_net_errors(nets.drop_last());
        if nets.last().terminals.len() == 0 {
            rest.push(ValidationErrorModel::NetWithoutTerminals { net: nets.last().name })
        } else {
            rest
        }
    }
}

/// A driven design needs an excitation.
pub open spec fn spec_port_errors(d: DesignModel) -> Seq<ValidationErrorModel> {
    if (d.solution_type is DrivenModal || d.solution_type is DrivenTerminal) && d.excitations.len() == 0 {
        seq![ValidationErrorModel::NoExcitationPorts { design: d.name }]
    } else {
        Seq::empty()
    }
}

/// The objects of all nets, net by net.
pub open spec fn spec_net_objects(nets: Seq<NetModel>) -> Seq<Seq<char>>
    decreases nets.len(),
{
    if nets.len() == 0 {
        Seq::empty()
    } else {
        spec_net_objects(nets.drop_last()) + nets.last().objects
    }
}

/// Conductors (objects with a material other than `vacuum`) in no net.
pub open spec fn spec_coverage_errors(objects: Seq<ObjectModel>, assigned: Seq<Seq<char>>) -> Seq<ValidationErrorModel>
    decreases objects.len(),
{
    if objects.len() == 0 {
        Seq::empty()
    } else {
        let rest = spec_coverage_errors(objects.drop_last(), assigned);
        let o = objects.last();
        if o.material.len() > 0 && o.material != "vacuum"@ && !assigned.contains(o.name) {
            rest.push(ValidationErrorModel::ConductorNotAssigned { object: o.name })
        } else {
            rest
        }
    }
}

/// A design with nets needs a ground reference net.
pub open spec fn spec_ground_errors(d: DesignModel) -> Seq<ValidationErrorModel> {
    if d.nets.len() > 0 && !(exists|i: int| 0 <= i < d.nets.len() && d.nets[i].is_ground_reference) {
        seq![ValidationErrorModel::NoGroundReference { design: d.name }]
    } else {
        Seq::empty()
    }
}

/// The terminal names of all nets, net by net.
pub open spec fn spec_terminal_names(nets: Seq<NetModel>) -> Seq<Seq<char>>
    decreases nets.len(),
{
    if nets.len() == 0 {
        Seq::empty()
    } else {
        spec_terminal_names(nets.drop_last()) + nets.last().terminals.map_values(|t: crate::design::TerminalModel| t.name)
    }
}

/// Each terminal name that already occurred earlier, in order.
pub open spec fn spec_terminal_duplicates(names: Seq<Seq<char>>) -> Seq<ValidationErrorModel>
    decreases names.len(),
{
    if names.len() == 0 {
        Seq::empty()
    } else {
        let rest = spec_terminal_duplicates(names.drop_last());
        if names.drop_last().contains(names.last()) {
            rest.push(ValidationErrorModel::DuplicateTerminalName { name: names.last() })
        } else {
            rest
        }
    }
}

/// All problems of a design, in the order they are checked: material
/// references, name uniqueness, boundary and excitation targets, then for
/// Q3D the nets, conductor coverage, ground reference and terminal names,
/// and for HFSS the excitation ports.
pub open spec fn spec_validate_design(d: DesignModel) -> Seq<ValidationErrorModel> {
    let objects = spec_object_names(d.objects);
    spec_material_errors(d.objects, d.materials) + spec_name_errors(d) + (spec_boundary_errors(
        d.boundaries,
        objects,
    ) + spec_excitation_errors(d.excitations, objects)) + (if d.solution_type.spec_is_q3d() {
        spec_net_errors(d.nets) + spec_coverage_errors(d.objects, spec_net_objects(d.nets))
            + spec_ground_errors(d) + spec_terminal_duplicates(spec_terminal_names(d.nets))
    } else {
        Seq::empty()
    }) + (if d.solution_type.spec_is_hfss() {
        spec_port_errors(d)
    } else {
        Seq::empty()
    })
}

/// The missing-port reports among `errors`, in order.
pub open spec fn spec_port_reports(errors: Seq<ValidationErrorModel>) -> Seq<ValidationErrorModel>
    decreases errors.len(),
{
    if errors.len() == 0 {
        Seq::empty()
    } else {
        let rest = spec_port_reports(errors.drop_last());
        if errors.last() is NoExcitationPorts {
            rest.push(errors.last())
        } else {
            rest
        }
    }
}

/// No error of `errors` is a missing-port report.
spec fn spec_no_port_report(errors: Seq<ValidationErrorModel>) -> bool {
    forall|i: int| 0 <= i < errors.len() ==> !(#[trigger] errors[i] is NoExcitationPorts)
}

proof fn lemma_port_reports_add(a: Seq<ValidationErrorModel>, b: Seq<ValidationErrorModel>)
    ensures
        spec_port_reports(a + b) == spec_port_reports(a) + spec_port_reports(b),
    decreases b.len(),
{
    if b.len() == 0 {
        assert(a + b =~= a);
        assert(spec_port_reports(a) + spec_port_reports(b) =~= spec_port_reports(a));
    } else {
        lemma_port_reports_add(a, b.drop_last());
        assert((a + b).drop_last() =~= a + b.drop_last());
        assert((a + b).last() == b.last());
        if b.last() is NoExcitationPorts {
            assert(spec_port_reports(a) + spec_port_reports(b) =~= (spec_port_reports(a) + spec_port_reports(
                b.drop_last(),
            )).push(b.last()));
        }
    }
}

proof fn lemma_port_reports_none(errors: Seq<ValidationErrorModel>)
    requires
        spec_no_port_report(errors),
    ensures
        spec_port_reports(errors) == Seq::<ValidationErrorModel>::empty(),
    decreases errors.len(),
{
    if errors.len() > 0 {
        assert(errors.last() == errors[errors.len() - 1]);
        lemma_port_reports_none(errors.drop_last());
    }
}

proof fn lemma_no_port_add(a: Seq<ValidationErrorModel>, b: Seq<ValidationErrorModel>)
    requires
        spec_no_port_report(a),
        spec_no_port_report(b),
    ensures
        spec_no_port_report(a + b),
{
    assert forall|i: int| 0 <= i < (a + b).len() implies !(#[trigger] (a + b)[i] is NoExcitationPorts) by {
        if i < a.len() {
            assert((a + b)[i] == a[i]);
        } else {
            assert((a + b)[i] == b[i - a.len()]);
        }
    }
}

proof fn lemma_no_port_push(a: Seq<ValidationErrorModel>, e: ValidationErrorModel)
    requires
        spec_no_port_report(a),
        !(e is NoExcitationPorts),
    ensures
        spec_no_port_report(a.push(e)),
{
    assert forall|i: int| 0 <= i < a.push(e).len() implies !(#[trigger] a.push(e)[i] is NoExcitationPorts) by {
        if i < a.len() {
            assert(a.push(e)[i] == a[i]);
        }
    }
}

proof fn lemma_material_errors_no_port(objects: Seq<ObjectModel>, materials: Seq<Seq<char>>)
    ensures
        spec_no_port_report(spec_material_errors(objects, materials)),
    decreases objects.len(),
{
    if objects.len() > 0 {
        lemma_material_errors_no_port(objects.drop_last(), materials);
        let rest = spec_material_errors(objects.drop_last(), materials);
        let o = objects.last();
        lemma_no_port_push(
            rest,
            ValidationErrorModel::DanglingReference {
                from: "GeometryObject:"@ + o.name,
                missing: "Material:"@ + o.material,
                field: "material"@,
            },
        );
    }
}

proof fn lemma_duplicates_no_port(names: Seq<Seq<char>>, kind: Seq<char>)
    ensures
        spec_no_port_report(spec_duplicates(names, kind)),
    decreases names.len(),
{
    if names.len() > 0 {
        lemma_duplicates_no_port(names.drop_last(), kind);
        lemma_no_port_push(
            spec_duplicates(names.drop_last(), kind),
            ValidationErrorModel::DuplicateName { kind, name: names.last() },
        );
    }
}

proof fn lemma_target_errors_no_port(from: Seq<char>, targets: Seq<Seq<char>>, objects: Seq<Seq<char>>)
    ensures
        spec_no_port_report(spec_target_errors(from, targets, objects)),
    decreases targets.len(),
{
    if targets.len() > 0 {
        lemma_target_errors_no_port(from, targets.drop_last(), objects);
        lemma_no_port_push(
            spec_target_errors(from, targets.drop_last(), objects),
            ValidationErrorModel::DanglingReference {
                from,
                missing: "Object:"@ + targets.last(),
                field: "assignment.targets"@,
            },
        );
    }
}

proof fn lemma_boundary_errors_no_port(bs: Seq<BoundaryModel>, objects: Seq<Seq<char>>)
    ensures
        spec_no_port_report(spec_boundary_errors(bs, objects)),
    decreases bs.len(),
{
    if bs.len() > 0 {
        lemma_boundary_errors_no_port(bs.drop_last(), objects);
        lemma_target_errors_no_port("Boundary:"@ + bs.last().name, bs.last().assignment.targets, objects);
        lemma_no_port_add(
            spec_boundary_errors(bs.drop_last(), objects),
            spec_target_errors("Boundary:"@ + bs.last().name, bs.last().assignment.targets, objects),
        );
    }
}

proof fn lemma_excitation_errors_no_port(es: Seq<ExcitationModel>, objects: Seq<Seq<char>>)
    ensures
        spec_no_port_report(spec_excitation_errors(es, objects)),
    decreases es.len(),
{
    if es.len() > 0 {
        lemma_excitation_errors_no_port(es.drop_last(), objects);
        let last = match es.last().assignment {
            Some(a) => spec_target_errors("Excitation:"@ + es.last().name, a.targets, objects),
            None => Seq::empty(),
        };
        match es.last().assignment {
            Some(a) => lemma_target_errors_no_port("Excitation:"@ + es.last().name, a.targets, objects),
            None => {},
        }
        lemma_no_port_add(spec_excitation_errors(es.drop_last(), objects), last);
    }
}

proof fn lemma_net_errors_no_port(nets: Seq<NetModel>)
    ensures
        spec_no_port_report(spec_net_errors(nets)),
    decreases nets.len(),
{
    if nets.len() > 0 {
        lemma_net_errors_no_port(nets.drop_last());
        lemma_no_port_push(
            spec_net_errors(nets.drop_last()),
            ValidationErrorModel::NetWithoutTerminals { net: nets.last().name },
        );
    }
}

proof fn lemma_coverage_errors_no_port(objects: Seq<ObjectModel>, assigned: Seq<Seq<char>>)
    ensures
        spec_no_port_report(spec_coverage_errors(objects, assigned)),
    decreases objects.len(),
{
    if objects.len() > 0 {
        lemma_coverage_errors_no_port(objects.drop_last(), assigned);
        lemma_no_port_push(
            spec_coverage_errors(objects.drop_last(), assigned),
            ValidationErrorModel::ConductorNotAssigned { object: objects.last().name },
        );
    }
}

proof fn lemma_terminal_duplicates_no_port(names: Seq<Seq<char>>)
    ensures
        spec_no_port_report(spec_terminal_duplicates(names)),
    decreases names.len(),
{
    if names.len() > 0 {
        lemma_terminal_duplicates_no_port(names.drop_last());
        lemma_no_port_push(
            spec_terminal_duplicates(names.drop_last()),
            ValidationErrorModel::DuplicateTerminalName { name: names.last() },
        );
    }
}

/// A driven design (modal or terminal) without excitations gets exactly
/// one missing-port report, naming it; every other design gets none.
pub proof fn lemma_missing_ports_reported_once(d: DesignModel)
    ensures
        spec_port_reports(spec_validate_design(d)) == (if (d.solution_type == SolutionType::DrivenModal
            || d.solution_type == SolutionType::DrivenTerminal) && d.excitations.len() == 0 {
            seq![ValidationErrorModel::NoExcitationPorts { design: d.name }]
        } else {
            Seq::<ValidationErrorModel>::empty()
        }),
{
    let objects = spec_object_names(d.objects);
    let m = spec_material_errors(d.objects, d.materials);
    let n = spec_name_errors(d);
    let be = spec_boundary_errors(d.boundaries, objects) + spec_excitation_errors(d.excitations, objects);
    let q = if d.solution_type.spec_is_q3d() {
        spec_net_errors(d.nets) + spec_coverage_errors(d.objects, spec_net_objects(d.nets)) + spec_ground_errors(d)
            + spec_terminal_duplicates(spec_terminal_names(d.nets))
    } else {
        Seq::empty()
    };
    let h = if d.solution_type.spec_is_hfss() {
        spec_port_errors(d)
    } else {
        Seq::empty()
    };
    assert(spec_validate_design(d) == m + n + be + q + h);
    lemma_material_errors_no_port(d.objects, d.materials);
    lemma_duplicates_no_port(d.materials, "Material"@);
    lemma_duplicates_no_port(spec_object_names(d.objects), "GeometryObject"@);
    lemma_duplicates_no_port(d.boundaries.map_values(|b: BoundaryModel| b.name), "Boundary"@);
    lemma_duplicates_no_port(d.excitations.map_values(|e: ExcitationModel| e.name), "Excitation"@);
    lemma_duplicates_no_port(d.analysis_setups, "AnalysisSetup"@);
    lemma_no_port_add(
        spec_duplicates(d.materials, "Material"@),
        spec_duplicates(spec_object_names(d.objects), "GeometryObject"@),
    );
    lemma_no_port_add(
        spec_duplicates(d.materials, "Material"@) + spec_duplicates(spec_object_names(d.objects), "GeometryObject"@),
        spec_duplicates(d.boundaries.map_values(|b: BoundaryModel| b.name), "Boundary"@),
    );
    lemma_no_port_add(
        spec_duplicates(d.materials, "Material"@) + spec_duplicates(spec_object_names(d.objects), "GeometryObject"@)
            + spec_duplicates(d.boundaries.map_values(|b: BoundaryModel| b.name), "Boundary"@),
        spec_duplicates(d.excitations.map_values(|e: ExcitationModel| e.name), "Excitation"@),
    );
    lemma_no_port_add(
        spec_duplicates(d.materials, "Material"@) + spec_duplicates(spec_object_names(d.objects), "GeometryObject"@)
            + spec_duplicates(d.boundaries.map_values(|b: BoundaryModel| b.name), "Boundary"@) + spec_duplicates(
            d.excitations.map_values(|e: ExcitationModel| e.name),
            "Excitation"@,
        ),
        spec_duplicates(d.analysis_setups, "AnalysisSetup"@),
    );
    lemma_boundary_errors_no_port(d.boundaries, objects);
    lemma_excitation_errors_no_port(d.excitations, objects);
    lemma_no_port_add(spec_boundary_errors(d.boundaries, objects), spec_excitation_errors(d.excitations, objects));
    if d.solution_type.spec_is_q3d() {
        lemma_net_errors_no_port(d.nets);
        lemma_coverage_errors_no_port(d.objects, spec_net_objects(d.nets));
        lemma_terminal_duplicates_no_port(spec_terminal_names(d.nets));
        let g = spec_ground_errors(d);
        assert(spec_no_port_report(g));
        lemma_no_port_add(spec_net_errors(d.nets), spec_coverage_errors(d.objects, spec_net_objects(d.nets)));
        lemma_no_port_add(spec_net_errors(d.nets) + spec_coverage_errors(d.objects, spec_net_objects(d.nets)), g);
        lemma_no_port_add(
            spec_net_errors(d.nets) + spec_coverage_errors(d.objects, spec_net_objects(d.nets)) + g,
            spec_terminal_duplicates(spec_terminal_names(d.nets)),
        );
    }
    assert(spec_no_port_report(q));
    lemma_no_port_add(m, n);
    lemma_no_port_add(m + n, be);
    lemma_no_port_add(m + n + be, q);
    lemma_port_reports_none(m + n + be + q);
    lemma_port_reports_add(m + n + be + q, h);
    let one = seq![ValidationErrorModel::NoExcitationPorts { design: d.name }];
    assert(one.drop_last() =~= Seq::<ValidationErrorModel>::empty());
    assert(spec_port_reports(one.drop_last()) == Seq::<ValidationErrorModel>::empty());
    assert(one.last() is NoExcitationPorts);
    assert(Seq::<ValidationErrorModel>::empty().push(one.last()) =~= one);
    assert(spec_port_reports(one) == one);
    assert(spec_port_reports(m + n + be + q) + spec_port_reports(h) =~= spec_port_reports(h));
}

proof fn lemma_error_in_sum(a: Seq<ValidationErrorModel>, b: Seq<ValidationErrorModel>, e: ValidationErrorModel)
    ensures
        a.contains(e) ==> (a + b).contains(e),
        b.contains(e) ==> (a + b).contains(e),
{
    if a.contains(e) {
        let k = choose|k: int| 0 <= k < a.len() && a[k] == e;
        assert((a + b)[k] == e);
    }
    if b.contains(e) {
        let k = choose|k: int| 0 <= k < b.len() && b[k] == e;
        assert((a + b)[a.len() + k] == e);
    }
}

proof fn lemma_error_in_push(a: Seq<ValidationErrorModel>, x: ValidationErrorModel, e: ValidationErrorModel)
    ensures
        a.contains(e) ==> a.push(x).contains(e),
        a.push(x).contains(x),
{
    if a.contains(e) {
        let k = choose|k: int| 0 <= k < a.len() && a[k] == e;
        assert(a.push(x)[k] == e);
    }
    assert(a.push(x)[a.len() as int] == x);
}

proof fn lemma_material_error_listed(objects: Seq<ObjectModel>, materials: Seq<Seq<char>>, k: int)
    requires
        0 <= k < objects.len(),
        !materials.contains(objects[k].material),
        objects[k].material != "vacuum"@,
    ensures
        spec_material_errors(objects, materials).contains(
            ValidationErrorModel::DanglingReference {
                from: "GeometryObject:"@ + objects[k].name,
                missing: "Material:"@ + objects[k].material,
                field: "material"@,
            },
        ),
    decreases objects.len(),
{
    let e = ValidationErrorModel::DanglingReference {
        from: "GeometryObject:"@ + objects[k].name,
        missing: "Material:"@ + objects[k].material,
        field: "material"@,
    };
    let rest = spec_material_errors(objects.drop_last(), materials);
    let o = objects.last();
    let x = ValidationErrorModel::DanglingReference {
        from: "GeometryObject:"@ + o.name,
        missing: "Material:"@ + o.material,
        field: "material"@,
    };
    if k < objects.len() - 1 {
        assert(objects.drop_last()[k] == objects[k]);
        lemma_material_error_listed(objects.drop_last(), materials, k);
        lemma_error_in_push(rest, x, e);
    } else {
        lemma_error_in_push(rest, x, e);
    }
}

proof fn lemma_target_error_listed(from: Seq<char>, targets: Seq<Seq<char>>, objects: Seq<Seq<char>>, j: int)
    requires
        0 <= j < targets.len(),
        !(targets[j].len() > 0 && targets[j][0] == '@'),
        !objects.contains(targets[j]),
    ensures
        spec_target_errors(from, targets, objects).contains(
            ValidationErrorModel::DanglingReference {
                from,
                missing: "Object:"@ + targets[j],
                field: "assignment.targets"@,
            },
        ),
    decreases targets.len(),
{
    let e = ValidationErrorModel::DanglingReference { from, missing: "Object:"@ + targets[j], field: "assignment.targets"@ };
    let rest = spec_target_errors(from, targets.drop_last(), objects);
    let x = ValidationErrorModel::DanglingReference {
        from,
        missing: "Object:"@ + targets.last(),
        field: "assignment.targets"@,
    };
    if j < targets.len() - 1 {
        assert(targets.drop_last()[j] == targets[j]);
        lemma_target_error_listed(from, targets.drop_last(), objects, j);
    }
    lemma_error_in_push(rest, x, e);
}

proof fn lemma_boundary_error_listed(bs: Seq<BoundaryModel>, objects: Seq<Seq<char>>, k: int, j: int)
    requires
        0 <= k < bs.len(),
        0 <= j < bs[k].assignment.targets.len(),
        !(bs[k].assignment.targets[j].len() > 0 && bs[k].assignment.targets[j][0] == '@'),
        !objects.contains(bs[k].assignment.targets[j]),
    ensures
        spec_boundary_errors(bs, objects).contains(
            ValidationErrorModel::DanglingReference {
                from: "Boundary:"@ + bs[k].name,
                missing: "Object:"@ + bs[k].assignment.targets[j],
                field: "assignment.targets"@,
            },
        ),
    decreases bs.len(),
{
    let e = ValidationErrorModel::DanglingReference {
        from: "Boundary:"@ + bs[k].name,
        missing: "Object:"@ + bs[k].assignment.targets[j],
        field: "assignment.targets"@,
    };
    let last = spec_target_errors("Boundary:"@ + bs.last().name, bs.last().assignment.targets, objects);
    if k < bs.len() - 1 {
        assert(bs.drop_last()[k] == bs[k]);
        lemma_boundary_error_listed(bs.drop_last(), objects, k, j);
    } else {
        lemma_target_error_listed("Boundary:"@ + bs.last().name, bs.last().assignment.targets, objects, j);
    }
    lemma_error_in_sum(spec_boundary_errors(bs.drop_last(), objects), last, e);
}

proof fn lemma_net_error_listed(nets: Seq<NetModel>, k: int)
    requires
        0 <= k < nets.len(),
        nets[k].terminals.len() == 0,
    ensures
        spec_net_errors(nets).contains(ValidationErrorModel::NetWithoutTerminals { net: nets[k].name }),
    decreases nets.len(),
{
    let e = ValidationErrorModel::NetWithoutTerminals { net: nets[k].name };
    let rest = spec_net_errors(nets.drop_last());
    let x = ValidationErrorModel::NetWithoutTerminals { net: nets.last().name };
    if k < nets.len() - 1 {
        assert(nets.drop_last()[k] == nets[k]);
        lemma_net_error_listed(nets.drop_last(), k);
    }
    lemma_error_in_push(rest, x, e);
}

/// The parts of the problems of a design, in the order they are listed.
proof fn lemma_validate_design_parts(d: DesignModel)
    ensures
        ({
            let objects = spec_object_names(d.objects);
            let common = spec_material_errors(d.objects, d.materials) + spec_name_errors(d) + (spec_boundary_errors(
                d.boundaries,
                objects,
            ) + spec_excitation_errors(d.excitations, objects));
            let q3d = spec_net_errors(d.nets) + spec_coverage_errors(d.objects, spec_net_objects(d.nets))
                + spec_ground_errors(d) + spec_terminal_duplicates(spec_terminal_names(d.nets));
            &&& forall|e: ValidationErrorModel| spec_material_errors(d.objects, d.materials).contains(e)
                ==> #[trigger] spec_validate_design(d).contains(e)
            &&& forall|e: ValidationErrorModel| spec_boundary_errors(d.boundaries, objects).contains(e)
                ==> #[trigger] spec_validate_design(d).contains(e)
            &&& d.solution_type.spec_is_q3d() ==> forall|e: ValidationErrorModel| #[trigger] q3d.contains(e)
                ==> spec_validate_design(d).contains(e)
        }),
{
    let objects = spec_object_names(d.objects);
    let m = spec_material_errors(d.objects, d.materials);
    let n = spec_name_errors(d);
    let b = spec_boundary_errors(d.boundaries, objects);
    let x = spec_excitation_errors(d.excitations, objects);
    let q3d = spec_net_errors(d.nets) + spec_coverage_errors(d.objects, spec_net_objects(d.nets))
        + spec_ground_errors(d) + spec_terminal_duplicates(spec_terminal_names(d.nets));
    let q = if d.solution_type.spec_is_q3d() {
        q3d
    } else {
        Seq::empty()
    };
    let h = if d.solution_type.spec_is_hfss() {
        spec_port_errors(d)
    } else {
        Seq::empty()
    };
    assert(spec_validate_design(d) == m + n + (b + x) + q + h);
    assert forall|e: ValidationErrorModel| m.contains(e) implies #[trigger] spec_validate_design(d).contains(e) by {
        lemma_error_in_sum(m, n, e);
        lemma_error_in_sum(m + n, b + x, e);
        lemma_error_in_sum(m + n + (b + x), q, e);
        lemma_error_in_sum(m + n + (b + x) + q, h, e);
    }
    assert forall|e: ValidationErrorModel| b.contains(e) implies #[trigger] spec_validate_design(d).contains(e) by {
        lemma_error_in_sum(b, x, e);
        lemma_error_in_sum(m + n, b + x, e);
        lemma_error_in_sum(m + n + (b + x), q, e);
        lemma_error_in_sum(m + n + (b + x) + q, h, e);
    }
    if d.solution_type.spec_is_q3d() {
        assert forall|e: ValidationErrorModel| #[trigger] q3d.contains(e) implies spec_validate_design(d).contains(e) by {
            lemma_error_in_sum(m + n + (b + x), q, e);
            lemma_error_in_sum(m + n + (b + x) + q, h, e);
        }
    }
}

/// An object whose material is neither defined by the design nor the
/// implicit `vacuum` is reported as a dangling reference to that material.
pub proof fn lemma_undefined_material_is_reported(d: DesignModel, k: int)
    requires
        0 <= k < d.objects.len(),
        !d.materials.contains(d.objects[k].material),
        d.objects[k].material != "vacuum"@,
    ensures
        spec_validate_design(d).contains(
            ValidationErrorModel::DanglingReference {
                from: "GeometryObject:"@ + d.objects[k].name,
                missing: "Material:"@ + d.objects[k].material,
                field: "material"@,
            },
        ),
{
    lemma_material_error_listed(d.objects, d.materials, k);
    lemma_validate_design_parts(d);
}

/// A boundary target that is not a named selection (`@...`) and names no
/// object of the design is reported as a dangling reference from that
/// boundary.
pub proof fn lemma_dangling_boundary_target_is_reported(d: DesignModel, k: int, j: int)
    requires
        0 <= k < d.boundaries.len(),
        0 <= j < d.boundaries[k].assignment.targets.len(),
        !(d.boundaries[k].assignment.targets[j].len() > 0 && d.boundaries[k].assignment.targets[j][0] == '@'),
        forall|i: int| 0 <= i < d.objects.len() ==> d.objects[i].name != d.boundaries[k].assignment.targets[j],
    ensures
        spec_validate_design(d).contains(
            ValidationErrorModel::DanglingReference {
                from: "Boundary:"@ + d.boundaries[k].name,
                missing: "Object:"@ + d.boundaries[k].assignment.targets[j],
                field: "assignment.targets"@,
            },
        ),
{
    let objects = spec_object_names(d.objects);
    let t = d.boundaries[k].assignment.targets[j];
    assert(!objects.contains(t)) by {
        if objects.contains(t) {
            let i = choose|i: int| 0 <= i < objects.len() && objects[i] == t;
            assert(objects[i] == d.objects[i].name);
        }
    }
    lemma_boundary_error_listed(d.boundaries, objects, k, j);
    lemma_validate_design_parts(d);
}

/// In a Q3D design, a net without terminals is reported.
pub proof fn lemma_q3d_net_without_terminals_is_reported(d: DesignModel, k: int)
    requires
        d.solution_type.spec_is_q3d(),
        0 <= k < d.nets.len(),
        d.nets[k].terminals.len() == 0,
    ensures
        spec_validate_design(d).contains(ValidationErrorModel::NetWithoutTerminals { net: d.nets[k].name }),
{
    let e = ValidationErrorModel::NetWithoutTerminals { net: d.nets[k].name };
    lemma_net_error_listed(d.nets, k);
    let a = spec_net_errors(d.nets);
    let b = spec_coverage_errors(d.objects, spec_net_objects(d.nets));
    let g = spec_ground_errors(d);
    let t = spec_terminal_duplicates(spec_terminal_names(d.nets));
    lemma_error_in_sum(a, b, e);
    lemma_error_in_sum(a + b, g, e);
    lemma_error_in_sum(a + b + g, t, e);
    lemma_validate_design_parts(d);
}

/// A Q3D design with nets of which none is a ground reference is reported
/// as lacking one.
pub proof fn lemma_q3d_design_without_ground_is_reported(d: DesignModel)
    requires
        d.solution_type.spec_is_q3d(),
        d.nets.len() > 0,
        forall|i: int| 0 <= i < d.nets.len() ==> !d.nets[i].is_ground_reference,
    ensures
        spec_validate_design(d).contains(ValidationErrorModel::NoGroundReference { design: d.name }),
{
    let e = ValidationErrorModel::NoGroundReference { design: d.name };
    let a = spec_net_errors(d.nets);
    let b = spec_coverage_errors(d.objects, spec_net_objects(d.nets));
    let g = spec_ground_errors(d);
    let t = spec_terminal_duplicates(spec_terminal_names(d.nets));
    assert(g == seq![e]);
    assert(g[0] == e);
    lemma_error_in_sum(a + b, g, e);
    lemma_error_in_sum(a + b + g, t, e);
    lemma_validate_design_parts(d);
}

/// All problems of all designs, design by design.
pub open spec fn spec_validate_designs(ds: Seq<DesignModel>) -> Seq<ValidationErrorModel>
    decreases ds.len(),
{
    if ds.len() == 0 {
        Seq::empty()
    } else {
        spec_validate_designs(ds.drop_last()) + spec_validate_design(ds.last())
    }
}

// ---------------------------------------------------------------------------
// Checks
// ---------------------------------------------------------------------------

/// Append one error.
fn push_error(errors: &mut Vec<ValidationError>, e: ValidationError)
    ensures
        spec_errors(final(errors)@) == spec_errors(old(errors)@).push(e@),
{
    let ghost m = e@;
    errors.push(e);
    assert(spec_errors(errors@) =~= spec_errors(old(errors)@).push(m));
}

/// Append a list of errors.
fn append_errors(errors: &mut Vec<ValidationError>, more: Vec<ValidationError>)
    ensures
        spec_errors(final(errors)@) == spec_errors(old(errors)@) + spec_errors(more@),
{
    let mut more = more;
    let ghost m = spec_errors(more@);
    errors.append(&mut more);
    assert(spec_errors(errors@) =~= spec_errors(old(errors)@) + m);
}

/// Whether some object has this name.
fn has_object(objects: &Vec<crate::design::ObjectRef>, name: &str) -> (r: bool)
    ensures
        r == spec_object_names(objects@.map_values(|o: crate::design::ObjectRef| o@)).contains(name@),
{
    let ghost names = spec_object_names(objects@.map_values(|o: crate::design::ObjectRef| o@));
    let mut i: usize = 0;
    while i < objects.len()
        invariant
            names == spec_object_names(objects@.map_values(|o: crate::design::ObjectRef| o@)),
            names.len() == objects@.len(),
            i <= objects@.len(),
            forall|k: int| 0 <= k < i ==> names[k] != name@,
        decreases objects@.len() - i,
    {
        if crate::text::str_eq(objects[i].name.as_str(), name) {
            assert(names[i as int] == name@);
            return true;
        }
        i = i + 1;
    }
    false
}

/// Check that every geometry object's material is defined (or is `vacuum`).
fn check_material_references(design: &DesignOutline) -> (r: Vec<ValidationError>)
    ensures
        spec_errors(r@) == spec_material_errors(design@.objects, design@.materials),
{
    let ghost objs = design@.objects;
    let mut errors: Vec<ValidationError> = Vec::new();
    let mut i: usize = 0;
    assert(spec_errors(errors@) =~= Seq::<ValidationErrorModel>::empty());
    assert(objs.take(0) =~= Seq::<ObjectModel>::empty());
    while i < design.objects.len()
        invariant
            objs == design@.objects,
            objs.len() == design.objects@.len(),
            i <= objs.len(),
            spec_errors(errors@) == spec_material_errors(objs.take(i as int), design@.materials),
        decreases objs.len() - i,
    {
        let o = &design.objects[i];
        assert(objs.take(i + 1).drop_last() =~= objs.take(i as int));
        assert(objs.take(i + 1).last() == o@);
        let defined = contains_string(&design.materials, o.material.as_str());
        let vacuum = crate::text::str_eq(o.material.as_str(), "vacuum");
        if !(defined || vacuum) {
            push_error(
                &mut errors,
                ValidationError::DanglingReference {
                    from: concat2("GeometryObject:", o.name.as_str()),
                    missing: concat2("Material:", o.material.as_str()),
                    field: String::from_str("material"),
                },
            );
        }
        i = i + 1;
    }
    assert(objs.take(objs.len() as int) =~= objs);
    errors
}

/// Dangling targets of one assignment.
fn target_errors(from: &str, targets: &Vec<String>, objects: &Vec<crate::design::ObjectRef>) -> (r: Vec<ValidationError>)
    ensures
        spec_errors(r@) == spec_target_errors(from@, spec_strings(targets@), spec_object_names(objects@.map_values(|o: crate::design::ObjectRef| o@))),
{
    let ghost ts = spec_strings(targets@);
    let ghost names = spec_object_names(objects@.map_values(|o: crate::design::ObjectRef| o@));
    let mut errors: Vec<ValidationError> = Vec::new();
    let mut i: usize = 0;
    assert(spec_errors(errors@) =~= Seq::<ValidationErrorModel>::empty());
    assert(ts.take(0) =~= Seq::<Seq<char>>::empty());
    while i < targets.len()
        invariant
            ts == spec_strings(targets@),
            names == spec_object_names(objects@.map_values(|o: crate::design::ObjectRef| o@)),
            ts.len() == targets@.len(),
            i <= ts.len(),
            spec_errors(errors@) == spec_target_errors(from@, ts.take(i as int), names),
        decreases ts.len() - i,
    {
        let t = targets[i].as_str();
        assert(ts.take(i + 1).drop_last() =~= ts.take(i as int));
        assert(ts.take(i + 1).last() == t@);
        let named_selection = t.unicode_len() > 0 && t.get_char(0) == '@';
        if !named_selection && !has_object(objects, t) {
            push_error(
                &mut errors,
                ValidationError::DanglingReference {
                    from: String::from_str(from),
                    missing: concat2("Object:", t),
                    field: String::from_str("assignment.targets"),
                },
            );
        }
        i = i + 1;
    }
    assert(ts.take(ts.len() as int) =~= ts);
    errors
}

/// Check that boundary and excitation targets exist in the geometry
/// (named selections, written with a leading `@`, are not checked).
fn check_boundary_references(design: &DesignOutline) -> (r: Vec<ValidationError>)
    ensures
        spec_errors(r@) == spec_boundary_errors(design@.boundaries, spec_object_names(design@.objects))
            + spec_excitation_errors(design@.excitations, spec_object_names(design@.objects)),
{
    let ghost names = spec_object_names(design@.objects);
    let ghost bs = design@.boundaries;
    let ghost es = design@.excitations;
    let mut errors: Vec<ValidationError> = Vec::new();
    let mut i: usize = 0;
    assert(spec_errors(errors@) =~= Seq::<ValidationErrorModel>::empty());
    assert(bs.take(0) =~= Seq::<BoundaryModel>::empty());
    while i < design.boundaries.len()
        invariant
            names == spec_object_names(design@.objects),
            bs == design@.boundaries,
            bs.len() == design.boundaries@.len(),
            i <= bs.len(),
            spec_errors(errors@) == spec_boundary_errors(bs.take(i as int), names),
        decreases bs.len() - i,
    {
        let b = &design.boundaries[i];
        assert(bs.take(i + 1).drop_last() =~= bs.take(i as int));
        assert(bs.take(i + 1).last() == b@);
        let from = concat2("Boundary:", b.name.as_str());
        let more = target_errors(from.as_str(), &b.assignment.targets, &design.objects);
        append_errors(&mut errors, more);
        i = i + 1;
    }
    assert(bs.take(bs.len() as int) =~= bs);
    let ghost part1 = spec_errors(errors@);
    let mut j: usize = 0;
    assert(es.take(0) =~= Seq::<ExcitationModel>::empty());
    assert(part1 + Seq::<ValidationErrorModel>::empty() =~= part1);
    while j < design.excitations.len()
        invariant
            names == spec_object_names(design@.objects),
            es == design@.excitations,
            es.len() == design.excitations@.len(),
            j <= es.len(),
            spec_errors(errors@) == part1 + spec_excitation_errors(es.take(j as int), names),
        decreases es.len() - j,
    {
        let e = &design.excitations[j];
        assert(es.take(j + 1).drop_last() =~= es.take(j as int));
        assert(es.take(j + 1).last() == e@);
        let ghost before = spec_errors(errors@);
        match &e.assignment {
            Some(a) => {
                let from = concat2("Excitation:", e.name.as_str());
                let more = target_errors(from.as_str(), &a.targets, &design.objects);
                append_errors(&mut errors, more);
            },
            None => {
                assert(before + Seq::<ValidationErrorModel>::empty() =~= before);
            },
        }
        j = j + 1;
    }
    assert(es.take(es.len() as int) =~= es);
    errors
}

/// Report each name that occurred earlier in `names`, as a duplicate of `kind`.
pub fn check_unique(names: &[&String], kind: &str, errors: &mut Vec<ValidationError>)
    ensures
        spec_errors(final(errors)@) == spec_errors(old(errors)@) + spec_duplicates(names@.map_values(|s: &String| s@), kind@),
{
    let ghost ns = names@.map_values(|s: &String| s@);
    let ghost start = spec_errors(errors@);
    let mut i: usize = 0;
    assert(ns.take(0) =~= Seq::<Seq<char>>::empty());
    assert(start + Seq::<ValidationErrorModel>::empty() =~= start);
    while i < names.len()
        invariant
            ns == names@.map_values(|s: &String| s@),
            ns.len() == names@.len(),
            i <= ns.len(),
            start == spec_errors(old(errors)@),
            spec_errors(errors@) == start + spec_duplicates(ns.take(i as int), kind@),
        decreases ns.len() - i,
    {
        let name = names[i];
        let ghost t = ns.take(i + 1);
        assert(t.drop_last() =~= ns.take(i as int));
        assert(t.last() == name@);
        let mut seen = false;
        let mut k: usize = 0;
        while k < i && !seen
            invariant
                k <= i < ns.len(),
                ns == names@.map_values(|s: &String| s@),
                seen ==> ns.take(i as int).contains(name@),
                !seen ==> forall|q: int| 0 <= q < k ==> ns[q] != name@,
            decreases i - k + (if seen { 0int } else { 1int }),
        {
            if crate::text::str_eq(names[k].as_str(), name.as_str()) {
                assert(ns.take(i as int)[k as int] == name@);
                seen = true;
            } else {
                k = k + 1;
            }
        }
        if !seen {
            assert forall|q: int| 0 <= q < ns.take(i as int).len() implies ns.take(i as int)[q] != name@ by {
                assert(ns.take(i as int)[q] == ns[q]);
            }
        }
        if seen {
            let ghost before = spec_errors(errors@);
            push_error(errors, ValidationError::DuplicateName { kind: String::from_str(kind), name: name.clone() });
            assert(before.push(ValidationErrorModel::DuplicateName { kind: kind@, name: name@ }) =~= start + spec_duplicates(ns.take(i + 1), kind@));
        }
        i = i + 1;
    }
    assert(ns.take(ns.len() as int) =~= ns);
}

/// References to the strings of a list.
fn string_refs(v: &Vec<String>) -> (r: Vec<&String>)
    ensures
        r@.map_values(|s: &String| s@) == spec_strings(v@),
{
    let mut out: Vec<&String> = Vec::new();
    let mut i: usize = 0;
    while i < v.len()
        invariant
            i <= v@.len(),
            out@.map_values(|s: &String| s@) =~= spec_strings(v@).take(i as int),
        decreases v@.len() - i,
    {
        let ghost before = out@.map_values(|s: &String| s@);
        out.push(&v[i]);
        assert(out@.map_values(|s: &String| s@) =~= before.push(v@[i as int]@));
        assert(spec_strings(v@).take(i + 1) =~= spec_strings(v@).take(i as int).push(v@[i as int]@));
        i = i + 1;
    }
    out
}

/// Check name uniqueness across materials, geometry objects, boundaries,
/// excitations and analysis setups.
fn check_name_uniqueness(design: &DesignOutline) -> (r: Vec<ValidationError>)
    ensures
        spec_errors(r@) == spec_name_errors(design@),
{
    let mut errors: Vec<ValidationError> = Vec::new();
    assert(spec_errors(errors@) =~= Seq::<ValidationErrorModel>::empty());
    let mats = string_refs(&design.materials);
    check_unique(mats.as_slice(), "Material", &mut errors);
    let mut objs: Vec<&String> = Vec::new();
    let mut i: usize = 0;
    while i < design.objects.len()
        invariant
            i <= design.objects@.len(),
            objs@.map_values(|s: &String| s@) =~= spec_object_names(design@.objects).take(i as int),
        decreases design.objects@.len() - i,
    {
        let ghost before = objs@.map_values(|s: &String| s@);
        objs.push(&design.objects[i].name);
        assert(objs@.map_values(|s: &String| s@) =~= before.push(design.objects@[i as int].name@));
        assert(spec_object_names(design@.objects).take(i + 1) =~= spec_object_names(design@.objects).take(i as int).push(design.objects@[i as int].name@));
        i = i + 1;
    }
    assert(spec_object_names(design@.objects).take(design.objects@.len() as int) =~= spec_object_names(design@.objects));
    check_unique(objs.as_slice(), "GeometryObject", &mut errors);
    let mut bnames: Vec<&String> = Vec::new();
    let mut j: usize = 0;
    while j < design.boundaries.len()
        invariant
            j <= design.boundaries@.len(),
            bnames@.map_values(|s: &String| s@) =~= design@.boundaries.map_values(|b: BoundaryModel| b.name).take(j as int),
        decreases design.boundaries@.len() - j,
    {
        let ghost before = bnames@.map_values(|s: &String| s@);
        bnames.push(&design.boundaries[j].name);
        assert(bnames@.map_values(|s: &String| s@) =~= before.push(design.boundaries@[j as int].name@));
        assert(design@.boundaries.map_values(|b: BoundaryModel| b.name).take(j + 1) =~= design@.boundaries.map_values(|b: BoundaryModel| b.name).take(j as int).push(design.boundaries@[j as int].name@));
        j = j + 1;
    }
    assert(design@.boundaries.map_values(|b: BoundaryModel| b.name).take(design.boundaries@.len() as int) =~= design@.boundaries.map_values(|b: BoundaryModel| b.name));
    check_unique(bnames.as_slice(), "Boundary", &mut errors);
    let mut enames: Vec<&String> = Vec::new();
    let mut k: usize = 0;
    while k < design.excitations.len()
        invariant
            k <= design.excitations@.len(),
            enames@.map_values(|s: &String| s@) =~= design@.excitations.map_values(|e: ExcitationModel| e.name).take(k as int),
        decreases design.excitations@.len() - k,
    {
        let ghost before = enames@.map_values(|s: &String| s@);
        enames.push(&design.excitations[k].name);
        assert(enames@.map_values(|s: &String| s@) =~= before.push(design.excitations@[k as int].name@));
        assert(design@.excitations.map_values(|e: ExcitationModel| e.name).take(k + 1) =~= design@.excitations.map_values(|e: ExcitationModel| e.name).take(k as int).push(design.excitations@[k as int].name@));
        k = k + 1;
    }
    assert(design@.excitations.map_values(|e: ExcitationModel| e.name).take(design.excitations@.len() as int) =~= design@.excitations.map_values(|e: ExcitationModel| e.name));
    check_unique(enames.as_slice(), "Excitation", &mut errors);
    let setups = string_refs(&design.analysis_setups);
    check_unique(setups.as_slice(), "AnalysisSetup", &mut errors);
    assert(spec_errors(errors@) =~= spec_name_errors(design@));
    errors
}

/// Check Q3D nets: each must have terminals.
fn check_q3d_nets(design: &DesignOutline) -> (r: Vec<ValidationError>)
    ensures
        spec_errors(r@) == spec_net_errors(design@.nets),
{
    let ghost nets = design@.nets;
    let mut errors: Vec<ValidationError> = Vec::new();
    let mut i: usize = 0;
    assert(spec_errors(errors@) =~= Seq::<ValidationErrorModel>::empty());
    assert(nets.take(0) =~= Seq::<NetModel>::empty());
    while i < design.nets.len()
        invariant
            nets == design@.nets,
            nets.len() == design.nets@.len(),
            i <= nets.len(),
            spec_errors(errors@) == spec_net_errors(nets.take(i as int)),
        decreases nets.len() - i,
    {
        let n = &design.nets[i];
        assert(nets.take(i + 1).drop_last() =~= nets.take(i as int));
        assert(nets.take(i + 1).last() == n@);
        if n.terminals.len() == 0 {
            push_error(&mut errors, ValidationError::NetWithoutTerminals { net: n.name.clone() });
        }
        i = i + 1;
    }
    assert(nets.take(nets.len() as int) =~= nets);
    errors
}

/// Check HFSS driven designs: at least one excitation.
fn check_hfss_ports(design: &DesignOutline) -> (r: Vec<ValidationError>)
    ensures
        spec_errors(r@) == spec_port_errors(design@),
{
    let driven = match design.solution_type {
        SolutionType::DrivenModal | SolutionType::DrivenTerminal => true,
        _ => false,
    };
    let mut errors: Vec<ValidationError> = Vec::new();
    if driven && design.excitations.len() == 0 {
        push_error(&mut errors, ValidationError::NoExcitationPorts { design: design.name.clone() });
        assert(spec_errors(errors@) =~= spec_port_errors(design@));
    } else {
        assert(spec_errors(errors@) =~= spec_port_errors(design@));
    }
    errors
}

/// Whether some net holds an object of this name.
fn assigned_to_net(nets: &Vec<crate::design::Net>, name: &str) -> (r: bool)
    ensures
        r == spec_net_objects(nets@.map_values(|n: crate::design::Net| n@)).contains(name@),
{
    let ghost ns = nets@.map_values(|n: crate::design::Net| n@);
    let mut i: usize = 0;
    assert(ns.take(0) =~= Seq::<NetModel>::empty());
    while i < nets.len()
        invariant
            ns == nets@.map_values(|n: crate::design::Net| n@),
            ns.len() == nets@.len(),
            i <= ns.len(),
            !spec_net_objects(ns.take(i as int)).contains(name@),
        decreases ns.len() - i,
    {
        let n = &nets[i];
        assert(ns.take(i + 1).drop_last() =~= ns.take(i as int));
        assert(ns.take(i + 1).last() == n@);
        let ghost prev = spec_net_objects(ns.take(i as int));
        if contains_string(&n.objects, name) {
            proof {
                let k = choose|k: int| 0 <= k < n@.objects.len() && n@.objects[k] == name@;
                assert(spec_net_objects(ns.take(i + 1)) == prev + n@.objects);
                assert(spec_net_objects(ns.take(i + 1))[prev.len() + k] == name@);
                lemma_net_objects_prefix(ns, i + 1);
                assert(spec_net_objects(ns)[prev.len() + k] == name@);
            }
            return true;
        }
        assert(!spec_net_objects(ns.take(i + 1)).contains(name@)) by {
            assert(spec_net_objects(ns.take(i + 1)) == prev + n@.objects);
            let all = spec_net_objects(ns.take(i + 1));
            if all.contains(name@) {
                let k = choose|k: int| 0 <= k < all.len() && #[trigger] all[k] == name@;
                if k < prev.len() {
                    assert(prev[k] == name@);
                } else {
                    assert(n@.objects[k - prev.len()] == name@);
                }
            }
        }
        i = i + 1;
    }
    assert(ns.take(ns.len() as int) =~= ns);
    false
}

/// The objects of the first `k` nets come first among the objects of all nets.
proof fn lemma_net_objects_prefix(ns: Seq<NetModel>, k: int)
    requires
        0 <= k <= ns.len(),
    ensures
        spec_net_objects(ns.take(k)).len() <= spec_net_objects(ns).len(),
        forall|q: int| 0 <= q < spec_net_objects(ns.take(k)).len() ==> spec_net_objects(ns)[q] == spec_net_objects(ns.take(k))[q],
    decreases ns.len() - k,
{
    if k < ns.len() {
        lemma_net_objects_prefix(ns, k + 1);
        assert(ns.take(k + 1).drop_last() =~= ns.take(k));
    } else {
        assert(ns.take(k) =~= ns);
    }
}

/// Check Q3D conductor coverage: every object with a material other than
/// `vacuum` belongs to some net.
fn check_q3d_conductor_coverage(design: &DesignOutline) -> (r: Vec<ValidationError>)
    ensures
        spec_errors(r@) == spec_coverage_errors(design@.objects, spec_net_objects(design@.nets)),
{
    let ghost objs = design@.objects;
    let ghost assigned = spec_net_objects(design@.nets);
    let mut errors: Vec<ValidationError> = Vec::new();
    let mut i: usize = 0;
    assert(spec_errors(errors@) =~= Seq::<ValidationErrorModel>::empty());
    assert(objs.take(0) =~= Seq::<ObjectModel>::empty());
    while i < design.objects.len()
        invariant
            objs == design@.objects,
            assigned == spec_net_objects(design@.nets),
            objs.len() == design.objects@.len(),
            i <= objs.len(),
            spec_errors(errors@) == spec_coverage_errors(objs.take(i as int), assigned),
        decreases objs.len() - i,
    {
        let o = &design.objects[i];
        assert(objs.take(i + 1).drop_last() =~= objs.take(i as int));
        assert(objs.take(i + 1).last() == o@);
        let m = o.material.as_str();
        if m.unicode_len() > 0 && !crate::text::str_eq(m, "vacuum") && !assigned_to_net(&design.nets, o.name.as_str()) {
            push_error(&mut errors, ValidationError::ConductorNotAssigned { object: o.name.clone() });
        }
        i = i + 1;
    }
    assert(objs.take(objs.len() as int) =~= objs);
    errors
}

/// Check that a design with nets has a ground reference net.
fn check_q3d_ground_reference(design: &DesignOutline) -> (r: Vec<ValidationError>)
    ensures
        spec_errors(r@) == spec_ground_errors(design@),
{
    let mut any = false;
    let mut i: usize = 0;
    while i < design.nets.len()
        invariant
            i <= design.nets@.len(),
            any == exists|k: int| 0 <= k < i && design@.nets[k].is_ground_reference,
        decreases design.nets@.len() - i,
    {
        if design.nets[i].is_ground_reference {
            any = true;
            assert(design@.nets[i as int].is_ground_reference);
        } else {
            assert(!design@.nets[i as int].is_ground_reference);
        }
        i = i + 1;
    }
    let mut errors: Vec<ValidationError> = Vec::new();
    if design.nets.len() > 0 && !any {
        push_error(&mut errors, ValidationError::NoGroundReference { design: design.name.clone() });
        assert(spec_errors(errors@) =~= spec_ground_errors(design@));
    } else {
        assert(spec_errors(errors@) =~= spec_ground_errors(design@));
    }
    errors
}

/// Check that terminal names are unique across all nets.
fn check_q3d_terminal_uniqueness(design: &DesignOutline) -> (r: Vec<ValidationError>)
    ensures
        spec_errors(r@) == spec_terminal_duplicates(spec_terminal_names(design@.nets)),
{
    let ghost nets = design@.nets;
    let mut names: Vec<&String> = Vec::new();
    let mut i: usize = 0;
    assert(nets.take(0) =~= Seq::<NetModel>::empty());
    while i < design.nets.len()
        invariant
            nets == design@.nets,
            nets.len() == design.nets@.len(),
            i <= nets.len(),
            names@.map_values(|s: &String| s@) == spec_terminal_names(nets.take(i as int)),
        decreases nets.len() - i,
    {
        let n = &design.nets[i];
        assert(nets.take(i + 1).drop_last() =~= nets.take(i as int));
        assert(nets.take(i + 1).last() == n@);
        let ghost before = names@.map_values(|s: &String| s@);
        let mut k: usize = 0;
        while k < n.terminals.len()
            invariant
                k <= n.terminals@.len(),
                names@.map_values(|s: &String| s@) =~= before + n@.terminals.map_values(|t: crate::design::TerminalModel| t.name).take(k as int),
            decreases n.terminals@.len() - k,
        {
            let ghost b2 = names@.map_values(|s: &String| s@);
            names.push(&n.terminals[k].name);
            assert(names@.map_values(|s: &String| s@) =~= b2.push(n.terminals@[k as int].name@));
            assert(n@.terminals.map_values(|t: crate::design::TerminalModel| t.name).take(k + 1) =~= n@.terminals.map_values(|t: crate::design::TerminalModel| t.name).take(k as int).push(n.terminals@[k as int].name@));
            k = k + 1;
        }
        assert(n@.terminals.map_values(|t: crate::design::TerminalModel| t.name).take(n.terminals@.len() as int) =~= n@.terminals.map_values(|t: crate::design::TerminalModel| t.name));
        i = i + 1;
    }
    assert(nets.take(nets.len() as int) =~= nets);
    let ghost ns = names@.map_values(|s: &String| s@);
    let mut errors: Vec<ValidationError> = Vec::new();
    let mut j: usize = 0;
    assert(spec_errors(errors@) =~= Seq::<ValidationErrorModel>::empty());
    assert(ns.take(0) =~= Seq::<Seq<char>>::empty());
    while j < names.len()
        invariant
            ns == names@.map_values(|s: &String| s@),
            ns.len() == names@.len(),
            j <= ns.len(),
            spec_errors(errors@) == spec_terminal_duplicates(ns.take(j as int)),
        decreases ns.len() - j,
    {
        let name = names[j];
        assert(ns.take(j + 1).drop_last() =~= ns.take(j as int));
        assert(ns.take(j + 1).last() == name@);
        let mut seen = false;
        let mut k: usize = 0;
        while k < j && !seen
            invariant
                k <= j < ns.len(),
                ns == names@.map_values(|s: &String| s@),
                seen ==> ns.take(j as int).contains(name@),
                !seen ==> forall|q: int| 0 <= q < k ==> ns[q] != name@,
            decreases j - k + (if seen { 0int } else { 1int }),
        {
            if crate::text::str_eq(names[k].as_str(), name.as_str()) {
                assert(ns.take(j as int)[k as int] == name@);
                seen = true;
            } else {
                k = k + 1;
            }
        }
        if !seen {
            assert forall|q: int| 0 <= q < ns.take(j as int).len() implies ns.take(j as int)[q] != name@ by {
                assert(ns.take(j as int)[q] == ns[q]);
            }
        }
        if seen {
            push_error(&mut errors, ValidationError::DuplicateTerminalName { name: name.clone() });
        }
        j = j + 1;
    }
    assert(ns.take(ns.len() as int) =~= ns);
    errors
}

/// Validate one design; the problems come in the order of
/// `spec_validate_design`.
pub fn validate_design(design: &DesignOutline) -> (r: Vec<ValidationError>)
    ensures
        spec_errors(r@) == spec_validate_design(design@),
{
    let mut errors: Vec<ValidationError> = Vec::new();
    assert(spec_errors(errors@) =~= Seq::<ValidationErrorModel>::empty());
    append_errors(&mut errors, check_material_references(design));
    append_errors(&mut errors, check_name_uniqueness(design));
    append_errors(&mut errors, check_boundary_references(design));
    let ghost after_common = spec_errors(errors@);
    if design.solution_type.is_q3d() {
        append_errors(&mut errors, check_q3d_nets(design));
        append_errors(&mut errors, check_q3d_conductor_coverage(design));
        append_errors(&mut errors, check_q3d_ground_reference(design));
        append_errors(&mut errors, check_q3d_terminal_uniqueness(design));
    }
    let ghost after_q3d = spec_errors(errors@);
    if design.solution_type.is_hfss() {
        append_errors(&mut errors, check_hfss_ports(design));
    }
    assert(spec_errors(errors@) =~= spec_validate_design(design@));
    errors
}

/// Validate every design of a project, design by design.
pub fn validate_project(designs: &Vec<DesignOutline>) -> (r: Vec<ValidationError>)
    ensures
        spec_errors(r@) == spec_validate_designs(designs@.map_values(|d: DesignOutline| d@)),
{
    let ghost ds = designs@.map_values(|d: DesignOutline| d@);
    let mut errors: Vec<ValidationError> = Vec::new();
    let mut i: usize = 0;
    assert(spec_errors(errors@) =~= Seq::<ValidationErrorModel>::empty());
    assert(ds.take(0) =~= Seq::<DesignModel>::empty());
    while i < designs.len()
        invariant
            ds == designs@.map_values(|d: DesignOutline| d@),
            ds.len() == designs@.len(),
            i <= ds.len(),
            spec_errors(errors@) == spec_validate_designs(ds.take(i as int)),
        decreases ds.len() - i,
    {
        assert(ds.take(i + 1).drop_last() =~= ds.take(i as int));
        assert(ds.take(i + 1).last() == designs@[i as int]@);
        append_errors(&mut errors, validate_design(&designs[i]));
        i = i + 1;
    }
    assert(ds.take(ds.len() as int) =~= ds);
    errors
}

/// The texts of the problems of every design of a project, in order; none
/// when the project is valid.
pub fn validate(designs: &Vec<DesignOutline>) -> (r: Vec<String>)
    ensures
        r@.map_values(|m: String| m@) == spec_validate_designs(designs@.map_values(|d: DesignOutline| d@)).map_values(
            |e: ValidationErrorModel| spec_message(e),
        ),
{
    let errors = validate_project(designs);
    let ghost es = spec_errors(errors@);
    let mut out: Vec<String> = Vec::new();
    let mut i: usize = 0;
    while i < errors.len()
        invariant
            i <= errors@.len(),
            es == spec_errors(errors@),
            es.len() == errors@.len(),
            out@.map_values(|m: String| m@) =~= es.map_values(|e: ValidationErrorModel| spec_message(e)).take(i as int),
        decreases errors@.len() - i,
    {
        let ghost prev = out@.map_values(|m: String| m@);
        let m = errors[i].message();
        assert(es[i as int] == errors@[i as int]@);
        out.push(m);
        assert(out@.map_values(|m: String| m@) =~= prev.push(m@));
        i = i + 1;
    }
    assert(es.map_values(|e: ValidationErrorModel| spec_message(e)).take(i as int) =~= es.map_values(
        |e: ValidationErrorModel| spec_message(e),
    ));
    out
}

} // verus!
