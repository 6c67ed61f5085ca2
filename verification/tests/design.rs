use emstudio::dependency::{mark_stale, DefinitionId, DependencyGraph};
use emstudio::design::{
    Assignment, AssignmentTarget, BoundaryRef, BoundaryType, DesignOutline, ExcitationRef, ExcitationType, Net,
    ObjectRef, SetupSolutionStatus, SolutionIndex, SolveStatus, Terminal,
};
use emstudio::solution_type::SolutionType;
use emstudio::validation::{check_unique, validate, validate_design, validate_project, ValidationError};

fn s(x: &str) -> String {
    x.to_string()
}

fn object(name: &str, material: &str) -> ObjectRef {
    ObjectRef { name: s(name), material: s(material) }
}

fn assignment(targets: &[&str]) -> Assignment {
    Assignment { target_type: AssignmentTarget::Object, targets: targets.iter().map(|t| s(t)).collect() }
}

fn hfss_design() -> DesignOutline {
    DesignOutline {
        name: s("Patch"),
        solution_type: SolutionType::DrivenModal,
        materials: vec![s("copper"), s("FR4")],
        coordinate_systems: vec![s("CS1")],
        named_selections: vec![s("Top")],
        local_variables: vec![s("patch_l")],
        objects: vec![object("Substrate", "FR4"), object("Patch", "copper"), object("Air", "vacuum")],
        boundaries: vec![BoundaryRef {
            name: s("Rad1"),
            boundary_type: BoundaryType::Radiation,
            assignment: assignment(&["Air", "@Top"]),
        }],
        excitations: vec![ExcitationRef {
            name: s("Port1"),
            excitation_type: ExcitationType::LumpedPort,
            assignment: Some(assignment(&["Patch"])),
        }],
        nets: vec![],
        analysis_setups: vec![s("Setup1")],
        solution_index: SolutionIndex {
            setups: vec![
                SetupSolutionStatus { setup: s("Setup1"), status: SolveStatus::Converged, is_stale: false },
                SetupSolutionStatus { setup: s("Old"), status: SolveStatus::Failed, is_stale: false },
            ],
            stale_reason: None,
        },
    }
}

fn q3d_design() -> DesignOutline {
    let mut d = hfss_design();
    d.name = s("Bus");
    d.solution_type = SolutionType::Q3D_C;
    d.excitations = vec![];
    d.nets = vec![
        Net {
            name: s("Signal"),
            objects: vec![s("Patch")],
            is_ground_reference: false,
            terminals: vec![Terminal {
                name: s("T1"),
                terminal_type: ExcitationType::Source,
                assignment: assignment(&["Patch"]),
            }],
        },
        Net { name: s("Gnd"), objects: vec![], is_ground_reference: false, terminals: vec![] },
    ];
    d
}

#[test]
fn valid_hfss_design_has_no_errors() {
    assert!(validate_design(&hfss_design()).is_empty());
}

#[test]
fn dangling_material_is_reported() {
    let mut d = hfss_design();
    d.objects.push(object("Box1", "unobtainium"));
    let errors = validate_design(&d);
    assert_eq!(errors.len(), 1);
    match &errors[0] {
        ValidationError::DanglingReference { from, missing, field } => {
            assert_eq!(from, "GeometryObject:Box1");
            assert_eq!(missing, "Material:unobtainium");
            assert_eq!(field, "material");
        }
        other => panic!("unexpected {:?}", other),
    }
    assert_eq!(
        errors[0].message(),
        "dangling reference: GeometryObject:Box1 references missing Material:unobtainium (field: material)"
    );
}

#[test]
fn dangling_targets_and_named_selections() {
    let mut d = hfss_design();
    d.boundaries[0].assignment.targets.push(s("Ghost"));
    let errors = validate_design(&d);
    assert_eq!(errors.len(), 1);
    assert_eq!(
        errors[0].message(),
        "dangling reference: Boundary:Rad1 references missing Object:Ghost (field: assignment.targets)"
    );
}

#[test]
fn duplicate_names_and_missing_ports() {
    let mut d = hfss_design();
    d.objects.push(object("Patch", "copper"));
    d.excitations.clear();
    let errors = validate_design(&d);
    let messages: Vec<String> = errors.iter().map(|e| e.message()).collect();
    assert_eq!(
        messages,
        vec![s("duplicate name: GeometryObject 'Patch'"), s("HFSS design 'Patch' has no excitation ports")]
    );
}

#[test]
fn check_unique_reports_each_repeat() {
    let names = [s("a"), s("b"), s("a"), s("a")];
    let refs: Vec<&String> = names.iter().collect();
    let mut errors = Vec::new();
    check_unique(&refs, "Material", &mut errors);
    assert_eq!(errors.len(), 2);
    assert_eq!(errors[1].message(), "duplicate name: Material 'a'");
}

#[test]
fn q3d_checks() {
    let errors = validate_design(&q3d_design());
    let messages: Vec<String> = errors.iter().map(|e| e.message()).collect();
    assert_eq!(
        messages,
        vec![
            s("Q3D net 'Gnd' has no terminals"),
            s("conductor object 'Substrate' is not assigned to any net"),
            s("Q3D design 'Bus' has no ground reference net"),
        ]
    );
}

#[test]
fn project_validation_concatenates_designs() {
    let mut bad = hfss_design();
    bad.objects.push(object("Box1", "unobtainium"));
    let errors = validate_project(&vec![hfss_design(), bad, q3d_design()]);
    assert_eq!(errors.len(), 4);
}

#[test]
fn graph_from_design_and_dependents() {
    let d = hfss_design();
    let g = DependencyGraph::from_design(&d);
    assert_eq!(g.definitions.len(), 8);
    assert_eq!(g.references.len(), 6);

    let copper = DefinitionId::Material(s("copper"));
    let deps = g.find_dependents(&copper);
    assert_eq!(deps.len(), 1);
    assert_eq!(deps[0].from, "GeometryObject:Patch");

    let patch = DefinitionId::GeometryObject(s("Patch"));
    assert_eq!(g.can_delete(&patch), Err(vec![s("Excitation:Port1")]));
    assert_eq!(g.can_delete(&DefinitionId::CoordinateSystem(s("CS1"))), Ok(()));
    assert_eq!(DependencyGraph::new().references.len(), 0);
}

#[test]
fn affected_setups_and_stale_marking() {
    let mut d = hfss_design();
    let g = DependencyGraph::from_design(&d);
    let fr4 = DefinitionId::Material(s("FR4"));
    assert_eq!(g.affected_setups(&fr4, &d), vec![s("Setup1")]);
    assert!(g.affected_setups(&DefinitionId::Material(s("gold")), &d).is_empty());

    mark_stale(&mut d, &fr4);
    assert!(d.solution_index.setups[0].is_stale);
    assert!(!d.solution_index.setups[1].is_stale);
    assert_eq!(d.solution_index.stale_reason, Some(s("Modified: Material:FR4")));

    // recording the same change again changes nothing more
    mark_stale(&mut d, &fr4);
    assert!(d.solution_index.setups[0].is_stale);
    assert!(!d.solution_index.setups[1].is_stale);
    assert_eq!(d.solution_index.stale_reason, Some(s("Modified: Material:FR4")));
}

#[test]
fn unreferenced_change_keeps_design() {
    let mut d = hfss_design();
    mark_stale(&mut d, &DefinitionId::NamedSelection(s("Top")));
    assert!(!d.solution_index.setups[0].is_stale);
    assert_eq!(d.solution_index.stale_reason, None);
}

#[test]
fn definition_display_strings() {
    assert_eq!(DefinitionId::ProjectVariable(s("$f")).to_display_string(), "Variable:$f");
    assert_eq!(DefinitionId::DesignVariable(s("w")).to_display_string(), "Variable:w");
    assert_eq!(DefinitionId::Dataset(s("d")).to_display_string(), "Dataset:d");
    assert_eq!(DefinitionId::CoordinateSystem(s("c")).to_display_string(), "CoordSys:c");
    assert_eq!(DefinitionId::NamedSelection(s("n")).to_display_string(), "NamedSelection:n");
    assert_eq!(DefinitionId::GeometryObject(s("o")).to_display_string(), "Object:o");
    assert!(DefinitionId::Material(s("a")).same_as(&DefinitionId::Material(s("a"))));
    assert!(!DefinitionId::Material(s("a")).same_as(&DefinitionId::GeometryObject(s("a"))));
    assert_eq!(SolveStatus::default(), SolveStatus::NotSolved);
}

#[test]
fn validate_lists_messages() {
    let mut bad = hfss_design();
    bad.objects.push(object("Box1", "unobtainium"));
    let messages = emstudio::validation::validate(&vec![hfss_design(), bad]);
    assert_eq!(
        messages,
        vec![s("dangling reference: GeometryObject:Box1 references missing Material:unobtainium (field: material)")]
    );
    assert!(emstudio::validation::validate(&vec![]).is_empty());
}

#[test]
fn em_project_validation_catches_dangling_material() {
    let design = DesignOutline {
        name: s("Test"),
        solution_type: SolutionType::DrivenModal,
        materials: vec![],
        coordinate_systems: vec![],
        named_selections: vec![],
        local_variables: vec![],
        objects: vec![object("Box1", "nonexistent_material")],
        boundaries: vec![],
        excitations: vec![],
        nets: vec![],
        analysis_setups: vec![],
        solution_index: SolutionIndex { setups: vec![], stale_reason: None },
    };
    let designs = vec![design];

    let errors = validate(&designs);
    assert!(!errors.is_empty());
    assert!(errors[0].contains("nonexistent_material"));
}

#[test]
fn definition_labels() {
    assert_eq!(DefinitionId::Material(s("copper")).to_string(), "Material:copper");
    assert_eq!(DefinitionId::ProjectVariable(s("w")).to_string(), "Variable:w");
    assert_eq!(DefinitionId::DesignVariable(s("h")).to_string(), "Variable:h");
    assert_eq!(DefinitionId::Dataset(s("ds1")).to_string(), "Dataset:ds1");
    assert_eq!(DefinitionId::CoordinateSystem(s("CS1")).to_string(), "CoordSys:CS1");
    assert_eq!(DefinitionId::NamedSelection(s("Top")).to_string(), "NamedSelection:Top");
    assert_eq!(DefinitionId::GeometryObject(s("Box1")).to_string(), "Object:Box1");
}
