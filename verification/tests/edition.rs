use emstudio::edition::Edition;
use emstudio::solution_type::SolutionType;

#[test]
fn basic_allows_driven_modal_and_q3d_c() {
    let e = Edition::Basic;
    assert!(e.allows_solution_type(SolutionType::DrivenModal));
    assert!(e.allows_solution_type(SolutionType::Q3D_C));
}

#[test]
fn basic_blocks_other_solution_types() {
    let e = Edition::Basic;
    assert!(!e.allows_solution_type(SolutionType::DrivenTerminal));
    assert!(!e.allows_solution_type(SolutionType::Eigenmode));
    assert!(!e.allows_solution_type(SolutionType::Transient));
    assert!(!e.allows_solution_type(SolutionType::SBRPlus));
    assert!(!e.allows_solution_type(SolutionType::Q3D_DCRL));
    assert!(!e.allows_solution_type(SolutionType::Q3D_ACRL));
    assert!(!e.allows_solution_type(SolutionType::Q3D_CG));
}

#[test]
fn professional_allows_all_solution_types() {
    let e = Edition::Professional;
    assert!(e.allows_solution_type(SolutionType::DrivenTerminal));
    assert!(e.allows_solution_type(SolutionType::Eigenmode));
    assert!(e.allows_solution_type(SolutionType::Q3D_DCRL));
    assert!(e.allows_solution_type(SolutionType::Q3D_CG));
}

#[test]
fn basic_no_solve_all() {
    assert!(!Edition::Basic.allows_solve_all());
    assert!(Edition::Professional.allows_solve_all());
    assert!(Edition::Enterprise.allows_solve_all());
}

#[test]
fn optimetrics_enterprise_only() {
    assert!(!Edition::Basic.allows_optimetrics());
    assert!(!Edition::Professional.allows_optimetrics());
    assert!(Edition::Enterprise.allows_optimetrics());
}

#[test]
fn basic_max_one_setup() {
    assert_eq!(Edition::Basic.max_setups(), Some(1));
    assert_eq!(Edition::Professional.max_setups(), None);
    assert_eq!(Edition::Enterprise.max_setups(), None);
}

#[test]
fn enterprise_allows_everything_professional_does() {
    let all = [
        SolutionType::DrivenModal,
        SolutionType::DrivenTerminal,
        SolutionType::Eigenmode,
        SolutionType::Transient,
        SolutionType::SBRPlus,
        SolutionType::Q3D_DCRL,
        SolutionType::Q3D_ACRL,
        SolutionType::Q3D_C,
        SolutionType::Q3D_CG,
    ];
    for st in all {
        if Edition::Basic.allows_solution_type(st) {
            assert!(Edition::Professional.allows_solution_type(st));
        }
        if Edition::Professional.allows_solution_type(st) {
            assert!(Edition::Enterprise.allows_solution_type(st));
        }
    }
}

#[test]
fn distributed_solve_and_names() {
    assert!(!Edition::Basic.allows_distributed_solve());
    assert!(!Edition::Professional.allows_distributed_solve());
    assert!(Edition::Enterprise.allows_distributed_solve());
    assert_eq!(Edition::Basic.display_name(), "Basic");
    assert_eq!(Edition::Professional.display_name(), "Professional");
    assert_eq!(Edition::Enterprise.display_name(), "Enterprise");
    assert_eq!(Edition::default(), Edition::Professional);
}

#[test]
fn solution_families() {
    assert!(SolutionType::DrivenModal.is_hfss());
    assert!(SolutionType::SBRPlus.is_hfss());
    assert!(!SolutionType::Q3D_C.is_hfss());
    assert!(SolutionType::Q3D_CG.is_q3d());
    assert!(!SolutionType::Eigenmode.is_q3d());
}
