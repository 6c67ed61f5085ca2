use emstudio::draw_dialog::{OperationParam, ParamValue};
use emstudio::expr_program::float_text;
use emstudio::optimetrics::{classify_variation, VariationText};
use emstudio::optimetrics::{Distribution, GoalCondition, OptimAlgorithm};
use emstudio::materials::LayerType;
use emstudio::results::{GeometryError, OptimError, SensitivityError, StatError};
use emstudio::rng::SimpleRng;
use emstudio::backend::{CloudBackend, RunMode};
use emstudio::draw_dialog::{DrawDialog, OperationCommand};
use emstudio::messages::{CenterTab, MessageEntry, Severity};
use emstudio::optimetrics::OptimetricsType;

#[test]
fn box_dialog_fields() {
    let d = DrawDialog::new_box();
    assert_eq!(d.command, OperationCommand::CreateBox);
    assert_eq!(d.title, "Create Box");
    assert_eq!(d.name_field, "Box1");
    assert!(d.open);
    let keys: Vec<&str> = d.fields.iter().map(|f| f.key.as_str()).collect();
    assert_eq!(keys, vec!["origin_x", "origin_y", "origin_z", "width", "height", "depth"]);
    assert_eq!(d.fields[3].label, "Width (X)");
    assert_eq!(d.fields[3].placeholder, "10mm");
    assert_eq!(d.get_field("width"), "10");
    assert_eq!(d.get_field("origin_y"), "0");
    assert_eq!(d.get_field("radius"), "");
}

#[test]
fn other_dialogs() {
    let c = DrawDialog::new_cylinder();
    assert_eq!(c.command, OperationCommand::CreateCylinder);
    assert_eq!(c.fields.len(), 5);
    assert_eq!(c.get_field("radius"), "5");
    assert_eq!(c.name_field, "Cylinder1");

    let s = DrawDialog::new_sphere();
    assert_eq!(s.command, OperationCommand::CreateSphere);
    assert_eq!(s.fields.len(), 4);
    assert_eq!(s.get_field("height"), "");
    assert_eq!(s.title, "Create Sphere");

    let k = DrawDialog::new_cone();
    assert_eq!(k.fields[3].label, "Base Radius");
    assert_eq!(k.get_field("height"), "10");
    assert_eq!(k.name_field, "Cone1");

    let t = DrawDialog::new_torus();
    assert_eq!(t.get_field("major_radius"), "10");
    assert_eq!(t.get_field("minor_radius"), "3");
    assert_eq!(t.fields[4].placeholder, "3mm");
    assert_eq!(t.title, "Create Torus");
}

#[test]
fn get_field_takes_the_first_match() {
    let mut d = DrawDialog::new_box();
    let mut extra = DrawDialog::new_box().fields.remove(3);
    extra.value = "99".to_string();
    d.fields.push(extra);
    assert_eq!(d.get_field("width"), "10");
}

#[test]
fn message_entries() {
    let i = MessageEntry::info("loaded");
    assert_eq!(i.severity, Severity::Info);
    assert_eq!(i.text, "loaded");
    assert_eq!(MessageEntry::warning("w").severity, Severity::Warning);
    let e = MessageEntry::error("bad");
    assert_eq!(e.severity, Severity::Error);
    assert_eq!(e.text, "bad");
}

#[test]
fn center_tab_titles() {
    assert_eq!(CenterTab::Modeling.title(), "Modeling");
    assert_eq!(CenterTab::Result.title(), "Result");
    assert_eq!(CenterTab::Report("S11".to_string()).title(), "S11");
}

#[test]
fn optimetrics_names() {
    assert_eq!(OptimetricsType::ParametricSweep.name(), "Parametric Sweep");
    assert_eq!(OptimetricsType::Optimization.name(), "Optimization");
    assert_eq!(OptimetricsType::Sensitivity.name(), "Sensitivity");
    assert_eq!(OptimetricsType::Statistical.name(), "Statistical");
    assert_eq!(OptimetricsType::Tuning.name(), "Tuning");
}

#[test]
fn cloud_backend() {
    let b = CloudBackend::new("https://api.example.local");
    assert_eq!(b.endpoint(), "https://api.example.local");
    assert_eq!(b.mode(), RunMode::Cloud);
    assert_eq!(b.project_title(), "Cloud Project @ https://api.example.local");
    let r = b.solve("Patch");
    assert!(r.converged);
    assert_eq!(r.field_preview, "Cloud placeholder solve for 'Patch' via https://api.example.local");
    assert_eq!(RunMode::default(), RunMode::Standalone);
}

#[test]
fn variation_texts_are_classified() {
    match classify_variation(" ±10% ") {
        VariationText::Percent(p) => assert_eq!(p, "10"),
        other => panic!("{:?}", other),
    }
    match classify_variation("5%%") {
        VariationText::Percent(p) => assert_eq!(p, "5"),
        other => panic!("{:?}", other),
    }
    match classify_variation("0.5mm") {
        VariationText::Absolute(a) => assert_eq!(a, "0.5"),
        other => panic!("{:?}", other),
    }
    match classify_variation("+-2") {
        VariationText::Absolute(a) => assert_eq!(a, "2"),
        other => panic!("{:?}", other),
    }
}

#[test]
fn distributions_algorithms_and_goal_conditions_by_name() {
    assert_eq!(Distribution::from_name("Uniform"), Some(Distribution::Uniform));
    assert_eq!(Distribution::from_name("Normal"), Some(Distribution::Gaussian));
    assert_eq!(Distribution::from_name("Gaussian"), Some(Distribution::Gaussian));
    assert_eq!(Distribution::from_name("LogNormal"), Some(Distribution::LogNormal));
    assert_eq!(Distribution::from_name("Cauchy"), None);
    assert_eq!(OptimAlgorithm::from_name("LBFGS"), OptimAlgorithm::QuasiNewton);
    assert_eq!(OptimAlgorithm::from_name("GA"), OptimAlgorithm::GeneticAlgorithm);
    assert_eq!(OptimAlgorithm::from_name("SNLP"), OptimAlgorithm::Snlp);
    assert_eq!(OptimAlgorithm::from_name("HookeJeeves"), OptimAlgorithm::PatternSearch);
    assert_eq!(OptimAlgorithm::from_name("anything"), OptimAlgorithm::PatternSearch);
    assert_eq!(GoalCondition::from_name("LessThan"), Some(GoalCondition::LessThan));
    assert_eq!(GoalCondition::from_name("minimize"), None);
}

#[test]
fn layer_kinds() {
    assert!(LayerType::Signal.is_conductor());
    assert!(LayerType::Ground.is_conductor());
    assert!(!LayerType::Dielectric.is_conductor());
    assert!(LayerType::Dielectric.is_dielectric());
    assert!(!LayerType::Background.is_dielectric());
}

#[test]
fn error_texts() {
    assert_eq!(GeometryError::ObjectNotFound("Box9".to_string()).message(), "object not found: Box9");
    assert_eq!(
        GeometryError::InvalidParameters { command: "SweepAlongPath".to_string(), reason: "missing 'spine'".to_string() }
            .message(),
        "invalid parameters for SweepAlongPath: missing 'spine'"
    );
    assert_eq!(OptimError::MaxIterations.message(), "Max iterations reached");
    assert_eq!(SensitivityError::InvalidVariation("x".to_string()).message(), "Invalid variation: x");
    assert_eq!(StatError::InvalidDistribution("Cauchy".to_string()).message(), "Invalid distribution: Cauchy");
}

#[test]
fn generator_mantissas_are_the_top_bits() {
    let mut a = SimpleRng::new(42);
    let mut b = SimpleRng::new(42);
    for _ in 0..100 {
        let m = a.next_u53();
        assert!(m < (1u64 << 53));
        assert_eq!(m, b.next_u64() >> 11);
    }
}

#[test]
fn float_texts() {
    for ok in ["1", "-2.5", "+.5", "1e3", "INF", "-infinity", "NaN", "3E-2"] {
        assert!(float_text(ok), "{ok}");
    }
    for bad in ["", "+", "1,5", "w * 2", " 1", "infinit", "1e", "--1"] {
        assert!(!float_text(bad), "{bad}");
    }
}

fn value(p: &OperationParam) -> String {
    match p {
        OperationParam::Value(ParamValue::Number(t)) => format!("n:{t}"),
        OperationParam::Value(ParamValue::Text(t)) => format!("t:{t}"),
        OperationParam::Point(x, y, z) => {
            let one = |v: &ParamValue| match v {
                ParamValue::Number(t) => format!("n:{t}"),
                ParamValue::Text(t) => format!("t:{t}"),
            };
            format!("[{} {} {}]", one(x), one(y), one(z))
        }
    }
}

#[test]
fn box_dialog_builds_origin_and_size() {
    let mut d = DrawDialog::new_box();
    for f in d.fields.iter_mut() {
        if f.key == "width" {
            f.value = "w * 2".to_string();
        }
        if f.key == "origin_y" {
            f.value = "y0".to_string();
        }
    }
    let op = d.build_operation();
    assert_eq!(op.command, OperationCommand::CreateBox);
    assert_eq!(op.result_object, d.name_field);
    let shown: Vec<(String, String)> = op.params.iter().map(|(k, p)| (k.clone(), value(p))).collect();
    assert_eq!(shown[0].0, "origin");
    assert_eq!(shown[0].1, format!("[n:{} t:y0 n:{}]", d.get_field("origin_x"), d.get_field("origin_z")));
    assert_eq!(shown[1], ("width".to_string(), "t:w * 2".to_string()));
    assert_eq!(shown.len(), 4);
    assert_eq!(shown[2].0, "height");
    assert_eq!(shown[3].0, "depth");
}

#[test]
fn sphere_dialog_has_no_height() {
    let op = DrawDialog::new_sphere().build_operation();
    let keys: Vec<&str> = op.params.iter().map(|(k, _)| k.as_str()).collect();
    assert_eq!(keys, vec!["center", "radius"]);
    let op = DrawDialog::new_cone().build_operation();
    let keys: Vec<&str> = op.params.iter().map(|(k, _)| k.as_str()).collect();
    assert_eq!(keys, vec!["center", "radius", "height"]);
    let op = DrawDialog::new_torus().build_operation();
    let keys: Vec<&str> = op.params.iter().map(|(k, _)| k.as_str()).collect();
    assert_eq!(keys, vec!["center", "major_radius", "minor_radius"]);
}
