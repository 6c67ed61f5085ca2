use emstudio::analysis::{default_max_passes, default_min_converged, default_order_basis, default_solver_type, SweepType};
use emstudio::expression::{math_function, split_value_unit, ExprError, MathFunction, Tokenizer};
use emstudio::field_overlay::{default_linear, default_mag, default_num_colors, default_shaded, default_zero_deg, FieldPlotType};
use emstudio::materials::{default_color, default_material, default_stack_unit, MaterialCategory};
use emstudio::optimetrics::{default_max_iterations, default_num_samples, default_num_trials, default_quasi_newton, default_uniform};
use emstudio::project::{check_version, chrono_now_stub, default_application, default_version, FileError, ProjectMetadata};
use emstudio::radiation::{default_global_cs, default_infinite_sphere, AntennaParameters};
use emstudio::report::{default_line_style, default_line_width, default_trace_color, ChartType, DisplayOptions};
use emstudio::results::{InterpolationType, SpiceExportOptions, SpiceModelType};
use emstudio::rng::SimpleRng;
use emstudio::settings::{
    default_cartesian, default_units, default_zero_mm, DeembeddingSettings, DesignSettings, SelectionType,
};

#[test]
fn design_settings_defaults() {
    let d = DesignSettings::default();
    assert!(d.port_impedance_normalization.enabled);
    assert_eq!(d.port_impedance_normalization.reference_impedance, "50ohm");
    assert!(!d.deembedding.enabled);
    assert_eq!(d.deembedding.default_distance, "");
    assert_eq!(d.s_matrix_type, "Modal");
    assert_eq!(d.environment_temperature, "22cel");
    assert!(d.model_validation.validate_before_solve && d.model_validation.check_port_on_boundary);
    assert_eq!(d.solver_options.curved_elements_order, "1st");
    assert!(!d.solver_options.use_shell_elements && d.solver_options.allow_solver_fallback);
    assert_eq!(DeembeddingSettings::default().default_distance, "");
    assert_eq!(default_zero_mm(), "0mm");
    assert_eq!(default_units(), "mm");
    assert_eq!(default_cartesian(), "Cartesian");
    assert_eq!(SelectionType::default(), SelectionType::Object);
}

#[test]
fn serde_fallback_values() {
    assert_eq!(default_max_passes(), 15);
    assert_eq!(default_min_converged(), 2);
    assert_eq!(default_order_basis(), "Mixed");
    assert_eq!(default_solver_type(), "Direct");
    assert_eq!(SweepType::default(), SweepType::Discrete);
    assert_eq!(default_mag(), "Mag");
    assert_eq!(default_zero_deg(), "0deg");
    assert_eq!(default_linear(), "Linear");
    assert_eq!(default_shaded(), "Shaded");
    assert_eq!(default_num_colors(), 256);
    assert_eq!(FieldPlotType::default(), FieldPlotType::Surface);
    assert_eq!(default_material(), "vacuum");
    assert_eq!(default_color(), [128, 128, 128]);
    assert_eq!(default_stack_unit(), "mm");
    assert_eq!(MaterialCategory::default(), MaterialCategory::Dielectric);
    assert_eq!(default_quasi_newton(), "QuasiNewton");
    assert_eq!(default_max_iterations(), 100);
    assert_eq!(default_num_samples(), 50);
    assert_eq!(default_num_trials(), 1000);
    assert_eq!(default_uniform(), "Uniform");
    assert_eq!(default_trace_color(), [0, 0, 255]);
    assert_eq!(default_line_width(), 2);
    assert_eq!(default_line_style(), "Solid");
    assert_eq!(ChartType::default(), ChartType::Rectangular);
    assert!(DisplayOptions::default().decimal_places.is_none());
    assert_eq!(default_infinite_sphere(), "InfiniteSphere");
    assert_eq!(default_global_cs(), "Global");
    let a = AntennaParameters::default();
    assert_eq!(a.reference_impedance, "50ohm");
    assert!(a.calculate_antenna_params);
    let o = SpiceExportOptions::default();
    assert_eq!((o.frequency_idx, o.model_type, o.include_mutual), (0, SpiceModelType::PiModel, true));
    assert_eq!(InterpolationType::default(), InterpolationType::PiecewiseLinear);
}

#[test]
fn project_metadata_and_versions() {
    let m = ProjectMetadata::default();
    assert_eq!(m.version, "1.0.0");
    assert_eq!(m.application, "EMStudio");
    assert_eq!(m.author, "");
    assert_eq!(default_version(), "1.0.0");
    assert_eq!(default_application(), "EMStudio");
    assert!(check_version("1.0.0").is_ok());
    assert!(check_version("1.7").is_ok());
    match check_version("2.0.0") {
        Err(FileError::UnsupportedVersion(v)) => assert_eq!(v, "2.0.0"),
        other => panic!("unexpected {:?}", other),
    }
    assert!(check_version("1").is_err());
    assert_eq!(chrono_now_stub(), "2026-01-01T00:00:00Z");
}

#[test]
fn tokenizer_scanning() {
    let mut t = Tokenizer::new("  $freq*2.4GHz + 1e-3 patch_l");
    assert_eq!(t.peek_char(), Some(' '));
    t.skip_whitespace();
    assert_eq!(t.pos, 2);
    assert_eq!(t.read_ident(), "$freq");
    assert_eq!(t.advance(), Some('*'));
    assert_eq!(t.read_number_text(), ("2.4".to_string(), "GHz".to_string()));
    t.skip_whitespace();
    assert_eq!(t.advance(), Some('+'));
    t.skip_whitespace();
    assert_eq!(t.read_number_text(), ("1e-3".to_string(), "".to_string()));
    t.skip_whitespace();
    assert_eq!(t.read_ident(), "patch_l");
    assert_eq!(t.peek_char(), None);
    assert_eq!(t.advance(), None);
    assert_eq!(t.pos, t.chars.len());
}

#[test]
fn tokenizer_units_and_unicode() {
    let mut t = Tokenizer::new("28.5µm");
    assert_eq!(t.read_number_text(), ("28.5".to_string(), "µm".to_string()));
    let mut u = Tokenizer::new("\u{3000}x");
    u.skip_whitespace();
    assert_eq!(u.read_ident(), "x");
}

/// The xoshiro256** generator seeded with SplitMix64, written out directly.
fn reference_sequence(seed: u64, n: usize) -> Vec<u64> {
    let mut state = seed;
    let mut s = [0u64; 4];
    for si in &mut s {
        state = state.wrapping_add(0x9e3779b97f4a7c15);
        let mut z = state;
        z = (z ^ (z >> 30)).wrapping_mul(0xbf58476d1ce4e5b9);
        z = (z ^ (z >> 27)).wrapping_mul(0x94d049bb133111eb);
        *si = z ^ (z >> 31);
    }
    let mut out = Vec::new();
    for _ in 0..n {
        out.push(s[1].wrapping_mul(5).rotate_left(7).wrapping_mul(9));
        let t = s[1] << 17;
        s[2] ^= s[0];
        s[3] ^= s[1];
        s[1] ^= s[2];
        s[0] ^= s[3];
        s[2] ^= t;
        s[3] = s[3].rotate_left(45);
    }
    out
}

#[test]
fn simple_rng_matches_reference() {
    for seed in [0u64, 1, 123, u64::MAX] {
        let mut rng = SimpleRng::new(seed);
        let got: Vec<u64> = (0..20).map(|_| rng.next_u64()).collect();
        assert_eq!(got, reference_sequence(seed, 20));
    }
}

#[test]
fn simple_rng_unit_interval() {
    let mut rng = SimpleRng::new(123);
    for _ in 0..100 {
        let v = (rng.next_u64() >> 11) as f64 / (1u64 << 53) as f64;
        assert!(v >= 0.0 && v < 1.0, "got {}", v);
    }
}

#[test]
fn same_seed_same_sequence() {
    let mut a = SimpleRng::new(42);
    let mut b = SimpleRng::new(42);
    for _ in 0..10 {
        assert_eq!(a.next_u64(), b.next_u64());
    }
}

#[test]
fn values_split_into_number_and_unit() {
    assert_eq!(split_value_unit("  2.4GHz ").unwrap(), ("2.4".to_string(), "GHz".to_string()));
    assert_eq!(split_value_unit("28.5mm").unwrap(), ("28.5".to_string(), "mm".to_string()));
    assert_eq!(split_value_unit("3µm").unwrap(), ("3".to_string(), "µm".to_string()));
    assert_eq!(split_value_unit("1e9").unwrap(), ("1e9".to_string(), "".to_string()));
    assert_eq!(split_value_unit("42").unwrap(), ("42".to_string(), "".to_string()));
    match split_value_unit("   ") {
        Err(ExprError::ParseError(m)) => assert_eq!(m, "empty value"),
        other => panic!("{:?}", other),
    }
}

#[test]
fn exponents_stay_in_the_number() {
    assert_eq!(split_value_unit("1e-3").unwrap(), ("1e-3".to_string(), "".to_string()));
    assert_eq!("1e-3".parse::<f64>().unwrap(), 0.001);
    assert_eq!(split_value_unit("2.5E+6Hz").unwrap(), ("2.5E+6".to_string(), "Hz".to_string()));
    assert_eq!(split_value_unit("2.5e3mm").unwrap(), ("2.5e3".to_string(), "mm".to_string()));
    assert_eq!(split_value_unit("5em").unwrap(), ("5".to_string(), "em".to_string()));
    assert_eq!(split_value_unit("1e").unwrap(), ("1".to_string(), "e".to_string()));
    assert_eq!(split_value_unit("1e-").unwrap(), ("1".to_string(), "e-".to_string()));
    assert_eq!(split_value_unit("1e-x").unwrap(), ("1".to_string(), "e-x".to_string()));
    assert_eq!(split_value_unit("e5").unwrap(), ("".to_string(), "e5".to_string()));
    assert_eq!(split_value_unit("3 E9").unwrap(), ("3 ".to_string(), "E9".to_string()));
}

#[test]
fn functions_by_name_and_arity() {
    assert_eq!(math_function("sqrt", 1).unwrap(), MathFunction::Sqrt);
    assert_eq!(math_function("log", 1).unwrap(), MathFunction::Ln);
    assert_eq!(math_function("ln", 1).unwrap(), MathFunction::Ln);
    assert_eq!(math_function("max", 3).unwrap(), MathFunction::Max);
    assert_eq!(math_function("pow", 2).unwrap(), MathFunction::Pow);
    match math_function("sin", 2) {
        Err(ExprError::ParseError(m)) => assert_eq!(m, "sin expects 1 argument(s), got 2"),
        other => panic!("{:?}", other),
    }
    match math_function("min", 1) {
        Err(ExprError::ParseError(m)) => assert_eq!(m, "min requires at least 2 arguments, got 1"),
        other => panic!("{:?}", other),
    }
    match math_function("pow", 3) {
        Err(ExprError::ParseError(m)) => assert_eq!(m, "pow expects 2 argument(s), got 3"),
        other => panic!("{:?}", other),
    }
    match math_function("sinh", 1) {
        Err(ExprError::UnknownFunction(n)) => assert_eq!(n, "sinh"),
        other => panic!("{:?}", other),
    }
}
