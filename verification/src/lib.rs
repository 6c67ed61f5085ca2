//! The domain logic of an electromagnetic simulation studio: meshes and
//! field files, designs and their validation, parametric sweeps, trace and
//! variable expressions, the application's ribbon and shell, and the data
//! records of setups, reports and results.
pub mod solution_type;
pub mod text;
pub mod quantity_expr;
pub mod edition;
pub mod emsfld;
pub mod rng;
pub mod msh;
pub mod design;
pub mod validation;
pub mod dependency;
pub mod sweep;
pub mod draw_dialog;
pub mod messages;
pub mod backend;
pub mod expression;
pub mod settings;
pub mod analysis;
pub mod optimetrics;
pub mod report;
pub mod project;
pub mod field_overlay;
pub mod materials;
pub mod radiation;
pub mod results;
pub mod ribbon;
pub mod shell;
pub mod ribbon_tabs;
pub mod vtk;
pub mod panels;
pub mod shapes;
pub mod resolve;
pub mod expr_program;
pub mod menu_bar;
pub mod optimetrics_panel;
pub mod qat;
pub mod project_store;
pub mod design_vars;
pub mod json_display;
