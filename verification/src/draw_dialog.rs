//! The parameters a geometry creation dialog asks for: one field per
//! parameter, with its label, initial value and hint, and the name of the
//! object to create.
use vstd::prelude::*;
use vstd::string::*;

use crate::expr_program::{float_text, spec_float_text};
use crate::text::str_eq;

verus! {

/// Geometry operation commands.
#[derive(Debug, Clone, Copy, PartialEq, Eq, Structural)]
pub enum OperationCommand {
    // Primitives
    CreateBox,
    CreateCylinder,
    CreateSphere,
    CreateCone,
    CreateTorus,
    CreatePolyline,
    CreateRectangle,
    CreateCircle,
    // Boolean operations
    Unite,
    Subtract,
    Intersect,
    // Transformations
    Move,
    Rotate,
    Mirror,
    Scale,
    DuplicateAlongLine,
    DuplicateAroundAxis,
    // Sweeps
    SweepAlongVector,
    SweepAlongPath,
    SweepAroundAxis,
    // Property modifications
    SetMaterial,
    SetColor,
    Rename,
    SetGroup,
    SetSolveInside,
    // Advanced
    Fillet,
    Chamfer,
    Section,
    Import,
}

/// One parameter of a dialog.
pub struct DialogField {
    pub key: String,
    pub label: String,
    pub value: String,
    pub placeholder: String,
}

/// State of an open draw dialog.
pub struct DrawDialog {
    pub command: OperationCommand,
    pub title: String,
    pub fields: Vec<DialogField>,
    pub name_field: String,
    pub open: bool,
}

/// The mathematical value of a `DialogField`.
pub struct DialogFieldModel {
    pub key: Seq<char>,
    pub label: Seq<char>,
    pub value: Seq<char>,
    pub placeholder: Seq<char>,
}

/// The mathematical value of a `DrawDialog`.
pub struct DrawDialogModel {
    pub command: OperationCommand,
    pub title: Seq<char>,
    pub fields: Seq<DialogFieldModel>,
    pub name_field: Seq<char>,
    pub open: bool,
}

impl View for DialogField {
    type V = DialogFieldModel;

    open spec fn view(&self) -> DialogFieldModel {
        DialogFieldModel {
            key: self.key@,
            label: self.label@,
            value: self.value@,
            placeholder: self.placeholder@,
        }
    }
}

impl View for DrawDialog {
    type V = DrawDialogModel;

    open spec fn view(&self) -> DrawDialogModel {
        DrawDialogModel {
            command: self.command,
            title: self.title@,
            fields: self.fields@.map_values(|f: DialogField| f@),
            name_field: self.name_field@,
            open: self.open,
        }
    }
}

/// A field with the given key, label, initial value and hint.
pub open spec fn spec_field(key: &str, label: &str, value: &str, placeholder: &str) -> DialogFieldModel {
    DialogFieldModel { key: key@, label: label@, value: value@, placeholder: placeholder@ }
}

fn field(key: &str, label: &str, value: &str, placeholder: &str) -> (r: DialogField)
    ensures
        r@ == spec_field(key, label, value, placeholder),
{
    DialogField {
        key: String::from_str(key),
        label: String::from_str(label),
        value: String::from_str(value),
        placeholder: String::from_str(placeholder),
    }
}

/// An open dialog for `command`, with the given title, fields and default
/// object name.
pub open spec fn spec_dialog(command: OperationCommand, title: &str, fields: Seq<DialogFieldModel>, name: &str) -> DrawDialogModel {
    DrawDialogModel { command, title: title@, fields, name_field: name@, open: true }
}

/// The fields of a dialog, as values.
pub open spec fn spec_fields(v: Seq<DialogField>) -> Seq<DialogFieldModel> {
    v.map_values(|f: DialogField| f@)
}

/// The three fields of a centre point.
pub open spec fn spec_center_fields() -> Seq<DialogFieldModel> {
    seq![
        spec_field("center_x", "Center X", "0", "0"),
        spec_field("center_y", "Center Y", "0", "0"),
        spec_field("center_z", "Center Z", "0", "0"),
    ]
}

fn center_fields() -> (r: Vec<DialogField>)
    ensures
        spec_fields(r@) == spec_center_fields(),
{
    let mut v: Vec<DialogField> = Vec::new();
    v.push(field("center_x", "Center X", "0", "0"));
    v.push(field("center_y", "Center Y", "0", "0"));
    v.push(field("center_z", "Center Z", "0", "0"));
    assert(spec_fields(v@) =~= spec_center_fields());
    v
}

/// The value of the first field with `key`; empty when there is none.
pub open spec fn spec_get_field(fields: Seq<DialogFieldModel>, key: Seq<char>) -> Seq<char>
    decreases fields.len(),
{
    if fields.len() == 0 {
        Seq::empty()
    } else if fields[0].key == key {
        fields[0].value
    } else {
        spec_get_field(fields.drop_first(), key)
    }
}

/// The dialog of `Create Box`.
pub open spec fn spec_new_box() -> DrawDialogModel {
    spec_dialog(
        OperationCommand::CreateBox,
        "Create Box",
        seq![
            spec_field("origin_x", "Origin X", "0", "0"),
            spec_field("origin_y", "Origin Y", "0", "0"),
            spec_field("origin_z", "Origin Z", "0", "0"),
            spec_field("width", "Width (X)", "10", "10mm"),
            spec_field("height", "Height (Y)", "10", "10mm"),
            spec_field("depth", "Depth (Z)", "10", "10mm"),
        ],
        "Box1",
    )
}

/// The dialog of `Create Cylinder`.
pub open spec fn spec_new_cylinder() -> DrawDialogModel {
    spec_dialog(
        OperationCommand::CreateCylinder,
        "Create Cylinder",
        spec_center_fields() + seq![
            spec_field("radius", "Radius", "5", "5mm"),
            spec_field("height", "Height", "10", "10mm"),
        ],
        "Cylinder1",
    )
}

/// The dialog of `Create Sphere`.
pub open spec fn spec_new_sphere() -> DrawDialogModel {
    spec_dialog(
        OperationCommand::CreateSphere,
        "Create Sphere",
        spec_center_fields() + seq![spec_field("radius", "Radius", "5", "5mm")],
        "Sphere1",
    )
}

/// The dialog of `Create Cone`.
pub open spec fn spec_new_cone() -> DrawDialogModel {
    spec_dialog(
        OperationCommand::CreateCone,
        "Create Cone",
        spec_center_fields() + seq![
            spec_field("radius", "Base Radius", "5", "5mm"),
            spec_field("height", "Height", "10", "10mm"),
        ],
        "Cone1",
    )
}

/// The dialog of `Create Torus`.
pub open spec fn spec_new_torus() -> DrawDialogModel {
    spec_dialog(
        OperationCommand::CreateTorus,
        "Create Torus",
        spec_center_fields() + seq![
            spec_field("major_radius", "Major Radius", "10", "10mm"),
            spec_field("minor_radius", "Minor Radius", "3", "3mm"),
        ],
        "Torus1",
    )
}

impl DrawDialog {
    /// The dialog of `Create Box`: origin, width, height and depth.
    pub fn new_box() -> (r: Self)
        ensures
            r@ == spec_new_box(),
    {
        let mut fields: Vec<DialogField> = Vec::new();
        fields.push(field("origin_x", "Origin X", "0", "0"));
        fields.push(field("origin_y", "Origin Y", "0", "0"));
        fields.push(field("origin_z", "Origin Z", "0", "0"));
        fields.push(field("width", "Width (X)", "10", "10mm"));
        fields.push(field("height", "Height (Y)", "10", "10mm"));
        fields.push(field("depth", "Depth (Z)", "10", "10mm"));
        let r = DrawDialog {
            command: OperationCommand::CreateBox,
            title: String::from_str("Create Box"),
            fields,
            name_field: String::from_str("Box1"),
            open: true,
        };
        assert(r@.fields =~= seq![
            spec_field("origin_x", "Origin X", "0", "0"),
            spec_field("origin_y", "Origin Y", "0", "0"),
            spec_field("origin_z", "Origin Z", "0", "0"),
            spec_field("width", "Width (X)", "10", "10mm"),
            spec_field("height", "Height (Y)", "10", "10mm"),
            spec_field("depth", "Depth (Z)", "10", "10mm"),
        ]);
        r
    }

    /// The dialog of `Create Cylinder`: centre, radius and height.
    pub fn new_cylinder() -> (r: Self)
        ensures
            r@ == spec_new_cylinder(),
    {
        let mut fields = center_fields();
        let ghost c = spec_fields(fields@);
        fields.push(field("radius", "Radius", "5", "5mm"));
        fields.push(field("height", "Height", "10", "10mm"));
        let r = DrawDialog {
            command: OperationCommand::CreateCylinder,
            title: String::from_str("Create Cylinder"),
            fields,
            name_field: String::from_str("Cylinder1"),
            open: true,
        };
        assert(r@.fields =~= c + seq![
            spec_field("radius", "Radius", "5", "5mm"),
            spec_field("height", "Height", "10", "10mm"),
        ]);
        r
    }

    /// The dialog of `Create Sphere`: centre and radius.
    pub fn new_sphere() -> (r: Self)
        ensures
            r@ == spec_new_sphere(),
    {
        let mut fields = center_fields();
        let ghost c = spec_fields(fields@);
        fields.push(field("radius", "Radius", "5", "5mm"));
        let r = DrawDialog {
            command: OperationCommand::CreateSphere,
            title: String::from_str("Create Sphere"),
            fields,
            name_field: String::from_str("Sphere1"),
            open: true,
        };
        assert(r@.fields =~= c + seq![spec_field("radius", "Radius", "5", "5mm")]);
        r
    }

    /// The dialog of `Create Cone`: centre, base radius and height.
    pub fn new_cone() -> (r: Self)
        ensures
            r@ == spec_new_cone(),
    {
        let mut fields = center_fields();
        let ghost c = spec_fields(fields@);
        fields.push(field("radius", "Base Radius", "5", "5mm"));
        fields.push(field("height", "Height", "10", "10mm"));
        let r = DrawDialog {
            command: OperationCommand::CreateCone,
            title: String::from_str("Create Cone"),
            fields,
            name_field: String::from_str("Cone1"),
            open: true,
        };
        assert(r@.fields =~= c + seq![
            spec_field("radius", "Base Radius", "5", "5mm"),
            spec_field("height", "Height", "10", "10mm"),
        ]);
        r
    }

    /// The dialog of `Create Torus`: centre, major and minor radius.
    pub fn new_torus() -> (r: Self)
        ensures
            r@ == spec_new_torus(),
    {
        let mut fields = center_fields();
        let ghost c = spec_fields(fields@);
        fields.push(field("major_radius", "Major Radius", "10", "10mm"));
        fields.push(field("minor_radius", "Minor Radius", "3", "3mm"));
        let r = DrawDialog {
            command: OperationCommand::CreateTorus,
            title: String::from_str("Create Torus"),
            fields,
            name_field: String::from_str("Torus1"),
            open: true,
        };
        assert(r@.fields =~= c + seq![
            spec_field("major_radius", "Major Radius", "10", "10mm"),
            spec_field("minor_radius", "Minor Radius", "3", "3mm"),
        ]);
        r
    }

    /// The value of the first field with `key`; empty when there is none.
    pub fn get_field(&self, key: &str) -> (r: String)
        ensures
            r@ == spec_get_field(self@.fields, key@),
    {
        let ghost fs = self@.fields;
        assert(fs.skip(0) =~= fs);
        let mut i: usize = 0;
        while i < self.fields.len()
            invariant
                i <= self.fields@.len(),
                fs == self@.fields,
                fs.len() == self.fields@.len(),
                spec_get_field(fs, key@) == spec_get_field(fs.skip(i as int), key@),
            decreases self.fields@.len() - i,
        {
            let f = &self.fields[i];
            assert(fs.skip(i as int)[0] == f@);
            assert(fs.skip(i as int).drop_first() =~= fs.skip(i as int + 1));
            if str_eq(f.key.as_str(), key) {
                return f.value.clone();
            }
            i = i + 1;
        }
        assert(fs.skip(i as int) =~= Seq::<DialogFieldModel>::empty());
        String::new()
    }
}


// ---------------------------------------------------------------------------
// The operation of a confirmed dialog
// ---------------------------------------------------------------------------

/// A parameter value as a dialog hands it over: a number where the text
/// reads as one, else the text itself (an expression over variables).
#[derive(Debug, Clone)]
pub enum ParamValue {
    Number(String),
    Text(String),
}

/// The mathematical value of a `ParamValue`.
pub enum ParamValueModel {
    Number(Seq<char>),
    Text(Seq<char>),
}

impl View for ParamValue {
    type V = ParamValueModel;

    open spec fn view(&self) -> ParamValueModel {
        match self {
            ParamValue::Number(t) => ParamValueModel::Number(t@),
            ParamValue::Text(t) => ParamValueModel::Text(t@),
        }
    }
}

/// A parameter of an operation: one value, or a point of three.
#[derive(Debug, Clone)]
pub enum OperationParam {
    Value(ParamValue),
    Point(ParamValue, ParamValue, ParamValue),
}

/// The mathematical value of an `OperationParam`.
pub enum OperationParamModel {
    Value(ParamValueModel),
    Point(ParamValueModel, ParamValueModel, ParamValueModel),
}

impl View for OperationParam {
    type V = OperationParamModel;

    open spec fn view(&self) -> OperationParamModel {
        match self {
            OperationParam::Value(v) => OperationParamModel::Value(v@),
            OperationParam::Point(x, y, z) => OperationParamModel::Point(x@, y@, z@),
        }
    }
}

/// The operation a confirmed dialog describes: its command, the name of the
/// object it creates, and its parameters by name (a later one replaces an
/// earlier one of the same name).
#[derive(Debug, Clone)]
pub struct DialogOperation {
    pub command: OperationCommand,
    pub result_object: String,
    pub params: Vec<(String, OperationParam)>,
}

/// The parameters as values.
pub open spec fn spec_params(v: Seq<(String, OperationParam)>) -> Seq<(Seq<char>, OperationParamModel)> {
    v.map_values(|p: (String, OperationParam)| (p.0@, p.1@))
}

/// A field's text as a parameter value.
pub open spec fn spec_param_value(text: Seq<char>) -> ParamValueModel {
    if spec_float_text(text) {
        ParamValueModel::Number(text)
    } else {
        ParamValueModel::Text(text)
    }
}

/// The value of the first field with `key`, if there is one.
pub open spec fn spec_find_field(fields: Seq<DialogFieldModel>, key: Seq<char>) -> Option<Seq<char>>
    decreases fields.len(),
{
    if fields.len() == 0 {
        None
    } else if fields[0].key == key {
        Some(fields[0].value)
    } else {
        spec_find_field(fields.drop_first(), key)
    }
}

/// The parameter `key` from its field, if the dialog has one.
pub open spec fn spec_field_param(fields: Seq<DialogFieldModel>, key: Seq<char>) -> Seq<(Seq<char>, OperationParamModel)> {
    match spec_find_field(fields, key) {
        Some(v) => seq![(key, OperationParamModel::Value(spec_param_value(v)))],
        None => Seq::empty(),
    }
}

/// The point `name` from the fields `<prefix>_x`, `_y` and `_z` (empty text
/// for a missing one).
pub open spec fn spec_point_param(fields: Seq<DialogFieldModel>, name: Seq<char>, prefix: Seq<char>) -> Seq<(Seq<char>, OperationParamModel)> {
    seq![(name, OperationParamModel::Point(
        spec_param_value(spec_get_field(fields, prefix + "_x"@)),
        spec_param_value(spec_get_field(fields, prefix + "_y"@)),
        spec_param_value(spec_get_field(fields, prefix + "_z"@)),
    ))]
}

/// The parameters of a dialog's operation: for a box its origin and size;
/// for a cylinder and a cone the centre, radius and height; for a sphere
/// the centre and radius; for a torus the centre and both radii; for any
/// other command every field as it stands.
pub open spec fn spec_operation_params(d: DrawDialogModel) -> Seq<(Seq<char>, OperationParamModel)> {
    let f = d.fields;
    match d.command {
        OperationCommand::CreateBox => spec_point_param(f, "origin"@, "origin"@) + spec_field_param(f, "width"@)
            + spec_field_param(f, "height"@) + spec_field_param(f, "depth"@),
        OperationCommand::CreateCylinder | OperationCommand::CreateCone => spec_point_param(f, "center"@, "center"@)
            + spec_field_param(f, "radius"@) + spec_field_param(f, "height"@),
        OperationCommand::CreateSphere => spec_point_param(f, "center"@, "center"@) + spec_field_param(f, "radius"@),
        OperationCommand::CreateTorus => spec_point_param(f, "center"@, "center"@) + spec_field_param(
            f,
            "major_radius"@,
        ) + spec_field_param(f, "minor_radius"@),
        _ => f.map_values(|x: DialogFieldModel| (x.key, OperationParamModel::Value(spec_param_value(x.value)))),
    }
}

/// A field's text as a parameter value.
pub fn param_value(text: &str) -> (r: ParamValue)
    ensures
        r@ == spec_param_value(text@),
{
    if float_text(text) {
        ParamValue::Number(String::from_str(text))
    } else {
        ParamValue::Text(String::from_str(text))
    }
}

impl DrawDialog {
    /// The value of the first field with `key`, if there is one.
    fn find_field(&self, key: &str) -> (r: Option<String>)
        ensures
            match spec_find_field(self@.fields, key@) {
                Some(v) => r matches Some(s) && s@ == v,
                None => r is None,
            },
    {
        let ghost fs = self@.fields;
        assert(fs.skip(0) =~= fs);
        let mut i: usize = 0;
        while i < self.fields.len()
            invariant
                i <= self.fields@.len(),
                fs == self@.fields,
                fs.len() == self.fields@.len(),
                spec_find_field(fs, key@) == spec_find_field(fs.skip(i as int), key@),
            decreases self.fields@.len() - i,
        {
            let f = &self.fields[i];
            assert(fs.skip(i as int)[0] == f@);
            assert(fs.skip(i as int).drop_first() =~= fs.skip(i as int + 1));
            if str_eq(f.key.as_str(), key) {
                return Some(String::from_str(f.value.as_str()));
            }
            i = i + 1;
        }
        assert(fs.skip(i as int) =~= Seq::<DialogFieldModel>::empty());
        None
    }

    /// Append the parameter `key` from its field, if the dialog has one.
    fn push_field_param(&self, params: &mut Vec<(String, OperationParam)>, key: &str)
        ensures
            spec_params(final(params)@) == spec_params(old(params)@) + spec_field_param(self@.fields, key@),
    {
        let ghost before = spec_params(params@);
        match self.find_field(key) {
            Some(v) => {
                let p = (String::from_str(key), OperationParam::Value(param_value(v.as_str())));
                params.push(p);
                assert(spec_params(params@) =~= before + spec_field_param(self@.fields, key@));
            },
            None => {
                assert(before + spec_field_param(self@.fields, key@) =~= before);
            },
        }
    }

    /// The point `name` from the fields `<prefix>_x`, `_y` and `_z`.
    fn point_param(&self, name: &str, x: &str, y: &str, z: &str, Ghost(prefix): Ghost<Seq<char>>) -> (r: Vec<(String, OperationParam)>)
        requires
            x@ == prefix + "_x"@,
            y@ == prefix + "_y"@,
            z@ == prefix + "_z"@,
        ensures
            spec_params(r@) == spec_point_param(self@.fields, name@, prefix),
    {
        let px = param_value(self.get_field(x).as_str());
        let py = param_value(self.get_field(y).as_str());
        let pz = param_value(self.get_field(z).as_str());
        let mut v: Vec<(String, OperationParam)> = Vec::new();
        v.push((String::from_str(name), OperationParam::Point(px, py, pz)));
        assert(spec_params(v@) =~= spec_point_param(self@.fields, name@, prefix));
        v
    }

    /// The operation the dialog describes when it is confirmed, named by
    /// its name field.
    pub fn build_operation(&self) -> (r: DialogOperation)
        ensures
            r.command == self.command,
            r.result_object@ == self.name_field@,
            spec_params(r.params@) == spec_operation_params(self@),
    {
        let mut params: Vec<(String, OperationParam)> = Vec::new();
        proof {
            reveal_strlit("origin");
            reveal_strlit("origin_x");
            reveal_strlit("origin_y");
            reveal_strlit("origin_z");
            reveal_strlit("center");
            reveal_strlit("center_x");
            reveal_strlit("center_y");
            reveal_strlit("center_z");
            reveal_strlit("_x");
            reveal_strlit("_y");
            reveal_strlit("_z");
            assert("origin_x"@ =~= "origin"@ + "_x"@);
            assert("origin_y"@ =~= "origin"@ + "_y"@);
            assert("origin_z"@ =~= "origin"@ + "_z"@);
            assert("center_x"@ =~= "center"@ + "_x"@);
            assert("center_y"@ =~= "center"@ + "_y"@);
            assert("center_z"@ =~= "center"@ + "_z"@);
        }
        match self.command {
            OperationCommand::CreateBox => {
                params = self.point_param("origin", "origin_x", "origin_y", "origin_z", Ghost("origin"@));
                self.push_field_param(&mut params, "width");
                self.push_field_param(&mut params, "height");
                self.push_field_param(&mut params, "depth");
            },
            OperationCommand::CreateCylinder | OperationCommand::CreateCone => {
                params = self.point_param("center", "center_x", "center_y", "center_z", Ghost("center"@));
                self.push_field_param(&mut params, "radius");
                self.push_field_param(&mut params, "height");
            },
            OperationCommand::CreateSphere => {
                params = self.point_param("center", "center_x", "center_y", "center_z", Ghost("center"@));
                self.push_field_param(&mut params, "radius");
            },
            OperationCommand::CreateTorus => {
                params = self.point_param("center", "center_x", "center_y", "center_z", Ghost("center"@));
                self.push_field_param(&mut params, "major_radius");
                self.push_field_param(&mut params, "minor_radius");
            },
            _ => {
                let ghost fs = self@.fields;
                let mut i: usize = 0;
                while i < self.fields.len()
                    invariant
                        i <= self.fields@.len(),
                        fs == self@.fields,
                        fs.len() == self.fields@.len(),
                        spec_params(params@) == fs.take(i as int).map_values(
                            |x: DialogFieldModel| (x.key, OperationParamModel::Value(spec_param_value(x.value))),
                        ),
                    decreases self.fields@.len() - i,
                {
                    let f = &self.fields[i];
                    let ghost before = spec_params(params@);
                    let entry = (String::from_str(f.key.as_str()), OperationParam::Value(param_value(f.value.as_str())));
                    let ghost e = (entry.0@, entry.1@);
                    params.push(entry);
                    assert(spec_params(params@) =~= before.push(e));
                    assert(fs[i as int] == f@);
                    assert(fs.take(i + 1) =~= fs.take(i as int).push(f@));
                    assert(fs.take(i + 1).map_values(
                        |x: DialogFieldModel| (x.key, OperationParamModel::Value(spec_param_value(x.value))),
                    ) =~= fs.take(i as int).map_values(
                        |x: DialogFieldModel| (x.key, OperationParamModel::Value(spec_param_value(x.value))),
                    ).push(e));
                    assert(spec_params(params@) =~= fs.take(i + 1).map_values(
                        |x: DialogFieldModel| (x.key, OperationParamModel::Value(spec_param_value(x.value))),
                    ));
                    i = i + 1;
                }
                assert(fs.take(fs.len() as int) =~= fs);
            },
        }
        DialogOperation { command: self.command, result_object: String::from_str(self.name_field.as_str()), params }
    }
}

} // verus!
