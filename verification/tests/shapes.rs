use emstudio::draw_dialog::OperationCommand;
use emstudio::results::GeometryError;
use emstudio::shapes::{snapshot_attributes, CommandGroup, ShapeTable};

#[test]
fn objects_are_numbered_and_named() {
    let mut t: ShapeTable<u32> = ShapeTable::new();
    assert_eq!(t.next_id(), 1);
    assert_eq!(t.result_name(None, "Box"), "Box1");
    assert_eq!(t.result_name(Some("MyBox"), "Box"), "MyBox");
    let id = t.insert("Box1".to_string(), 7);
    assert_eq!(id, 1);
    assert_eq!(t.next_id(), 2);
    assert_eq!(t.result_name(None, "Cylinder"), "Cylinder2");
    assert_eq!(t.get("Box1"), Some(&7));
    assert!(t.contains("Box1"));
    assert!(!t.contains("Box2"));
}

#[test]
fn take_removes_and_reports_missing_objects() {
    let mut t: ShapeTable<&str> = ShapeTable::new();
    t.insert("target".to_string(), "a");
    t.insert("tool".to_string(), "b");
    assert_eq!(t.take("tool").unwrap(), "b");
    assert!(!t.contains("tool"));
    match t.take("NonExistent") {
        Err(GeometryError::ObjectNotFound(n)) => assert_eq!(n, "NonExistent"),
        other => panic!("unexpected {:?}", other.map(|_| ())),
    }
    assert_eq!(t.all().len(), 1);
}

#[test]
fn inserting_an_existing_name_replaces_the_shape() {
    let mut t: ShapeTable<i32> = ShapeTable::new();
    t.insert("Box1".to_string(), 1);
    t.insert("Box1".to_string(), 2);
    assert_eq!(t.all().len(), 1);
    assert_eq!(t.get("Box1"), Some(&2));
    assert_eq!(t.next_id(), 3);
    t.clear();
    assert!(t.all().is_empty());
    assert_eq!(t.next_id(), 1);
}

#[test]
fn rename_moves_a_shape_to_its_new_name() {
    let mut t: ShapeTable<i32> = ShapeTable::new();
    t.insert("Box1".to_string(), 5);
    let shape = t.take("Box1").unwrap();
    t.insert("MyBox".to_string(), shape);
    assert!(!t.contains("Box1"));
    assert_eq!(t.get("MyBox"), Some(&5));
}

#[test]
fn command_groups_and_prefixes() {
    assert_eq!(OperationCommand::CreateBox.group(), CommandGroup::Primitive);
    assert_eq!(OperationCommand::Subtract.group(), CommandGroup::Boolean);
    assert_eq!(OperationCommand::Mirror.group(), CommandGroup::Transform);
    assert_eq!(OperationCommand::SetColor.group(), CommandGroup::Property);
    assert_eq!(OperationCommand::Rename.group(), CommandGroup::Rename);
    assert_eq!(OperationCommand::SweepAroundAxis.group(), CommandGroup::Sweep);
    assert_eq!(OperationCommand::Import.group(), CommandGroup::Import);
    assert_eq!(OperationCommand::Fillet.group(), CommandGroup::NotImplemented);
    assert_eq!(OperationCommand::CreateTorus.name_prefix(), Some("Torus"));
    assert_eq!(OperationCommand::SweepAlongVector.name_prefix(), Some("Extrude"));
    assert_eq!(OperationCommand::SweepAroundAxis.name_prefix(), Some("Revolve"));
    assert_eq!(OperationCommand::SweepAlongPath.name_prefix(), Some("Sweep"));
    assert_eq!(OperationCommand::Move.name_prefix(), None);
}

#[test]
fn property_commands_need_an_existing_target() {
    let mut t: ShapeTable<u32> = ShapeTable::new();
    t.insert("Box1".to_string(), 1);
    assert!(t.check_target("Box1").is_ok());
    match t.check_target("Ghost") {
        Err(GeometryError::ObjectNotFound(n)) => assert_eq!(n, "Ghost"),
        other => panic!("unexpected {:?}", other),
    }
}

#[test]
fn rename_moves_the_shape_and_numbers_it_anew() {
    let mut t: ShapeTable<u32> = ShapeTable::new();
    t.insert("Box1".to_string(), 5);
    assert_eq!(t.rename("Box1", "Substrate".to_string()).unwrap(), 2);
    assert!(!t.contains("Box1"));
    assert_eq!(t.get("Substrate"), Some(&5));
    assert_eq!(t.next_id(), 3);
    match t.rename("Box1", "Other".to_string()) {
        Err(GeometryError::ObjectNotFound(n)) => assert_eq!(n, "Box1"),
        other => panic!("unexpected {:?}", other),
    }
    assert_eq!(t.next_id(), 3);
    assert_eq!(t.get("Substrate"), Some(&5));
}

#[test]
fn boolean_operands_are_taken_target_first() {
    let mut t: ShapeTable<u32> = ShapeTable::new();
    t.insert("A".to_string(), 1);
    t.insert("B".to_string(), 2);
    t.insert("C".to_string(), 3);
    assert_eq!(t.take_pair("A", "B").unwrap(), (1, 2));
    assert!(!t.contains("A") && !t.contains("B"));
    match t.take_pair("Z", "C") {
        Err(GeometryError::ObjectNotFound(n)) => assert_eq!(n, "Z"),
        other => panic!("unexpected {:?}", other),
    }
    assert!(t.contains("C"));
    match t.take_pair("C", "Z") {
        Err(GeometryError::ObjectNotFound(n)) => assert_eq!(n, "Z"),
        other => panic!("unexpected {:?}", other),
    }
    assert!(!t.contains("C"));
}

#[test]
fn snapshots_default_to_grey_vacuum() {
    let d = snapshot_attributes(None, None, None, None);
    assert_eq!(d.material, "vacuum");
    assert!(!d.solve_inside);
    assert_eq!(d.color, [128, 128, 128]);
    assert!(d.group.is_none());
    let g = snapshot_attributes(Some("copper"), Some(true), Some([255, 0, 0]), Some("Feed"));
    assert_eq!(g.material, "copper");
    assert!(g.solve_inside);
    assert_eq!(g.color, [255, 0, 0]);
    assert_eq!(g.group.as_deref(), Some("Feed"));
}
