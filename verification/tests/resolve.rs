use emstudio::expression::ExprError;
use emstudio::resolve::{join, Resolution};

fn names(v: &[&str]) -> Vec<String> {
    v.iter().map(|s| s.to_string()).collect()
}

#[test]
fn join_with_separator() {
    assert_eq!(join(&names(&[]), ", "), "");
    assert_eq!(join(&names(&["a"]), ", "), "a");
    assert_eq!(join(&names(&["a", "b", "c"]), ", "), "a, b, c");
}

#[test]
fn nothing_to_resolve_is_done_at_once() {
    let r = Resolution::new(&Vec::new());
    assert_eq!(r.next_variable(), None);
    assert!(r.outcome().is_ok());
}

#[test]
fn variables_wait_for_what_they_refer_to() {
    // c refers to b, b refers to a: one round each.
    let vars = names(&["c", "b", "a"]);
    let deps = [Some(1usize), Some(2usize), None];
    let mut known = [false; 3];
    let mut r = Resolution::new(&vars);
    let mut tried = Vec::new();
    while let Some(i) = r.next_variable() {
        tried.push(i);
        let ok = deps[i].map(|d| known[d]).unwrap_or(true);
        if ok {
            known[i] = true;
        }
        r.report(ok);
    }
    assert!(r.outcome().is_ok());
    assert_eq!(tried, vec![0, 1, 2, 0, 1, 0]);
}

#[test]
fn circular_dependencies_are_named() {
    // a = b + 1, b = a + 1, c = 2: c resolves, a and b never do.
    let vars = names(&["a", "b", "c"]);
    let mut r = Resolution::new(&vars);
    let mut tries = 0;
    while let Some(i) = r.next_variable() {
        tries += 1;
        r.report(i == 2);
    }
    assert_eq!(tries, 5);
    match r.outcome() {
        Err(ExprError::CircularDependency(m)) => assert_eq!(m, "a, b"),
        other => panic!("{:?}", other),
    }
}
