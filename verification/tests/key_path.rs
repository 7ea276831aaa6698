use flatcat::catter::KeyPath;

#[test]
fn new() {
    let path = KeyPath::new();

    assert_eq!(path.to_string().as_str(), "", "empty path");
}

#[test]
fn push() {
    let mut path = KeyPath::new();

    path.push("next_level");

    assert_eq!(path.to_string().as_str(), ".next_level", "push 1 level");
}

#[test]
fn push_no_sep() {
    let mut path = KeyPath::new();

    path.push_no_sep("[0]");

    assert_eq!(path.to_string().as_str(), "[0]", "push 1 level omitting the separator");
}

#[test]
fn pop() {
    let mut path = KeyPath::new();

    path.push("next_level");
    path.pop();

    assert_eq!(path.to_string().as_str(), "", "push and pop results in empty path");
}

#[test]
fn too_many_pop_are_okay() {
    let mut path = KeyPath::new();

    path.push("next_level");
    path.pop();
    path.pop();

    assert_eq!(path.to_string().as_str(), "", "too many pops don't panic");
}

#[test]
fn pop_restores_the_path_byte_for_byte() {
    let mut path = KeyPath::new_with_capacity(4);
    path.push("größe");
    path.push_no_sep("[12]");
    let before = path.to_string();

    path.push("日本語");
    path.push_no_sep("[0]");
    path.pop();
    path.pop();

    assert_eq!(path.path(), before.as_str());
    assert_eq!(path.path(), ".größe[12]");
}

#[test]
fn pop_on_empty_path_changes_nothing() {
    let mut path = KeyPath::new();

    path.pop();
    path.push("a");

    assert_eq!(path.path(), ".a");
}

#[test]
fn nested_pushes_and_pops() {
    let mut path = KeyPath::new();

    path.push("a");
    path.push_no_sep("[3]");
    path.push("b");
    assert_eq!(path.path(), ".a[3].b");
    path.pop();
    assert_eq!(path.path(), ".a[3]");
    path.pop();
    assert_eq!(path.path(), ".a");
    path.pop();
    assert_eq!(path.path(), "");
}
