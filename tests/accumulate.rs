use revw::{contains_path, fold, matches_pattern, same_text};

fn strings(items: &[&str]) -> Vec<String> {
    items.iter().map(|s| s.to_string()).collect()
}

#[test]
fn pattern_is_a_substring_test() {
    assert!(matches_pattern("spec/models/user_spec.rb", "_spec"));
    assert!(matches_pattern("_spec", "_spec"));
    assert!(matches_pattern("anything", ""));
    assert!(!matches_pattern("readme.md", "_spec"));
    assert!(!matches_pattern("_spe", "_spec"));
    assert!(!matches_pattern("", "_spec"));
}

#[test]
fn same_text_compares_characters() {
    assert!(same_text("--sha", "--sha"));
    assert!(!same_text("--sha", "--sh"));
    assert!(!same_text("abc", "abd"));
    assert!(same_text("", ""));
}

#[test]
fn contains_path_finds_equal_strings() {
    let paths = strings(&["a_spec.rb", "b_spec.rb"]);
    assert!(contains_path(&paths, &"b_spec.rb".to_string()));
    assert!(!contains_path(&paths, &"c_spec.rb".to_string()));
    assert!(!contains_path(&Vec::new(), &"a".to_string()));
}

#[test]
fn fold_appends_new_matching_paths_in_order() {
    let mut acc = strings(&["a_spec.rb"]);
    fold(&mut acc, &strings(&["c_spec.rb", "lib/x.rb", "a_spec.rb", "b_spec.rb"]), "_spec");
    assert_eq!(acc, strings(&["a_spec.rb", "c_spec.rb", "b_spec.rb"]));
}

#[test]
fn fold_drops_duplicates_within_one_step() {
    let mut acc = Vec::new();
    fold(&mut acc, &strings(&["x_spec", "x_spec", "y_spec", "x_spec"]), "_spec");
    assert_eq!(acc, strings(&["x_spec", "y_spec"]));
}

#[test]
fn fold_of_nothing_changes_nothing() {
    let mut acc = strings(&["a_spec"]);
    fold(&mut acc, &Vec::new(), "_spec");
    assert_eq!(acc, strings(&["a_spec"]));
}

#[test]
fn fold_never_adds_unmatched_paths() {
    let mut acc = Vec::new();
    fold(&mut acc, &strings(&["readme.md", "src/main.rs", "Cargo.toml"]), "_spec");
    assert!(acc.is_empty());
    fold(&mut acc, &strings(&["readme.md", "z_spec.rb"]), "_spec");
    assert_eq!(acc, strings(&["z_spec.rb"]));
}

#[test]
fn fold_only_grows_across_steps() {
    let steps = [
        strings(&["a_spec"]),
        strings(&["readme.md"]),
        strings(&["b_spec", "a_spec"]),
        strings(&[]),
        strings(&["c_spec"]),
    ];
    let mut acc: Vec<String> = Vec::new();
    for step in steps.iter() {
        let before = acc.clone();
        fold(&mut acc, step, "_spec");
        assert!(before.len() <= acc.len());
        assert_eq!(&acc[..before.len()], &before[..]);
    }
    assert_eq!(acc, strings(&["a_spec", "b_spec", "c_spec"]));
}

#[test]
fn fold_is_stable_when_repeated() {
    let changed = strings(&["b_spec", "a_spec", "note.txt", "b_spec"]);
    let mut first = strings(&["z_spec"]);
    fold(&mut first, &changed, "_spec");
    let mut again = first.clone();
    fold(&mut again, &changed, "_spec");
    assert_eq!(first, again);
    let mut other = strings(&["z_spec"]);
    fold(&mut other, &changed, "_spec");
    assert_eq!(first, other);
    assert_eq!(first, strings(&["z_spec", "b_spec", "a_spec"]));
}
