use mg::pkgm::detect::cache::{clear_cache, get_cached_manager, set_cached_manager, DetectionCache};
use mg::pkgm::detect::config::{configurations, DetectionConfig};
use mg::pkgm::detect::finder::{
    check_files_exist, detect, detect_with, find_up, manager_type_of, parse_manager_type, select,
};
use mg::pkgm::detect::path::{Listing, TreePath};
use mg::pkgm::manager::Manager;
use mg::pkgm::registry::ManagerRegistry;
use mg::pkgm::types::{ManagerType, PackageManager, PackageOptions};
use mg::utils::error::Error;

fn path(parts: &[&str]) -> TreePath {
    TreePath::new(parts.iter().map(|p| p.to_string()).collect())
}

fn listing(paths: &[&[&str]]) -> Listing {
    Listing::new(paths.iter().map(|p| path(p)).collect())
}

#[test]
fn path_operations() {
    let mut p = path(&["home", "me"]);
    assert!(p.starts_with(&path(&[])));
    assert!(p.starts_with(&path(&["home"])));
    assert!(p.starts_with(&path(&["home", "me"])));
    assert!(!p.starts_with(&path(&["home", "m"])));
    assert!(!p.starts_with(&path(&["home", "me", "x"])));
    assert!(!p.starts_with(&path(&["me"])));
    let child = p.join("x");
    assert_eq!(child.components, vec!["home", "me", "x"]);
    assert!(child.same_as(&path(&["home", "me", "x"])));
    assert!(!child.same_as(&p));
    assert!(p.duplicate().same_as(&p));
    assert!(p.pop());
    assert!(p.pop());
    assert!(!p.pop());
    assert!(p.components.is_empty());
}

#[test]
fn listing_knows_only_what_it_holds() {
    let files = listing(&[&["a", "Cargo.toml"], &["yarn.lock"]]);
    assert!(files.has(&path(&["a", "Cargo.toml"])));
    assert!(files.has(&path(&["yarn.lock"])));
    assert!(!files.has(&path(&["Cargo.toml"])));
    assert!(!files.has(&path(&["a"])));
    assert!(!listing(&[]).has(&path(&[])));
}

#[test]
fn test_find_up_existing_file() {
    let temp_dir = path(&["tmp", "test"]);
    let test_file = temp_dir.join("test.txt");
    let files = Listing::new(vec![test_file.duplicate()]);
    let subdir = temp_dir.join("sub");

    let result = find_up(&subdir, &["test.txt"], &files);
    assert!(result.is_some());
    assert_eq!(result.unwrap().components, test_file.components);
}

#[test]
fn test_find_up_nonexistent_file() {
    let temp_dir = path(&["tmp", "test"]);
    let files = Listing::new(vec![temp_dir.join("test.txt")]);
    let subdir = temp_dir.join("sub");

    let result = find_up(&subdir, &["nonexistent.txt"], &files);
    assert!(result.is_none());
}

#[test]
fn test_find_up_multiple_targets() {
    let temp_dir = path(&["tmp", "test"]);
    let test_file = temp_dir.join("Cargo.toml");
    let files = Listing::new(vec![test_file.duplicate()]);
    let subdir = temp_dir.join("sub");

    let result = find_up(&subdir, &["package.json", "Cargo.toml"], &files);
    assert!(result.is_some());
    assert_eq!(result.unwrap().components, test_file.components);
}

#[test]
fn find_up_finds_nothing_where_nothing_is() {
    let files = listing(&[&["tmp", "work", "test.txt"]]);
    assert!(find_up(&path(&["tmp", "other"]), &["test.txt"], &files).is_none());
    assert!(find_up(&path(&["tmp", "work"]), &[], &files).is_none());
}

#[test]
fn find_up_prefers_the_deeper_directory_then_the_earlier_target() {
    let files = listing(&[
        &["b"],
        &["a"],
        &["x", "a"],
        &["x", "b"],
        &["x", "y", "z", "c"],
    ]);
    let start = path(&["x", "y"]);
    let found = find_up(&start, &["b", "a"], &files).unwrap();
    assert_eq!(found.components, vec!["x", "b"]);
    let found = find_up(&start, &["a", "b"], &files).unwrap();
    assert_eq!(found.components, vec!["x", "a"]);
    let found = find_up(&path(&[]), &["a", "b"], &files).unwrap();
    assert_eq!(found.components, vec!["a"]);
    assert!(find_up(&start, &["c"], &files).is_none());
    assert!(check_files_exist(&["q", "b"], &start, &files));
    assert!(!check_files_exist(&["q"], &start, &files));
}

#[test]
fn builtin_rules_are_the_documented_table() {
    let rules = configurations();
    let table: Vec<(ManagerType, u8, Vec<&str>)> = rules
        .iter()
        .map(|r| (r.manager_type, r.priority, r.identifier_files.to_vec()))
        .collect();
    assert_eq!(
        table,
        vec![
            (ManagerType::Cargo, 0, vec!["Cargo.toml"]),
            (ManagerType::Pdm, 7, vec!["pdm.lock", "pyproject.toml"]),
            (ManagerType::Poetry, 6, vec!["pyproject.toml"]),
            (ManagerType::Pnpm, 1, vec!["pnpm-lock.yaml"]),
            (ManagerType::Bun, 2, vec!["bun.lock"]),
            (ManagerType::Yarn, 4, vec!["yarn.lock"]),
            (ManagerType::Npm, 3, vec!["package-lock.json"]),
            (ManagerType::Pip, 5, vec!["requirements.txt"]),
        ]
    );
}

#[test]
fn lower_priority_wins_in_any_table() {
    let rules = vec![
        DetectionConfig::new(ManagerType::Yarn, 5, &["k2.lock"]),
        DetectionConfig::new(ManagerType::Pip, 2, &["k1.lock"]),
        DetectionConfig::new(ManagerType::Cargo, 9, &["absent"]),
    ];
    let files = listing(&[&["d", "k1.lock"], &["d", "k2.lock"]]);
    assert_eq!(select(&rules, &path(&["d"]), &files), Some(ManagerType::Pip));
    assert_eq!(select(&rules, &path(&["d", "e", "f"]), &files), Some(ManagerType::Pip));
    assert_eq!(select(&rules, &path(&[]), &files), None);
    assert_eq!(select(&rules, &path(&["other"]), &files), None);
    assert_eq!(select(&[], &path(&["d"]), &files), None);
}

#[test]
fn equal_priorities_go_to_the_earlier_rule() {
    let rules = vec![
        DetectionConfig::new(ManagerType::Yarn, 3, &["b"]),
        DetectionConfig::new(ManagerType::Pip, 3, &["a"]),
    ];
    let files = listing(&[&["a"], &["b"]]);
    assert_eq!(select(&rules, &path(&["d"]), &files), Some(ManagerType::Yarn));
}

#[test]
fn a_marker_above_counts_like_one_beside() {
    let rules = configurations();
    let files = listing(&[&["repo", "Cargo.toml"], &["repo", "web", "package-lock.json"]]);
    assert_eq!(select(&rules, &path(&["repo", "web"]), &files), Some(ManagerType::Cargo));
    assert_eq!(select(&rules, &path(&["repo", "web", "src"]), &files), Some(ManagerType::Cargo));
}

#[test]
fn pyproject_goes_to_poetry_before_pdm() {
    let rules = configurations();
    let files = listing(&[&["p", "pyproject.toml"]]);
    assert_eq!(select(&rules, &path(&["p"]), &files), Some(ManagerType::Poetry));
    let files = listing(&[&["p", "pdm.lock"]]);
    assert_eq!(select(&rules, &path(&["p"]), &files), Some(ManagerType::Pdm));
}

#[test]
fn manager_names_are_known_in_any_case() {
    assert_eq!(parse_manager_type("cargo").unwrap(), ManagerType::Cargo);
    assert_eq!(parse_manager_type("CARGO").unwrap(), ManagerType::Cargo);
    assert_eq!(parse_manager_type("Npm").unwrap(), ManagerType::Npm);
    assert_eq!(parse_manager_type("pNpM").unwrap(), ManagerType::Pnpm);
    assert_eq!(parse_manager_type("BUN").unwrap(), ManagerType::Bun);
    assert_eq!(parse_manager_type("Yarn").unwrap(), ManagerType::Yarn);
    assert_eq!(parse_manager_type("PIP").unwrap(), ManagerType::Pip);
    assert_eq!(parse_manager_type("Poetry").unwrap(), ManagerType::Poetry);
    assert_eq!(parse_manager_type("PDM").unwrap(), ManagerType::Pdm);
    match parse_manager_type("Gradle") {
        Err(Error::UnsupportedManager { name }) => assert_eq!(name, "Gradle"),
        other => panic!("expected an unsupported manager, got {:?}", other),
    }
    assert!(parse_manager_type("").is_err());
    assert!(parse_manager_type(" cargo").is_err());
}

#[test]
fn identifiers_are_matched_letter_for_letter() {
    assert_eq!(manager_type_of("poetry"), Some(ManagerType::Poetry));
    assert_eq!(manager_type_of("pdm"), Some(ManagerType::Pdm));
    assert_eq!(manager_type_of("Cargo"), None);
    assert_eq!(manager_type_of("carg"), None);
}

#[test]
fn test_cache_set_and_get() {
    let mut cache = DetectionCache::new();
    let temp_dir = path(&["tmp", "a"]);
    assert_eq!(get_cached_manager(&cache, &temp_dir), None);

    set_cached_manager(&mut cache, &temp_dir, ManagerType::Cargo);
    let cached = get_cached_manager(&cache, &temp_dir);
    assert_eq!(cached, Some(ManagerType::Cargo));
}

#[test]
fn test_cache_subdirectory() {
    let mut cache = DetectionCache::new();
    let temp_dir = path(&["tmp", "a"]);

    set_cached_manager(&mut cache, &temp_dir, ManagerType::Npm);

    let subdir = temp_dir.join("sub");

    let cached = get_cached_manager(&cache, &subdir);
    assert_eq!(cached, Some(ManagerType::Npm));
}

#[test]
fn cache_does_not_answer_outside_its_directory() {
    let mut cache = DetectionCache::new();
    set_cached_manager(&mut cache, &path(&["tmp", "a"]), ManagerType::Npm);
    assert_eq!(get_cached_manager(&cache, &path(&["tmp"])), None);
    assert_eq!(get_cached_manager(&cache, &path(&["tmp", "ab"])), None);
    assert_eq!(get_cached_manager(&cache, &path(&["a"])), None);
}

#[test]
fn test_cache_clear() {
    let mut cache = DetectionCache::new();
    let temp_dir = path(&["tmp", "a"]);

    set_cached_manager(&mut cache, &temp_dir, ManagerType::Cargo);
    clear_cache(&mut cache);
    let cached = get_cached_manager(&cache, &temp_dir);
    assert_eq!(cached, None);
}

#[test]
fn cache_keeps_only_the_last_result() {
    let mut cache = DetectionCache::new();
    set_cached_manager(&mut cache, &path(&["a"]), ManagerType::Cargo);
    set_cached_manager(&mut cache, &path(&["b"]), ManagerType::Pip);
    assert_eq!(get_cached_manager(&cache, &path(&["a"])), None);
    assert_eq!(get_cached_manager(&cache, &path(&["b"])), Some(ManagerType::Pip));
}

#[test]
fn cargo_project_is_detected_and_formats_add() {
    let registry = ManagerRegistry::builtin();
    let mut cache = DetectionCache::new();
    let dir = path(&["work", "crate"]);
    let files = listing(&[&["work", "crate", "Cargo.toml"]]);
    let manager = detect(&registry, None, &mut cache, &dir, &files).unwrap();
    assert_eq!(manager, Manager::of(ManagerType::Cargo));
    let line = manager.format_command("add", &["serde".to_string()], &PackageOptions::new(vec![]));
    assert_eq!(line, "cargo add serde");
}

#[test]
fn pnpm_lock_beats_npm_lock_every_time() {
    let registry = ManagerRegistry::builtin();
    let dir = path(&["work", "web"]);
    let files = listing(&[
        &["work", "web", "package-lock.json"],
        &["work", "web", "pnpm-lock.yaml"],
    ]);
    for _ in 0..3 {
        let mut cache = DetectionCache::new();
        let manager = detect(&registry, None, &mut cache, &dir, &files).unwrap();
        assert_eq!(manager.name(), "pnpm");
        let again = detect(&registry, None, &mut cache, &dir, &files).unwrap();
        assert_eq!(again.name(), "pnpm");
    }
}

#[test]
fn no_marker_is_manager_not_detected() {
    let registry = ManagerRegistry::builtin();
    let mut cache = DetectionCache::new();
    let dir = path(&["work", "empty"]);
    let files = listing(&[&["work", "empty", "README.md"], &["elsewhere", "Cargo.toml"]]);
    match detect(&registry, None, &mut cache, &dir, &files) {
        Err(Error::ManagerNotDetected) => {}
        other => panic!("expected no manager, got {:?}", other),
    }
    assert!(cache.entry.is_none());
}

#[test]
fn second_detection_does_not_look_at_the_files() {
    let registry = ManagerRegistry::builtin();
    let mut cache = DetectionCache::new();
    let dir = path(&["work", "web"]);
    let files = listing(&[&["work", "web", "yarn.lock"]]);
    let first = detect(&registry, None, &mut cache, &dir, &files).unwrap();
    assert_eq!(first.name(), "yarn");
    // The files are gone, or others have come: the cache answers.
    let nothing = listing(&[]);
    let below = path(&["work", "web", "src", "deep"]);
    assert_eq!(detect(&registry, None, &mut cache, &dir, &nothing).unwrap(), first);
    assert_eq!(detect(&registry, None, &mut cache, &below, &nothing).unwrap(), first);
    let others = listing(&[&["work", "web", "src", "deep", "Cargo.toml"]]);
    assert_eq!(detect(&registry, None, &mut cache, &below, &others).unwrap(), first);
    assert!(cache.entry.as_ref().unwrap().directory.same_as(&dir));
}

#[test]
fn detection_outside_the_cached_tree_starts_afresh() {
    let registry = ManagerRegistry::builtin();
    let mut cache = DetectionCache::new();
    let files = listing(&[&["work", "web", "yarn.lock"], &["work", "api", "Cargo.toml"]]);
    let web = detect(&registry, None, &mut cache, &path(&["work", "web"]), &files).unwrap();
    assert_eq!(web.name(), "yarn");
    let api = detect(&registry, None, &mut cache, &path(&["work", "api"]), &files).unwrap();
    assert_eq!(api.name(), "cargo");
    assert!(detect(&registry, None, &mut cache, &path(&["work"]), &files).is_err());
    assert!(cache.entry.as_ref().unwrap().directory.same_as(&path(&["work", "api"])));
}

#[test]
fn override_comes_before_cache_and_files() {
    let registry = ManagerRegistry::builtin();
    let mut cache = DetectionCache::new();
    let dir = path(&["work", "web"]);
    let files = listing(&[&["work", "web", "yarn.lock"]]);
    set_cached_manager(&mut cache, &dir, ManagerType::Npm);
    let manager = detect(&registry, Some("Poetry"), &mut cache, &dir, &files).unwrap();
    assert_eq!(manager.name(), "poetry");
    assert_eq!(get_cached_manager(&cache, &dir), Some(ManagerType::Poetry));
}

#[test]
fn unknown_override_falls_through() {
    let registry = ManagerRegistry::builtin();
    let dir = path(&["work", "web"]);
    let files = listing(&[&["work", "web", "yarn.lock"]]);
    let mut cache = DetectionCache::new();
    let manager = detect(&registry, Some("gradle"), &mut cache, &dir, &files).unwrap();
    assert_eq!(manager.name(), "yarn");
    let mut cache = DetectionCache::new();
    set_cached_manager(&mut cache, &path(&["work"]), ManagerType::Bun);
    let manager = detect(&registry, Some("gradle"), &mut cache, &dir, &files).unwrap();
    assert_eq!(manager.name(), "bun");
    assert!(cache.entry.as_ref().unwrap().directory.same_as(&path(&["work"])));
}

#[test]
fn detected_kind_without_adapter_is_unsupported() {
    let mut registry: ManagerRegistry<Manager> = ManagerRegistry::new();
    registry.register(ManagerType::Cargo, Manager::of(ManagerType::Cargo));
    let dir = path(&["work", "web"]);
    let files = listing(&[&["work", "web", "yarn.lock"]]);
    let mut cache = DetectionCache::new();
    match detect(&registry, None, &mut cache, &dir, &files) {
        Err(Error::UnsupportedManager { name }) => assert_eq!(name, "Yarn"),
        other => panic!("expected an unsupported manager, got {:?}", other),
    }
    assert_eq!(get_cached_manager(&cache, &dir), Some(ManagerType::Yarn));
    match detect(&registry, Some("pip"), &mut cache, &dir, &files) {
        Err(Error::UnsupportedManager { name }) => assert_eq!(name, "Pip"),
        other => panic!("expected an unsupported manager, got {:?}", other),
    }
}

#[test]
fn detection_with_a_table_of_the_caller() {
    let registry = ManagerRegistry::builtin();
    let rules = vec![
        DetectionConfig::new(ManagerType::Npm, 1, &["package-lock.json"]),
        DetectionConfig::new(ManagerType::Pnpm, 2, &["pnpm-lock.yaml"]),
    ];
    let dir = path(&["w"]);
    let files = listing(&[&["w", "package-lock.json"], &["w", "pnpm-lock.yaml"]]);
    let mut cache = DetectionCache::new();
    let manager = detect_with(&rules, &registry, None, &mut cache, &dir, &files).unwrap();
    assert_eq!(manager.name(), "npm");
}
