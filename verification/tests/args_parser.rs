use mg::utils::args_parser::ArgsParser;

#[test]
fn test_parse_only_packages() {
    let (packages, args) = ArgsParser::parse(&["lodash".to_string(), "react".to_string()]);
    assert_eq!(packages, vec!["lodash", "react"]);
    assert!(args.is_empty());
}

#[test]
fn test_parse_packages_and_flags() {
    let (packages, args) = ArgsParser::parse(&[
        "lodash".to_string(),
        "-D".to_string(),
        "--save-exact".to_string(),
    ]);
    assert_eq!(packages, vec!["lodash"]);
    assert_eq!(args, vec!["-D", "--save-exact"]);
}

#[test]
fn test_parse_only_flags() {
    let (packages, args) = ArgsParser::parse(&["-D".to_string(), "--save-exact".to_string()]);
    assert!(packages.is_empty());
    assert_eq!(args, vec!["-D", "--save-exact"]);
}

#[test]
fn test_parse_empty() {
    let (packages, args) = ArgsParser::parse(&[]);
    assert!(packages.is_empty());
    assert!(args.is_empty());
}

#[test]
fn test_parse_packages_after_flags() {
    let (packages, args) = ArgsParser::parse(&[
        "package1".to_string(),
        "-D".to_string(),
        "package2".to_string(), // goes to the arguments, not to the packages
    ]);
    assert_eq!(packages, vec!["package1"]);
    assert_eq!(args, vec!["-D", "package2"]);
}

#[test]
fn parse_splits_packages_from_passthrough() {
    let (packages, args) = ArgsParser::parse(&[
        "lodash".to_string(),
        "react".to_string(),
        "-D".to_string(),
        "--save-exact".to_string(),
    ]);
    assert_eq!(packages, vec!["lodash", "react"]);
    assert_eq!(args, vec!["-D", "--save-exact"]);
}

#[test]
fn parse_passes_everything_after_a_leading_flag() {
    let (packages, args) = ArgsParser::parse(&["-D".to_string(), "react".to_string()]);
    assert!(packages.is_empty());
    assert_eq!(args, vec!["-D", "react"]);
}

#[test]
fn parse_keeps_every_argument_in_order() {
    let input = vec![
        "a".to_string(),
        "".to_string(),
        "b".to_string(),
        "--x".to_string(),
        "c".to_string(),
        "-".to_string(),
    ];
    let (packages, args) = ArgsParser::parse(&input);
    let mut both = packages.clone();
    both.extend(args.clone());
    assert_eq!(both, input);
    assert_eq!(packages, vec!["a", "", "b"]);
    assert_eq!(args, vec!["--x", "c", "-"]);
}
