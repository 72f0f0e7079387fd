use look::flags::{flag_of_arg, parse_args, ArgError, FlagsEnum};

fn args(v: &[&str]) -> Vec<String> {
    v.iter().map(|s| s.to_string()).collect()
}

#[test]
fn parse_flags_and_pattern() {
    let f = parse_args(&args(&["look", "-all", "-file", "txt"])).unwrap();
    assert!(f.all && f.file && !f.dir && !f.case_sensitive);
    assert_eq!(f.sub_str, "txt");
    let g = parse_args(&args(&["look", "-case", "-dir", "Src"])).unwrap();
    assert!(!g.all && !g.file && g.dir && g.case_sensitive);
    assert_eq!(g.sub_str, "Src");
}

#[test]
fn parse_pattern_alone() {
    let f = parse_args(&args(&["look", "abc"])).unwrap();
    assert!(!f.all && !f.file && !f.dir && !f.case_sensitive);
    assert_eq!(f.sub_str, "abc");
}

#[test]
fn parse_missing_pattern() {
    assert_eq!(parse_args(&args(&["look"])).err(), Some(ArgError::MissingPattern));
    assert_eq!(parse_args(&args(&[])).err(), Some(ArgError::MissingPattern));
    assert_eq!(parse_args(&args(&["look", "-all"])).err(), Some(ArgError::MissingPattern));
}

#[test]
fn parse_unexpected_flag() {
    assert_eq!(parse_args(&args(&["look", "-all", "-x", "-y", "a"])).err(), Some(ArgError::UnexpectedArgument(2)));
    assert_eq!(parse_args(&args(&["look", "-ALL", "a"])).err(), Some(ArgError::UnexpectedArgument(1)));
}

#[test]
fn flag_names() {
    assert_eq!(flag_of_arg(&"-all".to_string()), Some(FlagsEnum::All));
    assert_eq!(flag_of_arg(&"-case".to_string()), Some(FlagsEnum::Case));
    assert_eq!(flag_of_arg(&"-dir".to_string()), Some(FlagsEnum::Dir));
    assert_eq!(flag_of_arg(&"-file".to_string()), Some(FlagsEnum::File));
    assert_eq!(flag_of_arg(&"all".to_string()), None);
}
