use fuzz_target_search::cli::{CommandError, Commands, Opts};
use fuzz_target_search::search::{
    admits, classify_params, search, visibility_eq, Filter, FunctionItem, Location,
    ParamCoverageFilter, Target, Visibility,
};
use fuzz_target_search::shape::{ParamTypeFilter, TypeShape};

fn bytes() -> TypeShape {
    TypeShape::BorrowedSlice(Box::new(TypeShape::Primitive("u8".to_string())))
}

fn item(name: &str, visibility: Visibility, params: Vec<TypeShape>, line: usize) -> FunctionItem {
    FunctionItem {
        name: Some(name.to_string()),
        visibility,
        params,
        location: Some(Location { file_path: "src/lib.rs".to_string(), line }),
    }
}

/// `pub fn f(data: &[u8])`, `pub(crate) fn g(data: &[u8])`, `pub fn h(name: String)`.
fn sample() -> Vec<FunctionItem> {
    vec![
        item("f", Visibility::Public, vec![bytes()], 1),
        item("g", Visibility::Crate, vec![bytes()], 2),
        item("h", Visibility::Public, vec![TypeShape::OwnedText], 3),
    ]
}

fn names(targets: &[Target]) -> Vec<&str> {
    targets.iter().map(|t| t.name.as_str()).collect()
}

#[test]
fn public_binary_only_keeps_only_f() {
    let filter = Filter {
        visibility: Some(Visibility::Public),
        param_type: ParamTypeFilter::BinaryOnly,
        param_coverage: ParamCoverageFilter::Any,
    };
    let found = search(&sample(), &Some(filter));
    assert_eq!(names(&found.targets), vec!["f"]);
    assert_eq!(found.targets[0].file_path, "src/lib.rs");
    assert_eq!(found.targets[0].line, 1);
    assert!(found.skipped.is_empty());
}

#[test]
fn any_visibility_binary_or_text_keeps_all_three() {
    let filter = Filter {
        visibility: None,
        param_type: ParamTypeFilter::BinaryOrString,
        param_coverage: ParamCoverageFilter::Any,
    };
    let found = search(&sample(), &Some(filter));
    assert_eq!(names(&found.targets), vec!["f", "g", "h"]);
    assert_eq!(found.targets.iter().map(|t| t.line).collect::<Vec<_>>(), vec![1, 2, 3]);
}

#[test]
fn mixed_parameters_pass_any_and_fail_all() {
    let items = vec![item(
        "mixed",
        Visibility::Public,
        vec![TypeShape::Primitive("u32".to_string()), TypeShape::Other],
        7,
    )];
    let mut filter = Filter::default();
    assert_eq!(names(&search(&items, &Some(filter.clone())).targets), vec!["mixed"]);
    filter.param_coverage = ParamCoverageFilter::All;
    assert!(search(&items, &Some(filter.clone())).targets.is_empty());
    filter.param_coverage = ParamCoverageFilter::NoneParam;
    assert_eq!(names(&search(&items, &Some(filter)).targets), vec!["mixed"]);
}

#[test]
fn all_fuzzable_parameters_pass_all() {
    let items = vec![item(
        "both",
        Visibility::Public,
        vec![TypeShape::Primitive("u32".to_string()), bytes()],
        9,
    )];
    let filter = Filter { param_coverage: ParamCoverageFilter::All, ..Filter::default() };
    assert_eq!(names(&search(&items, &Some(filter)).targets), vec!["both"]);
}

#[test]
fn no_parameters_never_pass_a_filter() {
    let items = vec![item("nullary", Visibility::Public, vec![], 4)];
    for coverage in [ParamCoverageFilter::Any, ParamCoverageFilter::All, ParamCoverageFilter::NoneParam] {
        let filter = Filter { param_coverage: coverage, ..Filter::default() };
        assert!(search(&items, &Some(filter)).targets.is_empty());
    }
    assert_eq!(names(&search(&items, &None).targets), vec!["nullary"]);
}

#[test]
fn no_filter_returns_everything_in_order() {
    let mut items = sample();
    items.push(item("z", Visibility::Default, vec![TypeShape::Other], 10));
    let found = search(&items, &None);
    assert_eq!(names(&found.targets), vec!["f", "g", "h", "z"]);
}

#[test]
fn empty_input_gives_no_targets() {
    let found = search(&vec![], &Some(Filter::default()));
    assert!(found.targets.is_empty());
    assert!(found.skipped.is_empty());
}

#[test]
fn items_without_name_or_location_are_skipped() {
    let mut items = sample();
    items[0].location = None;
    items.push(FunctionItem {
        name: None,
        visibility: Visibility::Public,
        params: vec![bytes()],
        location: Some(Location { file_path: "src/a.rs".to_string(), line: 5 }),
    });
    items.push(FunctionItem {
        name: None,
        visibility: Visibility::Default,
        params: vec![TypeShape::Other],
        location: None,
    });
    let found = search(&items, &Some(Filter::default()));
    assert_eq!(names(&found.targets), vec!["g", "h"]);
    assert_eq!(found.skipped, vec![0, 3]);
    let unfiltered = search(&items, &None);
    assert_eq!(unfiltered.skipped, vec![0, 3, 4]);
}

#[test]
fn restricted_visibility_matches_exactly() {
    let here = Visibility::Restricted { parent: 3, path: "crate::a".to_string() };
    let same = Visibility::Restricted { parent: 3, path: "crate::a".to_string() };
    let other_path = Visibility::Restricted { parent: 3, path: "crate::b".to_string() };
    let other_parent = Visibility::Restricted { parent: 4, path: "crate::a".to_string() };
    assert!(visibility_eq(&here, &same));
    assert!(!visibility_eq(&here, &other_path));
    assert!(!visibility_eq(&here, &other_parent));
    assert!(!visibility_eq(&Visibility::Public, &Visibility::Crate));
    assert!(visibility_eq(&Visibility::Default, &Visibility::Default));
    let items = vec![
        item("a", here, vec![bytes()], 1),
        item("b", other_path, vec![bytes()], 2),
        item("c", Visibility::Public, vec![bytes()], 3),
    ];
    let filter = Filter { visibility: Some(same), ..Filter::default() };
    assert_eq!(names(&search(&items, &Some(filter)).targets), vec!["a"]);
}

#[test]
fn admits_checks_visibility_then_parameters() {
    let f = item("f", Visibility::Crate, vec![bytes()], 1);
    let public = Filter { visibility: Some(Visibility::Public), ..Filter::default() };
    assert!(!admits(&public, &f));
    assert!(admits(&Filter::default(), &f));
}

#[test]
fn classify_params_reports_any_and_all() {
    let tier = ParamTypeFilter::BinaryOnly;
    assert_eq!(classify_params(&vec![], tier), (false, true));
    assert_eq!(classify_params(&vec![bytes(), TypeShape::OwnedText], tier), (true, false));
    assert_eq!(classify_params(&vec![bytes(), bytes()], tier), (true, true));
    assert_eq!(classify_params(&vec![TypeShape::OwnedText], tier), (false, false));
}

#[test]
fn target_from_item_needs_name_and_location() {
    let t = Target::from_item(&item("f", Visibility::Public, vec![], 12)).unwrap();
    assert_eq!((t.name.as_str(), t.file_path.as_str(), t.line), ("f", "src/lib.rs", 12));
    let mut nameless = item("f", Visibility::Public, vec![], 12);
    nameless.name = None;
    assert!(Target::from_item(&nameless).is_none());
}

fn list(binary_only: bool, public_only: bool, path: Option<&str>) -> Opts {
    Opts {
        command: Commands::List {
            binary_only,
            public_only,
            json: false,
            path: path.map(|p| p.to_string()),
        },
    }
}

#[test]
fn list_flags_choose_the_filter() {
    let f = list(true, true, None).filter().unwrap();
    assert!(matches!(f.visibility, Some(Visibility::Public)));
    assert_eq!(f.param_type, ParamTypeFilter::BinaryOnly);
    assert_eq!(f.param_coverage, ParamCoverageFilter::Any);
    let f = list(true, false, None).filter().unwrap();
    assert!(f.visibility.is_none());
    assert_eq!(f.param_type, ParamTypeFilter::BinaryOnly);
    let f = list(false, true, None).filter().unwrap();
    assert!(matches!(f.visibility, Some(Visibility::Public)));
    assert_eq!(f.param_type, ParamTypeFilter::BinaryOrString);
    let f = list(false, false, None).filter().unwrap();
    assert!(f.visibility.is_none());
    assert_eq!(f.param_type, ParamTypeFilter::BinaryOrString);
    assert_eq!(f.param_coverage, ParamCoverageFilter::Any);
}

#[test]
fn generate_is_unimplemented() {
    let opts = Opts { command: Commands::Generate { inpath: None, outpath: None } };
    assert_eq!(opts.filter().unwrap_err(), CommandError::GenerateUnimplemented);
    assert_eq!(opts.search_root().unwrap_err(), CommandError::GenerateUnimplemented);
}

#[test]
fn search_root_defaults_to_current_directory() {
    assert_eq!(list(false, false, None).search_root().unwrap(), ".");
    assert_eq!(list(false, false, Some("proj")).search_root().unwrap(), "proj");
}
