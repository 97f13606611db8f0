//! The filter policy and the search over discovered function items.
use vstd::prelude::*;
use crate::shape::{ParamTypeFilter, TypeShape, fuzzable, some_fuzzable, is_fuzzable};

verus! {

/// How many parameters must be fuzzable for a function to be kept.
///
/// `NoneParam` selects as `Any` does.
#[derive(Copy, Clone, Debug, PartialEq, Eq, Structural)]
pub enum ParamCoverageFilter {
    Any,
    All,
    NoneParam,
}

impl Default for ParamCoverageFilter {
    fn default() -> (r: Self)
        ensures
            r == ParamCoverageFilter::Any,
    {
        ParamCoverageFilter::Any
    }
}

/// The visibility of an item as declared.
#[derive(Clone, Debug)]
pub enum Visibility {
    /// `pub`
    Public,
    /// No qualifier.
    Default,
    /// `pub(crate)`
    Crate,
    /// `pub(in path)`: the module it is restricted to, by id and by path.
    Restricted { parent: u32, path: String },
}

/// Two visibilities are the same qualifier.
pub open spec fn same_visibility(a: Visibility, b: Visibility) -> bool {
    match (a, b) {
        (Visibility::Public, Visibility::Public) => true,
        (Visibility::Default, Visibility::Default) => true,
        (Visibility::Crate, Visibility::Crate) => true,
        (
            Visibility::Restricted { parent: p1, path: s1 },
            Visibility::Restricted { parent: p2, path: s2 },
        ) => p1 == p2 && s1@ == s2@,
        _ => false,
    }
}

pub fn visibility_eq(a: &Visibility, b: &Visibility) -> (r: bool)
    ensures
        r == same_visibility(*a, *b),
{
    match (a, b) {
        (Visibility::Public, Visibility::Public) => true,
        (Visibility::Default, Visibility::Default) => true,
        (Visibility::Crate, Visibility::Crate) => true,
        (
            Visibility::Restricted { parent: p1, path: s1 },
            Visibility::Restricted { parent: p2, path: s2 },
        ) => *p1 == *p2 && *s1 == *s2,
        _ => false,
    }
}

/// Which function items a search keeps.
#[derive(Clone, Debug)]
pub struct Filter {
    /// Keep only items with exactly this visibility, if given.
    pub visibility: Option<Visibility>,
    pub param_type: ParamTypeFilter,
    pub param_coverage: ParamCoverageFilter,
}

impl Default for Filter {
    fn default() -> (r: Self)
        ensures
            r.visibility is None,
            r.param_type == ParamTypeFilter::BinaryOrString,
            r.param_coverage == ParamCoverageFilter::Any,
    {
        Filter {
            visibility: None,
            param_type: ParamTypeFilter::BinaryOrString,
            param_coverage: ParamCoverageFilter::Any,
        }
    }
}

/// Where an item was declared.
#[derive(Clone, Debug)]
pub struct Location {
    pub file_path: String,
    /// One-based line of the declaration.
    pub line: usize,
}

/// A function found in the code under search.
#[derive(Debug)]
pub struct FunctionItem {
    pub name: Option<String>,
    pub visibility: Visibility,
    /// The parameter types, in declaration order.
    pub params: Vec<TypeShape>,
    pub location: Option<Location>,
}

/// A function reported as a fuzzing candidate.
#[derive(Clone, Debug)]
pub struct Target {
    pub name: String,
    pub file_path: String,
    pub line: usize,
}

impl View for Target {
    type V = (Seq<char>, Seq<char>, usize);

    open spec fn view(&self) -> Self::V {
        (self.name@, self.file_path@, self.line)
    }
}

/// Every shape of `shapes` is fuzzable under `tier`.
pub open spec fn every_fuzzable(shapes: Vec<TypeShape>, tier: ParamTypeFilter) -> bool {
    forall|i: int| 0 <= i < shapes.len() ==> #[trigger] fuzzable(shapes[i], tier)
}

/// An item passes the visibility constraint of `filter`.
pub open spec fn visibility_admits(filter: Filter, item: FunctionItem) -> bool {
    match filter.visibility {
        Some(v) => same_visibility(item.visibility, v),
        None => true,
    }
}

/// Parameters of these types satisfy the coverage rule under the tier.
///
/// A function without a fuzzable parameter never qualifies, not even under `All`.
pub open spec fn coverage_admits(
    coverage: ParamCoverageFilter,
    params: Vec<TypeShape>,
    tier: ParamTypeFilter,
) -> bool {
    match coverage {
        ParamCoverageFilter::All => some_fuzzable(params, tier) && every_fuzzable(params, tier),
        _ => some_fuzzable(params, tier),
    }
}

/// An item passes `filter`.
pub open spec fn filter_admits(filter: Filter, item: FunctionItem) -> bool {
    visibility_admits(filter, item) && coverage_admits(
        filter.param_coverage,
        item.params,
        filter.param_type,
    )
}

/// An item is selected by an optional filter; no filter selects everything.
pub open spec fn selected(filter: Option<Filter>, item: FunctionItem) -> bool {
    match filter {
        Some(f) => filter_admits(f, item),
        None => true,
    }
}

/// An item carries the name and location that a target needs.
pub open spec fn is_complete(item: FunctionItem) -> bool {
    item.name is Some && item.location is Some
}

/// The target that a complete item becomes.
pub open spec fn target_of(item: FunctionItem) -> (Seq<char>, Seq<char>, usize) {
    (item.name->Some_0@, item.location->Some_0.file_path@, item.location->Some_0.line)
}

/// The targets a search over `items` reports, in the order of `items`.
pub open spec fn expected_targets(items: Seq<FunctionItem>, filter: Option<Filter>) -> Seq<
    (Seq<char>, Seq<char>, usize),
>
    decreases items.len(),
{
    if items.len() == 0 {
        Seq::empty()
    } else {
        let before = expected_targets(items.drop_last(), filter);
        let item = items.last();
        if selected(filter, item) && is_complete(item) {
            before.push(target_of(item))
        } else {
            before
        }
    }
}

/// The positions of the selected items that lack a name or a location, in order.
pub open spec fn expected_skipped(items: Seq<FunctionItem>, filter: Option<Filter>) -> Seq<usize>
    decreases items.len(),
{
    if items.len() == 0 {
        Seq::empty()
    } else {
        let before = expected_skipped(items.drop_last(), filter);
        let item = items.last();
        if selected(filter, item) && !is_complete(item) {
            before.push((items.len() - 1) as usize)
        } else {
            before
        }
    }
}

impl Target {
    /// The target of an item, or `None` where it lacks a name or a location.
    pub fn from_item(item: &FunctionItem) -> (r: Option<Target>)
        ensures
            r is Some <==> is_complete(*item),
            r matches Some(t) ==> t@ == target_of(*item),
    {
        match (&item.name, &item.location) {
            (Some(name), Some(loc)) => Some(
                Target { name: name.clone(), file_path: loc.file_path.clone(), line: loc.line },
            ),
            _ => None,
        }
    }
}

/// What a search found: the targets, and the positions of the selected items
/// that could not be reported for want of a name or a location.
#[derive(Clone, Debug)]
pub struct SearchOutcome {
    pub targets: Vec<Target>,
    pub skipped: Vec<usize>,
}

/// Whether any parameter, and whether every parameter, is fuzzable under `tier`.
pub fn classify_params(params: &Vec<TypeShape>, tier: ParamTypeFilter) -> (r: (bool, bool))
    ensures
        r.0 == some_fuzzable(*params, tier),
        r.1 == every_fuzzable(*params, tier),
{
    let mut found_fuzzable = false;
    let mut all_fuzzable = true;
    let mut i: usize = 0;
    while i < params.len()
        invariant
            0 <= i <= params.len(),
            found_fuzzable == crate::shape::fuzzable_among(*params, i as int, tier),
            all_fuzzable == (forall|j: int| 0 <= j < i ==> #[trigger] fuzzable(params[j], tier)),
        decreases params.len() - i,
    {
        if is_fuzzable(&params[i], tier) {
            found_fuzzable = true;
        } else {
            all_fuzzable = false;
        }
        i = i + 1;
    }
    (found_fuzzable, all_fuzzable)
}

/// Whether `item` passes `filter`; visibility is tested before any parameter.
pub fn admits(filter: &Filter, item: &FunctionItem) -> (r: bool)
    ensures
        r == filter_admits(*filter, *item),
{
    if let Some(vis) = &filter.visibility {
        if !visibility_eq(&item.visibility, vis) {
            return false;
        }
    }
    let (found_fuzzable, all_fuzzable) = classify_params(&item.params, filter.param_type);
    match filter.param_coverage {
        ParamCoverageFilter::All => found_fuzzable && all_fuzzable,
        _ => found_fuzzable,
    }
}

/// Searches `items` for fuzzing candidates, keeping their order.
pub fn search(items: &Vec<FunctionItem>, filter: &Option<Filter>) -> (r: SearchOutcome)
    ensures
        r.targets@.map_values(|t: Target| t@) == expected_targets(items@, *filter),
        r.skipped@ == expected_skipped(items@, *filter),
{
    let mut targets: Vec<Target> = Vec::new();
    let mut skipped: Vec<usize> = Vec::new();
    let mut i: usize = 0;
    while i < items.len()
        invariant
            0 <= i <= items.len(),
            targets@.map_values(|t: Target| t@) == expected_targets(
                items@.subrange(0, i as int),
                *filter,
            ),
            skipped@ == expected_skipped(items@.subrange(0, i as int), *filter),
        decreases items.len() - i,
    {
        let item = &items[i];
        let keep = match filter {
            Some(f) => admits(f, item),
            None => true,
        };
        proof {
            assert(items@.subrange(0, i + 1).drop_last() == items@.subrange(0, i as int));
        }
        if keep {
            match Target::from_item(item) {
                Some(t) => {
                    targets.push(t);
                },
                None => {
                    skipped.push(i);
                },
            }
        }
        proof {
            assert(targets@.map_values(|t: Target| t@) =~= expected_targets(
                items@.subrange(0, i + 1),
                *filter,
            ));
        }
        i = i + 1;
    }
    proof {
        assert(items@.subrange(0, items.len() as int) == items@);
    }
    SearchOutcome { targets, skipped }
}

} // verus!
