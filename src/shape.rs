//! The syntactic shapes of parameter types and the fuzzability classifier.
use vstd::prelude::*;

verus! {

broadcast use vstd::std_specs::vec::axiom_vec_index_decreases;

/// How wide the set of accepted parameter types is.
#[derive(Copy, Clone, Debug, PartialEq, Eq, Structural)]
pub enum ParamTypeFilter {
    BinaryOnly,
    BinaryOrString,
    Arbitrary,
    Any,
}

impl ParamTypeFilter {
    /// Whether owned text counts as fuzzable under this tier.
    pub open spec fn spec_strings_allowed(self) -> bool {
        !(self is BinaryOnly)
    }

    pub fn strings_allowed(&self) -> (r: bool)
        ensures
            r == self.spec_strings_allowed(),
    {
        !matches!(self, ParamTypeFilter::BinaryOnly)
    }
}

impl Default for ParamTypeFilter {
    fn default() -> (r: Self)
        ensures
            r == ParamTypeFilter::BinaryOrString,
    {
        ParamTypeFilter::BinaryOrString
    }
}

/// The shape of a type as written, reduced to the forms that decide fuzzability.
#[derive(Debug)]
pub enum TypeShape {
    /// A primitive type, by name (`u8`, `i64`, `bool`, ...).
    Primitive(String),
    /// An owned string.
    OwnedText,
    /// A borrowed slice `&[T]`.
    BorrowedSlice(Box<TypeShape>),
    /// An owned growable container of one element type.
    OwnedSequence(Box<TypeShape>),
    /// Any other generic type, by its type arguments.
    GenericApplication(Vec<TypeShape>),
    /// A function-shaped type, by its input types.
    FunctionSignature(Vec<TypeShape>),
    /// Anything else.
    Other,
}

/// The names of the integer primitives.
pub open spec fn is_integer_name(name: Seq<char>) -> bool {
    ||| name == "u8"@
    ||| name == "u16"@
    ||| name == "u32"@
    ||| name == "u64"@
    ||| name == "u128"@
    ||| name == "usize"@
    ||| name == "i8"@
    ||| name == "i16"@
    ||| name == "i32"@
    ||| name == "i64"@
    ||| name == "i128"@
    ||| name == "isize"@
}

/// An integer primitive shape.
pub open spec fn is_integer_shape(shape: TypeShape) -> bool {
    match shape {
        TypeShape::Primitive(name) => is_integer_name(name@),
        _ => false,
    }
}

/// Whether a parameter of this shape can be fed raw input under `tier`.
pub open spec fn fuzzable(shape: TypeShape, tier: ParamTypeFilter) -> bool
    decreases shape, 0int,
{
    match shape {
        TypeShape::Primitive(name) => is_integer_name(name@),
        TypeShape::OwnedText => tier.spec_strings_allowed(),
        TypeShape::BorrowedSlice(elem) => is_integer_shape(*elem),
        TypeShape::OwnedSequence(elem) => fuzzable(*elem, tier),
        TypeShape::GenericApplication(args) => fuzzable_among(args, args.len() as int, tier),
        TypeShape::FunctionSignature(inputs) => fuzzable_among(inputs, inputs.len() as int, tier),
        TypeShape::Other => false,
    }
}

/// Whether one of the first `n` shapes of `shapes` is fuzzable under `tier`.
pub open spec fn fuzzable_among(shapes: Vec<TypeShape>, n: int, tier: ParamTypeFilter) -> bool
    decreases shapes, n,
{
    if n <= 0 || n > shapes.len() {
        false
    } else {
        fuzzable_among(shapes, n - 1, tier) || fuzzable(shapes[n - 1], tier)
    }
}

/// Whether some shape of `shapes` is fuzzable under `tier`.
pub open spec fn some_fuzzable(shapes: Vec<TypeShape>, tier: ParamTypeFilter) -> bool {
    fuzzable_among(shapes, shapes.len() as int, tier)
}

fn is_integer_primitive(name: &String) -> (r: bool)
    ensures
        r == is_integer_name(name@),
{
    *name == "u8".to_owned() || *name == "u16".to_owned() || *name == "u32".to_owned()
        || *name == "u64".to_owned() || *name == "u128".to_owned() || *name
        == "usize".to_owned() || *name == "i8".to_owned() || *name == "i16".to_owned()
        || *name == "i32".to_owned() || *name == "i64".to_owned() || *name
        == "i128".to_owned() || *name == "isize".to_owned()
}

/// Classifies one parameter type shape under a tier.
pub fn is_fuzzable(shape: &TypeShape, tier: ParamTypeFilter) -> (r: bool)
    ensures
        r == fuzzable(*shape, tier),
    decreases shape, 0int,
{
    match shape {
        TypeShape::Primitive(name) => is_integer_primitive(name),
        TypeShape::OwnedText => tier.strings_allowed(),
        TypeShape::BorrowedSlice(elem) => match &**elem {
            TypeShape::Primitive(name) => is_integer_primitive(name),
            _ => false,
        },
        TypeShape::OwnedSequence(elem) => is_fuzzable(&**elem, tier),
        TypeShape::GenericApplication(args) => any_fuzzable(args, tier),
        TypeShape::FunctionSignature(inputs) => any_fuzzable(inputs, tier),
        TypeShape::Other => false,
    }
}

/// Whether any of `shapes` is fuzzable under `tier`.
pub fn any_fuzzable(shapes: &Vec<TypeShape>, tier: ParamTypeFilter) -> (r: bool)
    ensures
        r == some_fuzzable(*shapes, tier),
    decreases shapes, shapes.len() as int + 1,
{
    let mut i: usize = 0;
    while i < shapes.len()
        invariant
            0 <= i <= shapes.len(),
            !fuzzable_among(*shapes, i as int, tier),
        decreases shapes.len() - i,
    {
        if is_fuzzable(&shapes[i], tier) {
            assert(fuzzable_among(*shapes, i + 1, tier));
            assert(fuzzable_among(*shapes, shapes.len() as int, tier)) by {
                lemma_among_grows(*shapes, i + 1, shapes.len() as int, tier);
            }
            return true;
        }
        i = i + 1;
    }
    false
}

/// A shape found fuzzable among the first `m` stays so among the first `n >= m`.
proof fn lemma_among_grows(shapes: Vec<TypeShape>, m: int, n: int, tier: ParamTypeFilter)
    requires
        m <= n <= shapes.len(),
        fuzzable_among(shapes, m, tier),
    ensures
        fuzzable_among(shapes, n, tier),
    decreases n - m,
{
    if m < n {
        lemma_among_grows(shapes, m, n - 1, tier);
    }
}

/// Every integer primitive (8 to 128 bits or pointer-sized, signed or unsigned)
/// is fuzzable under every tier.
pub proof fn lemma_integer_primitive_fuzzable(name: String, tier: ParamTypeFilter)
    requires
        is_integer_name(name@),
    ensures
        fuzzable(TypeShape::Primitive(name), tier),
{
}

/// Owned text is fuzzable exactly under the tiers other than `BinaryOnly`.
pub proof fn lemma_text_fuzzable(tier: ParamTypeFilter)
    ensures
        fuzzable(TypeShape::OwnedText, tier) <==> tier != ParamTypeFilter::BinaryOnly,
{
}

/// A borrowed slice and an owned sequence of an integer primitive (such as `u8`)
/// are fuzzable under every tier.
pub proof fn lemma_integer_containers_fuzzable(name: String, tier: ParamTypeFilter)
    requires
        is_integer_name(name@),
    ensures
        fuzzable(TypeShape::BorrowedSlice(Box::new(TypeShape::Primitive(name))), tier),
        fuzzable(TypeShape::OwnedSequence(Box::new(TypeShape::Primitive(name))), tier),
{
    reveal_with_fuel(fuzzable, 2);
}

/// `Other` is never fuzzable, nor a slice, a sequence, a generic application or a
/// function signature all of whose element types are `Other`.
pub proof fn lemma_other_not_fuzzable(args: Vec<TypeShape>, tier: ParamTypeFilter)
    requires
        forall|i: int| 0 <= i < args.len() ==> #[trigger] args[i] is Other,
    ensures
        !fuzzable(TypeShape::Other, tier),
        !fuzzable(TypeShape::BorrowedSlice(Box::new(TypeShape::Other)), tier),
        !fuzzable(TypeShape::OwnedSequence(Box::new(TypeShape::Other)), tier),
        !fuzzable(TypeShape::GenericApplication(args), tier),
        !fuzzable(TypeShape::FunctionSignature(args), tier),
{
    reveal_with_fuel(fuzzable, 2);
    lemma_none_among_other(args, args.len() as int, tier);
}

proof fn lemma_none_among_other(args: Vec<TypeShape>, n: int, tier: ParamTypeFilter)
    requires
        forall|i: int| 0 <= i < args.len() ==> #[trigger] args[i] is Other,
    ensures
        !fuzzable_among(args, n, tier),
    decreases n,
{
    if 0 < n <= args.len() {
        assert(args[n - 1] is Other);
        assert(!fuzzable(args[n - 1], tier));
        lemma_none_among_other(args, n - 1, tier);
    }
}

/// Classification depends on the shape and the tier alone: classifying the same
/// pair twice gives the same verdict.
pub proof fn lemma_classification_repeatable(
    first: TypeShape,
    second: TypeShape,
    tier: ParamTypeFilter,
)
    requires
        first == second,
    ensures
        fuzzable(first, tier) == fuzzable(second, tier),
{
}

} // verus!
