//! Enum parameters: what deriving an enum's parameter-value trait decides
//! (which items it accepts, the variant count, the default variant and the
//! display names), and the index arithmetic of a dropdown over the variants.
//!
//! The derive itself (reading the item, writing the trait impl) is a
//! procedural macro; here its decisions are taken on plain values.

use vstd::prelude::*;
use crate::chars::{chars_eq, chars_of};
use crate::parameter_format::{lower_chars, lowercase};

verus! {

/// The kind of item a derive is applied to.
#[derive(Debug, Clone, Copy, PartialEq, Eq, Structural)]
pub enum ItemKind {
    Enum,
    Struct,
    Union,
}

/// The fields of an enum variant.
#[derive(Debug, Clone, Copy, PartialEq, Eq, Structural)]
pub enum VariantFields {
    /// No fields.
    Unit,
    /// Named fields (`Variant { .. }`).
    Named,
    /// Tuple fields (`Variant(..)`).
    Unnamed,
}

/// The first `#[name ...]` attribute of a variant.
#[derive(Debug, Clone)]
pub enum NameAttribute {
    /// No `#[name]` attribute.
    Absent,
    /// `#[name = "..."]` with a string literal.
    Literal(String),
    /// A `#[name]` attribute of another form.
    NotLiteral,
}

/// One variant as the derive sees it.
#[derive(Debug, Clone)]
pub struct VariantDecl {
    /// The variant's identifier.
    pub ident: String,
    /// Its fields.
    pub fields: VariantFields,
    /// Its first `#[name]` attribute.
    pub name: NameAttribute,
    /// Whether it carries `#[default]`.
    pub is_default: bool,
}

/// Why the derive refuses an item.
#[derive(Debug, Clone, Copy, PartialEq, Eq, Structural)]
pub enum EnumDeriveError {
    /// Applied to a struct.
    StructNotSupported,
    /// Applied to a union.
    UnionNotSupported,
    /// The variant at this index has named fields.
    NamedFields { variant: usize },
    /// The variant at this index has tuple fields.
    TupleFields { variant: usize },
    /// The variant at this index has a `#[name]` that is not `= "..."`.
    NameNotLiteral { variant: usize },
    /// The enum has no variants.
    NoVariants,
    /// More than one variant carries `#[default]`.
    SeveralDefaults,
}

/// What the derive generates, as plain values.
#[derive(Debug, Clone)]
pub struct EnumLayout {
    /// Number of variants.
    pub count: usize,
    /// Index of the default variant.
    pub default_index: usize,
    /// Display name of each variant, in declaration order.
    pub names: Vec<String>,
}

/// The error a single variant at index `i` raises, if any: fields first,
/// then a malformed `#[name]`.
pub open spec fn variant_error(v: VariantDecl, i: int) -> Option<EnumDeriveError> {
    match v.fields {
        VariantFields::Named => Some(EnumDeriveError::NamedFields { variant: i as usize }),
        VariantFields::Unnamed => Some(EnumDeriveError::TupleFields { variant: i as usize }),
        VariantFields::Unit => match v.name {
            NameAttribute::NotLiteral => Some(EnumDeriveError::NameNotLiteral { variant: i as usize }),
            _ => None,
        },
    }
}

/// The error of the first of the first `n` variants that raises one.
pub open spec fn first_variant_error(vs: Seq<VariantDecl>, n: int) -> Option<EnumDeriveError>
    decreases n,
{
    if n <= 0 {
        None
    } else {
        match first_variant_error(vs, n - 1) {
            Some(e) => Some(e),
            None => variant_error(vs[n - 1], n - 1),
        }
    }
}

/// How many of the first `n` variants carry `#[default]`.
pub open spec fn default_count(vs: Seq<VariantDecl>, n: int) -> nat
    decreases n,
{
    if n <= 0 {
        0
    } else {
        default_count(vs, n - 1) + if vs[n - 1].is_default {
            1nat
        } else {
            0nat
        }
    }
}

/// The index of the first of the first `n` variants that carries
/// `#[default]`, or 0 when none does.
pub open spec fn first_default(vs: Seq<VariantDecl>, n: int) -> int
    decreases n,
{
    if n <= 0 {
        0
    } else if default_count(vs, n - 1) == 0 && vs[n - 1].is_default {
        n - 1
    } else {
        first_default(vs, n - 1)
    }
}

/// A variant's display name: its `#[name = "..."]` string, or else its
/// identifier.
pub open spec fn display_name(v: VariantDecl) -> Seq<char> {
    match v.name {
        NameAttribute::Literal(s) => s@,
        _ => v.ident@,
    }
}

/// Why the derive refuses an item, if it does: only enums are accepted;
/// then the first variant with fields or a malformed name; then an empty
/// enum; then more than one `#[default]`.
pub open spec fn enum_layout_error(kind: ItemKind, vs: Seq<VariantDecl>) -> Option<EnumDeriveError> {
    match kind {
        ItemKind::Struct => Some(EnumDeriveError::StructNotSupported),
        ItemKind::Union => Some(EnumDeriveError::UnionNotSupported),
        ItemKind::Enum => match first_variant_error(vs, vs.len() as int) {
            Some(e) => Some(e),
            None => if vs.len() == 0 {
                Some(EnumDeriveError::NoVariants)
            } else if default_count(vs, vs.len() as int) > 1 {
                Some(EnumDeriveError::SeveralDefaults)
            } else {
                None
            },
        },
    }
}

proof fn lemma_first_error_sticks(vs: Seq<VariantDecl>, i: int, n: int)
    requires
        0 <= i < n,
        first_variant_error(vs, i) is None,
        variant_error(vs[i], i) is Some,
    ensures
        first_variant_error(vs, n) == variant_error(vs[i], i),
    decreases n,
{
    if n > i + 1 {
        lemma_first_error_sticks(vs, i, n - 1);
    }
}

/// Check an item for the enum-parameter derive and compute what it
/// generates: the variant count, the default variant (the one marked
/// `#[default]`, else the first) and the display names in order.
pub fn enum_param_layout(kind: ItemKind, variants: &Vec<VariantDecl>) -> (r: Result<EnumLayout, EnumDeriveError>)
    ensures
        match enum_layout_error(kind, variants@) {
            Some(e) => r matches Err(e2) && e2 == e,
            None => r matches Ok(layout) && {
                &&& layout.count == variants@.len()
                &&& layout.default_index == first_default(variants@, variants@.len() as int)
                &&& layout.default_index < layout.count
                &&& layout.names@.len() == variants@.len()
                &&& forall|i: int| 0 <= i < variants@.len() ==> #[trigger] layout.names@[i]@ == display_name(variants@[i])
            },
        },
{
    match kind {
        ItemKind::Struct => {
            return Err(EnumDeriveError::StructNotSupported);
        },
        ItemKind::Union => {
            return Err(EnumDeriveError::UnionNotSupported);
        },
        ItemKind::Enum => {},
    }
    let mut names: Vec<String> = Vec::new();
    let mut defaults: usize = 0;
    let mut default_index: usize = 0;
    let mut i: usize = 0;
    while i < variants.len()
        invariant
            kind == ItemKind::Enum,
            i <= variants@.len(),
            first_variant_error(variants@, i as int) is None,
            defaults == default_count(variants@, i as int),
            defaults <= i,
            default_index == first_default(variants@, i as int),
            i == 0 || default_index < i,
            names@.len() == i,
            forall|k: int| 0 <= k < i ==> #[trigger] names@[k]@ == display_name(variants@[k]),
        decreases variants@.len() - i,
    {
        let v = &variants[i];
        match v.fields {
            VariantFields::Named => {
                proof {
                    lemma_first_error_sticks(variants@, i as int, variants@.len() as int);
                }
                return Err(EnumDeriveError::NamedFields { variant: i });
            },
            VariantFields::Unnamed => {
                proof {
                    lemma_first_error_sticks(variants@, i as int, variants@.len() as int);
                }
                return Err(EnumDeriveError::TupleFields { variant: i });
            },
            VariantFields::Unit => {},
        }
        let name = match &v.name {
            NameAttribute::Literal(s) => s.clone(),
            NameAttribute::Absent => v.ident.clone(),
            NameAttribute::NotLiteral => {
                proof {
                    lemma_first_error_sticks(variants@, i as int, variants@.len() as int);
                }
                return Err(EnumDeriveError::NameNotLiteral { variant: i });
            },
        };
        if v.is_default {
            if defaults == 0 {
                default_index = i;
            }
            defaults += 1;
        }
        names.push(name);
        i += 1;
    }
    if variants.len() == 0 {
        return Err(EnumDeriveError::NoVariants);
    }
    if defaults > 1 {
        return Err(EnumDeriveError::SeveralDefaults);
    }
    Ok(EnumLayout { count: variants.len(), default_index, names })
}

/// The step count of a dropdown over `count` variants: one less than the
/// count (0 for an empty enum), as the host's 32-bit step count.
pub fn enum_step_count(count: usize) -> (r: i32)
    ensures
        r == (if count >= 1 {
            (count - 1) as usize
        } else {
            0usize
        }) as i32,
{
    let steps: usize = if count >= 1 {
        count - 1
    } else {
        0
    };
    steps as i32
}

/// A variant index clamped to the last variant (0 for an empty enum).
pub fn clamp_enum_index(index: usize, count: usize) -> (r: usize)
    ensures
        r == (if count == 0 {
            0
        } else if index < count {
            index
        } else {
            (count - 1) as usize
        }),
{
    if count == 0 {
        0
    } else if index < count {
        index
    } else {
        count - 1
    }
}

/// The index of the first of `folded_names` equal to `folded`, if any:
/// the name lookup once names and text are case-folded.
pub fn first_equal_name(folded_names: &Vec<Vec<char>>, folded: &Vec<char>) -> (r: Option<usize>)
    ensures
        match r {
            Some(i) => {
                &&& i < folded_names@.len()
                &&& folded_names@[i as int]@ == folded@
                &&& forall|j: int| 0 <= j < i ==> #[trigger] folded_names@[j]@ != folded@
            },
            None => forall|j: int| 0 <= j < folded_names@.len() ==> #[trigger] folded_names@[j]@ != folded@,
        },
{
    let mut i: usize = 0;
    while i < folded_names.len()
        invariant
            i <= folded_names@.len(),
            forall|j: int| 0 <= j < i ==> #[trigger] folded_names@[j]@ != folded@,
        decreases folded_names@.len() - i,
    {
        if chars_eq(&folded_names[i], folded) {
            return Some(i);
        }
        i += 1;
    }
    None
}

/// The index of the first variant whose display name matches `s` ignoring
/// case (both compared in their Unicode lower-case forms), if any.
pub fn variant_index_by_name(names: &[&str], s: &str) -> (r: Option<usize>)
    ensures
        match r {
            Some(i) => {
                &&& i < names@.len()
                &&& lowercase(names@[i as int]@) == lowercase(s@)
                &&& forall|j: int| 0 <= j < i ==> lowercase(#[trigger] names@[j]@) != lowercase(s@)
            },
            None => forall|j: int| 0 <= j < names@.len() ==> lowercase(#[trigger] names@[j]@) != lowercase(s@),
        },
{
    let lower = lower_chars(&chars_of(s));
    let mut folded: Vec<Vec<char>> = Vec::new();
    let mut i: usize = 0;
    while i < names.len()
        invariant
            i <= names@.len(),
            folded@.len() == i,
            forall|j: int| 0 <= j < i ==> #[trigger] folded@[j]@ == lowercase(names@[j]@),
        decreases names@.len() - i,
    {
        folded.push(lower_chars(&chars_of(names[i])));
        i += 1;
    }
    let r = first_equal_name(&folded, &lower);
    proof {
        let bound: int = match r {
            Some(k) => k as int,
            None => names@.len() as int,
        };
        assert forall|j: int| 0 <= j < bound implies lowercase(#[trigger] names@[j]@) != lowercase(s@) by {
            assert(folded@[j]@ == lowercase(names@[j]@));
        }
        if let Some(k) = r {
            assert(folded@[k as int]@ == lowercase(names@[k as int]@));
        }
    }
    r
}


proof fn lemma_first_default_is_first(vs: Seq<VariantDecl>, n: int)
    requires
        0 <= n <= vs.len(),
    ensures
        default_count(vs, n) == 0 ==> first_default(vs, n) == 0,
        default_count(vs, n) > 0 ==> {
            &&& 0 <= first_default(vs, n) < n
            &&& vs[first_default(vs, n)].is_default
            &&& forall|j: int| 0 <= j < first_default(vs, n) ==> !#[trigger] vs[j].is_default
        },
        (forall|j: int| 0 <= j < n ==> !#[trigger] vs[j].is_default) <==> default_count(vs, n) == 0,
    decreases n,
{
    if n > 0 {
        lemma_first_default_is_first(vs, n - 1);
    }
}

/// The default variant is the one marked `#[default]`, whatever its other
/// attributes: when exactly one variant carries `#[default]`, the layout's
/// default index is that variant's; when none does, it is the first
/// variant.
pub proof fn lemma_default_variant(vs: Seq<VariantDecl>, i: int)
    requires
        0 <= i < vs.len(),
    ensures
        vs[i].is_default && (forall|j: int| 0 <= j < vs.len() && j != i ==> !#[trigger] vs[j].is_default)
            ==> first_default(vs, vs.len() as int) == i && default_count(vs, vs.len() as int) == 1,
        (forall|j: int| 0 <= j < vs.len() ==> !#[trigger] vs[j].is_default) ==> first_default(
            vs,
            vs.len() as int,
        ) == 0,
{
    lemma_first_default_is_first(vs, vs.len() as int);
    if vs[i].is_default && (forall|j: int| 0 <= j < vs.len() && j != i ==> !#[trigger] vs[j].is_default) {
        lemma_single_default_count(vs, i, vs.len() as int);
    }
}

proof fn lemma_single_default_count(vs: Seq<VariantDecl>, i: int, n: int)
    requires
        0 <= i < vs.len(),
        0 <= n <= vs.len(),
        forall|j: int| 0 <= j < vs.len() && j != i ==> !#[trigger] vs[j].is_default,
        vs[i].is_default,
    ensures
        default_count(vs, n) == (if i < n { 1nat } else { 0nat }),
    decreases n,
{
    if n > 0 {
        lemma_single_default_count(vs, i, n - 1);
    }
}

} // verus!
