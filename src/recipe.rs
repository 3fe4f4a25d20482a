//! Recipes, and the derivation of circuit signals from the recipes that make
//! more than one of themselves.
//!
//! Ingredient amounts are double-precision numbers in the catalog; they are held
//! as their IEEE-754 binary64 bit patterns and read through the layout of that
//! format: sign bit 63, biased exponent bits 52..63, fraction bits 0..52.
use vstd::prelude::*;
use vstd::arithmetic::power2::pow2;

use crate::schema::{
    Blueprint, BlueprintMeta, Comparator, ConstantCombinator, Entity, Icon, LogisticFilter,
    Quality, Section, Signal, SignalType,
};

verus! {

/// An ingredient list: the wire writes "none" either as a list or as `{}`.
#[derive(Debug, Clone, PartialEq)]
pub enum IngredientMeta {
    List(Vec<Ingredient>),
    Empty,
}

/// A production rule.
#[derive(Debug, Clone, PartialEq)]
pub struct Recipe {
    pub recipe_type: String,
    pub name: String,
    pub enabled: Option<bool>,
    pub ingredients: Option<IngredientMeta>,
    pub results: Option<IngredientMeta>,
    /// Binary64 bit pattern of the crafting time.
    pub energy_required_bits: Option<u64>,
}

/// An input or output of a recipe.
#[derive(Debug, Clone, PartialEq)]
pub struct Ingredient {
    pub ingredient_type: IngredientType,
    pub name: String,
    /// Binary64 bit pattern of the amount.
    pub amount_bits: u64,
}

/// Whether an ingredient is an item or a fluid.
#[derive(Debug, Clone, Copy, PartialEq, Eq, Structural)]
pub enum IngredientType {
    Item,
    Fluid,
}

impl IngredientType {
    pub open spec fn name_spec(self) -> Seq<char> {
        match self {
            IngredientType::Item => "item"@,
            IngredientType::Fluid => "fluid"@,
        }
    }

    /// The wire name: `item` or `fluid`.
    pub fn to_string(&self) -> (r: String)
        ensures
            r@ == self.name_spec(),
    {
        proof {
            reveal_strlit("item");
            reveal_strlit("fluid");
        }
        match self {
            IngredientType::Item => "item".to_owned(),
            IngredientType::Fluid => "fluid".to_owned(),
        }
    }

    /// The signal namespace of an ingredient of this type.
    pub open spec fn signal_type_spec(self) -> SignalType {
        match self {
            IngredientType::Item => SignalType::Item,
            IngredientType::Fluid => SignalType::Fluid,
        }
    }

    pub fn signal_type(&self) -> (r: SignalType)
        ensures
            r == self.signal_type_spec(),
    {
        match self {
            IngredientType::Item => SignalType::Item,
            IngredientType::Fluid => SignalType::Fluid,
        }
    }
}

/// The biased exponent field of a binary64 bit pattern.
pub open spec fn f64_exponent(b: u64) -> u64 {
    (b >> 52u64) & 0x7ffu64
}

/// The fraction field of a binary64 bit pattern.
pub open spec fn f64_fraction(b: u64) -> u64 {
    b & 0xf_ffff_ffff_ffffu64
}

/// Whether the sign bit of a binary64 bit pattern is set.
pub open spec fn f64_negative(b: u64) -> bool {
    (b >> 63u64) == 1
}

pub open spec fn f64_is_nan(b: u64) -> bool {
    f64_exponent(b) == 0x7ff && f64_fraction(b) != 0
}

pub open spec fn f64_is_infinite(b: u64) -> bool {
    f64_exponent(b) == 0x7ff && f64_fraction(b) == 0
}

/// Whether the number encoded by `b` is strictly greater than 1.0: it is positive and
/// not NaN, and its exponent is above that of 1.0, or equal with a non-zero fraction.
pub open spec fn f64_exceeds_one(b: u64) -> bool {
    !f64_negative(b) && !f64_is_nan(b) && (f64_exponent(b) > 1023 || (f64_exponent(b) == 1023
        && f64_fraction(b) != 0))
}

/// How an amount becomes a whole signal count.
#[derive(Debug, Clone, Copy, PartialEq, Eq, Structural)]
pub enum CountRounding {
    /// Drop the fractional part (2.9 gives 2); the default.
    TowardZero,
    /// Take the nearest whole number, halves away from zero (2.5 gives 3).
    NearestTiesAway,
}

/// The whole number nearest below (or, by `rounding`, nearest to) the magnitude of the
/// finite number encoded by `b`: its significand `2^52 + fraction` scaled by
/// `2^(exponent - 1075)`. Zeros and subnormals are below one half.
pub open spec fn f64_rounded_magnitude(b: u64, rounding: CountRounding) -> int {
    let e = f64_exponent(b) as int;
    let m = pow2(52) + f64_fraction(b);
    if e == 0 {
        0
    } else if e >= 1075 {
        m * pow2((e - 1075) as nat)
    } else {
        match rounding {
            CountRounding::TowardZero => m / (pow2((1075 - e) as nat) as int),
            CountRounding::NearestTiesAway => (m + pow2((1074 - e) as nat)) / (pow2(
                (1075 - e) as nat,
            ) as int),
        }
    }
}

/// The number encoded by `b` converted to `usize` by `rounding`, saturating at both
/// ends, with NaN giving 0.
pub open spec fn f64_to_count(b: u64, rounding: CountRounding) -> int {
    if f64_is_nan(b) || f64_negative(b) {
        0
    } else if f64_is_infinite(b) || f64_rounded_magnitude(b, rounding) > usize::MAX {
        usize::MAX as int
    } else {
        f64_rounded_magnitude(b, rounding)
    }
}

/// Whether the amount encoded by `bits` is greater than 1.0.
pub fn amount_exceeds_one(bits: u64) -> (r: bool)
    ensures
        r == f64_exceeds_one(bits),
{
    let e = (bits >> 52u64) & 0x7ffu64;
    let f = bits & 0xf_ffff_ffff_ffffu64;
    let negative = (bits >> 63u64) == 1;
    !negative && !(e == 0x7ff && f != 0) && (e > 1023 || (e == 1023 && f != 0))
}

/// The amount encoded by `bits` as a signal count: rounded by `rounding`, saturating.
pub fn amount_to_count(bits: u64, rounding: CountRounding) -> (r: usize)
    ensures
        r == f64_to_count(bits, rounding),
{
    let e = (bits >> 52u64) & 0x7ffu64;
    let f = bits & 0xf_ffff_ffff_ffffu64;
    let negative = (bits >> 63u64) == 1;
    if (e == 0x7ff && f != 0) || negative {
        return 0;
    }
    if e == 0x7ff {
        return usize::MAX;
    }
    if e == 0 {
        return 0;
    }
    assert(f < 0x10_0000_0000_0000u64) by (bit_vector)
        requires
            f == bits & 0xf_ffff_ffff_ffffu64,
    ;
    let m: u64 = 0x10_0000_0000_0000u64 + f;
    proof {
        vstd::arithmetic::power2::lemma2_to64();
        vstd::arithmetic::power2::lemma2_to64_rest();
    }
    let t: u64;
    if e >= 1075 {
        let k: u64 = e - 1075;
        if k >= 12 {
            proof {
                vstd::arithmetic::power2::lemma_pow2_adds(12, (k - 12) as nat);
                vstd::arithmetic::power2::lemma_pow2_pos((k - 12) as nat);
                assert(m * pow2(k as nat) >= pow2(64)) by (nonlinear_arith)
                    requires
                        m >= pow2(52),
                        pow2(k as nat) == pow2(12) * pow2((k - 12) as nat),
                        pow2((k - 12) as nat) >= 1,
                        pow2(64) == pow2(52) * pow2(12),
                ;
            }
            return usize::MAX;
        }
        proof {
            if k < 11 {
                vstd::arithmetic::power2::lemma_pow2_strictly_increases(k as nat, 11);
            }
            assert(m * pow2(k as nat) <= u64::MAX) by (nonlinear_arith)
                requires
                    m < 0x20_0000_0000_0000u64,
                    pow2(k as nat) <= 2048,
            ;
            vstd::bits::lemma_u64_shl_is_mul(m, k);
        }
        t = m << k;
    } else {
        let k: u64 = 1075 - e;
        match rounding {
            CountRounding::TowardZero => {
                if k >= 53 {
                    proof {
                        if k > 53 {
                            vstd::arithmetic::power2::lemma_pow2_strictly_increases(53, k as nat);
                        }
                        vstd::arithmetic::div_mod::lemma_basic_div(m as int, pow2(k as nat) as int);
                    }
                    return 0;
                }
                proof {
                    vstd::bits::lemma_u64_shr_is_div(m, k);
                }
                t = m >> k;
            },
            CountRounding::NearestTiesAway => {
                if k >= 54 {
                    proof {
                        if k > 54 {
                            vstd::arithmetic::power2::lemma_pow2_strictly_increases(
                                53,
                                (k - 1) as nat,
                            );
                        }
                        vstd::arithmetic::power2::lemma_pow2_adds(1, (k - 1) as nat);
                        vstd::arithmetic::div_mod::lemma_basic_div(
                            m + pow2((k - 1) as nat),
                            pow2(k as nat) as int,
                        );
                    }
                    return 0;
                }
                proof {
                    if k < 53 {
                        vstd::arithmetic::power2::lemma_pow2_strictly_increases(
                            (k - 1) as nat,
                            52,
                        );
                    }
                    vstd::bits::lemma_u64_shl_is_mul(1, (k - 1) as u64);
                }
                let half: u64 = 1u64 << (k - 1);
                let sum: u64 = m + half;
                proof {
                    vstd::bits::lemma_u64_shr_is_div(sum, k);
                }
                t = sum >> k;
            },
        }
    }
    if t as u128 > usize::MAX as u128 {
        usize::MAX
    } else {
        t as usize
    }
}

/// Whether `i` is the first position in `s` whose ingredient is named `name`.
pub open spec fn is_first_named(s: Seq<Ingredient>, name: Seq<char>, i: int) -> bool {
    0 <= i < s.len() && s[i].name@ == name && forall|j: int| 0 <= j < i ==> s[j].name@ != name
}

/// The first position in `s` whose ingredient is named `name`, where there is one.
pub open spec fn first_named_index(s: Seq<Ingredient>, name: Seq<char>) -> int {
    choose|i: int| is_first_named(s, name, i)
}

impl Recipe {
    /// The first result named like the recipe itself, if its results are a list
    /// holding one.
    pub open spec fn desired_item_spec(self) -> Option<Ingredient> {
        match self.results {
            Some(IngredientMeta::List(v)) => if exists|i: int| is_first_named(v@, self.name@, i) {
                Some(v@[first_named_index(v@, self.name@)])
            } else {
                None
            },
            _ => None,
        }
    }

    /// The first result named like the recipe itself.
    pub fn desired_item(&self) -> (r: Option<Ingredient>)
        ensures
            r == self.desired_item_spec(),
    {
        if let Some(IngredientMeta::List(v)) = &self.results {
            let mut i: usize = 0;
            while i < v.len()
                invariant
                    self.results == Some(IngredientMeta::List(*v)),
                    i <= v@.len(),
                    forall|j: int| 0 <= j < i ==> v@[j].name@ != self.name@,
                decreases v@.len() - i,
            {
                if v[i].name == self.name {
                    let it = &v[i];
                    let r = Ingredient {
                        ingredient_type: it.ingredient_type,
                        name: it.name.clone(),
                        amount_bits: it.amount_bits,
                    };
                    proof {
                        let w = self.results->Some_0->List_0;
                        assert(is_first_named(w@, self.name@, i as int));
                        let c = first_named_index(w@, self.name@);
                        assert(c == i as int) by {
                            if c > i as int {
                                assert(w@[i as int].name@ != self.name@);
                            }
                        }
                    }
                    return Some(r);
                }
                i += 1;
            }
        }
        None
    }

    /// The amount of the desired item (as a binary64 bit pattern).
    pub fn craft_count(&self) -> (r: Option<u64>)
        ensures
            r == (match self.desired_item_spec() {
                Some(it) => Some(it.amount_bits),
                None => None::<u64>,
            }),
    {
        match self.desired_item() {
            Some(it) => Some(it.amount_bits),
            None => None,
        }
    }
}

/// The desired items worth a signal, in catalog order: those of more than 1.0.
pub open spec fn signal_items(rs: Seq<Recipe>) -> Seq<Ingredient>
    decreases rs.len(),
{
    if rs.len() == 0 {
        seq![]
    } else {
        let before = signal_items(rs.drop_last());
        match rs.last().desired_item_spec() {
            Some(it) => if f64_exceeds_one(it.amount_bits) {
                before.push(it)
            } else {
                before
            },
            None => before,
        }
    }
}

proof fn lemma_signal_items_len(rs: Seq<Recipe>)
    ensures
        signal_items(rs).len() <= rs.len(),
    decreases rs.len(),
{
    if rs.len() > 0 {
        lemma_signal_items_len(rs.drop_last());
    }
}

proof fn lemma_signal_items_prefix(rs: Seq<Recipe>, j: int)
    requires
        0 <= j <= rs.len(),
    ensures
        signal_items(rs.take(j)).len() <= signal_items(rs).len(),
    decreases rs.len(),
{
    if j == rs.len() {
        assert(rs.take(j) =~= rs);
    } else {
        assert(rs.take(j) =~= rs.drop_last().take(j));
        lemma_signal_items_prefix(rs.drop_last(), j);
    }
}

/// How many filters the deriver emits for `recipes`: the number of signal items.
pub fn signal_item_count(recipes: &Vec<Recipe>) -> (r: usize)
    ensures
        r == signal_items(recipes@).len(),
{
    let mut n: usize = 0;
    let mut i: usize = 0;
    while i < recipes.len()
        invariant
            i <= recipes@.len(),
            n == signal_items(recipes@.take(i as int)).len(),
        decreases recipes@.len() - i,
    {
        let ghost before = recipes@.take(i as int);
        let ghost after = recipes@.take(i as int + 1);
        proof {
            assert(after.drop_last() =~= before);
            assert(after.last() == recipes@[i as int]);
            lemma_signal_items_len(before);
        }
        if let Some(it) = recipes[i].desired_item() {
            if amount_exceeds_one(it.amount_bits) {
                n += 1;
            }
        }
        i += 1;
    }
    assert(recipes@.take(recipes@.len() as int) =~= recipes@);
    n
}

/// The filter emitted for `it` in slot `index`.
pub open spec fn signal_filter(it: Ingredient, index: int, rounding: CountRounding) -> LogisticFilter {
    LogisticFilter {
        index: index as u16,
        signal_type: Some(it.ingredient_type.signal_type_spec()),
        name: it.name,
        quality: Quality::Normal,
        comparator: Comparator::EqualTo,
        count: f64_to_count(it.amount_bits, rounding) as usize,
        max_count: None,
        minimum_delivery_count: None,
        import_from: None,
    }
}

/// One filter per recipe that makes more than one of itself, in catalog order,
/// in slots numbered from 1.
pub fn derive_filters(recipes: &Vec<Recipe>, rounding: CountRounding) -> (r: Vec<LogisticFilter>)
    requires
        signal_items(recipes@).len() < 65536,
    ensures
        r@.len() == signal_items(recipes@).len(),
        forall|k: int|
            0 <= k < r@.len() ==> r@[k] == signal_filter(signal_items(recipes@)[k], k + 1, rounding),
{
    let mut out: Vec<LogisticFilter> = Vec::new();
    let mut i: usize = 0;
    while i < recipes.len()
        invariant
            i <= recipes@.len(),
            signal_items(recipes@).len() < 65536,
            out@.len() == signal_items(recipes@.take(i as int)).len(),
            forall|k: int|
                0 <= k < out@.len() ==> out@[k] == signal_filter(
                    signal_items(recipes@.take(i as int))[k],
                    k + 1,
                    rounding,
                ),
        decreases recipes@.len() - i,
    {
        let ghost before = recipes@.take(i as int);
        let ghost after = recipes@.take(i as int + 1);
        proof {
            assert(after.drop_last() =~= before);
            assert(after.last() == recipes@[i as int]);
            lemma_signal_items_prefix(recipes@, i as int + 1);
        }
        if let Some(it) = recipes[i].desired_item() {
            if amount_exceeds_one(it.amount_bits) {
                let index = (out.len() + 1) as u16;
                let f = LogisticFilter {
                    index,
                    signal_type: Some(it.ingredient_type.signal_type()),
                    name: it.name,
                    quality: Quality::Normal,
                    comparator: Comparator::EqualTo,
                    count: amount_to_count(it.amount_bits, rounding),
                    max_count: None,
                    minimum_delivery_count: None,
                    import_from: None,
                };
                out.push(f);
            }
        }
        i += 1;
    }
    assert(recipes@.take(recipes@.len() as int) =~= recipes@);
    out
}

/// Whether `s` is the section derived from `rs`: index 0, active, no group and no
/// multiplier, and one filter per signal item, in order, in slots numbered from 1.
pub open spec fn is_derived_section(s: Section, rs: Seq<Recipe>, rounding: CountRounding) -> bool {
    &&& s.index == 0
    &&& s.active
    &&& s.group is None
    &&& s.multiplier is None
    &&& s.filters@.len() == signal_items(rs).len()
    &&& forall|k: int|
        0 <= k < s.filters@.len() ==> s.filters@[k] == signal_filter(signal_items(rs)[k], k + 1, rounding)
}

/// Whether `c` is the fresh combinator derived from `rs`: entity number 1 at the
/// origin, holding the derived section as its only section.
pub open spec fn is_derived_combinator(c: ConstantCombinator, rs: Seq<Recipe>, rounding: CountRounding) -> bool {
    &&& c.entity_number == 1
    &&& c.name@ == crate::schema::constant_combinator_name()
    &&& c.position == crate::schema::Position::new_spec()
    &&& c.control_behavior.sections.sections@.len() == 1
    &&& is_derived_section(c.control_behavior.sections.sections@[0], rs, rounding)
}

/// Whether `b` is the blueprint derived from `rs`: item `blueprint`, the derived
/// version, the `signal-info` virtual icon, and the derived combinator as its only entity.
pub open spec fn is_derived_blueprint(b: Blueprint, rs: Seq<Recipe>, rounding: CountRounding) -> bool {
    &&& b.item@ == "blueprint"@
    &&& b.version == DERIVED_VERSION
    &&& b.icons@.len() == 1
    &&& b.icons@[0].index == 1
    &&& b.icons@[0].signal.name@ == "signal-info"@
    &&& b.icons@[0].signal.signal_type == Some(SignalType::Virtual)
    &&& b.label is None
    &&& b.label_color is None
    &&& b.tiles is None
    &&& b.schedules is None
    &&& b.description is None
    &&& b.snap_to_grid is None
    &&& b.absolute_snapping is None
    &&& b.position_relative_to_grid is None
    &&& match b.entities {
        Some(es) => es@.len() == 1 && match es@[0] {
            Entity::ConstantCombinator(c) => is_derived_combinator(c, rs, rounding),
        },
        None => false,
    }
}

/// The section of derived filters.
pub fn derive_section(recipes: &Vec<Recipe>, rounding: CountRounding) -> (r: Section)
    requires
        signal_items(recipes@).len() < 65536,
    ensures
        is_derived_section(r, recipes@, rounding),
{
    Section::new(0, derive_filters(recipes, rounding))
}

/// The blueprint format version stamped on derived blueprints.
pub const DERIVED_VERSION: u64 = 562949954928640;

/// A fresh constant combinator holding the derived section as its only section.
pub fn derive_combinator(recipes: &Vec<Recipe>, rounding: CountRounding) -> (r: ConstantCombinator)
    requires
        signal_items(recipes@).len() < 65536,
    ensures
        is_derived_combinator(r, recipes@, rounding),
{
    let mut c = ConstantCombinator::new();
    c.push_section(derive_section(recipes, rounding));
    c
}

/// The document that carries the derived combinator: a single blueprint, not in a book.
pub fn derive_blueprint(recipes: &Vec<Recipe>, rounding: CountRounding) -> (r: BlueprintMeta)
    requires
        signal_items(recipes@).len() < 65536,
    ensures
        match r {
            BlueprintMeta::Blueprint { blueprint, index } => index is None && is_derived_blueprint(
                blueprint,
                recipes@,
                rounding,
            ),
            BlueprintMeta::Book { .. } => false,
        },
{
    let c = derive_combinator(recipes, rounding);
    proof {
        reveal_strlit("signal-info");
        reveal_strlit("blueprint");
    }
    let icon = Icon {
        index: 1,
        signal: Signal { name: "signal-info".to_owned(), signal_type: Some(SignalType::Virtual) },
    };
    let bp = Blueprint::new("blueprint".to_owned(), vec![icon], DERIVED_VERSION);
    let es = vec![Entity::ConstantCombinator(c)];
    BlueprintMeta::Blueprint { blueprint: bp.with_entities(es), index: None }
}

} // verus!
