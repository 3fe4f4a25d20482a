//! The rules that tie the typed document to its JSON form: the names of enum values
//! (with the aliases accepted on reading), which shape an object is read as, and the
//! fields left out when they hold their default.
use vstd::prelude::*;
use vstd::utf8::encode_utf8;

use crate::recipe::IngredientType;
use crate::schema::{Comparator, Quality, Section, SignalType, WaitCompareType, WaitConditionType};

verus! {

/// Why a JSON value does not read as a document.
#[derive(Debug, Clone, Copy, PartialEq, Eq, Structural)]
pub enum SchemaError {
    /// A document object holds neither `blueprint` nor `blueprint_book`.
    NoDocumentKey,
    /// A document object holds both `blueprint` and `blueprint_book`.
    BothDocumentKeys,
    /// An entity object matches no known kind of entity.
    UnknownEntity,
    /// A string is not one of the names of the expected enum.
    UnknownName,
}

/// Whether two strings hold the same characters.
pub fn same_text(a: &str, b: &str) -> (r: bool)
    ensures
        r == (a@ == b@),
{
    let x = a.as_bytes();
    let y = b.as_bytes();
    proof {
        vstd::utf8::encode_utf8_decode_utf8(a@);
        vstd::utf8::encode_utf8_decode_utf8(b@);
    }
    if x.len() != y.len() {
        return false;
    }
    let mut i: usize = 0;
    while i < x.len()
        invariant
            x@ == encode_utf8(a@),
            y@ == encode_utf8(b@),
            x@.len() == y@.len(),
            i <= x@.len(),
            forall|j: int| 0 <= j < i ==> x@[j] == y@[j],
        decreases x@.len() - i,
    {
        if x[i] != y[i] {
            return false;
        }
        i += 1;
    }
    assert(x@ =~= y@);
    true
}

// ---- comparators ----

/// The symbol written for a comparator.
pub open spec fn comparator_symbol(c: Comparator) -> Seq<char> {
    match c {
        Comparator::EqualTo => "="@,
        Comparator::GreaterThan => ">"@,
        Comparator::LesserThan => "<"@,
        Comparator::GreaterThanOrEqualTo => ">="@,
        Comparator::LesserThanOrEqualTo => "<="@,
        Comparator::NotEqualTo => "!="@,
    }
}

/// The comparator a symbol reads as: the written symbols, and the single-character
/// forms of the three two-character ones.
pub open spec fn comparator_of(s: Seq<char>) -> Option<Comparator> {
    if s == "="@ {
        Some(Comparator::EqualTo)
    } else if s == ">"@ {
        Some(Comparator::GreaterThan)
    } else if s == "<"@ {
        Some(Comparator::LesserThan)
    } else if s == ">="@ || s == "\u{2265}"@ {
        Some(Comparator::GreaterThanOrEqualTo)
    } else if s == "<="@ || s == "\u{2264}"@ {
        Some(Comparator::LesserThanOrEqualTo)
    } else if s == "!="@ || s == "\u{2260}"@ {
        Some(Comparator::NotEqualTo)
    } else {
        None
    }
}

impl Comparator {
    /// The symbol written for this comparator.
    pub fn symbol(&self) -> (r: &'static str)
        ensures
            r@ == comparator_symbol(*self),
    {
        match self {
            Comparator::EqualTo => "=",
            Comparator::GreaterThan => ">",
            Comparator::LesserThan => "<",
            Comparator::GreaterThanOrEqualTo => ">=",
            Comparator::LesserThanOrEqualTo => "<=",
            Comparator::NotEqualTo => "!=",
        }
    }

    /// Reads a comparator symbol, aliases included.
    pub fn from_symbol(s: &str) -> (r: Result<Comparator, SchemaError>)
        ensures
            match comparator_of(s@) {
                Some(c) => r == Ok::<Comparator, SchemaError>(c),
                None => r == Err::<Comparator, SchemaError>(SchemaError::UnknownName),
            },
    {
        if same_text(s, "=") {
            Ok(Comparator::EqualTo)
        } else if same_text(s, ">") {
            Ok(Comparator::GreaterThan)
        } else if same_text(s, "<") {
            Ok(Comparator::LesserThan)
        } else if same_text(s, ">=") || same_text(s, "\u{2265}") {
            Ok(Comparator::GreaterThanOrEqualTo)
        } else if same_text(s, "<=") || same_text(s, "\u{2264}") {
            Ok(Comparator::LesserThanOrEqualTo)
        } else if same_text(s, "!=") || same_text(s, "\u{2260}") {
            Ok(Comparator::NotEqualTo)
        } else {
            Err(SchemaError::UnknownName)
        }
    }
}

/// Every comparator reads back from its written symbol, and each single-character
/// alias reads as the same comparator as its two-character symbol, which is the one
/// written.
pub proof fn lemma_comparator_symbols()
    ensures
        forall|c: Comparator| comparator_of(#[trigger] comparator_symbol(c)) == Some(c),
        comparator_of("\u{2265}"@) == comparator_of(">="@),
        comparator_of("\u{2264}"@) == comparator_of("<="@),
        comparator_of("\u{2260}"@) == comparator_of("!="@),
        comparator_symbol(comparator_of("\u{2265}"@)->Some_0) == ">="@,
        comparator_symbol(comparator_of("\u{2264}"@)->Some_0) == "<="@,
        comparator_symbol(comparator_of("\u{2260}"@)->Some_0) == "!="@,
{
    lemma_comparator_literals();
    assert forall|c: Comparator| comparator_of(#[trigger] comparator_symbol(c)) == Some(c) by {
        lemma_comparator_literals();
    }
}

proof fn lemma_comparator_literals()
    ensures
        "="@.len() == 1 && "="@[0] == '=',
        ">"@.len() == 1 && ">"@[0] == '>',
        "<"@.len() == 1 && "<"@[0] == '<',
        ">="@.len() == 2 && ">="@[0] == '>' && ">="@[1] == '=',
        "<="@.len() == 2 && "<="@[0] == '<' && "<="@[1] == '=',
        "!="@.len() == 2 && "!="@[0] == '!' && "!="@[1] == '=',
        "\u{2265}"@.len() == 1 && "\u{2265}"@[0] == '\u{2265}',
        "\u{2264}"@.len() == 1 && "\u{2264}"@[0] == '\u{2264}',
        "\u{2260}"@.len() == 1 && "\u{2260}"@[0] == '\u{2260}',
{
    reveal_strlit("=");
    reveal_strlit(">");
    reveal_strlit("<");
    reveal_strlit(">=");
    reveal_strlit("<=");
    reveal_strlit("!=");
    reveal_strlit("\u{2265}");
    reveal_strlit("\u{2264}");
    reveal_strlit("\u{2260}");
}

// ---- qualities ----

/// The name written for a value of `Quality`.
pub open spec fn quality_name(v: Quality) -> Seq<char> {
    match v {
        Quality::Normal => "normal"@,
        Quality::Uncommon => "uncommon"@,
        Quality::Rare => "rare"@,
        Quality::Epic => "epic"@,
        Quality::Legendary => "legendary"@,
    }
}

/// The value of `Quality` a name reads as.
pub open spec fn quality_of(s: Seq<char>) -> Option<Quality> {
    if s == "normal"@ {
        Some(Quality::Normal)
    } else if s == "uncommon"@ {
        Some(Quality::Uncommon)
    } else if s == "rare"@ {
        Some(Quality::Rare)
    } else if s == "epic"@ {
        Some(Quality::Epic)
    } else if s == "legendary"@ {
        Some(Quality::Legendary)
    } else {
        None
    }
}

impl Quality {
    /// The name written for this value.
    pub fn name(&self) -> (r: &'static str)
        ensures
            r@ == quality_name(*self),
    {
        match self {
            Quality::Normal => "normal",
            Quality::Uncommon => "uncommon",
            Quality::Rare => "rare",
            Quality::Epic => "epic",
            Quality::Legendary => "legendary",
        }
    }

    /// Reads a name of this enum.
    pub fn from_name(s: &str) -> (r: Result<Quality, SchemaError>)
        ensures
            match quality_of(s@) {
                Some(v) => r == Ok::<Quality, SchemaError>(v),
                None => r == Err::<Quality, SchemaError>(SchemaError::UnknownName),
            },
    {
        if same_text(s, "normal") {
            Ok(Quality::Normal)
        } else if same_text(s, "uncommon") {
            Ok(Quality::Uncommon)
        } else if same_text(s, "rare") {
            Ok(Quality::Rare)
        } else if same_text(s, "epic") {
            Ok(Quality::Epic)
        } else if same_text(s, "legendary") {
            Ok(Quality::Legendary)
        } else {
            Err(SchemaError::UnknownName)
        }
    }
}

// ---- signal types ----

/// The name written for a value of `SignalType`.
pub open spec fn signal_type_name(v: SignalType) -> Seq<char> {
    match v {
        SignalType::Item => "item"@,
        SignalType::Fluid => "fluid"@,
        SignalType::Virtual => "virtual"@,
        SignalType::Entity => "entity"@,
        SignalType::Recipe => "recipe"@,
        SignalType::SpaceLocation => "space-location"@,
        SignalType::AsteroidChunk => "asteroid-chunk"@,
        SignalType::Quality => "quality"@,
    }
}

/// The value of `SignalType` a name reads as. The empty string reads as `Item`.
pub open spec fn signal_type_of(s: Seq<char>) -> Option<SignalType> {
    if s == "item"@ || s == ""@ {
        Some(SignalType::Item)
    } else if s == "fluid"@ {
        Some(SignalType::Fluid)
    } else if s == "virtual"@ {
        Some(SignalType::Virtual)
    } else if s == "entity"@ {
        Some(SignalType::Entity)
    } else if s == "recipe"@ {
        Some(SignalType::Recipe)
    } else if s == "space-location"@ {
        Some(SignalType::SpaceLocation)
    } else if s == "asteroid-chunk"@ {
        Some(SignalType::AsteroidChunk)
    } else if s == "quality"@ {
        Some(SignalType::Quality)
    } else {
        None
    }
}

impl SignalType {
    /// The name written for this value.
    pub fn name(&self) -> (r: &'static str)
        ensures
            r@ == signal_type_name(*self),
    {
        match self {
            SignalType::Item => "item",
            SignalType::Fluid => "fluid",
            SignalType::Virtual => "virtual",
            SignalType::Entity => "entity",
            SignalType::Recipe => "recipe",
            SignalType::SpaceLocation => "space-location",
            SignalType::AsteroidChunk => "asteroid-chunk",
            SignalType::Quality => "quality",
        }
    }

    /// Reads a name of this enum.
    pub fn from_name(s: &str) -> (r: Result<SignalType, SchemaError>)
        ensures
            match signal_type_of(s@) {
                Some(v) => r == Ok::<SignalType, SchemaError>(v),
                None => r == Err::<SignalType, SchemaError>(SchemaError::UnknownName),
            },
    {
        if same_text(s, "item") || same_text(s, "") {
            Ok(SignalType::Item)
        } else if same_text(s, "fluid") {
            Ok(SignalType::Fluid)
        } else if same_text(s, "virtual") {
            Ok(SignalType::Virtual)
        } else if same_text(s, "entity") {
            Ok(SignalType::Entity)
        } else if same_text(s, "recipe") {
            Ok(SignalType::Recipe)
        } else if same_text(s, "space-location") {
            Ok(SignalType::SpaceLocation)
        } else if same_text(s, "asteroid-chunk") {
            Ok(SignalType::AsteroidChunk)
        } else if same_text(s, "quality") {
            Ok(SignalType::Quality)
        } else {
            Err(SchemaError::UnknownName)
        }
    }
}

// ---- wait conditions ----

/// The name written for a value of `WaitCompareType`.
pub open spec fn wait_compare_name(v: WaitCompareType) -> Seq<char> {
    match v {
        WaitCompareType::And => "And"@,
        WaitCompareType::Or => "Or"@,
    }
}

/// The value of `WaitCompareType` a name reads as.
pub open spec fn wait_compare_of(s: Seq<char>) -> Option<WaitCompareType> {
    if s == "And"@ {
        Some(WaitCompareType::And)
    } else if s == "Or"@ {
        Some(WaitCompareType::Or)
    } else {
        None
    }
}

impl WaitCompareType {
    /// The name written for this value.
    pub fn name(&self) -> (r: &'static str)
        ensures
            r@ == wait_compare_name(*self),
    {
        match self {
            WaitCompareType::And => "And",
            WaitCompareType::Or => "Or",
        }
    }

    /// Reads a name of this enum.
    pub fn from_name(s: &str) -> (r: Result<WaitCompareType, SchemaError>)
        ensures
            match wait_compare_of(s@) {
                Some(v) => r == Ok::<WaitCompareType, SchemaError>(v),
                None => r == Err::<WaitCompareType, SchemaError>(SchemaError::UnknownName),
            },
    {
        if same_text(s, "And") {
            Ok(WaitCompareType::And)
        } else if same_text(s, "Or") {
            Ok(WaitCompareType::Or)
        } else {
            Err(SchemaError::UnknownName)
        }
    }
}

/// The name written for a value of `WaitConditionType`.
pub open spec fn wait_condition_name(v: WaitConditionType) -> Seq<char> {
    match v {
        WaitConditionType::Time => "Time"@,
        WaitConditionType::Inactivity => "Inactivity"@,
        WaitConditionType::Full => "Full"@,
        WaitConditionType::Empty => "Empty"@,
        WaitConditionType::ItemCount => "ItemCount"@,
        WaitConditionType::Circuit => "Circuit"@,
        WaitConditionType::RobotsInactive => "RobotsInactive"@,
        WaitConditionType::FluidCound => "FluidCound"@,
        WaitConditionType::PassengerPresent => "PassengerPresent"@,
        WaitConditionType::PassengerNotPresent => "PassengerNotPresent"@,
    }
}

/// The value of `WaitConditionType` a name reads as.
pub open spec fn wait_condition_of(s: Seq<char>) -> Option<WaitConditionType> {
    if s == "Time"@ {
        Some(WaitConditionType::Time)
    } else if s == "Inactivity"@ {
        Some(WaitConditionType::Inactivity)
    } else if s == "Full"@ {
        Some(WaitConditionType::Full)
    } else if s == "Empty"@ {
        Some(WaitConditionType::Empty)
    } else if s == "ItemCount"@ {
        Some(WaitConditionType::ItemCount)
    } else if s == "Circuit"@ {
        Some(WaitConditionType::Circuit)
    } else if s == "RobotsInactive"@ {
        Some(WaitConditionType::RobotsInactive)
    } else if s == "FluidCound"@ {
        Some(WaitConditionType::FluidCound)
    } else if s == "PassengerPresent"@ {
        Some(WaitConditionType::PassengerPresent)
    } else if s == "PassengerNotPresent"@ {
        Some(WaitConditionType::PassengerNotPresent)
    } else {
        None
    }
}

impl WaitConditionType {
    /// The name written for this value.
    pub fn name(&self) -> (r: &'static str)
        ensures
            r@ == wait_condition_name(*self),
    {
        match self {
            WaitConditionType::Time => "Time",
            WaitConditionType::Inactivity => "Inactivity",
            WaitConditionType::Full => "Full",
            WaitConditionType::Empty => "Empty",
            WaitConditionType::ItemCount => "ItemCount",
            WaitConditionType::Circuit => "Circuit",
            WaitConditionType::RobotsInactive => "RobotsInactive",
            WaitConditionType::FluidCound => "FluidCound",
            WaitConditionType::PassengerPresent => "PassengerPresent",
            WaitConditionType::PassengerNotPresent => "PassengerNotPresent",
        }
    }

    /// Reads a name of this enum.
    pub fn from_name(s: &str) -> (r: Result<WaitConditionType, SchemaError>)
        ensures
            match wait_condition_of(s@) {
                Some(v) => r == Ok::<WaitConditionType, SchemaError>(v),
                None => r == Err::<WaitConditionType, SchemaError>(SchemaError::UnknownName),
            },
    {
        if same_text(s, "Time") {
            Ok(WaitConditionType::Time)
        } else if same_text(s, "Inactivity") {
            Ok(WaitConditionType::Inactivity)
        } else if same_text(s, "Full") {
            Ok(WaitConditionType::Full)
        } else if same_text(s, "Empty") {
            Ok(WaitConditionType::Empty)
        } else if same_text(s, "ItemCount") {
            Ok(WaitConditionType::ItemCount)
        } else if same_text(s, "Circuit") {
            Ok(WaitConditionType::Circuit)
        } else if same_text(s, "RobotsInactive") {
            Ok(WaitConditionType::RobotsInactive)
        } else if same_text(s, "FluidCound") {
            Ok(WaitConditionType::FluidCound)
        } else if same_text(s, "PassengerPresent") {
            Ok(WaitConditionType::PassengerPresent)
        } else if same_text(s, "PassengerNotPresent") {
            Ok(WaitConditionType::PassengerNotPresent)
        } else {
            Err(SchemaError::UnknownName)
        }
    }
}

// ---- ingredient types ----

/// The name written for a value of `IngredientType`.
pub open spec fn ingredient_type_name(v: IngredientType) -> Seq<char> {
    match v {
        IngredientType::Item => "item"@,
        IngredientType::Fluid => "fluid"@,
    }
}

/// The value of `IngredientType` a name reads as.
pub open spec fn ingredient_type_of(s: Seq<char>) -> Option<IngredientType> {
    if s == "item"@ {
        Some(IngredientType::Item)
    } else if s == "fluid"@ {
        Some(IngredientType::Fluid)
    } else {
        None
    }
}

impl IngredientType {
    /// The name written for this value.
    pub fn name(&self) -> (r: &'static str)
        ensures
            r@ == ingredient_type_name(*self),
    {
        match self {
            IngredientType::Item => "item",
            IngredientType::Fluid => "fluid",
        }
    }

    /// Reads a name of this enum.
    pub fn from_name(s: &str) -> (r: Result<IngredientType, SchemaError>)
        ensures
            match ingredient_type_of(s@) {
                Some(v) => r == Ok::<IngredientType, SchemaError>(v),
                None => r == Err::<IngredientType, SchemaError>(SchemaError::UnknownName),
            },
    {
        if same_text(s, "item") {
            Ok(IngredientType::Item)
        } else if same_text(s, "fluid") {
            Ok(IngredientType::Fluid)
        } else {
            Err(SchemaError::UnknownName)
        }
    }
}

// ---- document and entity shapes ----

/// The two shapes a document object can take.
#[derive(Debug, Clone, Copy, PartialEq, Eq, Structural)]
pub enum DocumentKind {
    Book,
    Blueprint,
}

/// The kinds of entity that are recognised.
#[derive(Debug, Clone, Copy, PartialEq, Eq, Structural)]
pub enum EntityKind {
    ConstantCombinator,
}

/// Whether `keys` holds the key `k`.
pub open spec fn has_key(keys: Seq<String>, k: Seq<char>) -> bool {
    exists|i: int| 0 <= i < keys.len() && #[trigger] keys[i]@ == k
}

/// Whether an object with these keys holds `k`.
pub fn contains_key(keys: &Vec<String>, k: &str) -> (r: bool)
    ensures
        r == has_key(keys@, k@),
{
    let mut i: usize = 0;
    while i < keys.len()
        invariant
            i <= keys@.len(),
            forall|j: int| 0 <= j < i ==> keys@[j]@ != k@,
        decreases keys@.len() - i,
    {
        if same_text(keys[i].as_str(), k) {
            return true;
        }
        i += 1;
    }
    false
}

/// The shape of a document object with these keys: a book exactly when it holds
/// `blueprint_book` and not `blueprint`, a blueprint exactly when it holds
/// `blueprint` and not `blueprint_book`.
pub open spec fn document_kind(keys: Seq<String>) -> Result<DocumentKind, SchemaError> {
    let book = has_key(keys, "blueprint_book"@);
    let blueprint = has_key(keys, "blueprint"@);
    if book && blueprint {
        Err(SchemaError::BothDocumentKeys)
    } else if book {
        Ok(DocumentKind::Book)
    } else if blueprint {
        Ok(DocumentKind::Blueprint)
    } else {
        Err(SchemaError::NoDocumentKey)
    }
}

/// Decides, from the keys present, which shape a document object is read as.
pub fn resolve_document_kind(keys: &Vec<String>) -> (r: Result<DocumentKind, SchemaError>)
    ensures
        r == document_kind(keys@),
{
    let book = contains_key(keys, "blueprint_book");
    let blueprint = contains_key(keys, "blueprint");
    if book && blueprint {
        Err(SchemaError::BothDocumentKeys)
    } else if book {
        Ok(DocumentKind::Book)
    } else if blueprint {
        Ok(DocumentKind::Blueprint)
    } else {
        Err(SchemaError::NoDocumentKey)
    }
}

/// The kind of an entity object with these keys: a constant combinator when it holds
/// each field a constant combinator requires.
pub open spec fn entity_kind(keys: Seq<String>) -> Result<EntityKind, SchemaError> {
    if has_key(keys, "control_behavior"@) && has_key(keys, "entity_number"@) && has_key(
        keys,
        "name"@,
    ) && has_key(keys, "position"@) {
        Ok(EntityKind::ConstantCombinator)
    } else {
        Err(SchemaError::UnknownEntity)
    }
}

/// Decides, from the keys present, which kind of entity an object is read as.
pub fn resolve_entity_kind(keys: &Vec<String>) -> (r: Result<EntityKind, SchemaError>)
    ensures
        r == entity_kind(keys@),
{
    if contains_key(keys, "control_behavior") && contains_key(keys, "entity_number")
        && contains_key(keys, "name") && contains_key(keys, "position") {
        Ok(EntityKind::ConstantCombinator)
    } else {
        Err(SchemaError::UnknownEntity)
    }
}

/// An object holding `blueprint` and not `blueprint_book` reads as a blueprint, one
/// holding `blueprint_book` and not `blueprint` as a book, and one holding neither or
/// both is refused.
pub proof fn lemma_document_kind(keys: Seq<String>)
    ensures
        has_key(keys, "blueprint"@) && !has_key(keys, "blueprint_book"@) ==> document_kind(keys)
            == Ok::<DocumentKind, SchemaError>(DocumentKind::Blueprint),
        has_key(keys, "blueprint_book"@) && !has_key(keys, "blueprint"@) ==> document_kind(keys)
            == Ok::<DocumentKind, SchemaError>(DocumentKind::Book),
        has_key(keys, "blueprint"@) == has_key(keys, "blueprint_book"@) ==> document_kind(
            keys,
        ) is Err,
{
}

// ---- defaults ----

/// The `active` field a section is written with: left out when it holds the default.
pub open spec fn active_on_wire(s: Section) -> Option<bool> {
    if s.active {
        None
    } else {
        Some(false)
    }
}

/// The `active` flag read from the field as written, the default when it is absent.
pub open spec fn active_from_wire(w: Option<bool>) -> bool {
    match w {
        Some(b) => b,
        None => true,
    }
}

impl Section {
    /// The `active` field as written: absent when the section is active.
    pub fn wire_active(&self) -> (r: Option<bool>)
        ensures
            r == active_on_wire(*self),
    {
        if self.active {
            None
        } else {
            Some(false)
        }
    }

    /// The `active` flag of a section read with field `w`.
    pub fn active_from_wire(w: Option<bool>) -> (r: bool)
        ensures
            r == active_from_wire(w),
    {
        match w {
            Some(b) => b,
            None => crate::schema::section_active_default(),
        }
    }
}

/// An active section is written without `active`, an inactive one with it, and reading
/// back what was written gives the flag again; a section read without the field is active.
pub proof fn lemma_active_default(s: Section)
    ensures
        active_on_wire(s) is None <==> s.active,
        active_from_wire(active_on_wire(s)) == s.active,
        active_from_wire(None),
{
}

} // verus!
