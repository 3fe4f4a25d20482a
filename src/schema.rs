//! The blueprint document: blueprints, books, entities and the circuit-network
//! values they carry.
//!
//! Coordinates and colour channels are single-precision numbers in the document;
//! they are held here as their IEEE-754 binary32 bit patterns and passed through
//! unchanged.
use vstd::prelude::*;

verus! {

/// A layout of placed entities, tiles and schedules.
#[derive(Debug, Clone, PartialEq)]
pub struct Blueprint {
    pub item: String,
    pub label: Option<String>,
    pub label_color: Option<Color>,
    pub entities: Option<Vec<Entity>>,
    pub tiles: Option<Vec<Tile>>,
    pub icons: Vec<Icon>,
    pub schedules: Option<Vec<Schedule>>,
    pub description: Option<String>,
    pub snap_to_grid: Option<Position>,
    pub absolute_snapping: Option<bool>,
    pub position_relative_to_grid: Option<Position>,
    /// The game-version bitfield, carried through unread.
    pub version: u64,
}

impl Blueprint {
    /// A blueprint with the given discriminator, icons and version and nothing else.
    pub fn new(item: String, icons: Vec<Icon>, version: u64) -> (r: Blueprint)
        ensures
            r.item == item,
            r.icons == icons,
            r.version == version,
            r.entities is None,
            r.label is None,
            r.label_color is None,
            r.tiles is None,
            r.schedules is None,
            r.description is None,
            r.snap_to_grid is None,
            r.absolute_snapping is None,
            r.position_relative_to_grid is None,
    {
        Blueprint {
            item,
            label: None,
            label_color: None,
            entities: None,
            tiles: None,
            icons,
            schedules: None,
            description: None,
            snap_to_grid: None,
            absolute_snapping: None,
            position_relative_to_grid: None,
            version,
        }
    }

    /// The same blueprint, holding `entities`.
    pub fn with_entities(self, entities: Vec<Entity>) -> (r: Blueprint)
        ensures
            r == (Blueprint { entities: Some(entities), ..self }),
    {
        Blueprint { entities: Some(entities), ..self }
    }
}

/// A train schedule.
#[derive(Debug, Clone, PartialEq)]
pub struct Schedule {
    pub schedule: Vec<ScheduleRecord>,
}

/// One stop of a schedule.
#[derive(Debug, Clone, PartialEq)]
pub struct ScheduleRecord {
    pub station: String,
    pub wait_conditions: Vec<WaitCondition>,
    pub temporary: bool,
}

/// A condition a train waits for at a stop.
#[derive(Debug, Clone, PartialEq)]
pub struct WaitCondition {
    pub wait_condition_type: WaitConditionType,
    pub compare_type: WaitCompareType,
    pub ticks: usize,
}

/// How a wait condition joins the one before it.
#[derive(Debug, Clone, Copy, PartialEq, Eq, Structural)]
pub enum WaitCompareType {
    And,
    Or,
}

/// What a wait condition waits for.
#[derive(Debug, Clone, Copy, PartialEq, Eq, Structural)]
pub enum WaitConditionType {
    Time,
    Inactivity,
    Full,
    Empty,
    ItemCount,
    Circuit,
    RobotsInactive,
    FluidCound,
    PassengerPresent,
    PassengerNotPresent,
}

/// A placed tile.
#[derive(Debug, Clone, PartialEq)]
pub struct Tile {
    pub name: String,
    pub position: Position,
}

/// A label colour: four binary32 channels, as bit patterns.
#[derive(Debug, Clone, Copy, PartialEq, Eq, Structural)]
pub struct Color {
    pub r_bits: u32,
    pub g_bits: u32,
    pub b_bits: u32,
    pub a_bits: u32,
}

/// A point on the grid: two binary32 coordinates, as bit patterns.
#[derive(Debug, Clone, Copy, PartialEq, Eq, Structural)]
pub struct Position {
    pub x_bits: u32,
    pub y_bits: u32,
}

impl Position {
    /// The origin (both coordinates +0.0, whose bit pattern is 0).
    pub fn new() -> (r: Position)
        ensures
            r.x_bits == 0 && r.y_bits == 0,
    {
        Position { x_bits: 0, y_bits: 0 }
    }

    /// The point whose coordinates have the bit patterns `x_bits` and `y_bits`.
    pub fn from_xy(x_bits: u32, y_bits: u32) -> (r: Position)
        ensures
            r.x_bits == x_bits && r.y_bits == y_bits,
    {
        Position { x_bits, y_bits }
    }
}

/// A placed entity; constant combinators are the one recognised kind.
#[derive(Debug, Clone, PartialEq)]
pub enum Entity {
    ConstantCombinator(ConstantCombinator),
}

/// An icon slot of a blueprint.
#[derive(Debug, Clone, PartialEq)]
pub struct Icon {
    pub index: usize,
    pub signal: Signal,
}

/// A circuit signal: a name within a signal-type namespace.
#[derive(Debug, Clone, PartialEq)]
pub struct Signal {
    pub name: String,
    pub signal_type: Option<SignalType>,
}

impl Signal {
    /// A signal with the given name and no type.
    pub fn new(name: String) -> (r: Signal)
        ensures
            r.name == name,
            r.signal_type is None,
    {
        Signal { name, signal_type: None }
    }
}

/// How a filter compares a signal with its count.
#[derive(Debug, Clone, Copy, PartialEq, Eq, Structural)]
pub enum Comparator {
    EqualTo,
    GreaterThan,
    LesserThan,
    GreaterThanOrEqualTo,
    LesserThanOrEqualTo,
    NotEqualTo,
}

/// The five quality levels.
#[derive(Debug, Clone, Copy, PartialEq, Eq, Structural)]
pub enum Quality {
    Normal,
    Uncommon,
    Rare,
    Epic,
    Legendary,
}

/// The namespace of a signal's name.
#[derive(Debug, Clone, Copy, PartialEq, Eq, Structural)]
pub enum SignalType {
    Item,
    Fluid,
    Virtual,
    Entity,
    Recipe,
    SpaceLocation,
    AsteroidChunk,
    Quality,
}

/// A constant combinator: an entity that emits the signals of its sections.
#[derive(Debug, Clone, PartialEq)]
pub struct ConstantCombinator {
    pub control_behavior: ControlBehavior,
    pub entity_number: usize,
    pub name: String,
    pub position: Position,
}

/// The canonical name of a constant combinator.
pub open spec fn constant_combinator_name() -> Seq<char> {
    "constant-combinator"@
}

impl ConstantCombinator {
    /// Entity number 1 at the origin, with no sections.
    pub fn new() -> (r: ConstantCombinator)
        ensures
            r.control_behavior.sections.sections@.len() == 0,
            r.entity_number == 1,
            r.name@ == constant_combinator_name(),
            r.position == Position::new_spec(),
    {
        proof {
            reveal_strlit("constant-combinator");
        }
        ConstantCombinator {
            control_behavior: ControlBehavior::new(),
            entity_number: 1,
            name: "constant-combinator".to_owned(),
            position: Position::from_xy(0, 0),
        }
    }

    /// Appends `section`, numbered with the next section index.
    pub fn push_section(&mut self, section: Section)
        requires
            old(self).control_behavior.sections.sections@.len() < 256,
        ensures
            final(self).control_behavior.sections.sections@ == old(
                self,
            ).control_behavior.sections.sections@.push(
                section.with_index_spec(old(self).control_behavior.sections.sections@.len() as u8),
            ),
            final(self).entity_number == old(self).entity_number,
            final(self).name == old(self).name,
            final(self).position == old(self).position,
    {
        self.control_behavior.push_section(section);
    }

    /// The sections, in order.
    pub fn sections(&self) -> (r: &Vec<Section>)
        ensures
            *r == self.control_behavior.sections.sections,
    {
        &self.control_behavior.sections.sections
    }

    /// The sections, for changing in place; nothing else of the combinator changes.
    pub fn sections_mut(&mut self) -> (r: &mut Vec<Section>)
        ensures
            *r == old(self).control_behavior.sections.sections,
            final(self).control_behavior.sections.sections == *final(r),
            final(self).entity_number == old(self).entity_number,
            final(self).name == old(self).name,
            final(self).position == old(self).position,
    {
        &mut self.control_behavior.sections.sections
    }

    /// The same combinator, holding `sections` as they are.
    pub fn with_sections(self, sections: Vec<Section>) -> (r: ConstantCombinator)
        ensures
            r.control_behavior.sections.sections == sections,
            r.entity_number == self.entity_number,
            r.name == self.name,
            r.position == self.position,
    {
        ConstantCombinator { control_behavior: ControlBehavior::with_sections(sections), ..self }
    }

    /// The same combinator, placed at `position`.
    pub fn with_position(self, position: Position) -> (r: ConstantCombinator)
        ensures
            r == (ConstantCombinator { position, ..self }),
    {
        ConstantCombinator { position, ..self }
    }

    /// The same combinator, numbered `entity_number`.
    pub fn with_entity_number(self, entity_number: usize) -> (r: ConstantCombinator)
        ensures
            r == (ConstantCombinator { entity_number, ..self }),
    {
        ConstantCombinator { entity_number, ..self }
    }

    /// The entity's name.
    pub fn name(&self) -> (r: &String)
        ensures
            *r == self.name,
    {
        &self.name
    }
}

impl Position {
    pub open spec fn new_spec() -> Position {
        Position { x_bits: 0, y_bits: 0 }
    }
}

/// The circuit behaviour of a constant combinator.
#[derive(Debug, Clone, PartialEq)]
pub struct ControlBehavior {
    pub sections: Sections,
}

impl ControlBehavior {
    /// No sections.
    pub fn new() -> (r: ControlBehavior)
        ensures
            r.sections.sections@.len() == 0,
    {
        ControlBehavior { sections: Sections::new(Vec::new()) }
    }

    /// The sections, in order.
    pub fn sections(&self) -> (r: &Vec<Section>)
        ensures
            *r == self.sections.sections,
    {
        &self.sections.sections
    }

    /// Appends `section`, numbered with the next section index.
    pub fn push_section(&mut self, section: Section)
        requires
            old(self).sections.sections@.len() < 256,
        ensures
            final(self).sections.sections@ == old(self).sections.sections@.push(
                section.with_index_spec(old(self).sections.sections@.len() as u8),
            ),
    {
        let idx = self.sections.sections.len() as u8;
        self.sections.sections.push(section.with_index(idx));
    }

    /// Holds `sections` as they are.
    pub fn with_sections(sections: Vec<Section>) -> (r: ControlBehavior)
        ensures
            r.sections.sections == sections,
    {
        ControlBehavior { sections: Sections::new(sections) }
    }
}

/// The wire wrapper around a combinator's section list.
#[derive(Debug, Clone, PartialEq)]
pub struct Sections {
    pub sections: Vec<Section>,
}

impl Sections {
    /// Holds `sections` as they are.
    pub fn new(sections: Vec<Section>) -> (r: Sections)
        ensures
            r.sections == sections,
    {
        Sections { sections }
    }
}

/// A group of filters within a combinator.
#[derive(Debug, Clone, PartialEq)]
pub struct Section {
    /// The position of the section within its combinator, from 0.
    pub index: u8,
    pub group: Option<String>,
    pub filters: Vec<LogisticFilter>,
    pub multiplier: Option<usize>,
    pub active: bool,
}

/// Whether a section reads as active when the document does not say.
pub fn section_active_default() -> (r: bool)
    ensures
        r,
{
    true
}

impl Section {
    /// An active section with the given index and filters, no group and no multiplier.
    pub fn new(index: u8, filters: Vec<LogisticFilter>) -> (r: Section)
        ensures
            r == (Section { index, group: None, filters, multiplier: None, active: true }),
    {
        Section { index, group: None, filters, multiplier: None, active: true }
    }

    /// The same section, switched off.
    pub fn deactivate(self) -> (r: Section)
        ensures
            r == (Section { active: false, ..self }),
    {
        Section { active: false, ..self }
    }

    pub open spec fn with_index_spec(self, index: u8) -> Section {
        Section { index, ..self }
    }

    /// The same section, numbered `index`.
    pub fn with_index(self, index: u8) -> (r: Section)
        ensures
            r == self.with_index_spec(index),
    {
        Section { index, ..self }
    }
}

/// One signal slot of a section.
#[derive(Debug, Clone, PartialEq)]
pub struct LogisticFilter {
    /// The slot within its section, from 1.
    pub index: u16,
    pub signal_type: Option<SignalType>,
    pub name: String,
    pub quality: Quality,
    pub comparator: Comparator,
    pub count: usize,
    pub max_count: Option<usize>,
    pub minimum_delivery_count: Option<usize>,
    pub import_from: Option<String>,
}

impl LogisticFilter {
    /// A filter with the given slot, name, count, quality and comparator, and no type.
    pub fn new(
        index: u16,
        name: String,
        count: usize,
        quality: Quality,
        comparator: Comparator,
    ) -> (r: LogisticFilter)
        ensures
            r == (LogisticFilter {
                index,
                signal_type: None,
                name,
                quality,
                comparator,
                count,
                max_count: None,
                minimum_delivery_count: None,
                import_from: None,
            }),
    {
        LogisticFilter {
            index,
            signal_type: None,
            name,
            quality,
            comparator,
            count,
            max_count: None,
            minimum_delivery_count: None,
            import_from: None,
        }
    }

    /// The same filter, typed `signal_type`.
    pub fn with_signal_type(self, signal_type: SignalType) -> (r: LogisticFilter)
        ensures
            r == (LogisticFilter { signal_type: Some(signal_type), ..self }),
    {
        LogisticFilter { signal_type: Some(signal_type), ..self }
    }
}

/// An ordered container of blueprints and nested books.
#[derive(Debug, PartialEq)]
pub struct BlueprintBook {
    pub blueprints: Vec<BlueprintMeta>,
    pub active_index: usize,
    pub item: String,
    pub label: String,
    pub version: u64,
}

impl BlueprintBook {
    /// Whether `active_index` points into a non-empty book (an empty book has
    /// nothing to point to and is accepted as it is).
    pub open spec fn active_index_valid(self) -> bool {
        self.blueprints@.len() == 0 || self.active_index < self.blueprints@.len()
    }

    /// Checks the active index against the book's contents.
    pub fn is_valid(&self) -> (r: bool)
        ensures
            r == self.active_index_valid(),
    {
        self.blueprints.len() == 0 || self.active_index < self.blueprints.len()
    }
}

/// A document: a book or a blueprint, with its optional slot in an enclosing book.
#[derive(Debug, PartialEq)]
pub enum BlueprintMeta {
    Book { blueprint_book: BlueprintBook, index: Option<usize> },
    Blueprint { blueprint: Blueprint, index: Option<usize> },
}

impl BlueprintMeta {
    /// Whether every book in this document, nested ones included, has a valid
    /// active index.
    pub open spec fn books_valid(self) -> bool
        decreases self,
    {
        match self {
            BlueprintMeta::Book { blueprint_book, .. } => {
                &&& blueprint_book.active_index_valid()
                &&& forall|i: int|
                    0 <= i < blueprint_book.blueprints@.len() ==> (#[trigger] blueprint_book.blueprints@[i]).books_valid()
            },
            BlueprintMeta::Blueprint { .. } => true,
        }
    }

    /// Checks the active index of every book in this document.
    pub fn check_books(&self) -> (r: bool)
        ensures
            r == self.books_valid(),
        decreases self,
    {
        match self {
            BlueprintMeta::Book { blueprint_book, .. } => {
                if !blueprint_book.is_valid() {
                    return false;
                }
                proof {
                    assert forall|j: int| 0 <= j < blueprint_book.blueprints@.len() implies decreases_to!(*self
                        => #[trigger] blueprint_book.blueprints@[j]) by {
                        vstd::std_specs::vec::axiom_vec_index_decreases(blueprint_book.blueprints, j);
                        assert(decreases_to!(*self => blueprint_book.blueprints));
                    }
                }
                let ghost whole = *self;
                let mut i: usize = 0;
                while i < blueprint_book.blueprints.len()
                    invariant
                        whole == *self,
                        whole.books_valid() <==> (forall|j: int|
                            0 <= j < blueprint_book.blueprints@.len()
                                ==> (#[trigger] blueprint_book.blueprints@[j]).books_valid()),
                        forall|j: int|
                            0 <= j < blueprint_book.blueprints@.len() ==> decreases_to!(whole
                                => #[trigger] blueprint_book.blueprints@[j]),
                        i <= blueprint_book.blueprints@.len(),
                        forall|j: int| 0 <= j < i ==> (#[trigger] blueprint_book.blueprints@[j]).books_valid(),
                    decreases blueprint_book.blueprints@.len() - i,
                {
                    if !blueprint_book.blueprints[i].check_books() {
                        return false;
                    }
                    i += 1;
                }
                true
            },
            BlueprintMeta::Blueprint { .. } => true,
        }
    }
}

} // verus!
