//! Parser for plain-text tabletop army rosters: an army header, a sequence
//! of units (stat line plus weapon line, with optional joined sub-units),
//! and free-standing `Name: Value` definition lists.
//!
//! Extraction is best-effort: a field that cannot be found degrades to an
//! in-band sentinel string (or an absent value for optional fields), never
//! to a failure of the whole parse.

pub mod chars;
pub mod extract;
pub mod weapons;
pub mod army;
pub mod definitions;
pub mod spells;

pub use army::{parse_army, parse_units, Army, Unit};
pub use definitions::{parse_definitions, Definition};
pub use spells::parse_spells;
pub use weapons::{parse_weapons, Weapon};
