//! The creatures of the catalog.

use vstd::prelude::*;

verus! {

/// The elemental type of a creature; `NONE` where a creature has no second type.
#[derive(Debug)]
pub enum PokemonType {
    NORMAL,
    FIRE,
    WATER,
    ELECTRIC,
    GRASS,
    ICE,
    FIGHTING,
    POISON,
    GROUND,
    FLYING,
    PSYCHIC,
    BUG,
    ROCK,
    GHOST,
    DRAGON,
    DARK,
    STEEL,
    FAIRY,
    NONE,
}

} // verus!
