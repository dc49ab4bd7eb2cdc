use bevy::platform::collections::HashMap;
use bevy::platform::hash::FixedHasher;
use vstd::prelude::*;

verus! {

/// `bevy::platform::hash::FixedHasher`, the hasher state that the engine's
/// maps use by default. It is declared so that the map's type can be
/// written; nothing is claimed of it.
#[verifier::external_type_specification]
#[verifier::external_body]
pub struct ExFixedHasher(FixedHasher);

/// `bevy::platform::collections::HashMap`, the engine's hash map. What a
/// map holds is not visible here: `bird_cells` names it, and the wrappers
/// below say what each call does to it.
#[verifier::external_type_specification]
#[verifier::external_body]
#[verifier::reject_recursive_types(K)]
#[verifier::reject_recursive_types(V)]
#[verifier::reject_recursive_types(S)]
pub struct ExHashMap<K, V, S>(HashMap<K, V, S>);

/// A board cell: x, elevation, z.
pub type Cell = (i32, i32, i32);

/// The map from the cells that hold a bird to the handles of those birds.
/// A handle is the engine's entity identifier, as its 64 bits.
pub type BirdMap = HashMap<Cell, u64>;

/// The entries of a bird map: the bird that each cell is bound to. No
/// definition is given; all that is known of it is what the wrappers below
/// claim of the calls they make.
pub uninterp spec fn bird_cells(m: BirdMap) -> Map<Cell, u64>;

/// Calls `HashMap::new`. Claimed: the new map has no entries.
#[verifier::external_body]
pub(crate) fn cells_new() -> (m: BirdMap)
    ensures
        bird_cells(m) == (Map::<Cell, u64>::empty()),
{
    HashMap::new()
}

/// Calls `HashMap::insert`. Claimed: afterwards the cell is bound to the
/// bird and every other entry is as before; the result is the bird that the
/// cell was bound to before, if it was bound.
#[verifier::external_body]
pub(crate) fn cells_insert(m: &mut BirdMap, cell: Cell, bird: u64) -> (before: Option<u64>)
    ensures
        bird_cells(*final(m)) == bird_cells(*old(m)).insert(cell, bird),
        before == (if bird_cells(*old(m)).contains_key(cell) {
            Some(bird_cells(*old(m))[cell])
        } else {
            None
        }),
{
    m.insert(cell, bird)
}

/// Calls `HashMap::remove`. Claimed: afterwards the cell is not bound and
/// every other entry is as before; the result is the bird that the cell was
/// bound to, if it was bound.
#[verifier::external_body]
pub(crate) fn cells_remove(m: &mut BirdMap, cell: Cell) -> (taken: Option<u64>)
    ensures
        bird_cells(*final(m)) == bird_cells(*old(m)).remove(cell),
        taken == (if bird_cells(*old(m)).contains_key(cell) {
            Some(bird_cells(*old(m))[cell])
        } else {
            None
        }),
{
    m.remove(&cell)
}

/// Calls `HashMap::is_empty`. Claimed: the result is true exactly when no
/// cell is bound.
#[verifier::external_body]
pub(crate) fn cells_is_empty(m: &BirdMap) -> (empty: bool)
    ensures
        empty <==> (forall|cell: Cell| !bird_cells(*m).contains_key(cell)),
{
    m.is_empty()
}

/// Calls `HashMap::get`. Claimed: the result is the bird that the cell is
/// bound to, if it is bound; the map is not changed.
#[verifier::external_body]
pub(crate) fn cells_get(m: &BirdMap, cell: Cell) -> (found: Option<u64>)
    ensures
        found == (if bird_cells(*m).contains_key(cell) {
            Some(bird_cells(*m)[cell])
        } else {
            None
        }),
{
    m.get(&cell).copied()
}

} // verus!
