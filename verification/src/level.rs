//! The registry of level entity identifiers.
//!
//! Level content declares each entity by name; instantiating one goes
//! through this registry. An identifier that is not registered is an
//! authoring defect: the loader must fail the load outright rather than
//! run degraded, so the lookup makes the failure an explicit value
//! instead of dying inside the instantiation path.

use vstd::prelude::*;

verus! {

/// The kinds of entity the level loader can instantiate.
#[derive(Clone, Copy, PartialEq, Eq, Structural, Debug)]
pub enum EntityKind {
    Player,
}

/// Looks up a declared entity-type identifier. `None` marks an
/// unregistered identifier, which the loader treats as fatal.
pub fn entity_kind(identifier: &str) -> (r: Option<EntityKind>)
    ensures
        r matches Some(k) ==> identifier@ == "Player"@ && k == EntityKind::Player,
        r is None <==> identifier@ != "Player"@,
{
    let id: String = identifier.to_owned();
    let player: String = "Player".to_owned();
    if id == player {
        Some(EntityKind::Player)
    } else {
        None
    }
}

} // verus!
