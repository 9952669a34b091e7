use vstd::prelude::*;

verus! {

/// Marks what goes away when a game ends.
#[derive(PartialEq, Eq, Structural, Clone, Copy, Debug)]
pub struct CleanupWhenPlayerDies;

/// The entities (by their bits) to remove, with their children, when a screen
/// is cleaned up: every entity that carries the screen's marker.
pub fn cleanup_system(marked: &Vec<u64>) -> (despawned: Vec<u64>)
    ensures
        despawned@ == marked@,
{
    let mut despawned: Vec<u64> = Vec::new();
    let mut i: usize = 0;
    while i < marked.len()
        invariant
            i <= marked@.len(),
            despawned@ == marked@.subrange(0, i as int),
        decreases marked@.len() - i,
    {
        despawned.push(marked[i]);
        i = i + 1;
    }
    despawned
}

} // verus!
