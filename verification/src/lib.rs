// A turn-resolution library for a revolver elimination game: players seated in
// a rotating order fold, slide (stall), or pull the trigger on a shared
// revolver, until someone is shot, someone survives the last chamber, or
// everyone has folded. The resolver is a pure function from a table snapshot
// and a chosen action to the next snapshot or a terminal outcome.

pub mod laws;
pub mod model;
pub mod resolver;
pub mod table;
