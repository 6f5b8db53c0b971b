//! How the host asks for a new game instance to be initialized.

use vstd::prelude::*;

verus! {

/// Initialization request handed to a game's `create`.
pub enum GameInit {
    /// Default options and the initial state.
    Default,
    /// Optional options, legacy and state strings.
    Standard { opts: Option<String>, legacy: Option<String>, state: Option<String> },
    /// A serialized game produced by an earlier instance.
    Serialized(Vec<u8>),
}

} // verus!
