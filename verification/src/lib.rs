use vstd::prelude::*;

pub mod channel;
pub mod loader;
pub mod user;
pub mod user_map;

verus! {

/// Shared, read-only run configuration: the export root, the target guild,
/// the remote credential, and the conflict policy. Built once at startup and
/// never mutated afterwards.
pub struct Context {
    /// Root directory of the export (the directory holding `users.json` and
    /// `channels.json`).
    pub root: String,
    /// Identifier of the guild that channels are created in.
    pub guild_id: u64,
    /// Bearer credential for the remote administrative API.
    pub discord_token: String,
    /// Conflict policy: when a channel of the same name already exists in the
    /// guild, `true` reuses it and `false` fails the migrator.
    pub use_existing_channel: bool,
}

} // verus!
