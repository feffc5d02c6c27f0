use vstd::prelude::*;

verus! {

/// Failures that the engine reports to the user who started an action.
#[derive(Debug)]
pub enum Error {
    /// The action was started outside of a guild.
    MissingGuildId,
    /// The guild has no events channel configured.
    MissingSetup,
    /// The roster already holds as many users as the post allows.
    FireteamFull,
    /// Only the owner, given here, may perform the action.
    PermissionDenied(i64),
    /// The start time did not parse; the expected format is given.
    InvalidDateTime(String),
    /// The platform demands a classification tag that could not be resolved.
    TagRequired,
    /// The user is already in the list they asked to join.
    AlreadyJoined,
    /// The channel is not an events channel.
    InvalidChannel,
    /// The fireteam size is below one, or below the number already on the roster.
    InvalidFireteamSize,
}

} // verus!
