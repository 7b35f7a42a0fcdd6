use vstd::prelude::*;

verus! {

/// The number of Discord servers the bot is in, as reported to the web API.
#[derive(Clone, Copy, Debug, PartialEq, Eq, Structural)]
pub struct DiscordServerCount {
    pub server_count: i64,
}

} // verus!
