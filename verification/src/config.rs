use vstd::prelude::*;

verus! {

/// Runtime configuration: the chat token and the streaming-platform
/// credentials. The caller loads the raw values from wherever it keeps them
/// and hands them over as plain strings.
pub struct Config {
    pub discord_token: String,
    pub twitch_client_id: String,
    pub twitch_oauth: String,
}

/// Builds the configuration record from its three credential strings.
pub fn get_config(discord_token: String, twitch_client_id: String, twitch_oauth: String) -> (c:
    Config)
    ensures
        c.discord_token == discord_token,
        c.twitch_client_id == twitch_client_id,
        c.twitch_oauth == twitch_oauth,
{
    Config { discord_token, twitch_client_id, twitch_oauth }
}

} // verus!
