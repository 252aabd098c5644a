//! The Discord gateway: its credential, channels and messages.
use vstd::prelude::*;

use crate::text::{is_uuid_text, uuid_v4_string};

verus! {

/// Why a Discord operation failed.
#[derive(Debug)]
pub enum DiscordError {
    AuthFailed,
    GatewayFailed(String),
    RateLimited,
}

/// A Discord token.
pub struct DiscordCredential {
    pub token: String,
}

/// A Discord channel.
pub struct DiscordChannel {
    pub id: String,
    pub name: String,
    pub guild_id: Option<String>,
}

/// A Discord message.
pub struct DiscordMessage {
    pub id: String,
    pub channel_id: String,
    pub author_id: String,
    pub content: String,
    pub timestamp: String,
}

/// What the Discord gateway of one account decides. Its token and its
/// connection through Tor are kept beside it by the caller, since nothing
/// here reads them.
pub struct DiscordGateway;

/// The timestamp that messages sent here carry.
pub open spec fn stub_timestamp() -> Seq<char> {
    "1970-01-01T00:00:00Z"@
}

fn chrono_stub() -> (res: String)
    ensures
        res@ == stub_timestamp(),
{
    "1970-01-01T00:00:00Z".to_owned()
}

impl DiscordGateway {
    /// A gateway.
    pub fn new() -> (res: Self) {
        DiscordGateway
    }

    /// The channels of a guild: none are fetched yet.
    pub fn fetch_channels(&self, guild_id: &str) -> (res: Result<Vec<DiscordChannel>, DiscordError>)
        ensures
            res matches Ok(v) && v@.len() == 0,
    {
        Ok(Vec::new())
    }

    /// A message to `channel_id` with `content`, under a new random id, from
    /// the local author and stamped with the fixed timestamp.
    pub fn send_message(&self, channel_id: &str, content: &str) -> (res: Result<DiscordMessage, DiscordError>)
        ensures
            res matches Ok(m) && m.channel_id@ == channel_id@ && m.author_id@ == "local"@ && m.content@
                == content@ && m.timestamp@ == stub_timestamp() && is_uuid_text(m.id@),
    {
        let msg = DiscordMessage {
            id: uuid_v4_string(),
            channel_id: channel_id.to_owned(),
            author_id: "local".to_owned(),
            content: content.to_owned(),
            timestamp: chrono_stub(),
        };
        Ok(msg)
    }
}

} // verus!
