//! Validation for the chat-ingest front-end: snowflake ids must be
//! eighteen ASCII digits before any request is made with them.

use vstd::prelude::*;

verus! {

/// A message reference fetched from the chat service.
#[derive(Debug, Clone)]
pub struct DiscordMessage {
    pub id: String,
    pub channel_id: String,
    pub attachments: Vec<DiscordAttachment>,
}

/// One attachment of a fetched message.
#[derive(Debug, Clone)]
pub struct DiscordAttachment {
    pub id: String,
    pub filename: String,
    pub url: String,
    pub content_type: Option<String>,
}

/// `s` is a well-formed snowflake id: exactly eighteen decimal digits.
pub open spec fn valid_snowflake(s: Seq<char>) -> bool {
    s.len() == 18 && forall|i: int| 0 <= i < s.len() ==> '0' <= #[trigger] s[i] <= '9'
}

/// Validate a snowflake id: eighteen ASCII digits.
pub fn is_valid_snowflake(id: &str) -> (r: bool)
    ensures
        r == valid_snowflake(id@),
{
    let len = id.unicode_len();
    if len != 18 {
        return false;
    }
    let mut i: usize = 0;
    while i < len
        invariant
            len == id@.len(),
            i <= len,
            forall|j: int| 0 <= j < i ==> '0' <= #[trigger] id@[j] <= '9',
        decreases len - i,
    {
        let c = id.get_char(i);
        if !(c >= '0' && c <= '9') {
            return false;
        }
        i = i + 1;
    }
    true
}

/// Why a fetch request is refused before it is made.
#[derive(Clone, Copy, Debug, PartialEq, Eq, Structural)]
pub enum SnowflakeError {
    /// The channel id is not a snowflake.
    BadChannelId,
    /// The message id is not a snowflake.
    BadMessageId,
}

/// Validate both ids of a fetch request, the channel's first.
pub fn check_fetch_ids(channel_id: &str, message_id: &str) -> (r: Result<(), SnowflakeError>)
    ensures
        !valid_snowflake(channel_id@) ==> r == Err::<(), SnowflakeError>(
            SnowflakeError::BadChannelId,
        ),
        valid_snowflake(channel_id@) && !valid_snowflake(message_id@) ==> r == Err::<
            (),
            SnowflakeError,
        >(SnowflakeError::BadMessageId),
        valid_snowflake(channel_id@) && valid_snowflake(message_id@) ==> r is Ok,
{
    if !is_valid_snowflake(channel_id) {
        return Err(SnowflakeError::BadChannelId);
    }
    if !is_valid_snowflake(message_id) {
        return Err(SnowflakeError::BadMessageId);
    }
    Ok(())
}

} // verus!
