//! Runtime configuration of the bot: the channels the two message triggers
//! watch, the voting emoji, and the periods of the two background loops.
//! The default values are the ones the bot ships with.

use vstd::prelude::*;

verus! {

pub struct BotConfig {
    /// Channel watched for `!`-prefixed suggestion messages.
    pub suggestion_channel_id: u64,
    /// Channel watched for `&`-prefixed announcement messages.
    pub announcement_channel_id: u64,
    /// Custom emoji attached to a posted suggestion as the up vote.
    pub vote_up_emoji_id: u64,
    /// Custom emoji attached to a posted suggestion as the down vote.
    pub vote_down_emoji_id: u64,
    /// Seconds between two system-load reports.
    pub telemetry_interval_secs: u64,
    /// Seconds between two presence updates.
    pub presence_interval_secs: u64,
}

pub open spec fn spec_default_config() -> BotConfig {
    BotConfig {
        suggestion_channel_id: 1173231671718449265u64,
        announcement_channel_id: 1173075205267148861u64,
        vote_up_emoji_id: 1178476355160125460u64,
        vote_down_emoji_id: 1178476382842519724u64,
        telemetry_interval_secs: 9000u64,
        presence_interval_secs: 60u64,
    }
}

impl Default for BotConfig {
    fn default() -> (c: Self)
        ensures
            c == spec_default_config(),
    {
        BotConfig {
            suggestion_channel_id: 1173231671718449265u64,
            announcement_channel_id: 1173075205267148861u64,
            vote_up_emoji_id: 1178476355160125460u64,
            vote_down_emoji_id: 1178476382842519724u64,
            telemetry_interval_secs: 9000u64,
            presence_interval_secs: 60u64,
        }
    }
}

/// The color every embed the bot posts is drawn in.
pub fn embed_color() -> (c: u32)
    ensures
        c == 0x2c2d31,
{
    0x2c2d31
}

} // verus!
