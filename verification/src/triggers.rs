//! The two message triggers: suggestion intake (`!` in the suggestion
//! channel) and announcement relay (`&` in the announcement channel).
//! `handle_message` turns a channel, a message body and an author name into
//! the action the bot takes; the contract says exactly which action comes
//! out of which input.

use vstd::prelude::*;

use crate::config::BotConfig;
use crate::text::{
    join_spaces, join_words, remove_char, split_words, starts_with_char, first_char_is, str_eq,
    strip_char, tokens,
};

verus! {

/// The word that marks a suggestion and is dropped from its body.
pub open spec fn sigil_token() -> Seq<char> {
    seq!['!']
}

/// The body of a suggestion: the words of `s` minus the first bare `!`
/// word, joined with single spaces. `None` when `s` has fewer than two
/// words or no word is exactly `!` (the sigil glued to another word does
/// not count); such a message is ignored.
pub open spec fn suggestion_body(s: Seq<char>) -> Option<Seq<char>> {
    let ts = tokens(s);
    if ts.len() < 2 {
        None
    } else {
        match ts.index_of_first(sigil_token()) {
            Some(i) => Some(join_spaces(ts.remove(i))),
            None => None,
        }
    }
}

/// A message with fewer than two words is never taken as a suggestion:
/// it yields no body, so no embed is posted and nothing is deleted.
pub proof fn lemma_short_message_has_no_suggestion(s: Seq<char>)
    requires
        tokens(s).len() < 2,
    ensures
        suggestion_body(s) is None,
{
}

/// The body of an announcement: the message with every `&` removed.
pub open spec fn announcement_body(s: Seq<char>) -> Seq<char> {
    remove_char(s, '&')
}

pub open spec fn suggestion_dm_footer_text(author: Seq<char>) -> Seq<char> {
    "Suggestion from "@ + author + " sent successfully. Great job!"@
}

pub open spec fn announcement_footer_text(author: Seq<char>) -> Seq<char> {
    "On behalf of Vexus Command, "@ + author
}

pub open spec fn suggestion_notice_text() -> Seq<char> {
    "Suggestion received!"@
}

/// A custom emoji the bot attaches to a posted suggestion as a vote.
pub struct ReactionEmoji {
    pub animated: bool,
    pub emoji_id: u64,
    pub name: String,
}

/// What the bot does with an incoming message.
pub enum MessageAction {
    /// Nothing: the message matched no trigger.
    Ignore,
    /// Post `description` as a suggestion embed in the suggestion channel,
    /// confirm by direct message, and delete the incoming message.
    Suggest { description: String, notice: String, dm_footer: String },
    /// Post `description` as an announcement embed in the announcement
    /// channel and delete the incoming message.
    Announce { description: String, footer: String },
}

/// Extracts the suggestion body from a `!`-prefixed message.
pub fn suggestion_description(content: &str) -> (r: Option<String>)
    ensures
        match r {
            Some(d) => suggestion_body(content@) == Some(d@),
            None => suggestion_body(content@) is None,
        },
{
    let mut words = split_words(content);
    proof {
        reveal_strlit("!");
        assert("!"@ =~= sigil_token());
    }
    if words.len() < 2 {
        return None;
    }
    let ghost ts = tokens(content@);
    let n = words.len();
    let mut k: usize = 0;
    while k < n
        invariant
            ts == tokens(content@),
            n == words@.len(),
            2 <= n,
            words.deep_view() == ts,
            k <= n,
            forall|j: int| 0 <= j < k ==> ts[j] != sigil_token(),
        decreases n - k,
    {
        proof {
            reveal_strlit("!");
            assert("!"@ =~= sigil_token());
            assert(ts[k as int] == words@[k as int]@);
        }
        if str_eq(words[k].as_str(), "!") {
            proof {
                assert(ts[k as int] == sigil_token());
                ts.index_of_first_ensures(sigil_token());
                assert(ts.index_of_first(sigil_token()) == Some(k as int));
            }
            words.remove(k);
            proof {
                assert(words.deep_view() =~= ts.remove(k as int));
            }
            let joined = join_words(&words);
            return Some(joined);
        }
        k = k + 1;
    }
    proof {
        ts.index_of_first_ensures(sigil_token());
        assert(ts.index_of_first(sigil_token()) is None);
    }
    None
}

/// Extracts the announcement body: every `&` removed.
pub fn announcement_description(content: &str) -> (r: String)
    ensures
        r@ == announcement_body(content@),
{
    strip_char(content, '&')
}

/// The footer of the confirmation sent to a suggestion's author.
pub fn suggestion_dm_footer(author_name: &str) -> (r: String)
    ensures
        r@ == suggestion_dm_footer_text(author_name@),
{
    let mut r = String::from_str("Suggestion from ");
    r.append(author_name);
    r.append(" sent successfully. Great job!");
    r
}

/// The footer of a relayed announcement.
pub fn announcement_footer(author_name: &str) -> (r: String)
    ensures
        r@ == announcement_footer_text(author_name@),
{
    let mut r = String::from_str("On behalf of Vexus Command, ");
    r.append(author_name);
    r
}

/// The note posted above a suggestion embed.
pub fn suggestion_notice() -> (r: String)
    ensures
        r@ == suggestion_notice_text(),
{
    String::from_str("Suggestion received!")
}

/// The two voting reactions attached to a posted suggestion.
pub fn suggestion_reactions(cfg: &BotConfig) -> (v: Vec<ReactionEmoji>)
    ensures
        v@.len() == 2,
        !v@[0].animated && v@[0].emoji_id == cfg.vote_up_emoji_id && v@[0].name@ == "tup"@,
        !v@[1].animated && v@[1].emoji_id == cfg.vote_down_emoji_id && v@[1].name@ == "tdown"@,
{
    let mut v: Vec<ReactionEmoji> = Vec::new();
    v.push(ReactionEmoji {
        animated: false,
        emoji_id: cfg.vote_up_emoji_id,
        name: String::from_str("tup"),
    });
    v.push(ReactionEmoji {
        animated: false,
        emoji_id: cfg.vote_down_emoji_id,
        name: String::from_str("tdown"),
    });
    v
}

/// Decides what to do with a message: a suggestion in the suggestion
/// channel, an announcement in the announcement channel, or nothing.
/// A `!` message with fewer than two words, or whose sigil is glued to
/// another word, is ignored.
pub fn handle_message(cfg: &BotConfig, channel_id: u64, content: &str, author_name: &str) -> (a:
    MessageAction)
    ensures
        match a {
            MessageAction::Suggest { description, notice, dm_footer } => {
                &&& channel_id == cfg.suggestion_channel_id
                &&& starts_with_char(content@, '!')
                &&& suggestion_body(content@) == Some(description@)
                &&& notice@ == suggestion_notice_text()
                &&& dm_footer@ == suggestion_dm_footer_text(author_name@)
            },
            MessageAction::Announce { description, footer } => {
                &&& channel_id == cfg.announcement_channel_id
                &&& starts_with_char(content@, '&')
                &&& description@ == announcement_body(content@)
                &&& footer@ == announcement_footer_text(author_name@)
            },
            MessageAction::Ignore => {
                &&& !(channel_id == cfg.suggestion_channel_id && starts_with_char(content@, '!')
                    && suggestion_body(content@) is Some)
                &&& !(channel_id == cfg.announcement_channel_id && starts_with_char(
                    content@,
                    '&',
                ))
            },
        },
{
    if channel_id == cfg.suggestion_channel_id && first_char_is(content, '!') {
        match suggestion_description(content) {
            Some(description) => {
                return MessageAction::Suggest {
                    description,
                    notice: suggestion_notice(),
                    dm_footer: suggestion_dm_footer(author_name),
                };
            },
            None => {
                return MessageAction::Ignore;
            },
        }
    }
    if channel_id == cfg.announcement_channel_id && first_char_is(content, '&') {
        return MessageAction::Announce {
            description: announcement_description(content),
            footer: announcement_footer(author_name),
        };
    }
    MessageAction::Ignore
}

} // verus!
