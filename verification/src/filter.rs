//! Which inbound messages count as bread posts.

use vstd::prelude::*;

verus! {

/// The author and the channel that are watched.
#[derive(Clone, Copy, Debug, PartialEq, Eq, Structural)]
pub struct Target {
    pub author: u64,
    pub channel: u64,
}

/// What the filter reads of an inbound message.
#[derive(Clone, Debug)]
pub struct Inbound {
    pub author: u64,
    pub channel: u64,
    /// The number of files attached to the message.
    pub attachments: usize,
    pub content: String,
}

/// The lower-case form that std gives a text.
pub uninterp spec fn lowercase_of(text: Seq<char>) -> Seq<char>;

/// `needle` stands somewhere in `hay` as a run of neighbouring characters.
pub open spec fn occurs_in(needle: Seq<char>, hay: Seq<char>) -> bool {
    exists|i: int|
        0 <= i && i + needle.len() <= hay.len() && #[trigger] hay.subrange(
            i,
            i + needle.len(),
        ) == needle
}

/// A text mentions bread where its lower-case form holds the word.
pub open spec fn mentions_bread(content: Seq<char>) -> bool {
    occurs_in("bread"@, lowercase_of(content))
}

/// The message is from the watched author in the watched channel, carries
/// an attachment and mentions bread.
pub open spec fn eligible(msg: Inbound, target: Target) -> bool {
    &&& msg.author == target.author
    &&& msg.channel == target.channel
    &&& msg.attachments > 0
    &&& mentions_bread(msg.content@)
}

/// Calls `str::to_lowercase`.
///
/// Believed, not proved: the result is a function of the text alone.
#[verifier::external_body]
fn to_lowercase(text: &str) -> (r: String)
    ensures
        r@ == lowercase_of(text@),
{
    text.to_lowercase()
}

/// Calls `str::contains` with a string pattern.
///
/// Believed, not proved: the result tells whether the pattern matches a
/// sub-slice of the text.
#[verifier::external_body]
fn contains(hay: &str, needle: &str) -> (r: bool)
    ensures
        r == occurs_in(needle@, hay@),
{
    hay.contains(needle)
}

/// Whether a text, already in lower case, holds the word "bread".
pub fn holds_bread(lowered: &str) -> (r: bool)
    ensures
        r == occurs_in("bread"@, lowered@),
{
    contains(lowered, "bread")
}

/// Whether an inbound message is a bread post.
pub fn is_eligible(msg: &Inbound, target: &Target) -> (r: bool)
    ensures
        r == eligible(*msg, *target),
{
    if msg.author != target.author || msg.channel != target.channel || msg.attachments == 0 {
        return false;
    }
    let lowered = to_lowercase(msg.content.as_str());
    holds_bread(lowered.as_str())
}

} // verus!
