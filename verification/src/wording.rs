//! The texts that leave the library: the statements for the table of posts
//! and the reply to a new post.

use crate::clock::magnitude;
use crate::stats::{calculate_time_since_last_post, days_since_last_post, BreadPost, StatsError};
use vstd::prelude::*;
use vstd::string::StringExecFns;

verus! {

/// The character of one decimal digit.
pub open spec fn digit_char(d: nat) -> char {
    if d == 0 {
        '0'
    } else if d == 1 {
        '1'
    } else if d == 2 {
        '2'
    } else if d == 3 {
        '3'
    } else if d == 4 {
        '4'
    } else if d == 5 {
        '5'
    } else if d == 6 {
        '6'
    } else if d == 7 {
        '7'
    } else if d == 8 {
        '8'
    } else {
        '9'
    }
}

/// The decimal digits of a natural number, without leading zeros.
pub open spec fn digits(n: nat) -> Seq<char>
    decreases n,
{
    if n < 10 {
        seq![digit_char(n)]
    } else {
        digits(n / 10).push(digit_char(n % 10))
    }
}

/// An integer in decimal, with `-` before a negative one.
pub open spec fn decimal_text(n: int) -> Seq<char> {
    if n < 0 {
        seq!['-'] + digits((-n) as nat)
    } else {
        digits(n as nat)
    }
}

fn digit(d: u64) -> (r: &'static str)
    requires
        d < 10,
    ensures
        r@ == seq![digit_char(d as nat)],
{
    proof {
        reveal_strlit("0");
        reveal_strlit("1");
        reveal_strlit("2");
        reveal_strlit("3");
        reveal_strlit("4");
        reveal_strlit("5");
        reveal_strlit("6");
        reveal_strlit("7");
        reveal_strlit("8");
        reveal_strlit("9");
    }
    let r = match d {
        0 => "0",
        1 => "1",
        2 => "2",
        3 => "3",
        4 => "4",
        5 => "5",
        6 => "6",
        7 => "7",
        8 => "8",
        _ => "9",
    };
    assert(r@ =~= seq![digit_char(d as nat)]);
    r
}

/// Writes a number in decimal at the end of `text`.
pub fn append_unsigned(text: &mut String, n: u64)
    ensures
        final(text)@ == old(text)@ + digits(n as nat),
    decreases n,
{
    if n >= 10 {
        append_unsigned(text, n / 10);
    }
    text.append(digit(n % 10));
    assert(final(text)@ =~= old(text)@ + digits(n as nat));
}

/// Writes a number in decimal at the end of `text`, with `-` before a
/// negative one.
pub fn append_signed(text: &mut String, n: i64)
    ensures
        final(text)@ == old(text)@ + decimal_text(n as int),
{
    if n < 0 {
        proof {
            reveal_strlit("-");
        }
        text.append("-");
        assert(text@ =~= old(text)@ + seq!['-']);
    }
    append_unsigned(text, magnitude(n));
    assert(final(text)@ =~= old(text)@ + decimal_text(n as int));
}

/// The statement that lists every post, newest first.
pub open spec fn select_text() -> Seq<char> {
    "select * from bread_posts order by date desc"@
}

/// The statement that records a post: its id, its link and its date, in
/// the order of the table's columns.
pub open spec fn insert_text(id: int, message_url: Seq<char>, date: Seq<char>) -> Seq<char> {
    "insert into bread_posts values ("@ + decimal_text(id) + ", '"@ + message_url + "', '"@ + date
        + "')"@
}

/// The reply to a new post.
pub open spec fn reply_text(
    count: int,
    days: int,
    bppd: Seq<char>,
    previous_link: Seq<char>,
) -> Seq<char> {
    "New bread post!\nThis is bread post number "@ + decimal_text(count) + ".\nIt has been "@
        + decimal_text(days) + " days since the last bread post.\nCurrent BPPD is "@ + bppd
        + "\nLink to previous post: "@ + previous_link
}

/// The reply to a post that has none before it: the opening of the usual
/// reply, without the figures that need a history.
pub open spec fn first_reply_text(count: int) -> Seq<char> {
    "New bread post!\nThis is bread post number "@ + decimal_text(count) + "."@
}

/// The statement that lists every post, newest first.
pub fn select_statement() -> (r: &'static str)
    ensures
        r@ == select_text(),
{
    "select * from bread_posts order by date desc"
}

/// The statement that records `post`.
pub fn insert_statement(post: &BreadPost) -> (r: String)
    ensures
        r@ == insert_text(post.id as int, post.message_url@, post.date@),
{
    let mut text = String::from_str("insert into bread_posts values (");
    append_unsigned(&mut text, post.id);
    text.append(", '");
    text.append(post.message_url.as_str());
    text.append("', '");
    text.append(post.date.as_str());
    text.append("')");
    text
}

/// The reply for the given figures; `bppd` is the rate as it is to be shown.
pub fn compose_reply(count: usize, days: i64, bppd: &str, previous_link: &str) -> (r: String)
    ensures
        r@ == reply_text(count as int, days as int, bppd@, previous_link@),
{
    let mut text = String::from_str("New bread post!\nThis is bread post number ");
    append_unsigned(&mut text, count as u64);
    text.append(".\nIt has been ");
    append_signed(&mut text, days);
    text.append(" days since the last bread post.\nCurrent BPPD is ");
    text.append(bppd);
    text.append("\nLink to previous post: ");
    text.append(previous_link);
    text
}

/// The reply to a post that has none before it.
pub fn compose_first_reply(count: usize) -> (r: String)
    ensures
        r@ == first_reply_text(count as int),
{
    let mut text = String::from_str("New bread post!\nThis is bread post number ");
    append_unsigned(&mut text, count as u64);
    text.append(".");
    text
}

/// The reply to the newest post of a newest-first log, which links to the
/// post before it. Fails as `calculate_time_since_last_post` does.
pub fn announce(posts: &Vec<BreadPost>, bppd: &str) -> (r: Result<String, StatsError>)
    ensures
        match days_since_last_post(posts@) {
            Ok(days) => r matches Ok(text) && text@ == reply_text(
                posts@.len() as int,
                days,
                bppd@,
                posts@[1].message_url@,
            ),
            Err(e) => r matches Err(f) && f == e,
        },
{
    match calculate_time_since_last_post(posts) {
        Ok(days) => Ok(compose_reply(posts.len(), days, bppd, posts[1].message_url.as_str())),
        Err(e) => Err(e),
    }
}

} // verus!
