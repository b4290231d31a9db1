use vstd::prelude::*;

use crate::leader::{winner, winner_of};
use crate::store::{entries_view, ColorCount};

verus! {

/// The decimal digit for `d`, which is below ten.
pub open spec fn digit_char(d: nat) -> char {
    "0123456789"@[d as int]
}

/// `n` written in decimal, without leading zeros.
pub open spec fn decimal(n: nat) -> Seq<char>
    decreases n,
{
    if n < 10 {
        seq![digit_char(n)]
    } else {
        decimal(n / 10).push(digit_char(n % 10))
    }
}

/// One tally entry as text: `"Red": 2`.
pub open spec fn entry_text(e: (Seq<char>, nat)) -> Seq<char> {
    "\""@ + e.0 + "\": "@ + decimal(e.1)
}

/// Tally entries as text, separated by `, `.
pub open spec fn entries_text(entries: Seq<(Seq<char>, nat)>) -> Seq<char>
    decreases entries.len(),
{
    if entries.len() == 0 {
        Seq::empty()
    } else if entries.len() == 1 {
        entry_text(entries[0])
    } else {
        entries_text(entries.drop_last()) + ", "@ + entry_text(entries.last())
    }
}

/// A whole tally as text: `{"Green": 1, "Red": 2}`.
pub open spec fn tally_text_of(entries: Seq<(Seq<char>, nat)>) -> Seq<char> {
    "{"@ + entries_text(entries) + "}"@
}

/// The message that reports a cast vote, the tally after it, and the leader.
pub open spec fn vote_message_of(color: Seq<char>, entries: Seq<(Seq<char>, nat)>) -> Seq<char> {
    "Vote cast for '"@ + color + "'. Tally: "@ + tally_text_of(entries) + ". Winner: "@
        + winner_of(entries)
}

/// `n` in decimal.
pub fn decimal_text(n: usize) -> (r: String)
    ensures
        r@ == decimal(n as nat),
    decreases n,
{
    proof {
        reveal_strlit("0123456789");
    }
    let digits = "0123456789";
    let last = digits.substring_char(n % 10, n % 10 + 1);
    assert(last@ =~= seq![digit_char((n % 10) as nat)]);
    if n < 10 {
        last.to_owned()
    } else {
        let mut r = decimal_text(n / 10);
        r.append(last);
        assert(r@ =~= decimal(n as nat));
        r
    }
}

/// A tally listing as text, entries in their listed order.
pub fn tally_text(entries: &Vec<ColorCount>) -> (r: String)
    ensures
        r@ == tally_text_of(entries_view(entries@)),
{
    let ghost view = entries_view(entries@);
    let mut body = String::new();
    let mut i: usize = 0;
    while i < entries.len()
        invariant
            i <= entries@.len(),
            view == entries_view(entries@),
            body@ == entries_text(view.take(i as int)),
        decreases entries@.len() - i,
    {
        proof {
            assert(view.take(i + 1).drop_last() =~= view.take(i as int));
            assert(view.take(i + 1).last() == view[i as int]);
        }
        if i > 0 {
            body.append(", ");
        }
        body.append("\"");
        body.append(entries[i].color.as_str());
        body.append("\": ");
        let count = decimal_text(entries[i].count);
        body.append(count.as_str());
        proof {
            if i == 0 {
                assert(view.take(1)[0] == view[0]);
            }
        }
        assert(body@ =~= entries_text(view.take(i + 1)));
        i = i + 1;
    }
    assert(view.take(i as int) =~= view);
    let mut r = "{".to_owned();
    r.append(body.as_str());
    r.append("}");
    assert(r@ =~= tally_text_of(view));
    r
}

/// The message for a vote for `color`, given the tally after it.
pub fn vote_message(color: &String, entries: &Vec<ColorCount>) -> (r: String)
    ensures
        r@ == vote_message_of(color@, entries_view(entries@)),
{
    let mut r = "Vote cast for '".to_owned();
    r.append(color.as_str());
    r.append("'. Tally: ");
    let tally = tally_text(entries);
    r.append(tally.as_str());
    r.append(". Winner: ");
    let leader = winner(entries);
    r.append(leader.as_str());
    assert(r@ =~= vote_message_of(color@, entries_view(entries@)));
    r
}

} // verus!
