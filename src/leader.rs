use vstd::prelude::*;

use crate::store::{
    all_allowed, count_of, entries_view, entry_for, lemma_entries_match_map, tally_entries, tally_map,
    ColorCount, VoteRecord,
};

verus! {

/// What is reported in place of a color when nothing has been counted.
pub open spec fn no_votes_text() -> Seq<char> {
    "No votes yet"@
}

/// The position of the first entry whose count is the largest.
pub open spec fn leading_index(entries: Seq<(Seq<char>, nat)>) -> int
    decreases entries.len(),
{
    if entries.len() <= 1 {
        0
    } else {
        let k = leading_index(entries.drop_last());
        if entries.last().1 > entries[k].1 {
            entries.len() - 1
        } else {
            k
        }
    }
}

/// The leading color of a tally listing: among the colors with the largest
/// count, the one listed first (the listing is sorted by name, so this is the
/// smallest name). An empty listing has no leader.
pub open spec fn winner_of(entries: Seq<(Seq<char>, nat)>) -> Seq<char> {
    if entries.len() == 0 {
        no_votes_text()
    } else {
        entries[leading_index(entries)].0
    }
}

/// The leading entry has the largest count, and every entry before it a smaller one.
pub proof fn lemma_leading_index(entries: Seq<(Seq<char>, nat)>)
    requires
        entries.len() > 0,
    ensures
        0 <= leading_index(entries) < entries.len(),
        forall|j: int| 0 <= j < entries.len() ==> #[trigger] entries[j].1 <= entries[leading_index(entries)].1,
        forall|j: int| 0 <= j < leading_index(entries) ==> #[trigger] entries[j].1 < entries[leading_index(entries)].1,
    decreases entries.len(),
{
    if entries.len() > 1 {
        let prefix = entries.drop_last();
        lemma_leading_index(prefix);
        assert forall|j: int| 0 <= j < prefix.len() implies prefix[j] == entries[j] by {}
    }
}

/// The place of a color in the listing order, which sorts by name.
pub open spec fn name_rank(c: Seq<char>) -> int {
    if c == "Blue"@ {
        0
    } else if c == "Green"@ {
        1
    } else {
        2
    }
}

/// A color that some vote names has a positive count.
pub proof fn lemma_named_color_is_counted(votes: Seq<VoteRecord>, i: int)
    requires
        0 <= i < votes.len(),
    ensures
        count_of(votes, votes[i].1) > 0,
    decreases votes.len(),
{
    if i < votes.len() - 1 {
        lemma_named_color_is_counted(votes.drop_last(), i);
        assert(votes.drop_last()[i] == votes[i]);
    }
}

/// The tally listing is sorted strictly by name.
pub proof fn lemma_entries_sorted(votes: Seq<VoteRecord>)
    ensures
        forall|i: int, j: int|
            0 <= i < j < tally_entries(votes).len() ==> name_rank(
                #[trigger] tally_entries(votes)[i].0,
            ) < name_rank(#[trigger] tally_entries(votes)[j].0),
{
    reveal_strlit("Blue");
    reveal_strlit("Green");
    reveal_strlit("Red");
    let blue = entry_for(votes, "Blue"@);
    let green = entry_for(votes, "Green"@);
    let red = entry_for(votes, "Red"@);
    let entries = tally_entries(votes);
    assert("Green"@[0] != "Blue"@[0] && "Red"@[0] != "Blue"@[0] && "Red"@[0] != "Green"@[0]);
    assert(name_rank("Blue"@) == 0);
    assert(name_rank("Green"@) == 1);
    assert(name_rank("Red"@) == 2);
    assert forall|i: int| 0 <= i < entries.len() implies name_rank(#[trigger] entries[i].0) == if i
        < blue.len() {
        0int
    } else if i < blue.len() + green.len() {
        1int
    } else {
        2int
    } by {
        if i < blue.len() {
            assert(entries[i] == blue[i]);
        } else if i < blue.len() + green.len() {
            assert(entries[i] == green[i - blue.len()]);
        } else {
            assert(entries[i] == red[i - blue.len() - green.len()]);
        }
    }
}

/// The leader of a non-empty log is a color of the tally mapping whose count is
/// the largest value of the mapping; among the colors that share that count it
/// is the one whose name sorts first.
pub proof fn lemma_winner_is_maximal(votes: Seq<VoteRecord>)
    requires
        all_allowed(votes),
        votes.len() > 0,
    ensures
        tally_map(votes).contains_key(winner_of(tally_entries(votes))),
        forall|c: Seq<char>| #[trigger]
            tally_map(votes).contains_key(c) ==> tally_map(votes)[c] <= tally_map(
                votes,
            )[winner_of(tally_entries(votes))],
        forall|c: Seq<char>| #[trigger]
            tally_map(votes).contains_key(c) && tally_map(votes)[c] == tally_map(
                votes,
            )[winner_of(tally_entries(votes))] ==> name_rank(winner_of(tally_entries(votes)))
                <= name_rank(c),
{
    let entries = tally_entries(votes);
    let m = tally_map(votes);
    lemma_named_color_is_counted(votes, 0);
    lemma_entries_match_map(votes);
    lemma_entries_sorted(votes);
    assert(m.contains_key(votes[0].1));
    assert(entries.len() > 0);
    lemma_leading_index(entries);
    let k = leading_index(entries);
    let w = winner_of(entries);
    assert(w == entries[k].0);
    assert forall|c: Seq<char>| #[trigger] m.contains_key(c) implies m[c] <= m[w] && (m[c] == m[w]
        ==> name_rank(w) <= name_rank(c)) by {
        let i = choose|i: int| 0 <= i < entries.len() && #[trigger] entries[i].0 == c;
        assert(m[c] == entries[i].1);
        if i < k {
            assert(entries[i].1 < entries[k].1);
        }
    }
}

/// The leading color of a tally listing, or "No votes yet" when it is empty.
pub fn winner(entries: &Vec<ColorCount>) -> (r: String)
    ensures
        r@ == winner_of(entries_view(entries@)),
{
    let ghost view = entries_view(entries@);
    if entries.len() == 0 {
        return "No votes yet".to_owned();
    }
    let mut best: usize = 0;
    let mut i: usize = 1;
    while i < entries.len()
        invariant
            1 <= i <= entries@.len(),
            view == entries_view(entries@),
            best == leading_index(view.take(i as int)),
            best < i,
        decreases entries@.len() - i,
    {
        proof {
            assert(view.take(i + 1).drop_last() =~= view.take(i as int));
        }
        if entries[i].count > entries[best].count {
            best = i;
        }
        i = i + 1;
    }
    assert(view.take(i as int) =~= view);
    entries[best].color.clone()
}

} // verus!
