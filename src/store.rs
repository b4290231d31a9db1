use vstd::prelude::*;

use crate::vote::{is_allowed_color, Vote};

verus! {

/// A recorded vote as (voter id, color).
pub type VoteRecord = (Seq<char>, Seq<char>);

/// How many of `votes` name `color`.
pub open spec fn count_of(votes: Seq<VoteRecord>, color: Seq<char>) -> nat
    decreases votes.len(),
{
    if votes.len() == 0 {
        0
    } else {
        count_of(votes.drop_last(), color) + if votes.last().1 == color {
            1nat
        } else {
            0nat
        }
    }
}

/// The tally as a mapping: each color that has at least one vote, to its count.
pub open spec fn tally_map(votes: Seq<VoteRecord>) -> Map<Seq<char>, nat> {
    Map::new(|c: Seq<char>| count_of(votes, c) > 0, |c: Seq<char>| count_of(votes, c))
}

/// The entry of `color` in a tally listing: present only with a positive count.
pub open spec fn entry_for(votes: Seq<VoteRecord>, color: Seq<char>) -> Seq<(Seq<char>, nat)> {
    if count_of(votes, color) > 0 {
        seq![(color, count_of(votes, color))]
    } else {
        Seq::empty()
    }
}

/// The tally as a listing sorted by color name.
pub open spec fn tally_entries(votes: Seq<VoteRecord>) -> Seq<(Seq<char>, nat)> {
    entry_for(votes, "Blue"@) + entry_for(votes, "Green"@) + entry_for(votes, "Red"@)
}

/// One line of a tally: a color and the number of votes for it.
pub struct ColorCount {
    pub color: String,
    pub count: usize,
}

impl View for ColorCount {
    type V = (Seq<char>, nat);

    open spec fn view(&self) -> (Seq<char>, nat) {
        (self.color@, self.count as nat)
    }
}

/// The view of a tally listing.
pub open spec fn entries_view(entries: Seq<ColorCount>) -> Seq<(Seq<char>, nat)> {
    entries.map_values(|e: ColorCount| e@)
}

/// The append-only log of votes.
pub struct VoteStore {
    votes: Vec<Vote>,
}

impl View for VoteStore {
    type V = Seq<VoteRecord>;

    closed spec fn view(&self) -> Seq<VoteRecord> {
        self.votes@.map_values(|v: Vote| v@)
    }
}

/// Every recorded vote names an allowed color.
pub open spec fn all_allowed(votes: Seq<VoteRecord>) -> bool {
    forall|i: int| 0 <= i < votes.len() ==> is_allowed_color(#[trigger] votes[i].1)
}

/// A vote is counted only for a color that some vote names.
pub proof fn lemma_counted_color_is_named(votes: Seq<VoteRecord>, color: Seq<char>)
    requires
        count_of(votes, color) > 0,
    ensures
        exists|i: int| 0 <= i < votes.len() && #[trigger] votes[i].1 == color,
    decreases votes.len(),
{
    if votes.last().1 != color {
        lemma_counted_color_is_named(votes.drop_last(), color);
        let i = choose|i: int| 0 <= i < votes.drop_last().len() && #[trigger] votes.drop_last()[i].1 == color;
        assert(votes[i].1 == color);
    } else {
        assert(votes[votes.len() - 1].1 == color);
    }
}

/// No color is counted more often than there are votes.
pub proof fn lemma_count_bounded(votes: Seq<VoteRecord>, color: Seq<char>)
    ensures
        count_of(votes, color) <= votes.len(),
    decreases votes.len(),
{
    if votes.len() > 0 {
        lemma_count_bounded(votes.drop_last(), color);
    }
}

/// Appending a vote adds one to the count of its color and leaves the others.
pub proof fn lemma_count_push(votes: Seq<VoteRecord>, v: VoteRecord, color: Seq<char>)
    ensures
        count_of(votes.push(v), color) == count_of(votes, color) + if v.1 == color {
            1nat
        } else {
            0nat
        },
{
    assert(votes.push(v).drop_last() =~= votes);
}

/// The sorted tally listing holds exactly the mapping from each color with votes
/// to its count: every listed color has its count in the mapping, and every
/// color of the mapping is listed.
pub proof fn lemma_entries_match_map(votes: Seq<VoteRecord>)
    requires
        all_allowed(votes),
    ensures
        forall|i: int|
            0 <= i < tally_entries(votes).len() ==> tally_map(votes).contains_key(
                #[trigger] tally_entries(votes)[i].0,
            ) && tally_map(votes)[tally_entries(votes)[i].0] == tally_entries(votes)[i].1,
        forall|c: Seq<char>|
            #[trigger] tally_map(votes).contains_key(c) ==> exists|i: int|
                0 <= i < tally_entries(votes).len() && #[trigger] tally_entries(votes)[i].0 == c,
{
    let entries = tally_entries(votes);
    assert forall|c: Seq<char>| #[trigger] tally_map(votes).contains_key(c) implies exists|i: int|
        0 <= i < entries.len() && #[trigger] entries[i].0 == c by {
        lemma_counted_color_is_named(votes, c);
        let j = choose|j: int| 0 <= j < votes.len() && #[trigger] votes[j].1 == c;
        assert(is_allowed_color(votes[j].1));
        let blue = entry_for(votes, "Blue"@);
        let green = entry_for(votes, "Green"@);
        if c == "Blue"@ {
            assert(entries[0].0 == c);
        } else if c == "Green"@ {
            assert(entries[blue.len() as int].0 == c);
        } else {
            assert(entries[blue.len() + green.len() as int].0 == c);
        }
    }
}

/// A tally depends on the recorded votes alone: two tallies taken of the same
/// log, with nothing appended between them, list the same counts.
pub proof fn lemma_tally_repeatable(store: VoteStore, first: Seq<ColorCount>, second: Seq<ColorCount>)
    requires
        entries_view(first) == tally_entries(store@),
        entries_view(second) == tally_entries(store@),
    ensures
        entries_view(first) == entries_view(second),
        first.len() == second.len(),
{
    assert(entries_view(first).len() == first.len());
    assert(entries_view(second).len() == second.len());
}

impl VoteStore {
    /// An empty store.
    pub fn new() -> (r: Self)
        ensures
            r@ == Seq::<VoteRecord>::empty(),
    {
        let r = VoteStore { votes: Vec::new() };
        assert(r@ =~= Seq::<VoteRecord>::empty());
        r
    }

    /// The number of recorded votes.
    pub fn len(&self) -> (r: usize)
        ensures
            r == self@.len(),
    {
        self.votes.len()
    }

    /// The vote recorded at position `i`, counting from the first.
    pub fn vote(&self, i: usize) -> (r: &Vote)
        requires
            i < self@.len(),
        ensures
            r@ == self@[i as int],
    {
        &self.votes[i]
    }

    /// Adds `vote` at the end of the log.
    pub fn append(&mut self, vote: Vote)
        requires
            is_allowed_color(vote@.1),
        ensures
            final(self)@ == old(self)@.push(vote@),
            all_allowed(old(self)@) ==> all_allowed(final(self)@),
    {
        self.votes.push(vote);
        assert(self@ =~= old(self)@.push(vote@));
    }

    /// Counts the recorded votes per color, listing each color that has votes,
    /// sorted by color name.
    pub fn tally(&self) -> (r: Vec<ColorCount>)
        ensures
            entries_view(r@) == tally_entries(self@),
    {
        let mut blue: usize = 0;
        let mut green: usize = 0;
        let mut red: usize = 0;
        let mut i: usize = 0;
        while i < self.votes.len()
            invariant
                i <= self.votes@.len(),
                self@.len() == self.votes@.len(),
                blue == count_of(self@.take(i as int), "Blue"@),
                green == count_of(self@.take(i as int), "Green"@),
                red == count_of(self@.take(i as int), "Red"@),
            decreases self.votes@.len() - i,
        {
            let ghost done = self@.take(i as int);
            proof {
                reveal_strlit("Blue");
                reveal_strlit("Green");
                reveal_strlit("Red");
                assert(self@.take(i + 1) =~= done.push(self@[i as int]));
                lemma_count_push(done, self@[i as int], "Blue"@);
                lemma_count_push(done, self@[i as int], "Green"@);
                lemma_count_push(done, self@[i as int], "Red"@);
                lemma_count_bounded(done, "Blue"@);
                lemma_count_bounded(done, "Green"@);
                lemma_count_bounded(done, "Red"@);
            }
            let color = &self.votes[i].color;
            assert(color@ == self@[i as int].1);
            if is_color(color, "Blue") {
                blue = blue + 1;
            } else if is_color(color, "Green") {
                green = green + 1;
            } else if is_color(color, "Red") {
                red = red + 1;
            }
            i = i + 1;
        }
        assert(self@.take(i as int) =~= self@);
        let mut r: Vec<ColorCount> = Vec::new();
        if blue > 0 {
            r.push(ColorCount { color: "Blue".to_owned(), count: blue });
        }
        if green > 0 {
            r.push(ColorCount { color: "Green".to_owned(), count: green });
        }
        if red > 0 {
            r.push(ColorCount { color: "Red".to_owned(), count: red });
        }
        assert(entries_view(r@) =~= tally_entries(self@));
        r
    }
}

/// Whether `s` holds exactly the text `lit`.
fn is_color(s: &String, lit: &str) -> (r: bool)
    ensures
        r == (s@ == lit@),
{
    *s == lit.to_owned()
}

} // verus!
