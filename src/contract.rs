use vstd::prelude::*;

use crate::json::{json_string_of, response_json_of};
use crate::message::{vote_message, vote_message_of};
use crate::store::{all_allowed, tally_entries, VoteStore};
use crate::vote::{is_allowed_color, is_valid_color, CastAndTally, ContractError, ContractResponse, Vote};

verus! {

/// The error text for a rejected color.
pub open spec fn invalid_color_message(color: Seq<char>) -> Seq<char> {
    "Invalid color: "@ + color
}

/// Records the vote in `input` if its color is allowed, and returns the message
/// reporting it with the tally and leader that include it. A vote for any other
/// color is refused and the store is left as it was.
pub fn cast_vote(store: &mut VoteStore, input: &CastAndTally) -> (r: Result<String, ContractError>)
    ensures
        all_allowed(old(store)@) ==> all_allowed(final(store)@),
        is_allowed_color(input.color@) ==> final(store)@ == old(store)@.push(
            (input.voter_id@, input.color@),
        ),
        is_allowed_color(input.color@) ==> (r matches Ok(m) && m@ == vote_message_of(
            input.color@,
            tally_entries(final(store)@),
        )),
        !is_allowed_color(input.color@) ==> final(store)@ == old(store)@,
        !is_allowed_color(input.color@) ==> (r matches Err(e) && e.msg@ == invalid_color_message(
            input.color@,
        )),
{
    if !is_valid_color(&input.color) {
        let mut msg = "Invalid color: ".to_owned();
        msg.append(input.color.as_str());
        assert(msg@ =~= invalid_color_message(input.color@));
        return Err(ContractError { msg });
    }
    let vote = Vote { voter_id: input.voter_id.clone(), color: input.color.clone() };
    store.append(vote);
    let entries = store.tally();
    Ok(vote_message(&input.color, &entries))
}

/// Casts the vote in `input` as `cast_vote` does and returns the reply encoded
/// as the JSON object `{"msg": ...}`.
pub fn cast_and_tally(store: &mut VoteStore, input: CastAndTally) -> (r: Result<String, ContractError>)
    ensures
        all_allowed(old(store)@) ==> all_allowed(final(store)@),
        is_allowed_color(input.color@) ==> final(store)@ == old(store)@.push(
            (input.voter_id@, input.color@),
        ),
        is_allowed_color(input.color@) ==> (r matches Ok(t) && t@ == response_json_of(
            json_string_of(vote_message_of(input.color@, tally_entries(final(store)@))),
        )),
        !is_allowed_color(input.color@) ==> final(store)@ == old(store)@,
        !is_allowed_color(input.color@) ==> (r matches Err(e) && e.msg@ == invalid_color_message(
            input.color@,
        )),
{
    match cast_vote(store, &input) {
        Ok(msg) => {
            let response = ContractResponse { msg };
            response.to_json()
        },
        Err(e) => Err(e),
    }
}

} // verus!
