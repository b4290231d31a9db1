use vstd::prelude::*;

verus! {

/// The colors a vote may name, compared exactly and case-sensitively.
pub open spec fn is_allowed_color(c: Seq<char>) -> bool {
    c == "Red"@ || c == "Green"@ || c == "Blue"@
}

/// The reply of a successful call: one human-readable message.
pub struct ContractResponse {
    pub msg: String,
}

/// The error a call returns in place of a reply.
pub struct ContractError {
    pub msg: String,
}

impl ContractError {
    pub fn new(msg: &str) -> (r: Self)
        ensures
            r.msg@ == msg@,
    {
        ContractError { msg: msg.to_owned() }
    }
}

/// One recorded vote.
#[derive(Clone)]
pub struct Vote {
    pub voter_id: String,
    pub color: String,
}

impl View for Vote {
    /// The voter's identifier and the chosen color.
    type V = (Seq<char>, Seq<char>);

    open spec fn view(&self) -> (Seq<char>, Seq<char>) {
        (self.voter_id@, self.color@)
    }
}

/// The input of a call: who votes, and for which color.
pub struct CastAndTally {
    pub voter_id: String,
    pub color: String,
}

/// Whether `color` is one of the allowed colors.
pub fn is_valid_color(color: &String) -> (r: bool)
    ensures
        r == is_allowed_color(color@),
{
    proof {
        reveal_strlit("Red");
        reveal_strlit("Green");
        reveal_strlit("Blue");
    }
    let red = "Red".to_owned();
    let green = "Green".to_owned();
    let blue = "Blue".to_owned();
    *color == red || *color == green || *color == blue
}

} // verus!
