use voting_contract::{
    cast_and_tally, cast_vote, decimal_text, encode_response, is_valid_color, tally_text, vote_message,
    winner, CastAndTally, ColorCount, ContractError, ContractResponse, Vote, VoteStore,
};

fn input(voter_id: &str, color: &str) -> CastAndTally {
    CastAndTally { voter_id: voter_id.to_string(), color: color.to_string() }
}

fn counts(store: &VoteStore) -> Vec<(String, usize)> {
    store.tally().into_iter().map(|e| (e.color, e.count)).collect()
}

fn entry(color: &str, count: usize) -> ColorCount {
    ColorCount { color: color.to_string(), count }
}

#[test]
fn scenario_sequence_of_calls() {
    let mut store = VoteStore::new();

    let r = cast_vote(&mut store, &input("v1", "Red")).ok().unwrap();
    assert_eq!(r, "Vote cast for 'Red'. Tally: {\"Red\": 1}. Winner: Red");
    assert_eq!(counts(&store), vec![("Red".to_string(), 1)]);

    let r = cast_vote(&mut store, &input("v2", "Green")).ok().unwrap();
    assert_eq!(r, "Vote cast for 'Green'. Tally: {\"Green\": 1, \"Red\": 1}. Winner: Green");

    let e = cast_vote(&mut store, &input("v3", "Purple")).err().unwrap();
    assert_eq!(e.msg, "Invalid color: Purple");
    assert_eq!(store.len(), 2);
    assert_eq!(counts(&store), vec![("Green".to_string(), 1), ("Red".to_string(), 1)]);

    let r = cast_vote(&mut store, &input("v4", "Green")).ok().unwrap();
    assert_eq!(r, "Vote cast for 'Green'. Tally: {\"Green\": 2, \"Red\": 1}. Winner: Green");
}

#[test]
fn scenario_sequence_as_json() {
    let mut store = VoteStore::new();
    let r = cast_and_tally(&mut store, input("v1", "Red")).ok().unwrap();
    assert_eq!(r, "{\"msg\":\"Vote cast for 'Red'. Tally: {\\\"Red\\\": 1}. Winner: Red\"}");
    let r = cast_and_tally(&mut store, input("v2", "Green")).ok().unwrap();
    assert_eq!(
        r,
        "{\"msg\":\"Vote cast for 'Green'. Tally: {\\\"Green\\\": 1, \\\"Red\\\": 1}. Winner: Green\"}"
    );
    let e = cast_and_tally(&mut store, input("v3", "Purple")).err().unwrap();
    assert_eq!(e.msg, "Invalid color: Purple");
    let r = cast_and_tally(&mut store, input("v4", "Green")).ok().unwrap();
    assert_eq!(
        r,
        "{\"msg\":\"Vote cast for 'Green'. Tally: {\\\"Green\\\": 2, \\\"Red\\\": 1}. Winner: Green\"}"
    );
    assert_eq!(store.len(), 3);
}

#[test]
fn invalid_color_leaves_store_unchanged() {
    let mut store = VoteStore::new();
    cast_vote(&mut store, &input("a", "Blue")).ok().unwrap();
    for bad in ["red", "RED", "", "Purple", " Red", "Blue "] {
        let e = cast_and_tally(&mut store, input("b", bad)).err().unwrap();
        assert_eq!(e.msg, format!("Invalid color: {}", bad));
        assert_eq!(store.len(), 1);
    }
    assert_eq!(counts(&store), vec![("Blue".to_string(), 1)]);
}

#[test]
fn valid_vote_is_appended_with_its_fields() {
    let mut store = VoteStore::new();
    cast_vote(&mut store, &input("v1", "Red")).ok().unwrap();
    cast_and_tally(&mut store, input("", "Blue")).ok().unwrap();
    cast_vote(&mut store, &input("v1", "Blue")).ok().unwrap();
    assert_eq!(store.len(), 3);
    assert_eq!(store.vote(1).voter_id, "");
    assert_eq!(store.vote(1).color, "Blue");
    assert_eq!(store.vote(2).voter_id, "v1");
    assert_eq!(store.vote(2).color, "Blue");
    assert_eq!(counts(&store), vec![("Blue".to_string(), 2), ("Red".to_string(), 1)]);
}

#[test]
fn tally_is_repeatable() {
    let mut store = VoteStore::new();
    for (v, c) in [("a", "Red"), ("b", "Blue"), ("c", "Red"), ("d", "Green")] {
        store.append(Vote { voter_id: v.to_string(), color: c.to_string() });
    }
    let first = counts(&store);
    let second = counts(&store);
    assert_eq!(first, second);
    assert_eq!(
        first,
        vec![("Blue".to_string(), 1), ("Green".to_string(), 1), ("Red".to_string(), 2)]
    );
}

#[test]
fn empty_store_has_empty_tally() {
    let store = VoteStore::new();
    assert_eq!(store.len(), 0);
    assert!(store.tally().is_empty());
    assert_eq!(tally_text(&store.tally()), "{}");
}

#[test]
fn winner_of_empty_tally_is_sentinel() {
    assert_eq!(winner(&Vec::new()), "No votes yet");
}

#[test]
fn winner_has_largest_count() {
    let t = vec![entry("Blue", 1), entry("Green", 3), entry("Red", 2)];
    assert_eq!(winner(&t), "Green");
    let t = vec![entry("Blue", 1), entry("Red", 4)];
    assert_eq!(winner(&t), "Red");
}

#[test]
fn winner_tie_goes_to_first_listed() {
    let t = vec![entry("Blue", 2), entry("Green", 2), entry("Red", 2)];
    assert_eq!(winner(&t), "Blue");
    let t = vec![entry("Green", 1), entry("Red", 5), entry("Blue", 5)];
    assert_eq!(winner(&t), "Red");
}

#[test]
fn tie_between_blue_and_red_reports_blue() {
    let mut store = VoteStore::new();
    cast_vote(&mut store, &input("x", "Red")).ok().unwrap();
    let r = cast_vote(&mut store, &input("y", "Blue")).ok().unwrap();
    assert_eq!(r, "Vote cast for 'Blue'. Tally: {\"Blue\": 1, \"Red\": 1}. Winner: Blue");
}

#[test]
fn decimal_text_values() {
    assert_eq!(decimal_text(0), "0");
    assert_eq!(decimal_text(7), "7");
    assert_eq!(decimal_text(10), "10");
    assert_eq!(decimal_text(1234567), "1234567");
    assert_eq!(decimal_text(usize::MAX), usize::MAX.to_string());
}

#[test]
fn tally_text_renders_entries_in_order() {
    let t = vec![entry("Blue", 12), entry("Red", 3)];
    assert_eq!(tally_text(&t), "{\"Blue\": 12, \"Red\": 3}");
}

#[test]
fn vote_message_combines_parts() {
    let t = vec![entry("Green", 1)];
    assert_eq!(
        vote_message(&"Green".to_string(), &t),
        "Vote cast for 'Green'. Tally: {\"Green\": 1}. Winner: Green"
    );
}

#[test]
fn valid_colors_are_exact() {
    for c in ["Red", "Green", "Blue"] {
        assert!(is_valid_color(&c.to_string()));
    }
    for c in ["red", "green", "BLUE", "", "Yellow", "Red\n"] {
        assert!(!is_valid_color(&c.to_string()));
    }
}

#[test]
fn encode_response_frames_message() {
    let r = encode_response(Ok("\"hi\"".to_string())).ok().unwrap();
    assert_eq!(r, "{\"msg\":\"hi\"}");
    let e = encode_response(Err("broken".to_string())).err().unwrap();
    assert_eq!(e.msg, "Serialization error: broken");
}

#[test]
fn response_to_json_escapes_message() {
    let resp = ContractResponse { msg: "a \"quoted\" \\ word\n".to_string() };
    assert_eq!(resp.to_json().ok().unwrap(), "{\"msg\":\"a \\\"quoted\\\" \\\\ word\\n\"}");
}

#[test]
fn contract_error_new_keeps_message() {
    let e = ContractError::new("Invalid color");
    assert_eq!(e.msg, "Invalid color");
}
