use opcode_gate::scan::scan;

fn names(v: &[&str]) -> Vec<String> {
    v.iter().map(|s| s.to_string()).collect()
}

#[test]
fn duplicate_denylist_entries_and_hits_collapse_to_one() {
    let stream = names(&["ADD", "MUL", "ADD"]);
    let deny = names(&["ADD", "ADD"]);
    assert_eq!(scan(&stream, &deny), names(&["ADD"]));
}

#[test]
fn matches_come_in_first_seen_stream_order() {
    let stream = names(&["SELFDESTRUCT", "ADD", "SELFDESTRUCT", "MUL"]);
    let deny = names(&["ADD", "MUL", "SELFDESTRUCT"]);
    assert_eq!(scan(&stream, &deny), names(&["SELFDESTRUCT", "ADD", "MUL"]));
}

#[test]
fn clean_stream_scans_to_nothing() {
    let stream = names(&["PUSH1", "ADD"]);
    let deny = names(&["SELFDESTRUCT"]);
    assert_eq!(scan(&stream, &deny), Vec::<String>::new());
}

#[test]
fn empty_denylist_matches_nothing() {
    let stream = names(&["ADD", "SELFDESTRUCT"]);
    assert_eq!(scan(&stream, &names(&[])), Vec::<String>::new());
}

#[test]
fn empty_stream_scans_to_nothing() {
    let deny = names(&["ADD"]);
    assert_eq!(scan(&names(&[]), &deny), Vec::<String>::new());
}
