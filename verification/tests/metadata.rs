use mumba_core::metadata::{create_metadata, rewrite_step, save_file_name, Rewrite, SaveListState, XmlEvent};

fn start(name: &str, kind: Option<&str>, slot: Option<u8>, num: Option<u8>) -> XmlEvent {
    XmlEvent::Start { name: name.to_string(), kind: kind.map(|k| k.to_string()), slot, num }
}

fn end(name: &str) -> XmlEvent {
    XmlEvent::End { name: name.to_string() }
}

/// What is written for each event of a list, as the events come.
fn rewrite(events: Vec<XmlEvent>, slot: u8, num: u8) -> Vec<Rewrite> {
    let mut state = SaveListState::new();
    events.into_iter().map(|e| rewrite_step(&mut state, e, slot, num)).collect()
}

fn entry(kind: &str, slot: Option<u8>, num: Option<u8>) -> Vec<XmlEvent> {
    vec![
        start("savefile", Some(kind), slot, num),
        XmlEvent::Text,
        start("timestamp", None, None, None),
        XmlEvent::Text,
        end("timestamp"),
        XmlEvent::Text,
        start("signature", None, None, None),
        XmlEvent::Text,
        end("signature"),
        XmlEvent::Text,
        end("savefile"),
        XmlEvent::Text,
    ]
}

const K: Rewrite = Rewrite::Keep;

#[test]
fn save_files_are_named_by_slot_and_number() {
    assert_eq!(save_file_name(1, 1), "slot1_save01.ff8");
    assert_eq!(save_file_name(2, 30), "slot2_save30.ff8");
    assert_eq!(save_file_name(0, 0), "slot0_save00.ff8");
    assert_eq!(save_file_name(2, 9), "slot2_save09.ff8");
    assert_eq!(save_file_name(2, 10), "slot2_save10.ff8");
    assert_eq!(save_file_name(1, 255), "slot1_save255.ff8");
    assert_eq!(save_file_name(3, 7), "chocorpg.ff8");
    assert_eq!(save_file_name(255, 0), "chocorpg.ff8");
}

#[test]
fn a_new_list_holds_an_entry_for_each_save() {
    let contents = create_metadata();
    assert!(contents.starts_with("\n<?xml version=\"1.0\" encoding=\"UTF-8\"?>\n<gamestatus>\n  <savefile num=\"1\" type=\"ff8\" slot=\"1\">\n    <timestamp></timestamp>\n    <signature></signature>\n  </savefile>\n  <savefile num=\"2\" type=\"ff8\" slot=\"1\">\n"));
    assert!(contents.ends_with("  <savefile num=\"30\" type=\"ff8\" slot=\"2\">\n    <timestamp></timestamp>\n    <signature></signature>\n  </savefile>\n  <savefile type=\"choco\">\n    <timestamp></timestamp>\n    <signature></signature>\n  </savefile>\n</gamestatus>\n"));
    assert_eq!(contents.matches("<savefile ").count(), 61);
    assert_eq!(contents.matches("type=\"ff8\" slot=\"1\"").count(), 30);
    assert_eq!(contents.matches("type=\"ff8\" slot=\"2\"").count(), 30);
    assert_eq!(contents.lines().count(), 3 + 61 * 4 + 1);
    assert!(contents.contains("  <savefile num=\"30\" type=\"ff8\" slot=\"1\">\n    <timestamp></timestamp>\n    <signature></signature>\n  </savefile>\n  <savefile num=\"1\" type=\"ff8\" slot=\"2\">\n"));
}

#[test]
fn time_and_signature_of_the_entered_save_are_replaced() {
    let t = Rewrite::Timestamp;
    let s = Rewrite::Signature;
    let hit = vec![K, K, K, t, K, K, K, s, K, K, K, K];
    let miss = vec![K; 12];
    assert_eq!(rewrite(entry("ff8", Some(1), Some(4)), 1, 4), hit);
    assert_eq!(rewrite(entry("ff8", Some(1), Some(4)), 1, 5), miss);
    assert_eq!(rewrite(entry("ff8", Some(1), Some(4)), 2, 4), miss);
    assert_eq!(rewrite(entry("ff8", Some(1), Some(4)), 3, 4), miss);
    assert_eq!(rewrite(entry("choco", None, None), 3, 0), hit);
    assert_eq!(rewrite(entry("choco", None, None), 3, 17), hit);
    assert_eq!(rewrite(entry("choco", None, None), 2, 0), miss);
    assert_eq!(rewrite(entry("choco", None, None), 4, 0), miss);
    // Attributes that are missing count as zero.
    assert_eq!(rewrite(entry("ff8", None, None), 0, 0), hit);
    assert_eq!(rewrite(entry("ff8", Some(2), None), 2, 0), hit);
    // An entry of another kind is none of the two.
    assert_eq!(rewrite(entry("other", Some(1), Some(4)), 1, 4), miss);
    assert_eq!(rewrite(entry("FF8", Some(1), Some(4)), 1, 4), miss);
}

#[test]
fn the_reader_leaves_an_entry_at_its_end() {
    let mut events = entry("ff8", Some(1), Some(1));
    events.extend(entry("ff8", Some(1), Some(2)));
    events.extend(entry("choco", None, None));
    events.push(start("timestamp", None, None, None));
    events.push(XmlEvent::Text);
    events.push(XmlEvent::Other);
    let written = rewrite(events, 1, 2);
    let replaced: Vec<usize> =
        written.iter().enumerate().filter(|(_, r)| **r != Rewrite::Keep).map(|(i, _)| i).collect();
    assert_eq!(replaced, vec![12 + 3, 12 + 7]);
    assert_eq!(written.len(), 39);
}

#[test]
fn the_state_follows_the_events() {
    let mut state = SaveListState::new();
    assert_eq!(
        state,
        SaveListState {
            is_choco_element: false,
            is_ff8_element: false,
            current_slot: 0,
            current_num: 0,
            is_timestamp_element: false,
            is_signature_element: false,
        }
    );
    assert_eq!(rewrite_step(&mut state, start("savefile", Some("ff8"), Some(2), Some(9)), 1, 1), K);
    assert!(state.is_ff8_element && !state.is_choco_element);
    assert_eq!((state.current_slot, state.current_num), (2, 9));
    assert_eq!(rewrite_step(&mut state, start("savefile", Some("choco"), None, None), 1, 1), K);
    assert!(state.is_ff8_element && state.is_choco_element);
    assert_eq!((state.current_slot, state.current_num), (2, 9));
    assert_eq!(rewrite_step(&mut state, start("signature", None, None, None), 1, 1), K);
    assert!(state.is_signature_element && !state.is_timestamp_element);
    assert_eq!(rewrite_step(&mut state, XmlEvent::Text, 2, 9), Rewrite::Signature);
    assert_eq!(rewrite_step(&mut state, start("timestamp", None, None, None), 1, 1), K);
    // The time goes before the signature where the reader stands in both.
    assert_eq!(rewrite_step(&mut state, XmlEvent::Text, 3, 0), Rewrite::Timestamp);
    assert_eq!(rewrite_step(&mut state, end("timestamp"), 1, 1), K);
    assert_eq!(rewrite_step(&mut state, end("signature"), 1, 1), K);
    assert_eq!(rewrite_step(&mut state, XmlEvent::Text, 2, 9), K);
    assert_eq!(rewrite_step(&mut state, start("gamestatus", Some("ff8"), Some(1), Some(1)), 1, 1), K);
    assert_eq!((state.current_slot, state.current_num), (2, 9));
    assert_eq!(rewrite_step(&mut state, end("savefile"), 1, 1), K);
    assert!(!state.is_ff8_element && !state.is_choco_element);
    assert_eq!((state.current_slot, state.current_num), (2, 9));
}
