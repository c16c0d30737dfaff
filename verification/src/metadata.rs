//! The list of saves that the store edition keeps beside them: how it
//! starts out, and what changes in it when a save is written.

use crate::text::{decimal, string_of, to_decimal};
use vstd::prelude::*;

verus! {

/// How many saves a slot holds.
pub const SAVES_PER_SLOT: u8 = 30;

/// The slot that stands for the save of the companion game.
pub const COMPANION_SLOT: u8 = 3;

/// A number written with two digits at least.
pub open spec fn two_digits(n: nat) -> Seq<char> {
    if n < 10 {
        "0"@ + decimal(n)
    } else {
        decimal(n)
    }
}

/// The name of the file that holds a save: that of the companion game for
/// a slot behind the second, else the one of the slot and the number.
pub open spec fn save_file_name_spec(slot: u8, num: u8) -> Seq<char> {
    if slot > 2 {
        "chocorpg.ff8"@
    } else {
        "slot"@ + decimal(slot as nat) + "_save"@ + two_digits(num as nat) + ".ff8"@
    }
}

/// The name of the file that holds a save.
pub fn save_file_name(slot: u8, num: u8) -> (name: String)
    ensures
        name@ == save_file_name_spec(slot, num),
{
    if slot > 2 {
        "chocorpg.ff8".to_string()
    } else {
        let mut name = "slot".to_string();
        name.append(string_of(&to_decimal(slot as u64)).as_str());
        name.append("_save");
        if num < 10 {
            name.append("0");
        }
        name.append(string_of(&to_decimal(num as u64)).as_str());
        name.append(".ff8");
        assert(name@ =~= save_file_name_spec(slot, num));
        name
    }
}

/// The entry of a save of the game in a list that has just been made.
pub open spec fn empty_entry(slot: nat, num: nat) -> Seq<char> {
    "  <savefile num=\""@ + decimal(num) + "\" type=\"ff8\" slot=\""@ + decimal(slot)
        + "\">\n    <timestamp></timestamp>\n    <signature></signature>\n  </savefile>\n"@
}

/// The entries of the first `n` saves of a slot.
pub open spec fn empty_entries(slot: nat, n: nat) -> Seq<char>
    decreases n,
{
    if n == 0 {
        Seq::empty()
    } else {
        empty_entries(slot, (n - 1) as nat) + empty_entry(slot, n)
    }
}

/// The list as it is made where there is none: an entry for each save of
/// the two slots, then one for the save of the companion game, none of
/// them with a time or a signature.
pub open spec fn empty_list() -> Seq<char> {
    "\n<?xml version=\"1.0\" encoding=\"UTF-8\"?>\n<gamestatus>\n"@ + empty_entries(1, 30) + empty_entries(
        2,
        30,
    )
        + "  <savefile type=\"choco\">\n    <timestamp></timestamp>\n    <signature></signature>\n  </savefile>\n</gamestatus>\n"@
}

/// Appends the entries of a slot to a list that is being made.
fn push_empty_entries(contents: &mut String, slot: u8)
    ensures
        final(contents)@ == old(contents)@ + empty_entries(slot as nat, 30),
{
    let mut num: u8 = 0;
    assert(contents@ =~= old(contents)@ + empty_entries(slot as nat, 0));
    while num < SAVES_PER_SLOT
        invariant
            num <= 30,
            contents@ == old(contents)@ + empty_entries(slot as nat, num as nat),
        decreases 30 - num,
    {
        num += 1;
        let ghost before = contents@;
        contents.append("  <savefile num=\"");
        contents.append(string_of(&to_decimal(num as u64)).as_str());
        contents.append("\" type=\"ff8\" slot=\"");
        contents.append(string_of(&to_decimal(slot as u64)).as_str());
        contents.append("\">\n    <timestamp></timestamp>\n    <signature></signature>\n  </savefile>\n");
        assert(contents@ =~= before + empty_entry(slot as nat, num as nat));
        assert(contents@ =~= old(contents)@ + empty_entries(slot as nat, num as nat));
    }
}

/// The contents of a list that holds no save yet.
pub fn create_metadata() -> (contents: String)
    ensures
        contents@ == empty_list(),
{
    let mut contents = "\n<?xml version=\"1.0\" encoding=\"UTF-8\"?>\n<gamestatus>\n".to_string();
    push_empty_entries(&mut contents, 1);
    push_empty_entries(&mut contents, 2);
    contents.append(
        "  <savefile type=\"choco\">\n    <timestamp></timestamp>\n    <signature></signature>\n  </savefile>\n</gamestatus>\n",
    );
    assert(contents@ =~= empty_list());
    contents
}

/// What the reader of the list comes upon.
pub enum XmlEvent {
    /// An element opens. `kind`, `slot` and `num` are its attributes
    /// `type`, `slot` and `num`, where it has them.
    Start { name: String, kind: Option<String>, slot: Option<u8>, num: Option<u8> },
    /// An element closes.
    End { name: String },
    /// A text.
    Text,
    /// Anything else: a comment, a declaration, an element without content.
    Other,
}

/// An event with its texts as sequences of characters.
pub enum XmlEventView {
    Start { name: Seq<char>, kind: Option<Seq<char>>, slot: Option<u8>, num: Option<u8> },
    End { name: Seq<char> },
    Text,
    Other,
}

impl View for XmlEvent {
    type V = XmlEventView;

    open spec fn view(&self) -> XmlEventView {
        match self {
            XmlEvent::Start { name, kind, slot, num } => XmlEventView::Start {
                name: name@,
                kind: match kind {
                    Some(k) => Some(k@),
                    None => None,
                },
                slot: *slot,
                num: *num,
            },
            XmlEvent::End { name } => XmlEventView::End { name: name@ },
            XmlEvent::Text => XmlEventView::Text,
            XmlEvent::Other => XmlEventView::Other,
        }
    }
}

/// What is written for an event that was read.
#[derive(Clone, Copy, Debug, PartialEq, Eq, Structural)]
pub enum Rewrite {
    /// The event as it was read.
    Keep,
    /// A text that holds the time of the save, in place of the text read.
    Timestamp,
    /// A text that holds the signature of the save, in place of the text
    /// read.
    Signature,
}

/// Where the reader stands in the list.
#[derive(Clone, Copy, Debug, PartialEq, Eq, Structural)]
pub struct SaveListState {
    /// It stands in the entry of the save of the companion game.
    pub is_choco_element: bool,
    /// It stands in the entry of a save of the game.
    pub is_ff8_element: bool,
    /// The slot of the last entry of the game that it came upon.
    pub current_slot: u8,
    /// The number of the last entry of the game that it came upon.
    pub current_num: u8,
    /// It stands in the time of an entry.
    pub is_timestamp_element: bool,
    /// It stands in the signature of an entry.
    pub is_signature_element: bool,
}

/// The number that an attribute gives, zero where the attribute is
/// missing.
pub open spec fn number_or_zero(attribute: Option<u8>) -> u8 {
    match attribute {
        Some(n) => n,
        None => 0,
    }
}

/// Where the reader stands before the first event.
pub open spec fn start_state() -> SaveListState {
    SaveListState {
        is_choco_element: false,
        is_ff8_element: false,
        current_slot: 0,
        current_num: 0,
        is_timestamp_element: false,
        is_signature_element: false,
    }
}

/// Whether the entry that the reader stands in is the one of the save in
/// slot `slot` with number `num`.
pub open spec fn in_entry_of(state: SaveListState, slot: u8, num: u8) -> bool {
    ||| state.is_choco_element && slot == COMPANION_SLOT
    ||| state.is_ff8_element && slot == state.current_slot && num == state.current_num
}

/// Where the reader stands after an event.
pub open spec fn state_after(state: SaveListState, event: XmlEventView) -> SaveListState {
    match event {
        XmlEventView::Start { name, kind, slot, num } => if name == "savefile"@ {
            if kind == Some("ff8"@) {
                SaveListState {
                    is_ff8_element: true,
                    current_slot: number_or_zero(slot),
                    current_num: number_or_zero(num),
                    ..state
                }
            } else if kind == Some("choco"@) {
                SaveListState { is_choco_element: true, ..state }
            } else {
                state
            }
        } else if name == "timestamp"@ {
            SaveListState { is_timestamp_element: true, ..state }
        } else if name == "signature"@ {
            SaveListState { is_signature_element: true, ..state }
        } else {
            state
        },
        XmlEventView::End { name } => if name == "savefile"@ {
            SaveListState { is_ff8_element: false, is_choco_element: false, ..state }
        } else if name == "timestamp"@ {
            SaveListState { is_timestamp_element: false, ..state }
        } else if name == "signature"@ {
            SaveListState { is_signature_element: false, ..state }
        } else {
            state
        },
        _ => state,
    }
}

/// What is written for an event: the time or the signature of the save in
/// place of a text that stands in the time or the signature of its entry;
/// everything else as it was read.
pub open spec fn rewrite_of(state: SaveListState, event: XmlEventView, slot: u8, num: u8) -> Rewrite {
    if event is Text && in_entry_of(state, slot, num) {
        if state.is_timestamp_element {
            Rewrite::Timestamp
        } else if state.is_signature_element {
            Rewrite::Signature
        } else {
            Rewrite::Keep
        }
    } else {
        Rewrite::Keep
    }
}

impl SaveListState {
    /// Where the reader stands before the first event.
    pub fn new() -> (state: SaveListState)
        ensures
            state == start_state(),
    {
        SaveListState {
            is_choco_element: false,
            is_ff8_element: false,
            current_slot: 0,
            current_num: 0,
            is_timestamp_element: false,
            is_signature_element: false,
        }
    }
}

/// Whether a text is the given word.
fn is_word(text: &String, word: &str) -> (same: bool)
    ensures
        same == (text@ == word@),
{
    *text == word.to_string()
}

/// Takes one event of the list while the save in slot `slot` with number
/// `num` is entered into it: says what is written for the event, and notes
/// where the reader now stands.
pub fn rewrite_step(state: &mut SaveListState, event: XmlEvent, slot: u8, num: u8) -> (action: Rewrite)
    ensures
        action == rewrite_of(*old(state), event@, slot, num),
        *final(state) == state_after(*old(state), event@),
{
    match event {
        XmlEvent::Start { name, kind, slot: entry_slot, num: entry_num } => {
            if is_word(&name, "savefile") {
                match kind {
                    Some(kind) => {
                        if is_word(&kind, "ff8") {
                            state.is_ff8_element = true;
                            state.current_slot = match entry_slot {
                                Some(n) => n,
                                None => 0,
                            };
                            state.current_num = match entry_num {
                                Some(n) => n,
                                None => 0,
                            };
                        } else if is_word(&kind, "choco") {
                            state.is_choco_element = true;
                        }
                    },
                    None => {},
                }
            } else if is_word(&name, "timestamp") {
                state.is_timestamp_element = true;
            } else if is_word(&name, "signature") {
                state.is_signature_element = true;
            }
            Rewrite::Keep
        },
        XmlEvent::End { name } => {
            if is_word(&name, "savefile") {
                state.is_ff8_element = false;
                state.is_choco_element = false;
            } else if is_word(&name, "timestamp") {
                state.is_timestamp_element = false;
            } else if is_word(&name, "signature") {
                state.is_signature_element = false;
            }
            Rewrite::Keep
        },
        XmlEvent::Text => {
            if (state.is_choco_element && slot == COMPANION_SLOT) || (state.is_ff8_element && slot
                == state.current_slot && num == state.current_num) {
                if state.is_timestamp_element {
                    Rewrite::Timestamp
                } else if state.is_signature_element {
                    Rewrite::Signature
                } else {
                    Rewrite::Keep
                }
            } else {
                Rewrite::Keep
            }
        },
        XmlEvent::Other => Rewrite::Keep,
    }
}

/// A text outside the time and the signature of an entry is never
/// replaced, nor is any text outside the entry of the save that is entered.
pub proof fn lemma_other_texts_are_kept(state: SaveListState, event: XmlEventView, slot: u8, num: u8)
    requires
        !(event is Text) || !in_entry_of(state, slot, num) || (!state.is_timestamp_element
            && !state.is_signature_element),
    ensures
        rewrite_of(state, event, slot, num) == Rewrite::Keep,
{
}

} // verus!
