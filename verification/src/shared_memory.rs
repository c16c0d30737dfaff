//! The handshake with a running game over a named shared-memory segment
//! and four named semaphores, by which the stand-in hands the game the
//! directory of the user's saves.

use crate::paths::{join_path, joined_path};
use crate::text::{chars_of, matches_at, occurs_at};
use vstd::prelude::*;

verus! {

pub const GAME_METRICS: u32 = 3;

pub const GAME_READY: u32 = 4;

pub const USER_SAVE_DIR: u32 = 9;

pub const END_USER_INFO: u32 = 24;

/// How long, in milliseconds, the game is given to say that it is ready.
pub const READY_TIMEOUT_MS: u32 = 5000;

/// How long, in milliseconds, a command of the game is waited for between
/// two looks at whether the game still runs.
pub const POLL_INTERVAL_MS: u32 = 700;

/// The size of the segment, in bytes.
pub const SEGMENT_SIZE: usize = 0x20000;

/// Where, in the segment, the stand-in writes what it tells the game. The
/// game writes what it tells the stand-in at the start of the segment.
pub const OUTBOX_OFFSET: usize = 0x10000;

/// The key that tells the game and its companion apart in the names of the
/// segment and the semaphores.
pub open spec fn channel_key(is_cw: bool) -> Seq<char> {
    if is_cw {
        "choco"@
    } else {
        "ff8"@
    }
}

/// The UTF-16 code units of a character.
pub open spec fn utf16_of_char(c: char) -> Seq<u16> {
    if (c as u32) < 0x10000 {
        seq![(c as u32) as u16]
    } else {
        seq![
            (0xD800 + ((c as u32) - 0x10000) / 0x400) as u16,
            (0xDC00 + ((c as u32) - 0x10000) % 0x400) as u16,
        ]
    }
}

/// The UTF-16 code units of the first `n` characters of a text.
pub open spec fn utf16_prefix(text: Seq<char>, n: int) -> Seq<u16>
    decreases n,
{
    if n <= 0 {
        Seq::empty()
    } else {
        utf16_prefix(text, n - 1) + utf16_of_char(text[n - 1])
    }
}

/// The UTF-16 code units of a text.
pub open spec fn utf16(text: Seq<char>) -> Seq<u16> {
    utf16_prefix(text, text.len() as int)
}

/// The bytes of the first `n` code units, each low byte first.
pub open spec fn unit_bytes(units: Seq<u16>, n: int) -> Seq<u8>
    decreases n,
{
    if n <= 0 {
        Seq::empty()
    } else {
        unit_bytes(units, n - 1) + seq![(units[n - 1] % 0x100) as u8, (units[n - 1] / 0x100) as u8]
    }
}

/// The four bytes of a word, low byte first.
pub open spec fn word_bytes(word: u32) -> Seq<u8> {
    seq![
        (word % 0x100) as u8,
        (word / 0x100 % 0x100) as u8,
        (word / 0x1_0000 % 0x100) as u8,
        (word / 0x100_0000) as u8,
    ]
}

/// What the stand-in writes into its half of the segment to tell the game
/// something. The first word is the command where it comes alone. Where a
/// text comes with it the command is left out on purpose: the first word
/// is then the number of the text's code units, which is how the game
/// reads a text, and the code units stand behind it.
pub open spec fn message_bytes(command: u32, param: Option<Seq<u16>>) -> Seq<u8> {
    match param {
        None => word_bytes(command),
        Some(units) => word_bytes(units.len() as u32) + unit_bytes(units, units.len() as int),
    }
}

/// A message with a text holds nothing of the command it is sent under:
/// two commands with the same text are written as the same bytes, which
/// begin with the length of the text.
pub proof fn lemma_text_message_leaves_command_out(first: u32, second: u32, units: Seq<u16>)
    ensures
        message_bytes(first, Some(units)) == message_bytes(second, Some(units)),
        message_bytes(first, Some(units)).subrange(0, 4) == word_bytes(units.len() as u32),
        message_bytes(first, None) == word_bytes(first),
{
    assert(message_bytes(first, Some(units)).subrange(0, 4) =~= word_bytes(units.len() as u32));
}

/// Whether a text fits, as a message, into the stand-in's half of the
/// segment.
pub open spec fn fits_outbox(units: Seq<u16>) -> bool {
    4 + 2 * units.len() <= SEGMENT_SIZE - OUTBOX_OFFSET
}

/// Encodes a text as UTF-16.
pub fn encode_utf16(text: &str) -> (units: Vec<u16>)
    ensures
        units@ == utf16(text@),
{
    let chars = chars_of(text);
    let mut units: Vec<u16> = Vec::new();
    let mut i: usize = 0;
    while i < chars.len()
        invariant
            i <= chars.len(),
            chars@ == text@,
            units@ == utf16_prefix(text@, i as int),
        decreases chars.len() - i,
    {
        let c: u32 = chars[i] as u32;
        if c < 0x10000 {
            units.push(c as u16);
        } else {
            units.push((0xD800 + (c - 0x10000) / 0x400) as u16);
            units.push((0xDC00 + (c - 0x10000) % 0x400) as u16);
        }
        assert(units@ =~= utf16_prefix(text@, i as int) + utf16_of_char(text@[i as int]));
        i += 1;
    }
    units
}

/// Writes a word out, low byte first.
fn push_word(bytes: &mut Vec<u8>, word: u32)
    ensures
        final(bytes)@ == old(bytes)@ + word_bytes(word),
{
    bytes.push((word % 0x100) as u8);
    bytes.push((word / 0x100 % 0x100) as u8);
    bytes.push((word / 0x1_0000 % 0x100) as u8);
    bytes.push((word / 0x100_0000) as u8);
    assert(bytes@ =~= old(bytes)@ + word_bytes(word));
}

/// The bytes of a message for the game.
fn encode_message(command: u32, param: Option<&Vec<u16>>) -> (bytes: Vec<u8>)
    requires
        param matches Some(units) ==> fits_outbox(units@),
    ensures
        bytes@ == message_bytes(
            command,
            match param {
                Some(units) => Some(units@),
                None => None,
            },
        ),
{
    let mut bytes: Vec<u8> = Vec::new();
    match param {
        None => {
            push_word(&mut bytes, command);
        },
        Some(units) => {
            push_word(&mut bytes, units.len() as u32);
            let ghost head = bytes@;
            let mut i: usize = 0;
            while i < units.len()
                invariant
                    i <= units.len(),
                    bytes@ == head + unit_bytes(units@, i as int),
                decreases units.len() - i,
            {
                bytes.push((units[i] % 0x100) as u8);
                bytes.push((units[i] / 0x100) as u8);
                assert(bytes@ =~= head + unit_bytes(units@, i + 1));
                i += 1;
            }
        },
    }
    bytes
}

/// Where the handshake stands.
#[derive(Clone, Copy, Debug, PartialEq, Eq, Structural)]
pub enum Stage {
    /// The game has to say that it is ready.
    AwaitingReady,
    /// The directory of the saves has to be sent.
    SendingSaveDir,
    /// The end of what the stand-in has to tell has to be sent.
    SendingEnd,
    /// It has to be seen whether the game still runs.
    Polling,
    /// A command of the game is waited for.
    Listening,
    /// The handshake is over.
    Finished,
}

/// What the handshake asks for.
pub enum Request {
    /// Wait until the game has written a command, for the given number of
    /// milliseconds at most; read it and tell the game so. Answered by
    /// `Received`.
    Receive(u32),
    /// Write these bytes into the stand-in's half of the segment, tell the
    /// game so, and wait, however long it takes, until the game has read
    /// them. Answered by `Sent`.
    Send(Vec<u8>),
    /// See whether the game still runs. Answered by `Child`.
    CheckChild,
    /// Nothing: the handshake is over.
    Stop,
}

/// What the handshake is told.
#[derive(Clone, Copy, Debug, PartialEq, Eq, Structural)]
pub enum Event {
    /// The command that the game has written, if it has written one in time.
    Received(Option<u32>),
    /// The game has read what was sent.
    Sent,
    /// Whether the game still runs.
    Child(bool),
}

/// The stage that follows a stage and an event. An event that the stage
/// does not wait for changes nothing.
pub open spec fn next_stage(stage: Stage, event: Event) -> Stage {
    match (stage, event) {
        (Stage::AwaitingReady, Event::Received(command)) => if command == Some(GAME_READY) {
            Stage::SendingSaveDir
        } else {
            Stage::Finished
        },
        (Stage::SendingSaveDir, Event::Sent) => Stage::SendingEnd,
        (Stage::SendingEnd, Event::Sent) => Stage::Polling,
        (Stage::Polling, Event::Child(running)) => if running {
            Stage::Listening
        } else {
            Stage::Finished
        },
        (Stage::Listening, Event::Received(_)) => Stage::Polling,
        _ => stage,
    }
}

/// The handshake with one game.
pub struct SharedMemory {
    is_cw: bool,
    save_dir: Vec<u16>,
    stage: Stage,
}

/// A request by what it asks for.
pub enum RequestView {
    Receive(u32),
    Send(Seq<u8>),
    CheckChild,
    Stop,
}

impl View for Request {
    type V = RequestView;

    open spec fn view(&self) -> RequestView {
        match self {
            Request::Receive(timeout) => RequestView::Receive(*timeout),
            Request::Send(bytes) => RequestView::Send(bytes@),
            Request::CheckChild => RequestView::CheckChild,
            Request::Stop => RequestView::Stop,
        }
    }
}

/// What is asked for at a stage, the directory of the saves being given as
/// UTF-16.
pub open spec fn request_at(stage: Stage, save_dir: Seq<u16>) -> RequestView {
    match stage {
        Stage::AwaitingReady => RequestView::Receive(READY_TIMEOUT_MS),
        Stage::SendingSaveDir => RequestView::Send(message_bytes(USER_SAVE_DIR, Some(save_dir))),
        Stage::SendingEnd => RequestView::Send(message_bytes(END_USER_INFO, None)),
        Stage::Polling => RequestView::CheckChild,
        Stage::Listening => RequestView::Receive(POLL_INTERVAL_MS),
        Stage::Finished => RequestView::Stop,
    }
}

impl SharedMemory {
    /// Where the handshake stands.
    pub closed spec fn stage(&self) -> Stage {
        self.stage
    }

    /// The directory of the saves, as UTF-16.
    pub closed spec fn save_dir(&self) -> Seq<u16> {
        self.save_dir@
    }

    /// Whether the handshake is with the companion game.
    pub closed spec fn companion(&self) -> bool {
        self.is_cw
    }

    /// What has to hold of a handshake.
    pub closed spec fn wf(&self) -> bool {
        fits_outbox(self.save_dir@)
    }

    /// The handshake with a game that is about to be started, if there is
    /// to be one: only the companion game is talked to, and only where the
    /// directory of the saves is known and fits into a message.
    pub fn new(is_cw: bool, save_dir: Option<&str>) -> (handshake: Option<SharedMemory>)
        ensures
            match handshake {
                Some(h) => {
                    &&& is_cw
                    &&& save_dir matches Some(dir) && h.save_dir() == utf16(dir@)
                    &&& fits_outbox(h.save_dir())
                    &&& h.stage() == Stage::AwaitingReady
                    &&& h.companion() == is_cw
                    &&& h.wf()
                },
                None => !is_cw || save_dir is None || (save_dir matches Some(dir) && !fits_outbox(
                    utf16(dir@),
                )),
            },
    {
        if !is_cw {
            return None;
        }
        match save_dir {
            None => None,
            Some(dir) => {
                let units = encode_utf16(dir);
                if units.len() <= (SEGMENT_SIZE - OUTBOX_OFFSET - 4) / 2 {
                    Some(SharedMemory { is_cw, save_dir: units, stage: Stage::AwaitingReady })
                } else {
                    None
                }
            },
        }
    }

    /// The name of the segment, or of one of the semaphores: the key of the
    /// game, an underscore and the given suffix.
    fn name(&self, suffix: &str) -> (name: String)
        ensures
            name@ == channel_key(self.is_cw) + "_"@ + suffix@,
    {
        let mut name = if self.is_cw {
            "choco".to_string()
        } else {
            "ff8".to_string()
        };
        name.append("_");
        name.append(suffix);
        name
    }

    /// The name of the segment.
    pub fn memory_name(&self) -> (name: String)
        ensures
            name@ == channel_key(self.companion()) + "_"@ + "sharedMemoryWithLauncher"@,
    {
        self.name("sharedMemoryWithLauncher")
    }

    /// The name of the semaphore that tells the game that it can read.
    pub fn game_can_name(&self) -> (name: String)
        ensures
            name@ == channel_key(self.companion()) + "_"@ + "gameCanReadMsgSem"@,
    {
        self.name("gameCanReadMsgSem")
    }

    /// The name of the semaphore by which the game tells that it has read.
    pub fn game_did_name(&self) -> (name: String)
        ensures
            name@ == channel_key(self.companion()) + "_"@ + "gameDidReadMsgSem"@,
    {
        self.name("gameDidReadMsgSem")
    }

    /// The name of the semaphore by which the game tells the stand-in that
    /// it can read.
    pub fn launcher_can_name(&self) -> (name: String)
        ensures
            name@ == channel_key(self.companion()) + "_"@ + "launcherCanReadMsgSem"@,
    {
        self.name("launcherCanReadMsgSem")
    }

    /// The name of the semaphore that tells the game that the stand-in has
    /// read.
    pub fn launcher_did_name(&self) -> (name: String)
        ensures
            name@ == channel_key(self.companion()) + "_"@ + "launcherDidReadMsgSem"@,
    {
        self.name("launcherDidReadMsgSem")
    }

    /// What the handshake asks for at the stage it stands at.
    pub fn request(&self) -> (request: Request)
        requires
            self.wf(),
        ensures
            request@ == request_at(self.stage(), self.save_dir()),
    {
        match self.stage {
            Stage::AwaitingReady => Request::Receive(READY_TIMEOUT_MS),
            Stage::SendingSaveDir => Request::Send(encode_message(USER_SAVE_DIR, Some(&self.save_dir))),
            Stage::SendingEnd => Request::Send(encode_message(END_USER_INFO, None)),
            Stage::Polling => Request::CheckChild,
            Stage::Listening => Request::Receive(POLL_INTERVAL_MS),
            Stage::Finished => Request::Stop,
        }
    }

    /// Tells the handshake how what it asked for went.
    pub fn wait(&mut self, event: Event)
        requires
            old(self).wf(),
        ensures
            final(self).wf(),
            final(self).stage() == next_stage(old(self).stage(), event),
            final(self).save_dir() == old(self).save_dir(),
            final(self).companion() == old(self).companion(),
    {
        self.stage = match (self.stage, event) {
            (Stage::AwaitingReady, Event::Received(command)) => match command {
                Some(c) => if c == GAME_READY {
                    Stage::SendingSaveDir
                } else {
                    Stage::Finished
                },
                None => Stage::Finished,
            },
            (Stage::SendingSaveDir, Event::Sent) => Stage::SendingEnd,
            (Stage::SendingEnd, Event::Sent) => Stage::Polling,
            (Stage::Polling, Event::Child(running)) => if running {
                Stage::Listening
            } else {
                Stage::Finished
            },
            (Stage::Listening, Event::Received(_)) => Stage::Polling,
            (stage, _) => stage,
        };
    }
}

/// Every wait for the game is bounded but the wait for it to read what was
/// sent: the first wait by the time the game is given to get ready, every
/// later one by less than a second, so that a game that has ended is
/// noticed in less than a second.
pub proof fn lemma_waits_are_bounded(stage: Stage, save_dir: Seq<u16>)
    ensures
        request_at(stage, save_dir) matches RequestView::Receive(timeout) ==> (timeout
            <= READY_TIMEOUT_MS && (stage != Stage::AwaitingReady ==> timeout < 1000)),
{
}

/// The directory of the saves is sent only to a game that has said that it
/// is ready, and nothing is listened for before the end of what the
/// stand-in has to tell was sent.
pub proof fn lemma_save_dir_follows_ready(stage: Stage, event: Event)
    ensures
        next_stage(stage, event) == Stage::SendingSaveDir && stage != Stage::SendingSaveDir ==> stage
            == Stage::AwaitingReady && event == Event::Received(Some(GAME_READY)),
        next_stage(stage, event) == Stage::Polling && stage != Stage::Polling ==> (stage
            == Stage::SendingEnd && event == Event::Sent) || stage == Stage::Listening,
        stage == Stage::Finished ==> next_stage(stage, event) == Stage::Finished,
{
}

/// A directory in which the saves of a user may lie.
pub struct DirEntry {
    pub name: String,
    pub is_dir: bool,
}

/// Whether a directory entry holds the saves of a user: it is a directory
/// whose name starts with `user_`.
pub open spec fn is_user_dir(entry: DirEntry) -> bool {
    entry.is_dir && occurs_at(entry.name@, "user_"@, 0)
}

/// Where the store edition keeps the saves of all users, inside the
/// documents folder of the user.
pub fn save_path_2013(my_documents: &str) -> (path: String)
    ensures
        path@ == joined_path(my_documents@, "Square Enix\\FINAL FANTASY VIII Steam"@),
{
    join_path(my_documents, "Square Enix\\FINAL FANTASY VIII Steam")
}

/// The directory of the first user whose saves lie in `steam_path_2013`,
/// among the entries of that directory in the order they were listed.
pub fn find_user_id(steam_path_2013: &str, entries: &Vec<DirEntry>) -> (found: Option<String>)
    ensures
        match found {
            Some(path) => exists|i: int|
                0 <= i < entries.len() && is_user_dir(entries[i]) && path@ == joined_path(
                    steam_path_2013@,
                    entries[i].name@,
                ) && forall|j: int| 0 <= j < i ==> !is_user_dir(#[trigger] entries[j]),
            None => forall|j: int| 0 <= j < entries.len() ==> !is_user_dir(#[trigger] entries[j]),
        },
{
    let prefix = chars_of("user_");
    let mut i: usize = 0;
    while i < entries.len()
        invariant
            i <= entries.len(),
            prefix@ == "user_"@,
            forall|j: int| 0 <= j < i ==> !is_user_dir(#[trigger] entries[j]),
        decreases entries.len() - i,
    {
        let name = chars_of(entries[i].name.as_str());
        if entries[i].is_dir && matches_at(&name, &prefix, 0) {
            return Some(join_path(steam_path_2013, entries[i].name.as_str()));
        }
        i += 1;
    }
    None
}

} // verus!
