//! The recording session as the player sees it: its state, the transcript
//! on preview, the chat channel it goes to, and the display updates that
//! follow each change.

use vstd::prelude::*;
use vstd::string::{StrSliceExecFns, StringExecFns};
use crate::commands::InsimEvent;
use crate::messages::{SttMessage, SttMessageType};

verus! {

/// Longest chat line, in characters, that the game takes.
pub const MAX_MESSAGE_LEN: usize = 95;

/// A chat channel: its name on screen and the prefix of its messages.
/// Two channels are the same where their prefixes are.
#[derive(Clone, Debug)]
pub struct ChatChannel {
    pub display: String,
    pub prefix: String,
}

impl PartialEq for ChatChannel {
    fn eq(&self, other: &Self) -> bool {
        self.prefix == other.prefix
    }
}

impl vstd::std_specs::cmp::PartialEqSpecImpl for ChatChannel {
    open spec fn obeys_eq_spec() -> bool {
        true
    }

    open spec fn eq_spec(&self, other: &ChatChannel) -> bool {
        self.prefix@ == other.prefix@
    }
}

impl ChatChannel {
    /// An equal copy, fields included.
    pub fn duplicate(&self) -> (r: ChatChannel)
        ensures
            r == *self,
    {
        ChatChannel { display: self.display.clone(), prefix: self.prefix.clone() }
    }
}

/// The session's state.
#[derive(Debug, Clone, Copy, PartialEq, Eq, Structural)]
pub enum UiState {
    Idle,
    Recording,
    Processing,
    /// The player is not in a game session.
    Stopped,
}

/// An update of what the player sees.
#[derive(Debug)]
pub enum UiEvent {
    UpdatePreview(String),
    UpdateState(UiState),
    UpdateChannel(ChatChannel),
    ClearPreview,
    RemoveAllBtns,
}

/// What the session asks of the pipeline or of the game.
#[derive(Debug)]
pub enum SessionAction {
    Nothing,
    StartRecording,
    StopRecordingAndTranscribe,
    /// Send these chat lines, in order.
    SendChat(Vec<String>),
}

/// State and transitions of starting a recording: only from `Idle`.
pub open spec fn start_transition(s: UiState) -> (UiState, bool) {
    if s == UiState::Idle {
        (UiState::Recording, true)
    } else {
        (s, false)
    }
}

/// State and transitions of stopping a recording: only from `Recording`,
/// with one request to flush.
pub open spec fn stop_transition(s: UiState) -> (UiState, bool) {
    if s == UiState::Recording {
        (UiState::Processing, true)
    } else {
        (s, false)
    }
}

/// The chat lines for `rest`: pieces of at most `n` characters, each
/// after the channel prefix and a space.
pub open spec fn chat_parts(rest: Seq<char>, prefix: Seq<char>, n: nat) -> Seq<Seq<char>>
    decreases rest.len(),
{
    if rest.len() == 0 || n == 0 {
        Seq::empty()
    } else {
        let k = if rest.len() < n {
            rest.len()
        } else {
            n
        };
        seq![prefix + " "@ + rest.subrange(0, k as int)] + chat_parts(
            rest.subrange(k as int, rest.len() as int),
            prefix,
            n,
        )
    }
}

/// The views of a sequence of strings.
pub open spec fn string_views(v: Seq<String>) -> Seq<Seq<char>> {
    v.map_values(|s: String| s@)
}

/// Position of the first channel from `i` on with prefix `p`; 0 where none has it.
pub open spec fn channel_index_from(channels: Seq<ChatChannel>, p: Seq<char>, i: int) -> int
    decreases channels.len() - i,
{
    if i < 0 || i >= channels.len() {
        0
    } else if channels[i].prefix@ == p {
        i
    } else {
        channel_index_from(channels, p, i + 1)
    }
}

/// The session: state, transcript on preview, chat channels, and the
/// display updates not yet handed out.
pub struct UiContext {
    state: UiState,
    message: String,
    preview_armed: bool,
    update_queue: Vec<UiEvent>,
    chat_channels: Vec<ChatChannel>,
    active_channel: ChatChannel,
}

impl UiContext {
    pub closed spec fn current(&self) -> UiState {
        self.state
    }

    /// The transcript on preview, empty where there is none.
    pub closed spec fn preview(&self) -> String {
        self.message
    }

    /// Whether the preview waits for its timeout.
    pub closed spec fn armed(&self) -> bool {
        self.preview_armed
    }

    /// Display updates queued since they were last taken, oldest first.
    pub closed spec fn queue(&self) -> Seq<UiEvent> {
        self.update_queue@
    }

    pub closed spec fn channels(&self) -> Seq<ChatChannel> {
        self.chat_channels@
    }

    pub closed spec fn active(&self) -> ChatChannel {
        self.active_channel
    }

    /// There is at least one channel, and every prefix leaves room for text.
    pub open spec fn wf(&self) -> bool {
        &&& self.channels().len() > 0
        &&& forall|i: int|
            0 <= i < self.channels().len() ==> #[trigger] self.channels()[i].prefix@.len()
                < MAX_MESSAGE_LEN
        &&& self.active().prefix@.len() < MAX_MESSAGE_LEN
    }

    pub fn state(&self) -> (r: UiState)
        ensures
            r == self.current(),
    {
        self.state
    }

    pub fn message(&self) -> (r: &String)
        ensures
            *r == self.preview(),
    {
        &self.message
    }

    pub fn preview_timer_armed(&self) -> (r: bool)
        ensures
            r == self.armed(),
    {
        self.preview_armed
    }

    pub fn active_channel(&self) -> (r: &ChatChannel)
        ensures
            *r == self.active(),
    {
        &self.active_channel
    }

    pub fn chat_channels(&self) -> (r: &Vec<ChatChannel>)
        ensures
            r@ == self.channels(),
    {
        &self.chat_channels
    }

    /// Channels, preview and timer are left as they were.
    pub open spec fn keeps_all_but_state(&self, other: &UiContext) -> bool {
        &&& other.channels() == self.channels()
        &&& other.active() == self.active()
        &&& other.preview() == self.preview()
        &&& other.armed() == self.armed()
    }

    /// Nothing is changed at all.
    pub open spec fn keeps_all(&self, other: &UiContext) -> bool {
        &&& self.keeps_all_but_state(other)
        &&& other.current() == self.current()
        &&& other.queue() == self.queue()
    }

    /// Position of the active channel among the channels; 0 where it is
    /// not among them.
    pub fn channel_index(&self) -> (r: usize)
        requires
            self.wf(),
        ensures
            r == channel_index_from(self.channels(), self.active().prefix@, 0),
            r < self.channels().len(),
    {
        let mut i: usize = 0;
        while i < self.chat_channels.len()
            invariant
                i <= self.chat_channels@.len(),
                channel_index_from(self.channels(), self.active().prefix@, 0) == channel_index_from(
                    self.channels(),
                    self.active().prefix@,
                    i as int,
                ),
            decreases self.chat_channels@.len() - i,
        {
            if self.chat_channels[i].prefix == self.active_channel.prefix {
                return i;
            }
            i = i + 1;
        }
        0
    }

    /// Takes an event of the transcription worker. A transcript goes on
    /// preview, with its timer armed, and the session returns to `Idle`;
    /// a failure returns a waiting session to `Idle`. The result says
    /// whether a new preview timer is to start.
    pub fn handle_stt_message(&mut self, msg: SttMessage) -> (r: bool)
        ensures
            msg.msg_type == SttMessageType::TranscriptionResult ==> {
                &&& r
                &&& final(self).current() == UiState::Idle
                &&& final(self).preview() == msg.content
                &&& final(self).armed()
                &&& final(self).queue() == old(self).queue().push(
                    UiEvent::UpdateState(UiState::Idle),
                ).push(UiEvent::UpdatePreview(msg.content))
                &&& final(self).channels() == old(self).channels()
                &&& final(self).active() == old(self).active()
            },
            msg.msg_type == SttMessageType::TranscriptionError ==> {
                &&& !r
                &&& old(self).keeps_all_but_state(final(self))
                &&& old(self).current() == UiState::Processing ==> final(self).current()
                    == UiState::Idle && final(self).queue() == old(self).queue().push(
                    UiEvent::UpdateState(UiState::Idle),
                )
                &&& old(self).current() != UiState::Processing ==> old(self).keeps_all(final(self))
            },
    {
        match msg.msg_type {
            SttMessageType::TranscriptionResult => {
                self.message = msg.content;
                self.state = UiState::Idle;
                self.update_queue.push(UiEvent::UpdateState(UiState::Idle));
                self.update_queue.push(UiEvent::UpdatePreview(self.message.clone()));
                self.preview_armed = true;
                true
            },
            SttMessageType::TranscriptionError => {
                if self.state == UiState::Processing {
                    self.state = UiState::Idle;
                    self.update_queue.push(UiEvent::UpdateState(UiState::Idle));
                }
                false
            },
        }
    }

    /// Takes an event of the game. Entering a game starts a stopped
    /// session and shows it; leaving one stops the session and clears the
    /// display; the recording toggle starts from `Idle` and stops from
    /// `Recording`; accepting sends the transcript on preview to the active
    /// channel, from `Idle`; the channel events move to the next or previous
    /// channel, round the list.
    pub fn handle_insim_event(&mut self, event: InsimEvent) -> (r: SessionAction)
        requires
            old(self).wf(),
        ensures
            final(self).wf(),
            final(self).channels() == old(self).channels(),
            match event {
                InsimEvent::IsInGame(true) => r is Nothing && if old(self).current()
                    == UiState::Stopped {
                    &&& final(self).current() == UiState::Idle
                    &&& old(self).keeps_all_but_state(final(self))
                    &&& final(self).queue() == if old(self).preview()@.len() > 0 {
                        old(self).queue().push(UiEvent::UpdatePreview(old(self).preview()))
                    } else {
                        old(self).queue()
                    }.push(UiEvent::UpdateState(UiState::Idle)).push(
                        UiEvent::UpdateChannel(old(self).active()),
                    )
                } else {
                    old(self).keeps_all(final(self))
                },
                InsimEvent::IsInGame(false) => r is Nothing && if old(self).current()
                    != UiState::Stopped {
                    &&& final(self).current() == UiState::Stopped
                    &&& old(self).keeps_all_but_state(final(self))
                    &&& final(self).queue() == old(self).queue().push(UiEvent::RemoveAllBtns)
                } else {
                    old(self).keeps_all(final(self))
                },
                InsimEvent::ToggleRecording => {
                    &&& old(self).keeps_all_but_state(final(self))
                    &&& old(self).current() == UiState::Idle ==> r is StartRecording
                        && final(self).current() == UiState::Recording && final(self).queue()
                        == old(self).queue().push(UiEvent::UpdateState(UiState::Recording))
                    &&& old(self).current() == UiState::Recording ==> r is StopRecordingAndTranscribe
                        && final(self).current() == UiState::Processing && final(self).queue()
                        == old(self).queue().push(UiEvent::UpdateState(UiState::Processing))
                    &&& old(self).current() != UiState::Idle && old(self).current()
                        != UiState::Recording ==> r is Nothing && old(self).keeps_all(final(self))
                },
                InsimEvent::AcceptMessage => if old(self).preview()@.len() > 0 && old(self).current()
                    == UiState::Idle {
                    &&& r matches SessionAction::SendChat(lines) && string_views(lines@)
                        == chat_parts(
                        old(self).preview()@,
                        old(self).active().prefix@,
                        (MAX_MESSAGE_LEN - old(self).active().prefix@.len()) as nat,
                    )
                    &&& final(self).queue() == old(self).queue().push(UiEvent::ClearPreview)
                    &&& final(self).preview()@ == Seq::<char>::empty()
                    &&& !final(self).armed()
                    &&& final(self).current() == old(self).current()
                    &&& final(self).active() == old(self).active()
                } else {
                    r is Nothing && old(self).keeps_all(final(self))
                },
                InsimEvent::NextChannel => {
                    let k = channel_index_from(old(self).channels(), old(self).active().prefix@, 0);
                    let next = if k + 1 >= old(self).channels().len() {
                        0
                    } else {
                        k + 1
                    };
                    &&& r is Nothing
                    &&& final(self).active() == old(self).channels()[next]
                    &&& final(self).queue() == old(self).queue().push(
                        UiEvent::UpdateChannel(old(self).channels()[next]),
                    )
                    &&& final(self).current() == old(self).current()
                    &&& final(self).preview() == old(self).preview()
                    &&& final(self).armed() == old(self).armed()
                },
                InsimEvent::PeviousChannel => {
                    let k = channel_index_from(old(self).channels(), old(self).active().prefix@, 0);
                    let prev = if k == 0 {
                        old(self).channels().len() - 1
                    } else {
                        k - 1
                    };
                    &&& r is Nothing
                    &&& final(self).active() == old(self).channels()[prev]
                    &&& final(self).queue() == old(self).queue().push(
                        UiEvent::UpdateChannel(old(self).channels()[prev]),
                    )
                    &&& final(self).current() == old(self).current()
                    &&& final(self).preview() == old(self).preview()
                    &&& final(self).armed() == old(self).armed()
                },
            },
    {
        match event {
            InsimEvent::IsInGame(in_game) => {
                if in_game {
                    if self.state == UiState::Stopped {
                        self.state = UiState::Idle;
                        if self.message.as_str().unicode_len() > 0 {
                            self.update_queue.push(UiEvent::UpdatePreview(self.message.clone()));
                        }
                        self.update_queue.push(UiEvent::UpdateState(UiState::Idle));
                        self.update_queue.push(UiEvent::UpdateChannel(self.active_channel.duplicate()));
                    }
                } else if self.state != UiState::Stopped {
                    self.state = UiState::Stopped;
                    self.update_queue.push(UiEvent::RemoveAllBtns);
                }
                SessionAction::Nothing
            },
            InsimEvent::ToggleRecording => {
                match self.state {
                    UiState::Idle => self.request_start(),
                    UiState::Recording => self.request_stop(),
                    _ => SessionAction::Nothing,
                }
            },
            InsimEvent::AcceptMessage => {
                if self.message.as_str().unicode_len() == 0 || self.state != UiState::Idle {
                    return SessionAction::Nothing;
                }
                let lines = split_message(&self.message, &self.active_channel.prefix);
                self.update_queue.push(UiEvent::ClearPreview);
                self.message = String::new();
                self.preview_armed = false;
                SessionAction::SendChat(lines)
            },
            InsimEvent::NextChannel => {
                let k = self.channel_index();
                let next = if k >= self.chat_channels.len() - 1 {
                    0
                } else {
                    k + 1
                };
                self.active_channel = self.chat_channels[next].duplicate();
                self.update_queue.push(UiEvent::UpdateChannel(self.active_channel.duplicate()));
                SessionAction::Nothing
            },
            InsimEvent::PeviousChannel => {
                let k = self.channel_index();
                let prev = if k == 0 {
                    self.chat_channels.len() - 1
                } else {
                    k - 1
                };
                self.active_channel = self.chat_channels[prev].duplicate();
                self.update_queue.push(UiEvent::UpdateChannel(self.active_channel.duplicate()));
                SessionAction::Nothing
            },
        }
    }

    /// Hands out the queued display updates, oldest first, and empties the queue.
    pub fn take_ui_events(&mut self) -> (r: Vec<UiEvent>)
        ensures
            r@ == old(self).queue(),
            final(self).queue() == Seq::<UiEvent>::empty(),
            final(self).current() == old(self).current(),
            final(self).preview() == old(self).preview(),
            final(self).armed() == old(self).armed(),
            final(self).channels() == old(self).channels(),
            final(self).active() == old(self).active(),
    {
        self.update_queue.split_off(0)
    }

    /// Starts a recording, from `Idle` only.
    pub fn request_start(&mut self) -> (r: SessionAction)
        ensures
            final(self).current() == start_transition(old(self).current()).0,
            start_transition(old(self).current()).1 ==> r is StartRecording && final(self).queue()
                == old(self).queue().push(UiEvent::UpdateState(UiState::Recording)),
            !start_transition(old(self).current()).1 ==> r is Nothing && final(self).queue()
                == old(self).queue(),
            final(self).preview() == old(self).preview(),
            final(self).armed() == old(self).armed(),
            final(self).channels() == old(self).channels(),
            final(self).active() == old(self).active(),
    {
        match self.state {
            UiState::Idle => {
                self.state = UiState::Recording;
                self.update_queue.push(UiEvent::UpdateState(UiState::Recording));
                SessionAction::StartRecording
            },
            _ => SessionAction::Nothing,
        }
    }

    /// Stops a recording and asks for its transcription, from `Recording` only.
    pub fn request_stop(&mut self) -> (r: SessionAction)
        ensures
            final(self).current() == stop_transition(old(self).current()).0,
            stop_transition(old(self).current()).1 ==> r is StopRecordingAndTranscribe
                && final(self).queue() == old(self).queue().push(
                UiEvent::UpdateState(UiState::Processing),
            ),
            !stop_transition(old(self).current()).1 ==> r is Nothing && final(self).queue()
                == old(self).queue(),
            final(self).preview() == old(self).preview(),
            final(self).armed() == old(self).armed(),
            final(self).channels() == old(self).channels(),
            final(self).active() == old(self).active(),
    {
        match self.state {
            UiState::Recording => {
                self.state = UiState::Processing;
                self.update_queue.push(UiEvent::UpdateState(UiState::Processing));
                SessionAction::StopRecordingAndTranscribe
            },
            _ => SessionAction::Nothing,
        }
    }

    /// Clears the preview once its timeout has passed.
    pub fn clear_message_timeout(&mut self)
        ensures
            old(self).armed() ==> final(self).queue() == old(self).queue().push(UiEvent::ClearPreview)
                && final(self).preview()@ == Seq::<char>::empty() && !final(self).armed(),
            !old(self).armed() ==> final(self).queue() == old(self).queue() && final(self).preview()
                == old(self).preview() && !final(self).armed(),
            final(self).current() == old(self).current(),
            final(self).channels() == old(self).channels(),
            final(self).active() == old(self).active(),
    {
        if self.preview_armed {
            self.update_queue.push(UiEvent::ClearPreview);
            self.message = String::new();
            self.preview_armed = false;
        }
    }
}

impl Default for UiContext {
    /// A stopped session with nothing on preview, on the first of the
    /// channels `/say` (no prefix) and `^5!local` (prefix `!l`).
    fn default() -> (r: Self)
        ensures
            r.wf(),
            r.current() == UiState::Stopped,
            r.preview()@ == Seq::<char>::empty(),
            !r.armed(),
            r.queue() == Seq::<UiEvent>::empty(),
            r.channels().len() == 2,
            r.channels()[0].display@ == "/say"@,
            r.channels()[0].prefix@ == ""@,
            r.channels()[1].display@ == "^5!local"@,
            r.channels()[1].prefix@ == "!l"@,
            r.active() == r.channels()[0],
    {
        proof {
            reveal_strlit("");
            reveal_strlit("!l");
        }
        let chat_channels = vec![
            ChatChannel { display: String::from_str("/say"), prefix: String::from_str("") },
            ChatChannel { display: String::from_str("^5!local"), prefix: String::from_str("!l") },
        ];
        let active_channel = chat_channels[0].duplicate();
        UiContext {
            state: UiState::Stopped,
            message: String::new(),
            preview_armed: false,
            update_queue: Vec::new(),
            chat_channels,
            active_channel,
        }
    }
}

/// Stopping a recording is a no-op in every state but `Recording`; from
/// `Recording` it moves to `Processing` with exactly one request to flush,
/// and a second stop after it asks for nothing more.
pub proof fn lemma_stop_only_from_recording(s: UiState)
    ensures
        stop_transition(UiState::Idle) == (UiState::Idle, false),
        stop_transition(UiState::Recording) == (UiState::Processing, true),
        s != UiState::Recording ==> stop_transition(s) == (s, false),
        !stop_transition(stop_transition(s).0).1,
{
}

/// Splits a message into the chat lines that send it on a channel with
/// `prefix`: pieces of the message of at most `MAX_MESSAGE_LEN` less the
/// prefix's length in characters.
pub fn split_message(message: &String, prefix: &String) -> (r: Vec<String>)
    requires
        prefix@.len() < MAX_MESSAGE_LEN,
    ensures
        string_views(r@) == chat_parts(
            message@,
            prefix@,
            (MAX_MESSAGE_LEN - prefix@.len()) as nat,
        ),
{
    let n = MAX_MESSAGE_LEN - prefix.as_str().unicode_len();
    let total = message.as_str().unicode_len();
    let ghost m = message@;
    let mut parts: Vec<String> = Vec::new();
    let mut pos: usize = 0;
    assert(m.subrange(0, total as int) =~= m);
    assert(string_views(parts@) =~= Seq::<Seq<char>>::empty());
    assert(Seq::<Seq<char>>::empty() + chat_parts(m, prefix@, n as nat) =~= chat_parts(m, prefix@, n as nat));
    while pos < total
        invariant
            n == MAX_MESSAGE_LEN - prefix@.len(),
            n > 0,
            total == m.len(),
            m == message@,
            pos <= total,
            string_views(parts@) + chat_parts(m.subrange(pos as int, total as int), prefix@, n as nat)
                == chat_parts(m, prefix@, n as nat),
        decreases total - pos,
    {
        let end = if total - pos < n {
            total
        } else {
            pos + n
        };
        let piece = message.as_str().substring_char(pos, end);
        let line = String::from_str(prefix.as_str()).concat(" ").concat(piece);
        let ghost rest = m.subrange(pos as int, total as int);
        let ghost before = parts@;
        assert(rest.subrange(0, end - pos) =~= piece@);
        assert(rest.subrange(end - pos, rest.len() as int) =~= m.subrange(end as int, total as int));
        parts.push(line);
        assert(string_views(parts@) =~= string_views(before).push(line@));
        assert(string_views(parts@) + chat_parts(m.subrange(end as int, total as int), prefix@, n as nat)
            =~= string_views(before) + chat_parts(rest, prefix@, n as nat));
        pos = end;
    }
    assert(m.subrange(total as int, total as int) =~= Seq::<char>::empty());
    assert(string_views(parts@) =~= string_views(parts@) + Seq::<Seq<char>>::empty());
    parts
}

} // verus!
