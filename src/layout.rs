//! Where the session's buttons stand on the game's screen, and what they
//! show.

use vstd::prelude::*;
use vstd::string::StringExecFns;
use vstd::utf8::encode_utf8;
use crate::session::{ChatChannel, UiState};

verus! {

pub const STATE_ID: u8 = 1;
pub const PREVIEW_ID: u8 = 2;
pub const CHANNEL_ID: u8 = 3;
pub const UI_SCALE: u8 = 5;
pub const UI_OFFSET_TOP: u8 = 170;
pub const UI_OFFSET_LEFT: u8 = 10;

/// What the game's escaping makes of a text.
pub uninterp spec fn escaped(s: Seq<char>) -> Seq<char>;

/// What is left of a text once the game's colour codes are taken out.
pub uninterp spec fn stripped(s: Seq<char>) -> Seq<char>;

/// Relies on `insim_core::string::escaping::escape`: the text with the
/// characters that the game treats specially escaped; the result depends on
/// the characters alone.
#[verifier::external_body]
fn escape_text(s: &str) -> (r: String)
    ensures
        r@ == escaped(s@),
{
    insim::core::string::escaping::escape(s).into_owned()
}

/// Relies on `insim_core::string::colours::strip`: the text without its
/// colour codes; the result depends on the characters alone.
#[verifier::external_body]
fn strip_colours(s: &str) -> (r: String)
    ensures
        r@ == stripped(s@),
{
    insim::core::string::colours::strip(s).into_owned()
}

/// A button on the game's screen.
#[derive(Debug)]
pub struct ButtonSpec {
    pub click_id: u8,
    pub text: String,
    pub top: u8,
    pub left: u8,
    pub width: u8,
    pub height: u8,
    /// Text aligned to the left, rather than centred.
    pub align_left: bool,
}

/// Bytes in the UTF-8 form of a text (a text held in memory has fewer
/// than `usize::MAX`).
pub open spec fn byte_count(s: Seq<char>) -> usize {
    encode_utf8(s).len() as usize
}

/// Width of a button for a text of `len` bytes: three quarters of the
/// length, rounded up, plus three, at most 200.
pub open spec fn width_for(len: nat) -> nat {
    let w = (3 * len + 3) / 4 + 3;
    if w > 200 {
        200
    } else {
        w
    }
}

/// The width of a button for `message`, from the length of its text
/// without colour codes.
pub fn msg_to_btn_width(message: String) -> (r: u8)
    ensures
        r == width_for(byte_count(stripped(message@)) as nat),
{
    let plain = strip_colours(message.as_str());
    let len = plain.as_str().len();
    if len >= 263 {
        assert((3 * len + 3) / 4 + 3 > 200);
        200
    } else {
        assert((3 * len + 3) / 4 + 3 <= 200);
        ((3 * len + 3) / 4 + 3) as u8
    }
}

/// The mark that shows a state: green while idle, red while recording,
/// yellow while processing, nothing when stopped.
pub open spec fn state_mark(state: UiState) -> Seq<char> {
    match state {
        UiState::Idle => "^2\u{2022}"@,
        UiState::Recording => "^1\u{2022}"@,
        UiState::Processing => "^3\u{2022}"@,
        UiState::Stopped => ""@,
    }
}

/// The button that shows the session's state.
pub fn get_state_btn(state: UiState) -> (r: ButtonSpec)
    ensures
        r.text@ == escaped(state_mark(state)),
        r.click_id == STATE_ID,
        r.top == UI_OFFSET_TOP,
        r.left == UI_OFFSET_LEFT,
        r.width == UI_SCALE,
        r.height == UI_SCALE,
        !r.align_left,
{
    let mark = match state {
        UiState::Idle => "^2\u{2022}",
        UiState::Recording => "^1\u{2022}",
        UiState::Processing => "^3\u{2022}",
        UiState::Stopped => "",
    };
    ButtonSpec {
        click_id: STATE_ID,
        text: escape_text(mark),
        top: UI_OFFSET_TOP,
        left: UI_OFFSET_LEFT,
        width: UI_SCALE,
        height: UI_SCALE,
        align_left: false,
    }
}

/// The button that shows the transcript on preview, next to the state.
pub fn get_message_preview_btn(message: String) -> (r: ButtonSpec)
    ensures
        r.text@ == escaped("^3"@ + message@),
        r.width == width_for(byte_count(stripped(message@)) as nat),
        r.click_id == PREVIEW_ID,
        r.top == UI_OFFSET_TOP,
        r.left == UI_OFFSET_LEFT + UI_SCALE,
        r.height == UI_SCALE,
        r.align_left,
{
    let coloured = String::from_str("^3").concat(message.as_str());
    let text = escape_text(coloured.as_str());
    ButtonSpec {
        click_id: PREVIEW_ID,
        text,
        top: UI_OFFSET_TOP,
        left: UI_OFFSET_LEFT + UI_SCALE,
        width: msg_to_btn_width(message),
        height: UI_SCALE,
        align_left: true,
    }
}

/// The button that shows the active channel, under the state.
pub fn get_channel_btn(channel: ChatChannel) -> (r: ButtonSpec)
    ensures
        r.text@ == escaped(channel.display@),
        r.width == width_for(byte_count(stripped(channel.display@)) as nat),
        r.click_id == CHANNEL_ID,
        r.top == UI_OFFSET_TOP + UI_SCALE,
        r.left == UI_OFFSET_LEFT,
        r.height == UI_SCALE,
        r.align_left,
{
    let text = escape_text(channel.display.as_str());
    ButtonSpec {
        click_id: CHANNEL_ID,
        text,
        top: UI_OFFSET_TOP + UI_SCALE,
        left: UI_OFFSET_LEFT,
        width: msg_to_btn_width(channel.display),
        height: UI_SCALE,
        align_left: true,
    }
}

} // verus!
