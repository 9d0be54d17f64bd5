//! What the web front end answers: button names, and the shapes of its
//! replies (status, a frame as base64 text, success or failure).

use crate::input::Button;
use crate::ppu::{SCREEN_HEIGHT, SCREEN_WIDTH};
use crate::state::{EmulatorState, EmulatorStatus};
use crate::text::{all_ascii, ascii_lower, lowercase_text, str_equal, to_lower};
use vstd::prelude::*;

verus! {

/// The button a lower-case name stands for.
pub open spec fn button_named(name: Seq<char>) -> Option<Button> {
    if name == "a"@ {
        Some(Button::A)
    } else if name == "b"@ {
        Some(Button::B)
    } else if name == "start"@ {
        Some(Button::Start)
    } else if name == "select"@ {
        Some(Button::Select)
    } else if name == "up"@ {
        Some(Button::Up)
    } else if name == "down"@ {
        Some(Button::Down)
    } else if name == "left"@ {
        Some(Button::Left)
    } else if name == "right"@ {
        Some(Button::Right)
    } else {
        None
    }
}

/// The button named `name`, in any case: a, b, start, select, up, down,
/// left or right.
pub fn parse_button(name: &str) -> (r: Option<Button>)
    ensures
        r == button_named(lowercase_text(name@)),
        all_ascii(name@) ==> r == button_named(name@.map_values(|c: char| ascii_lower(c))),
{
    let lower = to_lower(name);
    let s = lower.as_str();
    if str_equal(s, "a") {
        Some(Button::A)
    } else if str_equal(s, "b") {
        Some(Button::B)
    } else if str_equal(s, "start") {
        Some(Button::Start)
    } else if str_equal(s, "select") {
        Some(Button::Select)
    } else if str_equal(s, "up") {
        Some(Button::Up)
    } else if str_equal(s, "down") {
        Some(Button::Down)
    } else if str_equal(s, "left") {
        Some(Button::Left)
    } else if str_equal(s, "right") {
        Some(Button::Right)
    } else {
        None
    }
}

/// The name the status is reported under.
pub fn status_name(status: &EmulatorStatus) -> (r: &'static str)
    ensures
        r@ == match *status {
            EmulatorStatus::NoRom => "no_rom"@,
            EmulatorStatus::Ready => "ready"@,
            EmulatorStatus::Running => "running"@,
        },
{
    match status {
        EmulatorStatus::NoRom => "no_rom",
        EmulatorStatus::Ready => "ready",
        EmulatorStatus::Running => "running",
    }
}

/// The character of the standard base64 alphabet for a 6-bit value:
/// A-Z, a-z, 0-9, '+', '/'.
pub open spec fn base64_char(v: int) -> char {
    if v < 26 {
        (65 + v) as char
    } else if v < 52 {
        (97 + v - 26) as char
    } else if v < 62 {
        (48 + v - 52) as char
    } else if v == 62 {
        '+'
    } else {
        '/'
    }
}

/// The standard padded base64 text of a byte sequence: each group of three
/// bytes becomes four characters of six bits each; a last group of one or
/// two bytes is padded with zero bits and '=' to four characters.
pub open spec fn base64_spec(b: Seq<u8>) -> Seq<char>
    decreases b.len(),
{
    if b.len() == 0 {
        Seq::empty()
    } else if b.len() == 1 {
        seq![base64_char(b[0] as int / 4), base64_char((b[0] % 4) * 16), '=', '=']
    } else if b.len() == 2 {
        seq![base64_char(b[0] as int / 4), base64_char((b[0] % 4) * 16 + b[1] / 16), base64_char((b[1] % 16) * 4), '=']
    } else {
        seq![
            base64_char(b[0] as int / 4),
            base64_char((b[0] % 4) * 16 + b[1] / 16),
            base64_char((b[1] % 16) * 4 + b[2] / 64),
            base64_char(b[2] as int % 64),
        ] + base64_spec(b.subrange(3, b.len() as int))
    }
}

/// Base64 text has four characters per started group of three bytes.
pub proof fn lemma_base64_len(b: Seq<u8>)
    ensures
        base64_spec(b).len() == (b.len() + 2) / 3 * 4,
    decreases b.len(),
{
    if b.len() > 2 {
        lemma_base64_len(b.subrange(3, b.len() as int));
    }
}

/// `base64::engine::general_purpose::STANDARD.encode`: the bytes in base64
/// with the standard alphabet and `=` padding. The crate panics where the
/// encoded length (`encoded_len`) overflows `usize`, which `requires` rules
/// out.
#[verifier::external_body]
fn base64_encode(bytes: &[u8]) -> (r: String)
    requires
        bytes@.len() / 3 * 4 + 4 <= usize::MAX,
    ensures
        r@ == base64_spec(bytes@),
{
    base64::Engine::encode(&base64::engine::general_purpose::STANDARD, bytes)
}

/// A success or failure, with a message.
pub struct OkResponse {
    pub ok: bool,
    pub message: Option<String>,
}

impl OkResponse {
    /// A success reporting `message`.
    pub fn success(message: String) -> (r: Self)
        ensures
            r.ok,
            r.message == Some(message),
    {
        OkResponse { ok: true, message: Some(message) }
    }

    /// A failure reporting `message`.
    pub fn failure(message: String) -> (r: Self)
        ensures
            !r.ok,
            r.message == Some(message),
    {
        OkResponse { ok: false, message: Some(message) }
    }
}

/// A frame as text: the RGB24 framebuffer in base64, with its size in
/// pixels.
pub struct FrameResponse {
    pub framebuffer: String,
    pub width: usize,
    pub height: usize,
}

impl FrameResponse {
    /// The reply for a frame's RGB24 bytes.
    pub fn new(frame: &[u8]) -> (r: Self)
        requires
            frame@.len() / 3 * 4 + 4 <= usize::MAX,
        ensures
            r.framebuffer@ == base64_spec(frame@),
            r.framebuffer@.len() == (frame@.len() + 2) / 3 * 4,
            r.width == SCREEN_WIDTH,
            r.height == SCREEN_HEIGHT,
    {
        proof {
            lemma_base64_len(frame@);
        }
        FrameResponse { framebuffer: base64_encode(frame), width: SCREEN_WIDTH, height: SCREEN_HEIGHT }
    }
}

/// The emulator's status and whether a game is loaded.
pub struct StatusResponse {
    pub status: String,
    pub has_rom: bool,
}

impl StatusResponse {
    /// The status reply for `state`.
    pub fn of(state: &EmulatorState) -> (r: Self)
        ensures
            r.status@ == match state.status {
                EmulatorStatus::NoRom => "no_rom"@,
                EmulatorStatus::Ready => "ready"@,
                EmulatorStatus::Running => "running"@,
            },
            r.has_rom == state.cpu is Some,
    {
        StatusResponse { status: String::from_str(status_name(&state.status)), has_rom: state.cpu.is_some() }
    }
}

} // verus!
