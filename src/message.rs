use vstd::prelude::*;

verus! {

/// Red, green and blue parts of the accent colour given to relayed messages.
pub const ACCENT_RED: u8 = 124;

pub const ACCENT_GREEN: u8 = 68;

pub const ACCENT_BLUE: u8 = 12;

/// A structured chat message, ready for delivery.
///
/// The delivery side stamps it with the time of sending.
#[derive(Debug, Clone, PartialEq, Eq)]
pub struct OutboundMessage {
    pub title: String,
    pub body: String,
    pub footer: Option<String>,
    /// A colour as `0xRRGGBB`.
    pub colour: u32,
}

/// What an outbound message holds, as mathematical values.
pub struct MessageView {
    pub title: Seq<char>,
    pub body: Seq<char>,
    pub footer: Option<Seq<char>>,
    pub colour: u32,
}

impl View for OutboundMessage {
    type V = MessageView;

    open spec fn view(&self) -> MessageView {
        MessageView {
            title: self.title@,
            body: self.body@,
            footer: match self.footer {
                Some(f) => Some(f@),
                None => None,
            },
            colour: self.colour,
        }
    }
}

/// The view of an optional message.
pub open spec fn message_view(m: Option<OutboundMessage>) -> Option<MessageView> {
    match m {
        Some(x) => Some(x@),
        None => None,
    }
}

/// The colour `0xRRGGBB` made of three parts.
pub open spec fn colour_of(red: u8, green: u8, blue: u8) -> u32 {
    (red as int * 65536 + green as int * 256 + blue as int) as u32
}

/// The accent colour of relayed messages.
pub open spec fn accent_colour() -> u32 {
    colour_of(ACCENT_RED, ACCENT_GREEN, ACCENT_BLUE)
}

/// Packs red, green and blue into one `0xRRGGBB` value.
pub fn rgb(red: u8, green: u8, blue: u8) -> (c: u32)
    ensures
        c == colour_of(red, green, blue),
        c as int == red as int * 65536 + green as int * 256 + blue as int,
{
    red as u32 * 65536 + green as u32 * 256 + blue as u32
}

} // verus!
