//! Event notices for the thermal printer: each device event becomes a
//! fixed list of printer instructions. Posting the list is the caller's
//! I/O; only the content is decided here.
use vstd::prelude::*;

verus! {

use vstd::string::*;

/// Underline styling of printed text.
#[derive(Debug, Clone, Copy, PartialEq, Eq, Structural)]
pub enum UnderlineMode {
    Off,
    Single,
    Double,
}

/// Horizontal alignment of printed text.
#[derive(Debug, Clone, Copy, PartialEq, Eq, Structural)]
pub enum JustifyMode {
    Left,
    Center,
    Right,
}

/// One instruction of a printer job.
#[derive(Clone, Debug, PartialEq, Eq)]
pub enum PrinterInstruction {
    Text(String),
    Image(String),
    Reverse(bool),
    Underline(UnderlineMode),
    Justify(JustifyMode),
    Strike(bool),
    Bold(bool),
    Italic(bool),
    PrintCut,
}

/// A whole printer job, run top to bottom.
pub type PrinterMessage = Vec<PrinterInstruction>;

/// A device event worth printing a notice for.
#[derive(Debug, Clone, Copy, PartialEq, Eq, Structural)]
pub enum PrinterEvent {
    NewBolt(u8),
    NewZap(u8),
    Zero,
    ButtonPressed,
}

/// One lowercase hexadecimal digit, as text.
pub open spec fn spec_hex_digit(d: u8) -> Seq<char> {
    if d == 0 {
        "0"@
    } else if d == 1 {
        "1"@
    } else if d == 2 {
        "2"@
    } else if d == 3 {
        "3"@
    } else if d == 4 {
        "4"@
    } else if d == 5 {
        "5"@
    } else if d == 6 {
        "6"@
    } else if d == 7 {
        "7"@
    } else if d == 8 {
        "8"@
    } else if d == 9 {
        "9"@
    } else if d == 10 {
        "a"@
    } else if d == 11 {
        "b"@
    } else if d == 12 {
        "c"@
    } else if d == 13 {
        "d"@
    } else if d == 14 {
        "e"@
    } else {
        "f"@
    }
}

fn hex_digit_str(d: u8) -> (r: &'static str)
    requires
        d < 16,
    ensures
        r@ == spec_hex_digit(d),
{
    if d == 0 {
        "0"
    } else if d == 1 {
        "1"
    } else if d == 2 {
        "2"
    } else if d == 3 {
        "3"
    } else if d == 4 {
        "4"
    } else if d == 5 {
        "5"
    } else if d == 6 {
        "6"
    } else if d == 7 {
        "7"
    } else if d == 8 {
        "8"
    } else if d == 9 {
        "9"
    } else if d == 10 {
        "a"
    } else if d == 11 {
        "b"
    } else if d == 12 {
        "c"
    } else if d == 13 {
        "d"
    } else if d == 14 {
        "e"
    } else {
        "f"
    }
}

/// A byte in lowercase hexadecimal without a leading zero, as the notices
/// print counters.
pub open spec fn spec_hex_u8(b: u8) -> Seq<char> {
    if b < 16 {
        spec_hex_digit(b)
    } else {
        spec_hex_digit(b / 16) + spec_hex_digit(b % 16)
    }
}

fn append_hex_u8(text: &mut String, b: u8)
    ensures
        final(text)@ == old(text)@ + spec_hex_u8(b),
{
    if b < 16 {
        text.append(hex_digit_str(b));
    } else {
        text.append(hex_digit_str(b / 16));
        text.append(hex_digit_str(b % 16));
    }
}

/// The exact job owed for each event.
pub open spec fn spec_message(e: PrinterEvent, msg: Seq<PrinterInstruction>) -> bool {
    match e {
        PrinterEvent::Zero => {
            &&& msg.len() == 4
            &&& msg[0] == PrinterInstruction::Justify(JustifyMode::Center)
            &&& msg[1] == PrinterInstruction::Bold(true)
            &&& (msg[2] matches PrinterInstruction::Text(s) && s@ == "A NEW DAY DAWNS"@)
            &&& msg[3] == PrinterInstruction::PrintCut
        },
        PrinterEvent::NewBolt(b) => {
            &&& msg.len() == 2
            &&& (msg[0] matches PrinterInstruction::Text(s) && s@
                == "Lightning strikes! It is now bolt "@ + spec_hex_u8(b))
            &&& msg[1] == PrinterInstruction::PrintCut
        },
        PrinterEvent::NewZap(z) => {
            &&& msg.len() == 2
            &&& (msg[0] matches PrinterInstruction::Text(s) && s@
                == "Did you just lick a 9V battery? It is now zap "@ + spec_hex_u8(z))
            &&& msg[1] == PrinterInstruction::PrintCut
        },
        PrinterEvent::ButtonPressed => {
            &&& msg.len() == 4
            &&& msg[0] == PrinterInstruction::Justify(JustifyMode::Center)
            &&& msg[1] == PrinterInstruction::Bold(true)
            &&& (msg[2] matches PrinterInstruction::Text(s) && s@
                == "SOMEONE JUST PRESSED THE SECRET BUTTON!"@)
            &&& msg[3] == PrinterInstruction::PrintCut
        },
    }
}

impl PrinterEvent {
    /// The printer job announcing this event.
    pub fn message(&self) -> (r: PrinterMessage)
        ensures
            spec_message(*self, r@),
    {
        let mut msg: Vec<PrinterInstruction> = Vec::new();
        match self {
            PrinterEvent::Zero => {
                msg.push(PrinterInstruction::Justify(JustifyMode::Center));
                msg.push(PrinterInstruction::Bold(true));
                msg.push(PrinterInstruction::Text(String::from_str("A NEW DAY DAWNS")));
                msg.push(PrinterInstruction::PrintCut);
            },
            PrinterEvent::NewBolt(b) => {
                let mut text = String::from_str("Lightning strikes! It is now bolt ");
                append_hex_u8(&mut text, *b);
                msg.push(PrinterInstruction::Text(text));
                msg.push(PrinterInstruction::PrintCut);
            },
            PrinterEvent::NewZap(z) => {
                let mut text = String::from_str("Did you just lick a 9V battery? It is now zap ");
                append_hex_u8(&mut text, *z);
                msg.push(PrinterInstruction::Text(text));
                msg.push(PrinterInstruction::PrintCut);
            },
            PrinterEvent::ButtonPressed => {
                msg.push(PrinterInstruction::Justify(JustifyMode::Center));
                msg.push(PrinterInstruction::Bold(true));
                msg.push(
                    PrinterInstruction::Text(
                        String::from_str("SOMEONE JUST PRESSED THE SECRET BUTTON!"),
                    ),
                );
                msg.push(PrinterInstruction::PrintCut);
            },
        }
        msg
    }
}

} // verus!
