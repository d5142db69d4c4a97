//! Driver of the character OLED controller: what it writes to set the
//! display up, and the commands and glyph columns that print a line of text.

use vstd::prelude::*;
use vstd::string::StringSliceAdditionalSpecFns;

use crate::i2c::{Command, WriteRequest};

verus! {

/// The control byte that marks a command.
pub const COMMAND_MODE: u8 = 0x80;

/// The control byte that marks display data.
pub const DATA_MODE: u8 = 0x40;

const CHARGE_PUMP_SETTING: u8 = 0x8d;

const CHARGE_PUMP_ENABLE: u8 = 0x14;

const DISPLAY_OFF: u8 = 0xAE;

const DISPLAY_ON: u8 = 0xAF;

/// The first printable character, and how many follow it in a font.
pub const FIRST_GLYPH: u8 = 0x20;

pub const GLYPH_COUNT: u8 = 0x60;

/// The columns of one glyph.
pub const GLYPH_WIDTH: usize = 5;

pub open spec fn command_to(slave: u8, command: u8) -> Command {
    Command::Write(WriteRequest { slave, register: COMMAND_MODE, value: command })
}

pub open spec fn data_to(slave: u8, data: u8) -> Command {
    Command::Write(WriteRequest { slave, register: DATA_MODE, value: data })
}

/// The set-up commands: charge pump on, display off, scan direction, offset,
/// start line, segment remap, pin configuration, regulator level, normal
/// display, display on.
pub open spec fn init_bytes() -> Seq<u8> {
    seq![
        0x8d, 0x14, 0xAE, 0xC0, 0xD3, 0x00, 0x40, 0xA0, 0x8D, 0x14, 0xDA, 0x02, 0xDB, 0x30, 0xA4,
        0xA6, 0xAF,
    ]
}

pub open spec fn printable(b: u8) -> bool {
    FIRST_GLYPH <= b < FIRST_GLYPH + GLYPH_COUNT
}

/// The data of one printable character: its five columns from `font`, then
/// one empty column.
pub open spec fn glyph_commands(slave: u8, font: Seq<u8>, b: u8) -> Seq<Command> {
    Seq::new(5, |c: int| data_to(slave, font[(b - FIRST_GLYPH) * 5 + c])).push(data_to(slave, 0))
}

/// The data of a text: the glyph of each printable character in order; the
/// others are skipped.
pub open spec fn text_commands(slave: u8, font: Seq<u8>, text: Seq<u8>) -> Seq<Command>
    decreases text.len(),
{
    if text.len() == 0 {
        seq![]
    } else {
        text_commands(slave, font, text.drop_last()) + if printable(text.last()) {
            glyph_commands(slave, font, text.last())
        } else {
            seq![]
        }
    }
}

/// The pixel column where character cell `x` starts.
pub open spec fn cell_column(x: u8) -> int {
    6 * x + 32
}

/// The whole of a `print`: the column address, low nibble then high, the
/// page, then the text.
pub open spec fn print_commands(slave: u8, x: u8, y: u8, text: Seq<u8>, font: Seq<u8>) -> Seq<
    Command,
> {
    seq![
        command_to(slave, (cell_column(x) % 16) as u8),
        command_to(slave, (0x10 + cell_column(x) / 16) as u8),
        command_to(slave, (0xB0 + y) as u8),
    ] + text_commands(slave, font, text)
}

/// The display controller at the bus address it holds.
pub struct SSD1306(pub u8);

impl SSD1306 {
    /// The commands that set the display up and switch it on.
    pub fn init(&self) -> (r: Vec<Command>)
        ensures
            r@ == init_bytes().map_values(|c: u8| command_to(self.0, c)),
    {
        let bytes: [u8; 17] = [
            CHARGE_PUMP_SETTING,
            CHARGE_PUMP_ENABLE,
            DISPLAY_OFF,
            0xC0,
            0xD3,
            0x00,
            0x40,
            0xA0,
            0x8D,
            0x14,
            0xDA,
            0x02,
            0xDB,
            0x30,
            0xA4,
            0xA6,
            DISPLAY_ON,
        ];
        assert(bytes@ =~= init_bytes());
        let mut r: Vec<Command> = Vec::new();
        let mut i: usize = 0;
        while i < 17
            invariant
                i <= 17,
                bytes@ == init_bytes(),
                r@ == bytes@.take(i as int).map_values(|c: u8| command_to(self.0, c)),
            decreases 17 - i,
        {
            r.push(self.send_command(bytes[i]));
            i = i + 1;
            assert(r@ =~= bytes@.take(i as int).map_values(|c: u8| command_to(self.0, c)));
        }
        assert(bytes@.take(17) =~= bytes@);
        r
    }

    pub fn send_command(&self, command: u8) -> (r: Command)
        ensures
            r == command_to(self.0, command),
    {
        Command::Write(WriteRequest { slave: self.0, register: COMMAND_MODE, value: command })
    }

    pub fn send_data(&self, data: u8) -> (r: Command)
        ensures
            r == data_to(self.0, data),
    {
        Command::Write(WriteRequest { slave: self.0, register: DATA_MODE, value: data })
    }

    /// Prints `text` from character cell `x` of text line `y` on, with the
    /// glyphs of `font` (five columns for each of the printable characters,
    /// from the first on).
    pub fn print(&self, x: u8, y: u8, text: &str, font: &[u8]) -> (r: Vec<Command>)
        requires
            x <= 37,
            y <= 79,
            font@.len() >= GLYPH_COUNT * GLYPH_WIDTH,
        ensures
            r@ == print_commands(self.0, x, y, text.spec_bytes(), font@),
    {
        let column: u8 = 6 * x + 32;
        assert(column & 0x0f == column % 16) by (bit_vector);
        assert((column >> 4u8) & 0x0f == column / 16) by (bit_vector);
        let mut r: Vec<Command> = Vec::new();
        r.push(self.send_command(0x00 + (column & 0x0f)));
        r.push(self.send_command(0x10 + ((column >> 4) & 0x0f)));
        r.push(self.send_command(0xB0 + y));
        let ghost head = r@;
        let bytes = text.as_bytes();
        let mut i: usize = 0;
        while i < bytes.len()
            invariant
                i <= bytes@.len(),
                bytes@ == text.spec_bytes(),
                font@.len() >= GLYPH_COUNT * GLYPH_WIDTH,
                head == seq![
                    command_to(self.0, (cell_column(x) % 16) as u8),
                    command_to(self.0, (0x10 + cell_column(x) / 16) as u8),
                    command_to(self.0, (0xB0 + y) as u8),
                ],
                r@ == head + text_commands(self.0, font@, bytes@.take(i as int)),
            decreases bytes@.len() - i,
        {
            let byte = bytes[i];
            let ghost before = r@;
            if byte >= FIRST_GLYPH && byte < FIRST_GLYPH + GLYPH_COUNT {
                let base: usize = (byte - FIRST_GLYPH) as usize * GLYPH_WIDTH;
                let mut c: usize = 0;
                while c < GLYPH_WIDTH
                    invariant
                        c <= GLYPH_WIDTH,
                        base == (byte - FIRST_GLYPH) * 5,
                        base + GLYPH_WIDTH <= font@.len(),
                        r@ == before + Seq::new(
                            c as nat,
                            |k: int| data_to(self.0, font@[(byte - FIRST_GLYPH) * 5 + k]),
                        ),
                    decreases GLYPH_WIDTH - c,
                {
                    r.push(self.send_data(font[base + c]));
                    c = c + 1;
                    assert(r@ =~= before + Seq::new(
                        c as nat,
                        |k: int| data_to(self.0, font@[(byte - FIRST_GLYPH) * 5 + k]),
                    ));
                }
                // one empty column between characters
                r.push(self.send_data(0x00));
                assert(r@ =~= before + glyph_commands(self.0, font@, byte));
            }
            assert(bytes@.take(i + 1).drop_last() =~= bytes@.take(i as int));
            i = i + 1;
            assert(r@ =~= head + text_commands(self.0, font@, bytes@.take(i as int)));
        }
        assert(bytes@.take(bytes@.len() as int) =~= bytes@);
        r
    }
}

} // verus!
