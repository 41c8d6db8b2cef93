//! The video chip as far as it is there: its registers are kept, the
//! background colour can be set, and every write is recorded.

use vstd::prelude::*;
use crate::data_types::{Byte, Word};

verus! {

/// How many copies of a player are drawn, and how wide.
#[derive(Copy, Clone, Debug, PartialEq, Eq, Structural)]
pub enum PlayerSize {
    OneCopy,
    TwoCopiesClose,
    TwoCopiesMedium,
    ThreeCopiesClose,
    TwoCopiesWide,
    DoubleSizePlayer,
    ThreeCopiesMedium,
    QuadSizedPlayer,
}

/// The collisions that the chip has latched.
#[derive(Copy, Clone, Debug, PartialEq, Eq, Structural)]
pub struct Collisions {}

/// The hues of the palette.
#[derive(Clone, Copy, Debug, PartialEq, Eq, Structural)]
pub enum Color {
    White,
    Gold,
    Orange,
    BrightOrange,
    Pink,
    Purple,
    PurpleBlue,
    Blue,
    Blue2,
    LightBlue,
    Torquoise,
    GreenBlue,
    Green,
    YellowGreen,
    OrangeGreen,
    LightOrange,
}

impl Color {
    /// The number of a hue: its place in the palette, 0 to 15.
    pub open spec fn number(self) -> Byte {
        match self {
            Color::White => 0x0,
            Color::Gold => 0x1,
            Color::Orange => 0x2,
            Color::BrightOrange => 0x3,
            Color::Pink => 0x4,
            Color::Purple => 0x5,
            Color::PurpleBlue => 0x6,
            Color::Blue => 0x7,
            Color::Blue2 => 0x8,
            Color::LightBlue => 0x9,
            Color::Torquoise => 0xa,
            Color::GreenBlue => 0xb,
            Color::Green => 0xc,
            Color::YellowGreen => 0xd,
            Color::OrangeGreen => 0xe,
            Color::LightOrange => 0xf,
        }
    }

    /// The hue with a number, where the number is one of a hue.
    pub fn from_u8(value: Byte) -> (hue: Option<Color>)
        ensures
            value <= 0xf <==> hue is Some,
            hue is Some ==> hue->Some_0.number() == value,
    {
        match value {
            0x0 => Some(Color::White),
            0x1 => Some(Color::Gold),
            0x2 => Some(Color::Orange),
            0x3 => Some(Color::BrightOrange),
            0x4 => Some(Color::Pink),
            0x5 => Some(Color::Purple),
            0x6 => Some(Color::PurpleBlue),
            0x7 => Some(Color::Blue),
            0x8 => Some(Color::Blue2),
            0x9 => Some(Color::LightBlue),
            0xa => Some(Color::Torquoise),
            0xb => Some(Color::GreenBlue),
            0xc => Some(Color::Green),
            0xd => Some(Color::YellowGreen),
            0xe => Some(Color::OrangeGreen),
            0xf => Some(Color::LightOrange),
            _ => None,
        }
    }
}

/// A colour on the screen: red, green and blue.
#[derive(Clone, Copy, Debug, PartialEq, Eq, Structural)]
pub struct ElementColor(pub u8, pub u8, pub u8);

/// The NTSC palette as far as it is known: the colour that a colour
/// register value stands for. The lowest bit of the value does not count.
pub open spec fn ntsc_color(value: Byte) -> Option<ElementColor> {
    match value {
        0x00 | 0x01 => Some(ElementColor(0x00, 0x00, 0x00)),
        0x10 | 0x11 => Some(ElementColor(0x44, 0x44, 0x00)),
        0x20 | 0x21 => Some(ElementColor(0x70, 0x28, 0x00)),
        0x30 | 0x31 => Some(ElementColor(0x84, 0x18, 0x00)),
        0x40 | 0x41 => Some(ElementColor(0x88, 0x00, 0x00)),
        0x50 | 0x51 => Some(ElementColor(0x78, 0x00, 0x5C)),
        0x60 | 0x61 => Some(ElementColor(0x48, 0x00, 0x78)),
        0x70 | 0x71 => Some(ElementColor(0x14, 0x00, 0x84)),
        0x80 | 0x81 => Some(ElementColor(0x00, 0x00, 0x88)),
        0x90 | 0x91 => Some(ElementColor(0x00, 0x18, 0x7C)),
        0x02 | 0x03 => Some(ElementColor(0x40, 0x40, 0x40)),
        0x12 | 0x13 => Some(ElementColor(0x64, 0x64, 0x10)),
        0x22 | 0x23 => Some(ElementColor(0x84, 0x44, 0x14)),
        0x32 | 0x33 => Some(ElementColor(0x98, 0x34, 0x18)),
        0x42 | 0x43 => Some(ElementColor(0x9C, 0x20, 0x20)),
        0x52 | 0x53 => Some(ElementColor(0x8C, 0x20, 0x74)),
        0x62 | 0x63 => Some(ElementColor(0x60, 0x20, 0x90)),
        0x72 | 0x73 => Some(ElementColor(0x30, 0x20, 0x98)),
        0x82 | 0x83 => Some(ElementColor(0x1C, 0x20, 0x9C)),
        0x92 | 0x93 => Some(ElementColor(0x1C, 0x38, 0x90)),
        0x04 | 0x05 => Some(ElementColor(0x6C, 0x6C, 0x6C)),
        0x14 | 0x15 => Some(ElementColor(0x84, 0x84, 0x24)),
        0x24 | 0x25 => Some(ElementColor(0x98, 0x5C, 0x28)),
        0x34 | 0x35 => Some(ElementColor(0xAC, 0x50, 0x30)),
        0x44 | 0x45 => Some(ElementColor(0xB0, 0x3C, 0x3C)),
        0x54 | 0x55 => Some(ElementColor(0xA0, 0x3C, 0x88)),
        0x64 | 0x65 => Some(ElementColor(0x78, 0x3C, 0xA4)),
        0x74 | 0x75 => Some(ElementColor(0x4C, 0x3C, 0xAC)),
        0x84 | 0x85 => Some(ElementColor(0x38, 0x40, 0xB0)),
        0x94 | 0x95 => Some(ElementColor(0x38, 0x54, 0xA8)),
        0x06 | 0x07 => Some(ElementColor(0x90, 0x90, 0x90)),
        0x16 | 0x17 => Some(ElementColor(0xA0, 0xA0, 0x34)),
        0x26 | 0x27 => Some(ElementColor(0xAC, 0x78, 0x3C)),
        0x36 | 0x37 => Some(ElementColor(0xC0, 0x68, 0x48)),
        0x46 | 0x47 => Some(ElementColor(0xC0, 0x58, 0x58)),
        0x56 | 0x57 => Some(ElementColor(0xB0, 0x58, 0x9C)),
        0x66 | 0x67 => Some(ElementColor(0x8C, 0x58, 0xB8)),
        0x76 | 0x77 => Some(ElementColor(0x68, 0x58, 0xC0)),
        0x86 | 0x87 => Some(ElementColor(0x50, 0x5C, 0xC0)),
        0x96 | 0x97 => Some(ElementColor(0x50, 0x70, 0xBC)),
        0x08 | 0x09 => Some(ElementColor(0xB0, 0xB0, 0xB0)),
        0x18 | 0x19 => Some(ElementColor(0xB8, 0xB8, 0x40)),
        0x28 | 0x29 => Some(ElementColor(0xBC, 0x8C, 0x4C)),
        0x38 | 0x39 => Some(ElementColor(0xD0, 0x80, 0x5C)),
        0x48 | 0x49 => Some(ElementColor(0xD0, 0x70, 0x70)),
        0x58 | 0x59 => Some(ElementColor(0xC0, 0x70, 0xB0)),
        0x68 | 0x69 => Some(ElementColor(0xA0, 0x70, 0xCC)),
        0x78 | 0x79 => Some(ElementColor(0x7C, 0x70, 0xD0)),
        0x88 | 0x89 => Some(ElementColor(0x68, 0x74, 0xD0)),
        0x98 | 0x99 => Some(ElementColor(0x68, 0x88, 0xCC)),
        _ => None,
    }
}

impl ElementColor {
    /// Looks a colour register value up in the palette.
    pub fn lookup(value: Byte) -> (color: Option<ElementColor>)
        ensures
            color == ntsc_color(value),
    {
        match value {
            0x00 | 0x01 => Some(ElementColor(0x00, 0x00, 0x00)),
            0x10 | 0x11 => Some(ElementColor(0x44, 0x44, 0x00)),
            0x20 | 0x21 => Some(ElementColor(0x70, 0x28, 0x00)),
            0x30 | 0x31 => Some(ElementColor(0x84, 0x18, 0x00)),
            0x40 | 0x41 => Some(ElementColor(0x88, 0x00, 0x00)),
            0x50 | 0x51 => Some(ElementColor(0x78, 0x00, 0x5C)),
            0x60 | 0x61 => Some(ElementColor(0x48, 0x00, 0x78)),
            0x70 | 0x71 => Some(ElementColor(0x14, 0x00, 0x84)),
            0x80 | 0x81 => Some(ElementColor(0x00, 0x00, 0x88)),
            0x90 | 0x91 => Some(ElementColor(0x00, 0x18, 0x7C)),
            0x02 | 0x03 => Some(ElementColor(0x40, 0x40, 0x40)),
            0x12 | 0x13 => Some(ElementColor(0x64, 0x64, 0x10)),
            0x22 | 0x23 => Some(ElementColor(0x84, 0x44, 0x14)),
            0x32 | 0x33 => Some(ElementColor(0x98, 0x34, 0x18)),
            0x42 | 0x43 => Some(ElementColor(0x9C, 0x20, 0x20)),
            0x52 | 0x53 => Some(ElementColor(0x8C, 0x20, 0x74)),
            0x62 | 0x63 => Some(ElementColor(0x60, 0x20, 0x90)),
            0x72 | 0x73 => Some(ElementColor(0x30, 0x20, 0x98)),
            0x82 | 0x83 => Some(ElementColor(0x1C, 0x20, 0x9C)),
            0x92 | 0x93 => Some(ElementColor(0x1C, 0x38, 0x90)),
            0x04 | 0x05 => Some(ElementColor(0x6C, 0x6C, 0x6C)),
            0x14 | 0x15 => Some(ElementColor(0x84, 0x84, 0x24)),
            0x24 | 0x25 => Some(ElementColor(0x98, 0x5C, 0x28)),
            0x34 | 0x35 => Some(ElementColor(0xAC, 0x50, 0x30)),
            0x44 | 0x45 => Some(ElementColor(0xB0, 0x3C, 0x3C)),
            0x54 | 0x55 => Some(ElementColor(0xA0, 0x3C, 0x88)),
            0x64 | 0x65 => Some(ElementColor(0x78, 0x3C, 0xA4)),
            0x74 | 0x75 => Some(ElementColor(0x4C, 0x3C, 0xAC)),
            0x84 | 0x85 => Some(ElementColor(0x38, 0x40, 0xB0)),
            0x94 | 0x95 => Some(ElementColor(0x38, 0x54, 0xA8)),
            0x06 | 0x07 => Some(ElementColor(0x90, 0x90, 0x90)),
            0x16 | 0x17 => Some(ElementColor(0xA0, 0xA0, 0x34)),
            0x26 | 0x27 => Some(ElementColor(0xAC, 0x78, 0x3C)),
            0x36 | 0x37 => Some(ElementColor(0xC0, 0x68, 0x48)),
            0x46 | 0x47 => Some(ElementColor(0xC0, 0x58, 0x58)),
            0x56 | 0x57 => Some(ElementColor(0xB0, 0x58, 0x9C)),
            0x66 | 0x67 => Some(ElementColor(0x8C, 0x58, 0xB8)),
            0x76 | 0x77 => Some(ElementColor(0x68, 0x58, 0xC0)),
            0x86 | 0x87 => Some(ElementColor(0x50, 0x5C, 0xC0)),
            0x96 | 0x97 => Some(ElementColor(0x50, 0x70, 0xBC)),
            0x08 | 0x09 => Some(ElementColor(0xB0, 0xB0, 0xB0)),
            0x18 | 0x19 => Some(ElementColor(0xB8, 0xB8, 0x40)),
            0x28 | 0x29 => Some(ElementColor(0xBC, 0x8C, 0x4C)),
            0x38 | 0x39 => Some(ElementColor(0xD0, 0x80, 0x5C)),
            0x48 | 0x49 => Some(ElementColor(0xD0, 0x70, 0x70)),
            0x58 | 0x59 => Some(ElementColor(0xC0, 0x70, 0xB0)),
            0x68 | 0x69 => Some(ElementColor(0xA0, 0x70, 0xCC)),
            0x78 | 0x79 => Some(ElementColor(0x7C, 0x70, 0xD0)),
            0x88 | 0x89 => Some(ElementColor(0x68, 0x74, 0xD0)),
            0x98 | 0x99 => Some(ElementColor(0x68, 0x88, 0xCC)),
            _ => None,
        }
    }

    /// The colour that a colour register value stands for; the value must
    /// be one that the palette knows.
    pub fn from(value: Byte) -> (color: ElementColor)
        requires
            ntsc_color(value) is Some,
        ensures
            Some(color) == ntsc_color(value),
    {
        ElementColor::lookup(value).unwrap()
    }
}

/// The registers of the chip.
#[derive(Clone, Copy)]
pub struct TIAState {
    pub vblank: bool,
    pub vsync: bool,
    pub playfield_reflection: bool,
    pub plafield_color: bool,
    pub ball_above_missles: bool,
    pub ball_size: u8,
    pub playfield: [bool; 20],
    pub missile_0_size: u8,
    pub missile_1_size: u8,
    pub player_0_size: PlayerSize,
    pub player_1_size: PlayerSize,
    pub player_0: u8,
    pub player_1: u8,
    pub missile_0: bool,
    pub missile_1: bool,
    pub ball: bool,
    pub reflect_player_0: bool,
    pub reflect_player_1: bool,
    pub player_0_motion: i8,
    pub player_1_motion: i8,
    pub missile_0_motion: i8,
    pub missile_1_motion: i8,
    pub ball_motion: i8,
    pub collisions: Collisions,
    pub up0_color: ElementColor,
    pub up1_color: ElementColor,
    pub pf_color: ElementColor,
    pub bk_color: ElementColor,
}

impl TIAState {
    /// The registers at power-on: everything off, zero, and black.
    pub open spec fn blank(self) -> bool {
        &&& !self.vblank && !self.vsync && !self.playfield_reflection && !self.plafield_color
            && !self.ball_above_missles
        &&& self.ball_size == 0 && self.missile_0_size == 0 && self.missile_1_size == 0
        &&& forall|i: int| 0 <= i < 20 ==> !self.playfield[i]
        &&& self.player_0_size == PlayerSize::OneCopy && self.player_1_size == PlayerSize::OneCopy
        &&& self.player_0 == 0 && self.player_1 == 0
        &&& !self.missile_0 && !self.missile_1 && !self.ball && !self.reflect_player_0
            && !self.reflect_player_1
        &&& self.player_0_motion == 0 && self.player_1_motion == 0 && self.missile_0_motion == 0
            && self.missile_1_motion == 0 && self.ball_motion == 0
        &&& self.up0_color == ElementColor(0, 0, 0) && self.up1_color == ElementColor(0, 0, 0)
        &&& self.pf_color == ElementColor(0, 0, 0) && self.bk_color == ElementColor(0, 0, 0)
    }
}

impl Default for TIAState {
    fn default() -> (state: Self)
        ensures
            state.blank(),
    {
        TIAState {
            vblank: false,
            vsync: false,
            playfield_reflection: false,
            plafield_color: false,
            ball_above_missles: false,
            ball_size: 0,
            playfield: [false;20],
            missile_0_size: 0,
            missile_1_size: 0,
            player_0_size: PlayerSize::OneCopy,
            player_1_size: PlayerSize::OneCopy,
            player_0: 0,
            player_1: 0,
            missile_0: false,
            missile_1: false,
            ball: false,
            reflect_player_0: false,
            reflect_player_1: false,
            player_0_motion: 0,
            player_1_motion: 0,
            missile_0_motion: 0,
            missile_1_motion: 0,
            ball_motion: 0,
            collisions: Collisions {  },
            up0_color: ElementColor(0, 0, 0),
            up1_color: ElementColor(0, 0, 0),
            pf_color: ElementColor(0, 0, 0),
            bk_color: ElementColor(0, 0, 0),
        }
    }
}

/// Scan lines of a frame, those of the vertical sync and blank included.
pub const SCANLINE_COUNT: usize = 262;

/// Visible colour clocks of a scan line.
pub const HOR_CLOCK_COUNT: usize = 160;

/// Colour clocks of the horizontal blank.
pub const HORIZONTAL_BLANK: u32 = 68;

/// Pixels of a frame.
pub const PIXEL_COUNT: usize = SCANLINE_COUNT * HOR_CLOCK_COUNT;

/// The chip.
pub struct Tia {
    pub current_state: TIAState,
    /// The registers after every write, each with the clock count at which
    /// it was made.
    pub previous_states: Vec<(u32, TIAState)>,
    pub current_clock_count: u32,
    pub current_scanline: u32,
    pub current_framebuffer: [ElementColor; 41920],
}

/// The low byte of the address names the background colour register.
pub open spec fn is_background_register(addr: Word) -> bool {
    addr & 0x00FF == 0x09
}

impl Tia {
    /// The registers after a write: a write to the background colour
    /// register sets the background colour, every other write changes
    /// nothing.
    pub open spec fn state_after_write(&self, addr: Word, data: Byte) -> TIAState {
        if is_background_register(addr) {
            TIAState { bk_color: ntsc_color(data)->Some_0, ..self.current_state }
        } else {
            self.current_state
        }
    }

    /// The chip takes the write: a background colour must be one that the
    /// palette knows.
    pub open spec fn writable_at(&self, addr: Word, data: Byte) -> bool {
        is_background_register(addr) ==> ntsc_color(data) is Some
    }

    /// The chip at power-on.
    pub fn new() -> (tia: Self)
        ensures
            tia.current_state.blank(),
            tia.previous_states@.len() == 0,
            tia.current_clock_count == 0,
            tia.current_scanline == 0,
            forall|i: int| 0 <= i < PIXEL_COUNT ==> tia.current_framebuffer[i] == ElementColor(0, 0, 0),
    {
        Self {
            current_state: Default::default(),
            previous_states: Vec::new(),
            current_clock_count: 0,
            current_scanline: 0,
            current_framebuffer: [ElementColor(0, 0, 0);41920],
        }
    }

    /// Clock ticks do nothing yet.
    pub fn tick_clock(&mut self, _clocks: u32)
        ensures
            *final(self) == *old(self),
    {
    }

    /// The position within the scan line.
    pub fn horizontal_pos(&self) -> (pos: u32)
        ensures
            pos == self.current_clock_count % 160,
    {
        self.current_clock_count % HOR_CLOCK_COUNT as u32
    }

    /// The beam is in the horizontal blank.
    pub fn is_hblank(&self) -> (blank: bool)
        ensures
            blank == (self.current_clock_count % 160 < HORIZONTAL_BLANK),
    {
        self.horizontal_pos() < HORIZONTAL_BLANK
    }

    /// The beam is in the vertical blank or sync.
    pub fn is_vblank(&self) -> (blank: bool)
        ensures
            blank == (self.current_state.vblank || self.current_state.vsync),
    {
        self.current_state.vblank || self.current_state.vsync
    }

    /// Nothing is drawn yet.
    pub fn render_current_clock(&mut self)
        ensures
            *final(self) == *old(self),
    {
    }

    /// Every read yields 0.
    pub fn read_byte(&self, _addr: Word) -> (data: Byte)
        ensures
            data == 0,
    {
        0
    }

    /// Writes a register, and records the registers as they are after it.
    pub fn write_byte(&mut self, addr: Word, data: Byte)
        requires
            old(self).writable_at(addr, data),
        ensures
            final(self).current_state == old(self).state_after_write(addr, data),
            final(self).previous_states@ == old(self).previous_states@.push(
                (old(self).current_clock_count, old(self).state_after_write(addr, data)),
            ),
            final(self).current_clock_count == old(self).current_clock_count,
            final(self).current_scanline == old(self).current_scanline,
            final(self).current_framebuffer == old(self).current_framebuffer,
    {
        let lower_bytes = addr & 0x00FF;
        match lower_bytes {
            0x09 => {
                self.current_state.bk_color = ElementColor::from(data);
            },
            _ => {},
        };

        self.previous_states.push((self.current_clock_count, self.current_state));
    }
}

/// The chip as the bus holds it.
pub struct WrappedTIA(pub Tia);

impl WrappedTIA {
    /// The chip at power-on.
    pub fn new() -> (tia: Self)
        ensures
            tia.0.current_state.blank(),
            tia.0.previous_states@.len() == 0,
            tia.0.current_clock_count == 0,
            tia.0.current_scanline == 0,
    {
        Self(Tia::new())
    }

    /// Every read yields 0.
    pub fn read_byte(&self, addr: Word) -> (data: Byte)
        ensures
            data == 0,
    {
        self.0.read_byte(addr)
    }

    /// Writes a register, and records the registers as they are after it.
    pub fn write_byte(&mut self, addr: Word, data: Byte)
        requires
            old(self).0.writable_at(addr, data),
        ensures
            final(self).0.current_state == old(self).0.state_after_write(addr, data),
            final(self).0.previous_states@ == old(self).0.previous_states@.push(
                (old(self).0.current_clock_count, old(self).0.state_after_write(addr, data)),
            ),
            final(self).0.current_clock_count == old(self).0.current_clock_count,
            final(self).0.current_scanline == old(self).0.current_scanline,
            final(self).0.current_framebuffer == old(self).0.current_framebuffer,
    {
        self.0.write_byte(addr, data)
    }
}

} // verus!
