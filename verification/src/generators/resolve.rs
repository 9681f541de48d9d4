//! The patterns that DaVinci Resolve sends: a length of four bytes, then a
//! description of the patch and of the background.

use vstd::prelude::*;
use crate::pgen::pattern_config::{PGenPatternConfig, TestPatternPosition, TestPatternSize};
use crate::pgen::BitDepth;
use crate::utils::Rgb;

verus! {

/// The address that Resolve listens on.
pub const RESOLVE_INTERFACE_ADDRESS: &'static str = "127.0.0.1:20002";

/// One colour of a pattern, and the bits of its components.
#[derive(Debug, Clone, Copy, PartialEq, Eq, Structural)]
pub struct ResolveColor {
    pub red: u16,
    pub green: u16,
    pub blue: u16,
    pub bits: u8,
}

/// A pattern as Resolve describes it.
#[derive(Debug, Clone, Copy, PartialEq, Eq, Structural)]
pub struct ResolvePattern {
    pub color: ResolveColor,
    pub background: ResolveColor,
}

impl Default for ResolveColor {
    fn default() -> (r: ResolveColor)
        ensures
            r == (ResolveColor { red: 0, green: 0, blue: 0, bits: 0 }),
    {
        ResolveColor { red: 0, green: 0, blue: 0, bits: 0 }
    }
}

/// The length that the four bytes before a message announce, most
/// significant byte first.
pub open spec fn announced_length(header: [u8; 4]) -> int {
    header[0] * 0x100_0000 + header[1] * 0x1_0000 + header[2] * 0x100 + header[3]
}

/// The length of the message that follows a header.
pub fn message_length(header: [u8; 4]) -> (r: u32)
    ensures
        r == announced_length(header),
{
    let a: u32 = header[0] as u32;
    let b: u32 = header[1] as u32;
    let c: u32 = header[2] as u32;
    let d: u32 = header[3] as u32;
    a * 0x100_0000 + b * 0x1_0000 + c * 0x100 + d
}

/// Why what was read is no message.
#[derive(Debug, Clone, Copy, PartialEq, Eq, Structural)]
pub enum FrameError {
    /// Fewer than four bytes of header came.
    InvalidHeader,
    /// Fewer bytes came than the header announced.
    ShortPacket,
}

/// Whether a read of `header_read` bytes of header is a whole header.
pub fn check_header(header_read: usize) -> (r: Result<(), FrameError>)
    ensures
        r == if header_read == 4 {
            Ok::<(), FrameError>(())
        } else {
            Err::<(), FrameError>(FrameError::InvalidHeader)
        },
{
    if header_read == 4 {
        Ok(())
    } else {
        Err(FrameError::InvalidHeader)
    }
}

/// Whether a read of `body_read` bytes is the whole message that `header` announced.
pub fn check_packet(header: [u8; 4], body_read: usize) -> (r: Result<(), FrameError>)
    ensures
        r == if body_read == announced_length(header) {
            Ok::<(), FrameError>(())
        } else {
            Err::<(), FrameError>(FrameError::ShortPacket)
        },
{
    if body_read as u64 == message_length(header) as u64 {
        Ok(())
    } else {
        Err(FrameError::ShortPacket)
    }
}

impl ResolveColor {
    /// Red, green and blue.
    pub fn to_array(&self) -> (r: Rgb)
        ensures
            r@ == seq![self.red, self.green, self.blue],
    {
        let r = [self.red, self.green, self.blue];
        assert(r@ =~= seq![self.red, self.green, self.blue]);
        r
    }
}

impl ResolvePattern {
    /// Whether the pattern can be shown: its colour has eight or ten bits.
    pub open spec fn is_showable(self) -> bool {
        self.color.bits == 8 || self.color.bits == 10
    }

    /// Whether the pattern can be shown.
    pub fn can_show(&self) -> (r: bool)
        ensures
            r == self.is_showable(),
    {
        self.color.bits == 8 || self.color.bits == 10
    }

    /// The pattern for the generator: the colours of Resolve in the bit
    /// depth of its patch colour, everything else as it is by default.
    pub fn to_pgen(&self) -> (r: PGenPatternConfig)
        requires
            self.is_showable(),
        ensures
            r.bit_depth.repr() == self.color.bits,
            r.patch_colour@ == seq![self.color.red, self.color.green, self.color.blue],
            r.background_colour@ == seq![
                self.background.red,
                self.background.green,
                self.background.blue,
            ],
            r.limited_range == false,
            r.position == (0u16, 0u16),
            r.patch_size == (0u16, 0u16),
            r.preset_position == TestPatternPosition::Center,
            r.preset_size == TestPatternSize::Percent10,
    {
        PGenPatternConfig {
            limited_range: false,
            bit_depth: if self.color.bits == 8 {
                BitDepth::Eight
            } else {
                BitDepth::Ten
            },
            patch_colour: self.color.to_array(),
            background_colour: self.background.to_array(),
            position: (0, 0),
            preset_position: TestPatternPosition::Center,
            patch_size: (0, 0),
            preset_size: TestPatternSize::Percent10,
        }
    }
}

} // verus!
