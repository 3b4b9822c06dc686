//! The two choices that fix the wire format: byte order and prefix width.
//!
//! Both ends of a connection must hold the same [`IrisNetworkConfig`]. Nothing
//! on the wire records it, so a mismatch cannot be detected here: the receiver
//! would read a wrong length and cut the stream in the wrong places.

use vstd::prelude::*;

verus! {

/// The order in which the bytes of the length prefix travel.
#[derive(Clone, Copy, Debug, PartialEq, Eq, Structural)]
pub enum Endian {
    /// Least significant byte first.
    Little,
    /// Most significant byte first.
    Big,
}

/// The width of the length prefix.
#[derive(Clone, Copy, Debug, PartialEq, Eq, Structural)]
pub enum SizeType {
    /// A 16-bit prefix.
    U16,
    /// A 32-bit prefix.
    U32,
    /// A 64-bit prefix.
    U64,
}

/// The transport underneath a connection.
#[derive(Clone, Copy, Debug, PartialEq, Eq, Structural)]
pub enum Protocol {
    TCP,
    UDP,
}

/// How messages on a connection are framed.
#[derive(Clone, Copy, Debug, PartialEq, Eq, Structural)]
pub struct IrisNetworkConfig {
    /// Byte order of the length prefix.
    pub endian: Endian,
    /// Width of the length prefix, and thereby the longest payload.
    pub size: SizeType,
}

impl SizeType {
    /// The number of bytes the prefix occupies on the wire.
    pub open spec fn width(self) -> nat {
        match self {
            SizeType::U16 => 2,
            SizeType::U32 => 4,
            SizeType::U64 => 8,
        }
    }

    /// The longest payload the prefix can announce.
    pub open spec fn max_payload(self) -> nat {
        match self {
            SizeType::U16 => 0xffff,
            SizeType::U32 => 0xffff_ffff,
            SizeType::U64 => 0xffff_ffff_ffff_ffff,
        }
    }

    /// The number of bytes the prefix occupies on the wire.
    pub fn prefix_len(self) -> (n: usize)
        ensures
            n == self.width(),
    {
        match self {
            SizeType::U16 => 2,
            SizeType::U32 => 4,
            SizeType::U64 => 8,
        }
    }

    /// The longest payload the prefix can announce.
    pub fn payload_limit(self) -> (n: u64)
        ensures
            n == self.max_payload(),
    {
        match self {
            SizeType::U16 => 0xffff,
            SizeType::U32 => 0xffff_ffff,
            SizeType::U64 => 0xffff_ffff_ffff_ffff,
        }
    }
}

impl Default for Endian {
    fn default() -> (e: Endian)
        ensures
            e == Endian::Little,
    {
        Endian::Little
    }
}

impl Default for SizeType {
    fn default() -> (s: SizeType)
        ensures
            s == SizeType::U32,
    {
        SizeType::U32
    }
}

impl Default for IrisNetworkConfig {
    /// Little-endian with a 32-bit prefix.
    fn default() -> (config: IrisNetworkConfig)
        ensures
            config.endian == Endian::Little,
            config.size == SizeType::U32,
    {
        IrisNetworkConfig { endian: Endian::Little, size: SizeType::U32 }
    }
}

} // verus!
