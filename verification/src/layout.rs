//! The binary wire contract with the vendor module.
//!
//! The two structures passed across the boundary have a fixed, undocumented
//! layout: the context buffer is exactly 1024 bytes (a 4-byte version field
//! followed by 1020 bytes of vendor-private state) and the settings record
//! is exactly 20 bytes with little-endian fields in a fixed order and no
//! padding. Rather than trusting a language default, the layout is written
//! out explicitly as a byte encoding, and the encoders are proved to produce
//! exactly the documented sizes and field placements. The unverified driver
//! passes pointers to these encoded buffers into the native calls.

use vstd::prelude::*;

verus! {

/// Exact serialized size of [`AmVideoContext`].
pub const CONTEXT_SIZE: usize = 1024;

/// Size of the vendor-private tail of [`AmVideoContext`].
pub const CONTEXT_DATA_SIZE: usize = 1020;

/// Exact serialized size of [`AmVideoSetting`].
pub const SETTING_SIZE: usize = 20;

/// The two little-endian bytes of `x`, least significant first.
pub open spec fn u16_le(x: u16) -> Seq<u8> {
    seq![(x % 256) as u8, ((x / 256) % 256) as u8]
}

/// The four little-endian bytes of `x`, least significant first.
pub open spec fn u32_le(x: u32) -> Seq<u8> {
    seq![
        (x % 256) as u8,
        ((x / 256) % 256) as u8,
        ((x / 65536) % 256) as u8,
        ((x / 16777216) % 256) as u8,
    ]
}

/// Appends the two little-endian bytes of `x` to `out`.
pub fn push_u16_le(out: &mut Vec<u8>, x: u16)
    ensures
        final(out)@ == old(out)@ + u16_le(x),
{
    out.push((x % 256) as u8);
    out.push(((x / 256) % 256) as u8);
    assert(out@ =~= old(out)@ + u16_le(x));
}

/// Appends the four little-endian bytes of `x` to `out`.
pub fn push_u32_le(out: &mut Vec<u8>, x: u32)
    ensures
        final(out)@ == old(out)@ + u32_le(x),
{
    out.push((x % 256) as u8);
    out.push(((x / 256) % 256) as u8);
    out.push(((x / 65536) % 256) as u8);
    out.push(((x / 16777216) % 256) as u8);
    assert(out@ =~= old(out)@ + u32_le(x));
}

/// A single display resolution: width and height, two bytes each.
#[derive(Debug, Clone, Copy, PartialEq, Eq, Structural)]
pub struct AmVideoResolution {
    pub width: u16,
    pub height: u16,
}

impl Default for AmVideoResolution {
    /// The all-zero resolution.
    fn default() -> (r: Self)
        ensures
            r.width == 0 && r.height == 0,
    {
        Self { width: 0, height: 0 }
    }
}

/// The display-mode enumeration of the vendor ABI. The numeric codes have
/// intentional gaps (0, 1, 4) and must be preserved exactly; see
/// [`mode_code`].
#[derive(Debug, Clone, Copy, PartialEq, Eq, Structural)]
pub enum AmVideoMode {
    /// Single display mode using `resolution_1`.
    Single,
    /// Single or dual display mode using `resolution_1` for both displays.
    /// Does not fail if a second display is not connected.
    CloneVideoMode,
    /// Dual display mode using both `resolution_1` and `resolution_2`.
    DualVideoMode,
}

/// The exact numeric code of each display mode on the wire.
pub open spec fn mode_code(m: AmVideoMode) -> u32 {
    match m {
        AmVideoMode::Single => 0,
        AmVideoMode::CloneVideoMode => 1,
        AmVideoMode::DualVideoMode => 4,
    }
}

impl AmVideoMode {
    /// The numeric code of this mode on the wire.
    pub fn code(&self) -> (r: u32)
        ensures
            r == mode_code(*self),
    {
        match self {
            AmVideoMode::Single => 0,
            AmVideoMode::CloneVideoMode => 1,
            AmVideoMode::DualVideoMode => 4,
        }
    }
}

/// The settings record handed read-only to the native set-resolution call.
#[derive(Debug, Clone, Copy, PartialEq, Eq, Structural)]
pub struct AmVideoSetting {
    pub version: u32,
    pub use_segatiming: u32,
    pub mode: AmVideoMode,
    pub resolution_1: AmVideoResolution,
    pub resolution_2: AmVideoResolution,
}

/// The exact 20-byte wire image of a settings record: version,
/// use-segatiming flag, mode code (each 4 bytes little-endian), then the two
/// resolutions (width and height, 2 bytes each), in that order, unpadded.
pub open spec fn setting_bytes(s: AmVideoSetting) -> Seq<u8> {
    u32_le(s.version) + u32_le(s.use_segatiming) + u32_le(mode_code(s.mode))
        + u16_le(s.resolution_1.width) + u16_le(s.resolution_1.height)
        + u16_le(s.resolution_2.width) + u16_le(s.resolution_2.height)
}

impl AmVideoSetting {
    /// Serializes the record into its exact wire image, which is always
    /// [`SETTING_SIZE`] bytes. The record itself is not changed and may be
    /// reused by the caller.
    pub fn encode(&self) -> (r: Vec<u8>)
        ensures
            r@ == setting_bytes(*self),
            r@.len() == SETTING_SIZE,
    {
        let mut out: Vec<u8> = Vec::new();
        push_u32_le(&mut out, self.version);
        push_u32_le(&mut out, self.use_segatiming);
        push_u32_le(&mut out, self.mode.code());
        push_u16_le(&mut out, self.resolution_1.width);
        push_u16_le(&mut out, self.resolution_1.height);
        push_u16_le(&mut out, self.resolution_2.width);
        push_u16_le(&mut out, self.resolution_2.height);
        assert(out@ =~= setting_bytes(*self));
        out
    }
}

/// The context buffer handed by pointer to every native call: a 4-byte
/// version field followed by [`CONTEXT_DATA_SIZE`] bytes of vendor-private
/// state. The private region is never interpreted or mutated on this side
/// of the boundary; it is mutated exclusively by the native module.
pub struct AmVideoContext {
    pub version: u32,
    pub data: Vec<u8>,
}

impl AmVideoContext {
    /// A context is well formed when its vendor-private tail has its exact
    /// fixed size.
    pub open spec fn wf(&self) -> bool {
        self.data@.len() == CONTEXT_DATA_SIZE
    }

    /// Whether every byte of the vendor-private tail is zero.
    pub open spec fn tail_zeroed(&self) -> bool {
        forall|i: int| 0 <= i < self.data@.len() ==> self.data@[i] == 0
    }

    /// The freshly initialized context every controller starts from:
    /// version 1, vendor-private tail all zero.
    pub fn new_zeroed() -> (r: Self)
        ensures
            r.wf(),
            r.version == 1,
            r.tail_zeroed(),
    {
        let mut data: Vec<u8> = Vec::new();
        let mut i: usize = 0;
        while i < CONTEXT_DATA_SIZE
            invariant
                i <= CONTEXT_DATA_SIZE,
                data@.len() == i,
                forall|k: int| 0 <= k < i ==> data@[k] == 0,
            decreases CONTEXT_DATA_SIZE - i,
        {
            data.push(0);
            i = i + 1;
        }
        Self { version: 1, data }
    }

    /// The exact wire image of a context: the version field little-endian,
    /// then the vendor-private tail verbatim.
    pub open spec fn context_bytes(&self) -> Seq<u8> {
        u32_le(self.version) + self.data@
    }

    /// Serializes the context into its exact wire image, which for a well
    /// formed context is always [`CONTEXT_SIZE`] bytes.
    pub fn encode(&self) -> (r: Vec<u8>)
        ensures
            r@ == self.context_bytes(),
            self.wf() ==> r@.len() == CONTEXT_SIZE,
    {
        let mut out: Vec<u8> = Vec::new();
        push_u32_le(&mut out, self.version);
        let mut i: usize = 0;
        while i < self.data.len()
            invariant
                i <= self.data@.len(),
                out@ == u32_le(self.version) + self.data@.take(i as int),
            decreases self.data@.len() - i,
        {
            let b = self.data[i];
            out.push(b);
            i = i + 1;
            assert(out@ =~= u32_le(self.version) + self.data@.take(i as int));
        }
        assert(self.data@.take(self.data@.len() as int) =~= self.data@);
        out
    }
}

} // verus!
