//! Packing of numeric radio parameters into the byte layouts the HackRF
//! firmware expects, and the BCD device-version decoding.

use vstd::prelude::*;

verus! {

/// Little-endian byte image of a 32-bit value.
pub open spec fn le32(x: u32) -> Seq<u8> {
    seq![
        (x & 0xFF) as u8,
        ((x >> 8) & 0xFF) as u8,
        ((x >> 16) & 0xFF) as u8,
        ((x >> 24) & 0xFF) as u8,
    ]
}

/// Saturating narrowing of a 64-bit value to 32 bits.
pub open spec fn sat32(x: u64) -> u32 {
    if x > u32::MAX { u32::MAX } else { x as u32 }
}

/// Whole-megahertz part of a frequency, saturated to 32 bits.
pub open spec fn freq_mhz(hz: u64) -> u32 {
    sat32(hz / 1_000_000)
}

/// Hertz remainder of a frequency after removing the whole megahertz,
/// saturated to 32 bits.
pub open spec fn freq_rem(hz: u64) -> u32 {
    sat32((hz - freq_mhz(hz) * 1_000_000) as u64)
}

/// Byte layout of the `SetFreq` payload: the whole megahertz and the
/// remaining hertz, each as an independent little-endian 32-bit field.
pub open spec fn spec_freq_params(hz: u64) -> Seq<u8> {
    le32(freq_mhz(hz)) + le32(freq_rem(hz))
}

/// Split a frequency in Hz into the 8-byte `SetFreq` payload: whole MHz
/// as a little-endian `u32`, then the Hz remainder as a little-endian
/// `u32`. Values that do not fit 32 bits saturate to `u32::MAX`.
pub fn freq_params(hz: u64) -> (r: [u8; 8])
    ensures
        r@ == spec_freq_params(hz),
{
    let mhz64: u64 = hz / 1_000_000;
    let l_freq_mhz: u32 = if mhz64 > 0xFFFF_FFFF {
        u32::MAX
    } else {
        mhz64 as u32
    };
    proof {
        assert(hz / 1_000_000 * 1_000_000 <= hz) by (nonlinear_arith);
        if mhz64 > 0xFFFF_FFFF {
            assert(0xFFFF_FFFFu64 * 1_000_000 <= hz / 1_000_000 * 1_000_000) by (nonlinear_arith)
                requires
                    hz / 1_000_000 > 0xFFFF_FFFFu64,
            ;
        }
    }
    let rem: u64 = hz - (l_freq_mhz as u64) * 1_000_000;
    let l_freq_hz: u32 = if rem > 0xFFFF_FFFF {
        u32::MAX
    } else {
        rem as u32
    };
    let r: [u8; 8] = [
        (l_freq_mhz & 0xFF) as u8,
        ((l_freq_mhz >> 8) & 0xFF) as u8,
        ((l_freq_mhz >> 16) & 0xFF) as u8,
        ((l_freq_mhz >> 24) & 0xFF) as u8,
        (l_freq_hz & 0xFF) as u8,
        ((l_freq_hz >> 8) & 0xFF) as u8,
        ((l_freq_hz >> 16) & 0xFF) as u8,
        ((l_freq_hz >> 24) & 0xFF) as u8,
    ];
    proof {
        assert(r@ =~= spec_freq_params(hz));
    }
    r
}

/// Byte layout of the `SampleRateSet` payload: the rate in Hz and the
/// divisor, each as a little-endian 32-bit field.
pub open spec fn spec_rate_params(hz: u32, div: u32) -> Seq<u8> {
    le32(hz) + le32(div)
}

/// Pack a sample rate and divisor into the 8-byte `SampleRateSet`
/// payload, two little-endian 32-bit fields.
pub fn rate_params(hz: u32, div: u32) -> (r: [u8; 8])
    ensures
        r@ == spec_rate_params(hz, div),
{
    let r: [u8; 8] = [
        (hz & 0xFF) as u8,
        ((hz >> 8) & 0xFF) as u8,
        ((hz >> 16) & 0xFF) as u8,
        ((hz >> 24) & 0xFF) as u8,
        (div & 0xFF) as u8,
        ((div >> 8) & 0xFF) as u8,
        ((div >> 16) & 0xFF) as u8,
        ((div >> 24) & 0xFF) as u8,
    ];
    proof {
        assert(r@ =~= spec_rate_params(hz, div));
    }
    r
}

/// Baseband filter bandwidth that accompanies a sample-rate change:
/// three quarters of `hz / div`, rounded down. A zero divisor saturates
/// to `u32::MAX`, mirroring the division blowing up.
pub open spec fn spec_filter_bandwidth(hz: u32, div: u32) -> u32 {
    if div == 0 {
        u32::MAX
    } else {
        ((3 * hz) / (4 * div)) as u32
    }
}

/// Compute the anti-aliasing baseband filter bandwidth for a sample
/// rate: 75% of the per-divisor rate, rounded down to whole Hz.
pub fn filter_bandwidth(hz: u32, div: u32) -> (r: u32)
    ensures
        r == spec_filter_bandwidth(hz, div),
{
    if div == 0 {
        u32::MAX
    } else {
        let num: u64 = 3 * (hz as u64);
        let den: u64 = 4 * (div as u64);
        let q: u64 = num / den;
        proof {
            assert(q <= num / 4) by (nonlinear_arith)
                requires
                    den >= 4,
                    q == num / den,
                    num >= 0,
            ;
        }
        q as u32
    }
}

/// A three-part version: major, minor, and sub-minor components, in the
/// sense of the BCD version fields of USB descriptors.
#[derive(Debug, PartialEq, Eq, Clone, Copy, Hash, Structural)]
pub struct UsbVersion(pub u8, pub u8, pub u8);

/// Major component of a BCD version field `0xJJMN`.
pub open spec fn spec_bcd_major(raw: u16) -> u8 {
    (((raw >> 8) & 0xF) + 10 * (raw >> 12)) as u8
}

/// Minor component of a BCD version field `0xJJMN`.
pub open spec fn spec_bcd_minor(raw: u16) -> u8 {
    ((raw >> 4) & 0xF) as u8
}

/// Sub-minor component of a BCD version field `0xJJMN`.
pub open spec fn spec_bcd_sub_minor(raw: u16) -> u8 {
    (raw & 0xF) as u8
}

impl UsbVersion {
    /// Extract a version from a binary-coded-decimal field. BCD fields
    /// in USB descriptors encode a version as `0xJJMN`: `JJ` is the
    /// major version, `M` the minor, `N` the sub-minor. For example,
    /// 2.0 is `0x0200` and 1.1 is `0x0110`.
    pub fn from_bcd(raw: u16) -> (r: Self)
        ensures
            r.0 == spec_bcd_major(raw),
            r.1 == spec_bcd_minor(raw),
            r.2 == spec_bcd_sub_minor(raw),
    {
        let mut v: u16 = raw;
        let sub_minor: u8 = (v & 0x000F) as u8;
        v = v >> 4;
        let minor: u8 = (v & 0x000F) as u8;
        v = v >> 4;
        let mut major: u8 = (v & 0x000F) as u8;
        v = v >> 4;
        proof {
            assert(((raw >> 4) >> 4) & 0xF == (raw >> 8) & 0xF) by (bit_vector);
            assert(((raw >> 4) >> 4) >> 4 == raw >> 12) by (bit_vector);
            assert(raw >> 12 <= 0xF) by (bit_vector);
            assert((raw >> 8) & 0xF <= 0xF) by (bit_vector);
        }
        major = major + (10 * v) as u8;
        UsbVersion(major, minor, sub_minor)
    }

    /// The major version.
    pub fn major(self) -> (r: u8)
        ensures
            r == self.0,
    {
        let UsbVersion(major, _, _) = self;
        major
    }

    /// The minor version.
    pub fn minor(self) -> (r: u8)
        ensures
            r == self.1,
    {
        let UsbVersion(_, minor, _) = self;
        minor
    }

    /// The sub-minor version.
    pub fn sub_minor(self) -> (r: u8)
        ensures
            r == self.2,
    {
        let UsbVersion(_, _, sub_minor) = self;
        sub_minor
    }

    /// The version as the number `major * 2^16 + minor * 2^8 + sub`,
    /// which orders versions lexicographically by component.
    pub open spec fn spec_key(self) -> u32 {
        (self.0 * 0x1_0000 + self.1 * 0x100 + self.2) as u32
    }

    /// Order key used for version gating: the components packed into a
    /// `u32`, major first, so that comparing keys compares versions.
    pub fn key(self) -> (r: u32)
        ensures
            r == self.spec_key(),
    {
        (self.0 as u32) * 0x1_0000 + (self.1 as u32) * 0x100 + (self.2 as u32)
    }
}

} // verus!
