//! The two markers that an identifier carries: its variant and its version.

use vstd::prelude::*;

verus! {

/// The layout family of an identifier, held in the leading bits of byte 8.
#[derive(Clone, Copy, Debug, PartialEq, Eq, Structural)]
#[allow(clippy::upper_case_acronyms)]
pub enum Variant {
    /// Reserved for NCS backward compatibility: leading bit `0`.
    NCS,
    /// The layout of RFC 4122: leading bits `10`.
    RFC4122,
    /// Reserved for Microsoft backward compatibility: leading bits `110`.
    Microsoft,
    /// Reserved for future use: leading bits `111`.
    Future,
}

impl Variant {
    /// The number that the leading bits spell.
    pub open spec fn prefix(self) -> nat {
        match self {
            Variant::NCS => 0,
            Variant::RFC4122 => 2,
            Variant::Microsoft => 6,
            Variant::Future => 7,
        }
    }

    /// The weight of the lowest marker bit: the bits below it are not the marker's.
    pub open spec fn unit(self) -> nat {
        match self {
            Variant::NCS => 0x80,
            Variant::RFC4122 => 0x40,
            Variant::Microsoft => 0x20,
            Variant::Future => 0x20,
        }
    }

    /// `byte` with its leading bits replaced by the marker and the rest kept.
    pub open spec fn stamp(self, byte: u8) -> u8 {
        (self.prefix() * self.unit() + (byte as nat) % self.unit()) as u8
    }

    /// A stamped byte spells the marker in its leading bits and keeps every bit
    /// below them, so that it reads back as this variant.
    pub proof fn lemma_stamp(self, byte: u8)
        ensures
            self.stamp(byte) as nat / self.unit() == self.prefix(),
            self.stamp(byte) as nat % self.unit() == byte as nat % self.unit(),
            Variant::of_byte(self.stamp(byte)) == self,
    {
    }

    /// The variant that `byte`, taken as byte 8 of an identifier, spells.
    pub open spec fn of_byte(byte: u8) -> Variant {
        if byte / 0x80 == 0 {
            Variant::NCS
        } else if byte / 0x40 == 2 {
            Variant::RFC4122
        } else if byte / 0x20 == 6 {
            Variant::Microsoft
        } else {
            Variant::Future
        }
    }
}

/// The scheme by which an identifier was generated, held in the high nibble of byte 6.
#[derive(Clone, Copy, Debug, PartialEq, Eq, Structural)]
pub enum Version {
    /// Version 1: timestamp and node id.
    Mac,
    /// Version 2: DCE security.
    Dce,
    /// Version 3: MD5 hash of a name.
    Md5,
    /// Version 4: random.
    Random,
    /// Version 5: SHA-1 hash of a name.
    Sha1,
    /// Version 6: timestamp and node id, ordered so that identifiers sort by time.
    SortMac,
    /// Version 7: Unix timestamp and random data, sortable.
    SortRand,
    /// Version 8: custom.
    Custom,
}

impl Version {
    /// The version number, from 1 to 8.
    pub open spec fn spec_number(self) -> u8 {
        match self {
            Version::Mac => 1,
            Version::Dce => 2,
            Version::Md5 => 3,
            Version::Random => 4,
            Version::Sha1 => 5,
            Version::SortMac => 6,
            Version::SortRand => 7,
            Version::Custom => 8,
        }
    }

    /// The version number, from 1 to 8.
    #[verifier::when_used_as_spec(spec_number)]
    pub fn number(self) -> (n: u8)
        ensures
            n == self.spec_number(),
    {
        match self {
            Version::Mac => 1,
            Version::Dce => 2,
            Version::Md5 => 3,
            Version::Random => 4,
            Version::Sha1 => 5,
            Version::SortMac => 6,
            Version::SortRand => 7,
            Version::Custom => 8,
        }
    }

    /// The version with the number `n`, if it has a meaning.
    pub open spec fn of_number(n: nat) -> Option<Version> {
        if n == 1 {
            Some(Version::Mac)
        } else if n == 2 {
            Some(Version::Dce)
        } else if n == 3 {
            Some(Version::Md5)
        } else if n == 4 {
            Some(Version::Random)
        } else if n == 5 {
            Some(Version::Sha1)
        } else if n == 6 {
            Some(Version::SortMac)
        } else if n == 7 {
            Some(Version::SortRand)
        } else if n == 8 {
            Some(Version::Custom)
        } else {
            None
        }
    }

    /// `byte` with its high nibble replaced by the version number and its low nibble kept.
    pub open spec fn stamp(self, byte: u8) -> u8 {
        (self.spec_number() * 16 + byte % 16) as u8
    }

    /// A stamped byte holds the version number in its high nibble and keeps its
    /// low nibble, so that it reads back as this version.
    pub proof fn lemma_stamp(self, byte: u8)
        ensures
            self.stamp(byte) / 16 == self.spec_number(),
            self.stamp(byte) % 16 == byte % 16,
            Version::of_number((self.stamp(byte) / 16) as nat) == Some(self),
    {
    }
}

} // verus!
