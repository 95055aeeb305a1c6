use vstd::prelude::*;

use crate::timestamp::Timestamp;

verus! {

broadcast use vstd::array::group_array_axioms;

/// Number of bytes in a UUID.
pub const UUID_SIZE: usize = 16;

/// The version of the UUID, denoting the generating algorithm.
#[derive(Clone, Copy, Debug, PartialEq, Eq, Structural)]
pub enum Version {
    /// Special case for the `nil` UUID.
    Nil,
    /// Version 1: MAC address.
    Mac,
    /// Version 2: DCE Security.
    Dce,
    /// Version 3: MD5 hash.
    Md5,
    /// Version 4: Random.
    Random,
    /// Version 5: SHA-1 hash.
    Sha1,
}

impl Version {
    /// The 4-bit tag that stands for this version in a UUID.
    pub open spec fn tag(self) -> u8 {
        match self {
            Version::Nil => 0,
            Version::Mac => 1,
            Version::Dce => 2,
            Version::Md5 => 3,
            Version::Random => 4,
            Version::Sha1 => 5,
        }
    }

    /// Returns the 4-bit tag of this version.
    pub fn to_tag(self) -> (r: u8)
        ensures
            r == self.tag(),
    {
        match self {
            Version::Nil => 0,
            Version::Mac => 1,
            Version::Dce => 2,
            Version::Md5 => 3,
            Version::Random => 4,
            Version::Sha1 => 5,
        }
    }
}

/// `b` with the RFC4122 variant: the top two bits of byte 8 set to `10`, the rest kept.
pub open spec fn with_variant(b: Seq<u8>) -> Seq<u8> {
    b.update(8, (b[8] % 64 + 128) as u8)
}

/// `b` with the version tag `v` in the top four bits of byte 6, the rest kept.
pub open spec fn with_version(b: Seq<u8>, v: u8) -> Seq<u8> {
    b.update(6, (b[6] % 16 + v * 16) as u8)
}

/// The version tag that `b` declares.
pub open spec fn version_tag(b: Seq<u8>) -> int {
    b[6] as int / 16
}

/// Whether `b` has the RFC4122 variant.
pub open spec fn has_variant(b: Seq<u8>) -> bool {
    b[8] / 64 == 2
}

/// The bytes of the time-based UUID for `ticks`, `counter` and `mac`.
pub open spec fn v1_bytes(ticks: u64, counter: u16, mac: Seq<u8>) -> Seq<u8> {
    let time_low = ticks % 0x1_0000_0000;
    let time_mid = ticks / 0x1_0000_0000 % 0x1_0000;
    let time_high = ticks / 0x1_0000_0000_0000 % 0x1000;
    seq![
        (time_low / 0x100_0000) as u8,
        (time_low / 0x1_0000 % 0x100) as u8,
        (time_low / 0x100 % 0x100) as u8,
        (time_low % 0x100) as u8,
        (time_mid / 0x100) as u8,
        (time_mid % 0x100) as u8,
        (0x10 + time_high / 0x100) as u8,
        (time_high % 0x100) as u8,
        (0x80 + counter / 0x100 % 0x40) as u8,
        (counter % 0x100) as u8,
    ] + mac
}

/// The bytes of a UUID built from `bytes`, with the RFC4122 variant and the version tag `v`.
pub open spec fn versioned(bytes: Seq<u8>, v: u8) -> Seq<u8> {
    with_version(with_variant(bytes), v)
}

/// The bytes of the RFC4122 namespaces, which differ in their fourth byte only.
pub open spec fn namespace_bytes(fourth: u8) -> Seq<u8> {
    seq![0x6bu8, 0xa7, 0xb8, fourth, 0x9d, 0xad, 0x11, 0xd1, 0x80, 0xb4, 0x00, 0xc0, 0x4f, 0xd4, 0x30, 0xc8]
}

/// Universally unique identifier, consisting of 128 bits, as according to RFC4122.
#[derive(Clone, Copy, Debug, Eq, Hash, PartialOrd, Ord)]
pub struct Uuid {
    data: [u8; UUID_SIZE],
}

impl View for Uuid {
    type V = Seq<u8>;

    closed spec fn view(&self) -> Seq<u8> {
        self.data@
    }
}

impl Default for Uuid {
    fn default() -> (r: Self)
        ensures
            r@ == Seq::new(16, |i: int| 0u8),
    {
        Self::nil()
    }
}

impl From<[u8; UUID_SIZE]> for Uuid {
    fn from(bytes: [u8; UUID_SIZE]) -> (r: Self) {
        Uuid { data: bytes }
    }
}

impl vstd::std_specs::convert::FromSpecImpl<[u8; UUID_SIZE]> for Uuid {
    open spec fn obeys_from_spec() -> bool {
        true
    }

    closed spec fn from_spec(bytes: [u8; UUID_SIZE]) -> Uuid {
        Uuid { data: bytes }
    }
}

impl AsRef<[u8]> for Uuid {
    fn as_ref(&self) -> (r: &[u8])
        ensures
            r@ == self@,
    {
        self.as_bytes()
    }
}

impl PartialEq for Uuid {
    fn eq(&self, other: &Uuid) -> (r: bool) {
        let mut i: usize = 0;
        while i < UUID_SIZE
            invariant
                i <= UUID_SIZE,
                forall|j: int| 0 <= j < i ==> self.data@[j] == other.data@[j],
            decreases UUID_SIZE - i,
        {
            if self.data[i] != other.data[i] {
                return false;
            }
            i += 1;
        }
        assert(self.data@ =~= other.data@);
        true
    }
}

impl vstd::std_specs::cmp::PartialEqSpecImpl for Uuid {
    open spec fn obeys_eq_spec() -> bool {
        true
    }

    open spec fn eq_spec(&self, other: &Uuid) -> bool {
        self@ == other@
    }
}

impl Uuid {
    /// The view of a UUID is its 16 bytes, and two UUIDs with the same bytes are equal.
    pub proof fn lemma_view(a: Uuid, b: Uuid)
        ensures
            a@.len() == 16,
            a@ == b@ ==> a == b,
    {
        if a@ == b@ {
            assert(a.data =~= b.data);
        }
    }

    /// The namespace for fully-qualified domain names, as given by RFC4122.
    pub fn namespace_dns() -> (r: Self)
        ensures
            r@ == namespace_bytes(0x10),
    {
        let r = Self::from_bytes(
            [0x6b, 0xa7, 0xb8, 0x10, 0x9d, 0xad, 0x11, 0xd1, 0x80, 0xb4, 0x00, 0xc0, 0x4f, 0xd4, 0x30, 0xc8],
        );
        assert(r@ =~= namespace_bytes(0x10));
        r
    }

    /// The namespace for URLs, as given by RFC4122.
    pub fn namespace_url() -> (r: Self)
        ensures
            r@ == namespace_bytes(0x11),
    {
        let r = Self::from_bytes(
            [0x6b, 0xa7, 0xb8, 0x11, 0x9d, 0xad, 0x11, 0xd1, 0x80, 0xb4, 0x00, 0xc0, 0x4f, 0xd4, 0x30, 0xc8],
        );
        assert(r@ =~= namespace_bytes(0x11));
        r
    }

    /// The namespace for ISO OIDs, as given by RFC4122.
    pub fn namespace_oid() -> (r: Self)
        ensures
            r@ == namespace_bytes(0x12),
    {
        let r = Self::from_bytes(
            [0x6b, 0xa7, 0xb8, 0x12, 0x9d, 0xad, 0x11, 0xd1, 0x80, 0xb4, 0x00, 0xc0, 0x4f, 0xd4, 0x30, 0xc8],
        );
        assert(r@ =~= namespace_bytes(0x12));
        r
    }

    /// The namespace for X.500 DNs, in DER or a text output format, as given by RFC4122.
    pub fn namespace_x500() -> (r: Self)
        ensures
            r@ == namespace_bytes(0x14),
    {
        let r = Self::from_bytes(
            [0x6b, 0xa7, 0xb8, 0x14, 0x9d, 0xad, 0x11, 0xd1, 0x80, 0xb4, 0x00, 0xc0, 0x4f, 0xd4, 0x30, 0xc8],
        );
        assert(r@ =~= namespace_bytes(0x14));
        r
    }

    /// Creates the nil UUID: all sixteen bytes are zero.
    pub fn nil() -> (r: Self)
        ensures
            r@ == Seq::new(16, |i: int| 0u8),
    {
        let r = Self::from_bytes([0u8; UUID_SIZE]);
        assert(r@ =~= Seq::new(16, |i: int| 0u8));
        r
    }

    /// Creates a new UUID from raw bytes.
    pub fn from_bytes(data: [u8; UUID_SIZE]) -> (r: Self)
        ensures
            r@ == data@,
    {
        Self { data }
    }

    /// Creates a new UUID from a byte slice if its length is 16, otherwise `None`.
    pub fn from_slice(data: &[u8]) -> (r: Option<Uuid>)
        ensures
            data@.len() == 16 <==> r is Some,
            r matches Some(u) ==> u@ == data@,
    {
        if data.len() != UUID_SIZE {
            return None;
        }
        let r = Self::from_bytes([
            data[0], data[1], data[2], data[3], data[4], data[5], data[6], data[7],
            data[8], data[9], data[10], data[11], data[12], data[13], data[14], data[15],
        ]);
        assert(r@ =~= data@);
        Some(r)
    }

    /// Returns the underlying bytes as a slice.
    pub fn as_bytes(&self) -> (r: &[u8])
        ensures
            r@ == self@,
    {
        self.data.as_slice()
    }

    /// Returns a copy of the underlying bytes.
    pub fn bytes(&self) -> (r: [u8; UUID_SIZE])
        ensures
            r@ == self@,
    {
        self.data
    }

    /// Returns the `time_low` field: bytes 0 to 3, most significant first.
    pub fn time_low(&self) -> (r: u32)
        ensures
            r == self@[0] * 0x100_0000 + self@[1] * 0x1_0000 + self@[2] * 0x100 + self@[3],
    {
        (self.data[0] as u32) * 0x100_0000 + (self.data[1] as u32) * 0x1_0000 + (self.data[2] as u32)
            * 0x100 + self.data[3] as u32
    }

    /// Returns the `time_mid` field: bytes 4 and 5, most significant first.
    pub fn time_mid(&self) -> (r: u16)
        ensures
            r == self@[4] * 0x100 + self@[5],
    {
        (self.data[4] as u16) * 0x100 + self.data[5] as u16
    }

    /// Returns the `time_high_and_version` field: bytes 6 and 7, most significant first.
    pub fn time_high_and_version(&self) -> (r: u16)
        ensures
            r == self@[6] * 0x100 + self@[7],
    {
        (self.data[6] as u16) * 0x100 + self.data[7] as u16
    }

    /// Returns the `clock_sequence` field, with the variant: bytes 8 and 9, most significant
    /// first.
    pub fn clock_sequence(&self) -> (r: u16)
        ensures
            r == self@[8] * 0x100 + self@[9],
    {
        (self.data[8] as u16) * 0x100 + self.data[9] as u16
    }

    /// Returns the `node` field: bytes 10 to 15.
    pub fn node(&self) -> (r: [u8; 6])
        ensures
            r@ == self@.subrange(10, 16),
    {
        let r = [
            self.data[10],
            self.data[11],
            self.data[12],
            self.data[13],
            self.data[14],
            self.data[15],
        ];
        assert(r@ =~= self@.subrange(10, 16));
        r
    }

    /// Creates a UUID from the fields of a GUID: the three integer fields are laid out
    /// least significant byte first, and `d4` is copied as it is.
    pub fn from_guid(d1: u32, d2: u16, d3: u16, d4: [u8; 8]) -> (r: Self)
        ensures
            r@ == seq![
                (d1 % 0x100) as u8,
                (d1 / 0x100 % 0x100) as u8,
                (d1 / 0x1_0000 % 0x100) as u8,
                (d1 / 0x100_0000) as u8,
                (d2 % 0x100) as u8,
                (d2 / 0x100) as u8,
                (d3 % 0x100) as u8,
                (d3 / 0x100) as u8,
            ] + d4@,
    {
        let r = Self::from_bytes([
            (d1 % 0x100) as u8,
            (d1 / 0x100 % 0x100) as u8,
            (d1 / 0x1_0000 % 0x100) as u8,
            (d1 / 0x100_0000) as u8,
            (d2 % 0x100) as u8,
            (d2 / 0x100) as u8,
            (d3 % 0x100) as u8,
            (d3 / 0x100) as u8,
            d4[0],
            d4[1],
            d4[2],
            d4[3],
            d4[4],
            d4[5],
            d4[6],
            d4[7],
        ]);
        assert(r@ =~= seq![
            (d1 % 0x100) as u8,
            (d1 / 0x100 % 0x100) as u8,
            (d1 / 0x1_0000 % 0x100) as u8,
            (d1 / 0x100_0000) as u8,
            (d2 % 0x100) as u8,
            (d2 / 0x100) as u8,
            (d3 % 0x100) as u8,
            (d3 / 0x100) as u8,
        ] + d4@);
        r
    }

    /// Checks whether the version tag of the UUID is the one of `version`.
    pub fn is_version(&self, version: Version) -> (r: bool)
        ensures
            r == (version_tag(self@) == version.tag()),
    {
        self.data[6] / 16 == version.to_tag()
    }

    /// Checks whether the RFC4122 variant is set.
    pub fn is_variant(&self) -> (r: bool)
        ensures
            r == has_variant(self@),
    {
        self.data[8] / 64 == 2
    }

    /// Sets the RFC4122 variant bits.
    pub fn set_variant(self) -> (r: Self)
        ensures
            r@ == with_variant(self@),
    {
        let mut data = self.data;
        data[8] = data[8] % 64 + 128;
        let r = Self { data };
        assert(r@ =~= with_variant(self@));
        r
    }

    /// Sets the version tag to the one of `version`.
    pub fn set_version(self, version: Version) -> (r: Self)
        ensures
            r@ == with_version(self@, version.tag()),
    {
        let mut data = self.data;
        data[6] = data[6] % 16 + version.to_tag() * 16;
        let r = Self { data };
        assert(r@ =~= with_version(self@, version.tag()));
        r
    }

    /// Constructs a version 4 UUID from bytes assumed to be random: only the variant and
    /// version bits are set.
    pub fn v4_from(random: [u8; UUID_SIZE]) -> (r: Self)
        ensures
            r@ == versioned(random@, 4),
    {
        Self::from_bytes(random).set_variant().set_version(Version::Random)
    }

    /// Generates a time-based UUID from a timestamp and a MAC address.
    pub fn v1(timestamp: Timestamp, mac: [u8; 6]) -> (r: Self)
        ensures
            r@ == v1_bytes(timestamp.ticks(), timestamp.counter(), mac@),
    {
        let (ticks, counter) = timestamp.into_parts();
        let time_low: u64 = ticks % 0x1_0000_0000;
        let time_mid: u64 = ticks / 0x1_0000_0000 % 0x1_0000;
        let time_high: u64 = ticks / 0x1_0000_0000_0000 % 0x1000;
        let r = Self::from_bytes([
            (time_low / 0x100_0000) as u8,
            (time_low / 0x1_0000 % 0x100) as u8,
            (time_low / 0x100 % 0x100) as u8,
            (time_low % 0x100) as u8,
            (time_mid / 0x100) as u8,
            (time_mid % 0x100) as u8,
            (0x10 + time_high / 0x100) as u8,
            (time_high % 0x100) as u8,
            (0x80 + counter / 0x100 % 0x40) as u8,
            (counter % 0x100) as u8,
            mac[0],
            mac[1],
            mac[2],
            mac[3],
            mac[4],
            mac[5],
        ]);
        assert(r@ =~= v1_bytes(ticks, counter, mac@));
        r
    }
}

} // verus!
