use vstd::prelude::*;

use crate::uuid::{versioned, Uuid, Version, UUID_SIZE};

verus! {

broadcast use vstd::array::group_array_axioms;

/// The MD5 digest of `input`.
pub uninterp spec fn md5_of(input: Seq<u8>) -> Seq<u8>;

/// The SHA-1 digest of `input`.
pub uninterp spec fn sha1_of(input: Seq<u8>) -> Seq<u8>;

/// Relies on `lhash::md5`: the 16-byte MD5 digest of `input`.
#[verifier::external_body]
fn md5(input: &[u8]) -> (r: [u8; 16])
    ensures
        r@ == md5_of(input@),
{
    lhash::md5(input)
}

/// Relies on `lhash::sha1`: the 20-byte SHA-1 digest of `input`.
#[verifier::external_body]
fn sha1(input: &[u8]) -> (r: [u8; 20])
    ensures
        r@ == sha1_of(input@),
{
    lhash::sha1(input)
}

/// The bytes of the namespace followed by the name: what a name-based UUID hashes.
fn hash_input(namespace: &Uuid, name: &[u8]) -> (r: Vec<u8>)
    ensures
        r@ == namespace@ + name@,
{
    let ns = namespace.bytes();
    let mut input: Vec<u8> = Vec::new();
    let mut i: usize = 0;
    while i < UUID_SIZE
        invariant
            i <= UUID_SIZE,
            ns@ == namespace@,
            input@ == ns@.take(i as int),
        decreases UUID_SIZE - i,
    {
        input.push(ns[i]);
        assert(input@ =~= ns@.take(i + 1));
        i += 1;
    }
    let mut j: usize = 0;
    while j < name.len()
        invariant
            j <= name@.len(),
            ns@ == namespace@,
            input@ == ns@ + name@.take(j as int),
        decreases name@.len() - j,
    {
        input.push(name[j]);
        assert(input@ =~= ns@ + name@.take(j + 1));
        j += 1;
    }
    assert(name@.take(name@.len() as int) =~= name@);
    input
}

/// The bytes of the version 3 UUID for `namespace` and `name`.
pub open spec fn v3_bytes(namespace: Seq<u8>, name: Seq<u8>) -> Seq<u8> {
    versioned(md5_of(namespace + name), 3)
}

/// The bytes of the version 5 UUID for `namespace` and `name`.
pub open spec fn v5_bytes(namespace: Seq<u8>, name: Seq<u8>) -> Seq<u8> {
    versioned(sha1_of(namespace + name).take(16), 5)
}

impl Uuid {
    /// Constructs a version 3 UUID from an MD5 digest: only the variant and version bits
    /// are set.
    pub fn v3_from(digest: [u8; 16]) -> (r: Self)
        ensures
            r@ == versioned(digest@, 3),
    {
        Self::from_bytes(digest).set_variant().set_version(Version::Md5)
    }

    /// Constructs a version 5 UUID from a SHA-1 digest: its first 16 bytes, with the variant
    /// and version bits set.
    pub fn v5_from(digest: [u8; 20]) -> (r: Self)
        ensures
            r@ == versioned(digest@.take(16), 5),
    {
        let first = [
            digest[0], digest[1], digest[2], digest[3], digest[4], digest[5], digest[6], digest[7],
            digest[8], digest[9], digest[10], digest[11], digest[12], digest[13], digest[14],
            digest[15],
        ];
        assert(first@ =~= digest@.take(16));
        Self::from_bytes(first).set_variant().set_version(Version::Sha1)
    }

    /// Generates a version 3 UUID from the MD5 digest of the namespace and the name.
    pub fn v3(namespace: Uuid, name: &[u8]) -> (r: Self)
        ensures
            r@ == v3_bytes(namespace@, name@),
    {
        let input = hash_input(&namespace, name);
        Self::v3_from(md5(input.as_slice()))
    }

    /// Generates a version 5 UUID from the SHA-1 digest of the namespace and the name.
    pub fn v5(namespace: Uuid, name: &[u8]) -> (r: Self)
        ensures
            r@ == v5_bytes(namespace@, name@),
    {
        let input = hash_input(&namespace, name);
        Self::v5_from(sha1(input.as_slice()))
    }
}

} // verus!
