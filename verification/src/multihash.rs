//! Self-describing hash values: a hash-function code followed by a digest.
//!
//! The byte form is produced and parsed by the `multihash` crate; this module
//! holds the value itself as plain data and states what the two conversions do.

use vstd::prelude::*;

verus! {

#[verifier::external_type_specification]
#[verifier::external_body]
pub struct ExMultihashError(::multihash::Error);

/// Unsigned LEB128: seven bits per byte, least significant group first, the
/// high bit set on every byte but the last.
pub open spec fn varint(n: nat) -> Seq<u8>
    decreases n,
{
    if n < 128 {
        seq![n as u8]
    } else {
        seq![(128 + n % 128) as u8] + varint(n / 128)
    }
}

/// The byte form of a multihash: code, digest length, digest.
pub open spec fn multihash_encoding(code: u64, digest: Seq<u8>) -> Seq<u8> {
    varint(code as nat) + varint(digest.len()) + digest
}

/// Code and digest that `multihash::Multihash::<64>::from_bytes` reads from
/// `bytes`, or `None` where it returns an error.
pub uninterp spec fn multihash_decode(bytes: Seq<u8>) -> Option<(u64, Seq<u8>)>;

/// Code and digest held in the byte form `bytes`, given what the decoder
/// makes of input whose code or length prefix is longer than one byte.
///
/// Where both prefixes are single bytes the result is spelled out: the input
/// must be exactly two bytes longer than the digest length it announces, and
/// that length is at most 64.
pub open spec fn multihash_parse_with(bytes: Seq<u8>, long_form: Option<(u64, Seq<u8>)>) -> Option<
    (u64, Seq<u8>),
> {
    if bytes.len() < 2 {
        None
    } else if bytes[0] < 0x80 && bytes[1] < 0x80 {
        if bytes[1] <= 64 && bytes.len() == 2 + bytes[1] {
            Some((bytes[0] as u64, bytes.skip(2)))
        } else {
            None
        }
    } else {
        long_form
    }
}

/// Code and digest held in the byte form `bytes`, or `None` where `bytes` is
/// no multihash of at most 64 digest bytes.
pub open spec fn multihash_parse(bytes: Seq<u8>) -> Option<(u64, Seq<u8>)> {
    multihash_parse_with(bytes, multihash_decode(bytes))
}

/// A hash-function code and a digest of at most 64 bytes.
///
/// The digest is kept in a fixed buffer together with its length, unused
/// bytes zeroed, so that values compare and order field by field.
#[derive(Clone, Copy, Debug, Eq, PartialOrd, Ord, Hash)]
pub struct Multihash {
    code: u64,
    size: u8,
    digest: [u8; 64],
}

impl PartialEq for Multihash {
    fn eq(&self, other: &Multihash) -> (b: bool) {
        if self.code != other.code || self.size != other.size {
            return false;
        }
        let mut i: usize = 0;
        while i < 64
            invariant
                i <= 64,
                forall|j: int| 0 <= j < i ==> self.digest[j] == other.digest[j],
            decreases 64 - i,
        {
            if self.digest[i] != other.digest[i] {
                return false;
            }
            i += 1;
        }
        assert(self.digest =~= other.digest);
        true
    }
}

impl vstd::std_specs::cmp::PartialEqSpecImpl for Multihash {
    open spec fn obeys_eq_spec() -> bool {
        true
    }

    open spec fn eq_spec(&self, other: &Multihash) -> bool {
        *self == *other
    }
}

impl Multihash {
    /// The length fits the buffer and the bytes behind the digest are zero.
    #[verifier::type_invariant]
    pub closed spec fn wf(self) -> bool {
        &&& self.size <= 64
        &&& forall|i: int| self.size <= i < 64 ==> self.digest[i] == 0
    }

    pub closed spec fn spec_code(self) -> u64 {
        self.code
    }

    pub closed spec fn spec_digest(self) -> Seq<u8> {
        self.digest@.take(self.size as int)
    }

    /// The byte form of this value.
    pub open spec fn spec_bytes(self) -> Seq<u8> {
        multihash_encoding(self.spec_code(), self.spec_digest())
    }

    /// A well-formed value is determined by its code and digest.
    pub proof fn lemma_equal_by_parts(self, other: Multihash)
        requires
            self.wf(),
            other.wf(),
            self.spec_code() == other.spec_code(),
            self.spec_digest() == other.spec_digest(),
        ensures
            self == other,
    {
        assert(self.size == other.size) by {
            assert(self.spec_digest().len() == self.size);
            assert(other.spec_digest().len() == other.size);
        }
        assert forall|i: int| 0 <= i < 64 implies self.digest[i] == other.digest[i] by {
            if i < self.size {
                assert(self.spec_digest()[i] == self.digest[i]);
                assert(other.spec_digest()[i] == other.digest[i]);
            }
        }
        assert(self.digest =~= other.digest);
    }

    /// A well-formed digest has at most 64 bytes.
    pub proof fn lemma_digest_bounded(self)
        requires
            self.wf(),
        ensures
            self.spec_digest().len() <= 64,
    {
    }

    /// Wraps `input` under `code`; fails when `input` is longer than 64 bytes.
    pub fn wrap(code: u64, input: &[u8]) -> (r: Result<Multihash, ::multihash::Error>)
        ensures
            r is Ok <==> input@.len() <= 64,
            r matches Ok(m) ==> m.wf() && m.spec_code() == code && m.spec_digest() == input@,
    {
        wrap_digest(code, input)
    }

    pub fn code(&self) -> (c: u64)
        ensures
            c == self.spec_code(),
    {
        self.code
    }

    /// Length of the digest in bytes.
    pub fn size(&self) -> (n: u8)
        ensures
            n == self.spec_digest().len(),
            n <= 64,
    {
        proof {
            use_type_invariant(self);
        }
        self.size
    }

    pub fn digest(&self) -> (d: Vec<u8>)
        ensures
            d@ == self.spec_digest(),
    {
        proof {
            use_type_invariant(self);
        }
        let mut d: Vec<u8> = Vec::new();
        let n: usize = self.size as usize;
        let mut i: usize = 0;
        while i < n
            invariant
                i <= n,
                n == self.size,
                n <= 64,
                d@ == self.digest@.take(i as int),
            decreases n - i,
        {
            d.push(self.digest[i]);
            i += 1;
            assert(d@ =~= self.digest@.take(i as int));
        }
        d
    }

    /// Parses the byte form.
    pub fn from_bytes(data: &[u8]) -> (r: Result<Multihash, ::multihash::Error>)
        ensures
            match multihash_parse(data@) {
                Some((code, digest)) => r matches Ok(m) && m.wf() && m.spec_code() == code
                    && m.spec_digest() == digest,
                None => r is Err,
            },
    {
        read_bytes(data)
    }

    /// Writes the byte form.
    pub fn to_bytes(&self) -> (bytes: Vec<u8>)
        ensures
            bytes@ == self.spec_bytes(),
    {
        proof {
            use_type_invariant(self);
        }
        let digest = self.digest();
        write_bytes(self.code, digest.as_slice())
    }
}

/// Calls `multihash::Multihash::<64>::wrap`, which copies the digest into a
/// zeroed 64-byte buffer and refuses input longer than the buffer.
#[verifier::external_body]
fn wrap_digest(code: u64, input: &[u8]) -> (r: Result<Multihash, ::multihash::Error>)
    ensures
        r is Ok <==> input@.len() <= 64,
        r matches Ok(m) ==> m.wf() && m.spec_code() == code && m.spec_digest() == input@,
{
    match ::multihash::Multihash::<64>::wrap(code, input) {
        Ok(m) => {
            let (code, digest, size) = m.into_inner();
            Ok(Multihash { code, size, digest })
        },
        Err(e) => Err(e),
    }
}

/// Calls `multihash::Multihash::<64>::from_bytes`, which reads a varint code,
/// a varint length of at most 64 and exactly that many digest bytes, and
/// refuses input with bytes left over. The unused part of the buffer it
/// returns is zero.
#[verifier::external_body]
fn read_bytes(data: &[u8]) -> (r: Result<Multihash, ::multihash::Error>)
    ensures
        match multihash_parse_with(data@, multihash_decode(data@)) {
            Some((code, digest)) => r matches Ok(m) && m.wf() && m.spec_code() == code
                && m.spec_digest() == digest,
            None => r is Err,
        },
{
    match ::multihash::Multihash::<64>::from_bytes(data) {
        Ok(m) => {
            let (code, digest, size) = m.into_inner();
            Ok(Multihash { code, size, digest })
        },
        Err(e) => Err(e),
    }
}

/// Calls `multihash::Multihash::<64>::to_bytes` on the value that `wrap`
/// makes of `code` and `digest`: the varint of the code, the varint of the
/// digest length, then the digest.
#[verifier::external_body]
fn write_bytes(code: u64, digest: &[u8]) -> (bytes: Vec<u8>)
    requires
        digest@.len() <= 64,
    ensures
        bytes@ == multihash_encoding(code, digest@),
{
    match ::multihash::Multihash::<64>::wrap(code, digest) {
        Ok(m) => m.to_bytes(),
        Err(_) => Vec::new(),
    }
}

} // verus!
