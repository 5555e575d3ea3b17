//! Peer identities: a multihash of a peer's public key, restricted to the two
//! hash codes that peer identities use, with its base-58 text form.

use crate::multihash::multihash_parse;
use crate::multihash::varint;
use crate::multihash::Multihash;
use rand::Rng;
use vstd::prelude::*;

verus! {

/// Public keys of at most this many bytes are used as the identity directly,
/// under the identity code, instead of being hashed.
pub const MAX_INLINE_KEY_LENGTH: usize = 42;

/// Multihash code of the identity function.
pub const MULTIHASH_IDENTITY_CODE: u64 = 0;

/// Multihash code of SHA-256.
pub const MULTIHASH_SHA256_CODE: u64 = 0x12;

#[verifier::external_type_specification]
#[verifier::external_body]
pub struct ExBase58DecodeError(bs58::decode::Error);

/// The text that `bs58::encode(..).into_string()` makes of `bytes` with the
/// default (Bitcoin) alphabet.
pub uninterp spec fn base58_encoding(bytes: Seq<u8>) -> Seq<char>;

/// The bytes that `bs58::decode(..).into_vec()` reads from `text` with the
/// default (Bitcoin) alphabet, or `None` where it returns an error.
pub uninterp spec fn base58_decoding(text: Seq<char>) -> Option<Seq<u8>>;

/// Why bytes or text are not a peer identity.
#[derive(Debug)]
pub enum ParseError {
    /// The text is not base-58.
    B58(bs58::decode::Error),
    /// The multihash uses a code, or an inline length, that peer identities do not.
    UnsupportedCode(u64),
    /// The bytes are not a multihash.
    InvalidMultihash(::multihash::Error),
}

/// A peer identity in one of its two serialised forms.
#[derive(Debug)]
pub enum Encoded {
    /// Base-58 text, for human-readable encodings.
    Text(String),
    /// Multihash bytes, for binary encodings.
    Binary(Vec<u8>),
}

/// Identifier of a peer of the network.
#[derive(Clone, Copy, Debug, Eq, PartialOrd, Ord, Hash)]
pub struct PeerId {
    multihash: Multihash,
}

impl PartialEq for PeerId {
    fn eq(&self, other: &PeerId) -> (b: bool) {
        self.multihash == other.multihash
    }
}

impl vstd::std_specs::cmp::PartialEqSpecImpl for PeerId {
    open spec fn obeys_eq_spec() -> bool {
        true
    }

    open spec fn eq_spec(&self, other: &PeerId) -> bool {
        *self == *other
    }
}

impl PeerId {
    /// Whether a multihash of this code and digest may serve as a peer
    /// identity: SHA-256, or the identity code with a short enough digest.
    pub open spec fn acceptable(code: u64, digest: Seq<u8>) -> bool {
        code == MULTIHASH_SHA256_CODE || (code == MULTIHASH_IDENTITY_CODE && digest.len()
            <= MAX_INLINE_KEY_LENGTH)
    }

    /// The multihash is well formed and of an accepted kind.
    #[verifier::type_invariant]
    pub closed spec fn wf(self) -> bool {
        &&& self.multihash.wf()
        &&& Self::acceptable(self.multihash.spec_code(), self.multihash.spec_digest())
    }

    pub closed spec fn spec_multihash(self) -> Multihash {
        self.multihash
    }

    /// Hash code of the identity.
    pub open spec fn spec_code(self) -> u64 {
        self.spec_multihash().spec_code()
    }

    /// Digest of the identity.
    pub open spec fn spec_digest(self) -> Seq<u8> {
        self.spec_multihash().spec_digest()
    }

    /// The multihash bytes of the identity.
    pub open spec fn spec_multihash_bytes(self) -> Seq<u8> {
        self.spec_multihash().spec_bytes()
    }

    /// The identity that holds `multihash`.
    pub closed spec fn of_multihash(multihash: Multihash) -> PeerId {
        PeerId { multihash }
    }

    /// What [`PeerId::from_multihash`] returns on `multihash`: the identity
    /// that holds it, or the multihash itself where it is of another kind.
    pub open spec fn spec_from_multihash(multihash: Multihash) -> Result<PeerId, Multihash> {
        if Self::acceptable(multihash.spec_code(), multihash.spec_digest()) {
            Ok(Self::of_multihash(multihash))
        } else {
            Err(multihash)
        }
    }

    /// An identity is the one that holds its multihash, and the identity
    /// that holds a well-formed multihash of an accepted kind is well formed.
    pub proof fn lemma_of_multihash(multihash: Multihash)
        ensures
            Self::of_multihash(multihash).spec_multihash() == multihash,
            multihash.wf() && Self::acceptable(multihash.spec_code(), multihash.spec_digest())
                ==> Self::of_multihash(multihash).wf(),
            forall|p: PeerId| #[trigger]
                p.spec_multihash() == multihash ==> p == Self::of_multihash(multihash),
    {
    }

    /// `r` is what [`PeerId::from_bytes`] returns on `data`.
    pub open spec fn from_bytes_result(data: Seq<u8>, r: Result<PeerId, ParseError>) -> bool {
        match multihash_parse(data) {
            None => r matches Err(ParseError::InvalidMultihash(_)),
            Some((code, digest)) => if Self::acceptable(code, digest) {
                r matches Ok(p) && p.wf() && p.spec_code() == code && p.spec_digest() == digest
            } else {
                r matches Err(ParseError::UnsupportedCode(c)) && c == code
            },
        }
    }

    /// `r` is what [`PeerId::from_string`] returns on `text`.
    pub open spec fn from_string_result(text: Seq<char>, r: Result<PeerId, ParseError>) -> bool {
        match base58_decoding(text) {
            None => r matches Err(ParseError::B58(_)),
            Some(bytes) => Self::from_bytes_result(bytes, r),
        }
    }

    /// `encoded` is the serialised form of this identity for an encoding that
    /// is, or is not, meant to be read by people.
    pub open spec fn serialized_as(self, human_readable: bool, encoded: Encoded) -> bool {
        match encoded {
            Encoded::Text(text) => {
                &&& human_readable
                &&& text@ == base58_encoding(self.spec_multihash_bytes())
                &&& base58_decoding(text@) == Some(self.spec_multihash_bytes())
            },
            Encoded::Binary(bytes) => !human_readable && bytes@ == self.spec_multihash_bytes(),
        }
    }

    /// `r` is what [`PeerId::deserialize`] returns on `encoded`.
    pub open spec fn deserialize_result(encoded: Encoded, r: Result<PeerId, ParseError>) -> bool {
        match encoded {
            Encoded::Text(text) => Self::from_string_result(text@, r),
            Encoded::Binary(bytes) => Self::from_bytes_result(bytes@, r),
        }
    }

    /// What is known of a well-formed identity.
    pub proof fn lemma_wf(self)
        requires
            self.wf(),
        ensures
            self.spec_multihash().wf(),
            Self::acceptable(self.spec_code(), self.spec_digest()),
            self.spec_digest().len() <= 64,
    {
        self.multihash.lemma_digest_bounded();
    }

    /// Well-formed identities with the same code and digest are equal.
    pub proof fn lemma_equal_by_parts(self, other: PeerId)
        requires
            self.wf(),
            other.wf(),
            self.spec_code() == other.spec_code(),
            self.spec_digest() == other.spec_digest(),
        ensures
            self == other,
    {
        self.multihash.lemma_equal_by_parts(other.multihash);
    }

    /// Tries to turn a multihash into a peer identity; a multihash of another
    /// kind is handed back.
    pub fn from_multihash(multihash: Multihash) -> (r: Result<PeerId, Multihash>)
        ensures
            r == Self::spec_from_multihash(multihash),
            r matches Ok(p) ==> p.wf(),
    {
        proof {
            use_type_invariant(&multihash);
        }
        let code = multihash.code();
        if code == MULTIHASH_SHA256_CODE {
            Ok(PeerId { multihash })
        } else if code == MULTIHASH_IDENTITY_CODE && multihash.size() as usize
            <= MAX_INLINE_KEY_LENGTH {
            Ok(PeerId { multihash })
        } else {
            Err(multihash)
        }
    }

    /// Parses a peer identity from its multihash bytes.
    pub fn from_bytes(data: &[u8]) -> (r: Result<PeerId, ParseError>)
        ensures
            Self::from_bytes_result(data@, r),
    {
        match Multihash::from_bytes(data) {
            Err(e) => Err(ParseError::InvalidMultihash(e)),
            Ok(multihash) => match PeerId::from_multihash(multihash) {
                Ok(peer_id) => {
                    proof {
                        Self::lemma_of_multihash(multihash);
                    }
                    Ok(peer_id)
                },
                Err(rejected) => Err(ParseError::UnsupportedCode(rejected.code())),
            },
        }
    }

    /// Parses a peer identity from its base-58 text.
    pub fn from_string(text: &str) -> (r: Result<PeerId, ParseError>)
        ensures
            Self::from_string_result(text@, r),
    {
        match decode_base58(text) {
            Err(e) => Err(ParseError::B58(e)),
            Ok(bytes) => PeerId::from_bytes(bytes.as_slice()),
        }
    }

    /// Makes a peer identity of 32 random bytes under the identity code.
    pub fn random() -> (p: PeerId)
        ensures
            p.wf(),
            p.spec_code() == MULTIHASH_IDENTITY_CODE,
            p.spec_digest().len() == 32,
    {
        let bytes = random_digest();
        match Multihash::wrap(MULTIHASH_IDENTITY_CODE, bytes.as_slice()) {
            Ok(multihash) => PeerId { multihash },
            Err(_) => {
                proof {
                    assert(false);
                }
                vstd::pervasive::unreached()
            },
        }
    }

    /// The multihash of the identity.
    pub fn multihash(&self) -> (m: Multihash)
        ensures
            m == self.spec_multihash(),
            m.wf(),
    {
        proof {
            use_type_invariant(self);
        }
        self.multihash
    }

    /// The digest as 32 bytes, where it has that length.
    pub fn to_bytes(&self) -> (r: Option<[u8; 32]>)
        ensures
            r is Some <==> self.spec_digest().len() == 32,
            r matches Some(bytes) ==> bytes@ == self.spec_digest(),
    {
        let digest = self.multihash.digest();
        if digest.len() != 32 {
            return None;
        }
        let mut buf = [0u8; 32];
        let mut i: usize = 0;
        while i < 32
            invariant
                i <= 32,
                digest@.len() == 32,
                forall|j: int| 0 <= j < i ==> buf[j] == digest@[j],
            decreases 32 - i,
        {
            buf[i] = digest[i];
            i += 1;
        }
        assert(buf@ =~= digest@);
        Some(buf)
    }

    /// The multihash bytes of the identity.
    pub fn to_multihash_bytes(&self) -> (bytes: Vec<u8>)
        ensures
            bytes@ == self.spec_multihash_bytes(),
    {
        self.multihash.to_bytes()
    }

    /// The base-58 text of the multihash bytes.
    pub fn to_base58(&self) -> (text: String)
        ensures
            text@ == base58_encoding(self.spec_multihash_bytes()),
            base58_decoding(text@) == Some(self.spec_multihash_bytes()),
    {
        let bytes = self.multihash.to_bytes();
        encode_base58(bytes.as_slice())
    }

    /// The form in which the identity is written: base-58 text by encodings
    /// meant to be read by people, multihash bytes by binary ones.
    pub fn serialize(&self, human_readable: bool) -> (encoded: Encoded)
        ensures
            self.serialized_as(human_readable, encoded),
    {
        if human_readable {
            Encoded::Text(self.to_base58())
        } else {
            Encoded::Binary(self.to_multihash_bytes())
        }
    }

    /// Reads an identity back from either serialised form.
    pub fn deserialize(encoded: &Encoded) -> (r: Result<PeerId, ParseError>)
        ensures
            Self::deserialize_result(*encoded, r),
    {
        match encoded {
            Encoded::Text(text) => PeerId::from_string(text.as_str()),
            Encoded::Binary(bytes) => PeerId::from_bytes(bytes.as_slice()),
        }
    }
}

impl From<PeerId> for Multihash {
    fn from(peer_id: PeerId) -> (m: Multihash) {
        peer_id.multihash
    }
}

impl vstd::std_specs::convert::FromSpecImpl<PeerId> for Multihash {
    open spec fn obeys_from_spec() -> bool {
        true
    }

    open spec fn from_spec(peer_id: PeerId) -> Multihash {
        peer_id.spec_multihash()
    }
}

impl TryFrom<Multihash> for PeerId {
    type Error = Multihash;

    fn try_from(value: Multihash) -> (r: Result<PeerId, Multihash>) {
        PeerId::from_multihash(value)
    }
}

impl vstd::std_specs::convert::TryFromSpecImpl<Multihash> for PeerId {
    open spec fn obeys_try_from_spec() -> bool {
        true
    }

    open spec fn try_from_spec(value: Multihash) -> Result<PeerId, Multihash> {
        PeerId::spec_from_multihash(value)
    }
}

impl core::str::FromStr for PeerId {
    type Err = ParseError;

    /// Parses a peer identity from its base-58 text, as [`PeerId::from_string`] does.
    fn from_str(s: &str) -> (r: Result<PeerId, ParseError>)
        ensures
            PeerId::from_string_result(s@, r),
    {
        PeerId::from_string(s)
    }
}

/// The multihash bytes of a peer identity are its code, the length of its
/// digest and the digest, the first two as single bytes.
pub proof fn lemma_multihash_bytes(x: PeerId)
    requires
        x.wf(),
    ensures
        x.spec_multihash_bytes() == seq![x.spec_code() as u8, x.spec_digest().len() as u8]
            + x.spec_digest(),
        multihash_parse(x.spec_multihash_bytes()) == Some((x.spec_code(), x.spec_digest())),
{
    x.lemma_wf();
    let code = x.spec_code();
    let digest = x.spec_digest();
    let bytes = x.spec_multihash_bytes();
    assert(varint(code as nat) == seq![code as u8]);
    assert(varint(digest.len()) == seq![digest.len() as u8]);
    assert(bytes =~= seq![code as u8, digest.len() as u8] + digest);
    assert(bytes.skip(2) =~= digest);
}

/// Parsing the multihash bytes of a peer identity gives that identity back,
/// whichever of the two codes it uses.
pub proof fn law_multihash_bytes_round_trip(x: PeerId, r: Result<PeerId, ParseError>)
    requires
        x.wf(),
        PeerId::from_bytes_result(x.spec_multihash_bytes(), r),
    ensures
        r matches Ok(y) && y == x,
{
    lemma_multihash_bytes(x);
    x.lemma_wf();
    match r {
        Ok(y) => {
            x.lemma_equal_by_parts(y);
        },
        Err(_) => {},
    }
}

/// A SHA-256 peer identity is recovered from its digest: wrapping the digest
/// under the SHA-256 code and converting gives an equal identity.
pub proof fn law_sha256_digest_round_trip(x: PeerId, m: Multihash)
    requires
        x.wf(),
        x.spec_code() == MULTIHASH_SHA256_CODE,
        m.wf(),
        m.spec_code() == MULTIHASH_SHA256_CODE,
        m.spec_digest() == x.spec_digest(),
    ensures
        PeerId::spec_from_multihash(m) == Ok::<PeerId, Multihash>(x),
{
    x.lemma_wf();
    PeerId::lemma_of_multihash(m);
    x.lemma_equal_by_parts(PeerId::of_multihash(m));
}

/// Parsing any text that base-58 decodes to the multihash bytes of a peer
/// identity gives that identity back. [`PeerId::to_base58`] returns such a text.
pub proof fn law_base58_round_trip(x: PeerId, text: Seq<char>, r: Result<PeerId, ParseError>)
    requires
        x.wf(),
        base58_decoding(text) == Some(x.spec_multihash_bytes()),
        PeerId::from_string_result(text, r),
    ensures
        r matches Ok(y) && y == x,
{
    law_multihash_bytes_round_trip(x, r);
}

/// Reading back either serialised form of a peer identity gives that identity.
pub proof fn law_serialize_round_trip(
    x: PeerId,
    human_readable: bool,
    encoded: Encoded,
    r: Result<PeerId, ParseError>,
)
    requires
        x.wf(),
        x.serialized_as(human_readable, encoded),
        PeerId::deserialize_result(encoded, r),
    ensures
        r matches Ok(y) && y == x,
{
    match encoded {
        Encoded::Text(text) => {
            law_base58_round_trip(x, text@, r);
        },
        Encoded::Binary(bytes) => {
            law_multihash_bytes_round_trip(x, r);
        },
    }
}

/// Calls `bs58::encode(..).into_string()`. Decoding the text it returns gives
/// the input bytes back.
#[verifier::external_body]
fn encode_base58(bytes: &[u8]) -> (text: String)
    ensures
        text@ == base58_encoding(bytes@),
        base58_decoding(text@) == Some(bytes@),
{
    bs58::encode(bytes).into_string()
}

/// Calls `bs58::decode(..).into_vec()`.
#[verifier::external_body]
fn decode_base58(text: &str) -> (r: Result<Vec<u8>, bs58::decode::Error>)
    ensures
        match base58_decoding(text@) {
            Some(bytes) => r matches Ok(v) && v@ == bytes,
            None => r is Err,
        },
{
    bs58::decode(text).into_vec()
}

/// Calls `rand::thread_rng().gen::<[u8; 32]>()`; nothing is known of the bytes.
#[verifier::external_body]
fn random_digest() -> [u8; 32] {
    rand::thread_rng().gen::<[u8; 32]>()
}

} // verus!
