//! The identity store: the secret seed of a server, where it comes from,
//! and the public identity that peers address.

use crate::text::decimal;
use crate::text::decimal_string;
use vstd::prelude::*;
use vstd::string::StringExecFns;

verus! {

/// Number of bytes in a secret seed, and in a public identity.
pub const SEED_LEN: usize = 32;

/// The secret from which a server's identity is derived: the only thing
/// that is persisted. It is created or read once and never changed.
#[derive(Clone, PartialEq, Eq)]
pub struct SecretSeed {
    bytes: [u8; 32],
}

impl View for SecretSeed {
    type V = Seq<u8>;

    closed spec fn view(&self) -> Seq<u8> {
        self.bytes@
    }
}

/// The public identity of a peer: the address of outbound connections.
#[derive(Clone, Copy, Debug, PartialEq, Eq, Hash)]
pub struct PeerIdentity {
    bytes: [u8; 32],
}

impl View for PeerIdentity {
    type V = Seq<u8>;

    closed spec fn view(&self) -> Seq<u8> {
        self.bytes@
    }
}

/// The public identity that belongs to a seed.
pub uninterp spec fn derived_identity(seed: Seq<u8>) -> Seq<u8>;

/// Calls `rand::random` for an array of 32 bytes. Trusted, and nothing is
/// stated of the bytes, which differ from call to call. They come from
/// rand's thread-local generator, which is seeded by the operating system
/// and documented as cryptographically secure. The call panics if the
/// operating system gives no entropy.
#[verifier::external_body]
fn random_bytes() -> (bytes: [u8; 32]) {
    rand::random()
}

/// Calls iroh's `SecretKey::from_bytes` and `SecretKey::public`. Trusted:
/// the public key is a function of the seed alone, which is only given a
/// name here.
#[verifier::external_body]
fn public_key_bytes(seed: &[u8; 32]) -> (public: [u8; 32])
    ensures
        public@ == derived_identity(seed@),
{
    *iroh::SecretKey::from_bytes(seed).public().as_bytes()
}

/// Why no identity could be had.
#[derive(Clone, Debug, PartialEq, Eq)]
pub enum IdentityError {
    /// The key file is missing and creating one is not allowed.
    NotFound,
    /// The key file holds `len` bytes, not a seed.
    Corrupt { len: usize },
    /// The key file exists and could not be read.
    ReadFailed { message: String },
    /// The new seed could not be written to the key file.
    PersistFailed { message: String },
    /// A key file is already there and may not be replaced.
    AlreadyExists,
}

/// An identity error as a mathematical value.
pub enum IdentityErrorView {
    NotFound,
    Corrupt { len: usize },
    ReadFailed { message: Seq<char> },
    PersistFailed { message: Seq<char> },
    AlreadyExists,
}

impl View for IdentityError {
    type V = IdentityErrorView;

    open spec fn view(&self) -> IdentityErrorView {
        match self {
            IdentityError::NotFound => IdentityErrorView::NotFound,
            IdentityError::Corrupt { len } => IdentityErrorView::Corrupt { len: *len },
            IdentityError::ReadFailed { message } => IdentityErrorView::ReadFailed {
                message: message@,
            },
            IdentityError::PersistFailed { message } => IdentityErrorView::PersistFailed {
                message: message@,
            },
            IdentityError::AlreadyExists => IdentityErrorView::AlreadyExists,
        }
    }
}

impl IdentityErrorView {
    /// The error in words.
    pub open spec fn message(self) -> Seq<char> {
        match self {
            IdentityErrorView::NotFound => "key file not found, and creating one is disabled"@,
            IdentityErrorView::Corrupt { len } => "key file corrupt: "@ + decimal(len as nat)
                + " bytes, not 32"@,
            IdentityErrorView::ReadFailed { message } => message,
            IdentityErrorView::PersistFailed { message } => message,
            IdentityErrorView::AlreadyExists => "The keyfile already exists and will not be overwritten."@,
        }
    }
}

impl IdentityError {
    /// The error in words.
    pub fn message(&self) -> (text: String)
        ensures
            text@ == self@.message(),
    {
        match self {
            IdentityError::NotFound => String::from_str(
                "key file not found, and creating one is disabled",
            ),
            IdentityError::Corrupt { len } => {
                let mut text = String::from_str("key file corrupt: ");
                text.append(decimal_string(*len as u64).as_str());
                text.append(" bytes, not 32");
                text
            },
            IdentityError::ReadFailed { message } => message.clone(),
            IdentityError::PersistFailed { message } => message.clone(),
            IdentityError::AlreadyExists => String::from_str(
                "The keyfile already exists and will not be overwritten.",
            ),
        }
    }
}

impl SecretSeed {
    /// The seed that a key file of exactly 32 bytes holds. Any other
    /// length is a corrupt file.
    pub fn from_bytes(bytes: &[u8]) -> (result: Result<SecretSeed, IdentityError>)
        ensures
            result matches Ok(seed) ==> bytes@.len() == SEED_LEN && seed@ == bytes@,
            result matches Err(error) ==> bytes@.len() != SEED_LEN && error@ == (
            IdentityErrorView::Corrupt { len: bytes.len() }),
    {
        if bytes.len() != SEED_LEN {
            return Err(IdentityError::Corrupt { len: bytes.len() });
        }
        let mut seed: [u8; 32] = [0u8; 32];
        let mut i: usize = 0;
        while i < SEED_LEN
            invariant
                i <= SEED_LEN,
                bytes@.len() == SEED_LEN,
                forall|j: int| 0 <= j < i ==> seed@[j] == bytes@[j],
            decreases SEED_LEN - i,
        {
            seed[i] = bytes[i];
            i = i + 1;
        }
        Ok(SecretSeed { bytes: seed })
    }

    /// The 32 bytes of the seed, as they are written to the key file.
    pub fn to_bytes(&self) -> (bytes: [u8; 32])
        ensures
            bytes@ == self@,
            bytes@.len() == SEED_LEN,
    {
        self.bytes
    }

    /// A new seed from the cryptographically secure random source.
    pub fn generate() -> (seed: SecretSeed)
        ensures
            seed@.len() == SEED_LEN,
    {
        SecretSeed { bytes: random_bytes() }
    }

    /// The public identity that this seed gives its holder.
    pub fn identity(&self) -> (identity: PeerIdentity)
        ensures
            identity@ == derived_identity(self@),
    {
        PeerIdentity { bytes: public_key_bytes(&self.bytes) }
    }
}

impl PeerIdentity {
    /// The 32 bytes of the identity.
    pub fn to_bytes(&self) -> (bytes: [u8; 32])
        ensures
            bytes@ == self@,
            bytes@.len() == SEED_LEN,
    {
        self.bytes
    }
}

/// Every seed has 32 bytes.
pub proof fn lemma_seed_length(seed: SecretSeed)
    ensures
        seed@.len() == SEED_LEN,
{
}

/// What reading the key file gave.
#[derive(Clone, Debug, PartialEq, Eq)]
pub enum KeyFileRead {
    /// The file exists and holds `bytes`.
    Found { bytes: Vec<u8> },
    /// There is no such file.
    Missing,
    /// The file could not be read for another reason.
    Unreadable { message: String },
}

/// A key file read as a mathematical value.
pub enum KeyFileReadView {
    Found { bytes: Seq<u8> },
    Missing,
    Unreadable { message: Seq<char> },
}

impl View for KeyFileRead {
    type V = KeyFileReadView;

    open spec fn view(&self) -> KeyFileReadView {
        match self {
            KeyFileRead::Found { bytes } => KeyFileReadView::Found { bytes: bytes@ },
            KeyFileRead::Missing => KeyFileReadView::Missing,
            KeyFileRead::Unreadable { message } => KeyFileReadView::Unreadable {
                message: message@,
            },
        }
    }
}

/// What the identity store decides once the key file has been read.
#[derive(Clone, PartialEq, Eq)]
pub enum LoadStep {
    /// The file held a seed: the server starts with it.
    Ready { seed: SecretSeed },
    /// There was no file: `seed` is new. It has to be announced and written
    /// to the key file; the server may start only when that has succeeded.
    Create { seed: SecretSeed },
    /// There is no identity: the server must not start.
    Failed { error: IdentityError },
}

/// A load step as a mathematical value.
pub enum LoadStepView {
    Ready { seed: Seq<u8> },
    Create { seed: Seq<u8> },
    Failed { error: IdentityErrorView },
}

impl View for LoadStep {
    type V = LoadStepView;

    open spec fn view(&self) -> LoadStepView {
        match self {
            LoadStep::Ready { seed } => LoadStepView::Ready { seed: seed@ },
            LoadStep::Create { seed } => LoadStepView::Create { seed: seed@ },
            LoadStep::Failed { error } => LoadStepView::Failed { error: error@ },
        }
    }
}

impl LoadStepView {
    /// Whether the step asks for the key file to be written. No other
    /// step of the store does.
    pub open spec fn writes_key_file(self) -> bool {
        self is Create
    }
}

/// The decision of the identity store: a file of 32 bytes is the seed, a
/// file of any other length is corrupt; a missing file is replaced by the
/// new seed `fresh` where creating is allowed and is an error where it is
/// not; a file that cannot be read is an error.
pub open spec fn load_step(read: KeyFileReadView, allow_create: bool, fresh: Seq<u8>) -> LoadStepView {
    match read {
        KeyFileReadView::Found { bytes } => if bytes.len() == SEED_LEN {
            LoadStepView::Ready { seed: bytes }
        } else {
            LoadStepView::Failed { error: IdentityErrorView::Corrupt { len: bytes.len() as usize } }
        },
        KeyFileReadView::Missing => if allow_create {
            LoadStepView::Create { seed: fresh }
        } else {
            LoadStepView::Failed { error: IdentityErrorView::NotFound }
        },
        KeyFileReadView::Unreadable { message } => LoadStepView::Failed {
            error: IdentityErrorView::ReadFailed { message },
        },
    }
}

/// Decides how the server comes by its identity, given what reading the
/// key file gave and the seed to use if a new one is called for.
pub fn load_with(read: KeyFileRead, allow_create: bool, fresh: SecretSeed) -> (step: LoadStep)
    ensures
        step@ == load_step(read@, allow_create, fresh@),
{
    match read {
        KeyFileRead::Found { bytes } => match SecretSeed::from_bytes(bytes.as_slice()) {
            Ok(seed) => LoadStep::Ready { seed },
            Err(error) => LoadStep::Failed { error },
        },
        KeyFileRead::Missing => if allow_create {
            LoadStep::Create { seed: fresh }
        } else {
            LoadStep::Failed { error: IdentityError::NotFound }
        },
        KeyFileRead::Unreadable { message } => LoadStep::Failed {
            error: IdentityError::ReadFailed { message },
        },
    }
}

/// Decides how the server comes by its identity, given what reading the
/// key file gave. A new seed is drawn from the random source only where
/// the file is missing and creating is allowed.
pub fn load_or_create(read: KeyFileRead, allow_create: bool) -> (step: LoadStep)
    ensures
        exists|fresh: Seq<u8>|
            fresh.len() == SEED_LEN && step@ == #[trigger] load_step(read@, allow_create, fresh),
{
    let step = match read {
        KeyFileRead::Found { bytes } => match SecretSeed::from_bytes(bytes.as_slice()) {
            Ok(seed) => LoadStep::Ready { seed },
            Err(error) => LoadStep::Failed { error },
        },
        KeyFileRead::Missing => if allow_create {
            LoadStep::Create { seed: SecretSeed::generate() }
        } else {
            LoadStep::Failed { error: IdentityError::NotFound }
        },
        KeyFileRead::Unreadable { message } => LoadStep::Failed {
            error: IdentityError::ReadFailed { message },
        },
    };
    proof {
        let fresh = match step@ {
            LoadStepView::Create { seed } => seed,
            _ => Seq::new(SEED_LEN as nat, |i: int| 0u8),
        };
        assert(fresh.len() == SEED_LEN && step@ == load_step(read@, allow_create, fresh));
    }
    step
}

/// The result of creating an identity, once the write of the key file has
/// ended: the seed where the write succeeded, and no identity at all where
/// it failed.
pub fn persisted(seed: SecretSeed, written: Result<(), String>) -> (result: Result<
    SecretSeed,
    IdentityError,
>)
    ensures
        written is Ok ==> result == Ok::<SecretSeed, IdentityError>(seed),
        written matches Err(message) ==> (result matches Err(error) && error@ == (
        IdentityErrorView::PersistFailed { message: message@ })),
{
    match written {
        Ok(()) => Ok(seed),
        Err(message) => Err(IdentityError::PersistFailed { message }),
    }
}

/// Decides whether a new key file may be written where `exists` tells if
/// one is there already: an existing file is replaced only on request.
pub fn plan_generate(exists: bool, overwrite: bool) -> (result: Result<SecretSeed, IdentityError>)
    ensures
        result is Err <==> exists && !overwrite,
        result matches Err(error) ==> error@ == IdentityErrorView::AlreadyExists,
        result matches Ok(seed) ==> seed@.len() == SEED_LEN,
{
    if exists && !overwrite {
        Err(IdentityError::AlreadyExists)
    } else {
        Ok(SecretSeed::generate())
    }
}

/// The notice that names a newly generated key file.
pub open spec fn creation_notice_text(name: Seq<char>) -> Seq<char> {
    "Generating new key at "@ + name
}

/// The notice to print before a new key file is written.
pub fn creation_notice(name: &str) -> (notice: String)
    ensures
        notice@ == creation_notice_text(name@),
{
    let mut notice = String::from_str("Generating new key at ");
    notice.append(name);
    notice
}

/// Loading a missing key file without leave to create one fails the same
/// way every time, whatever the random source would have given, and asks
/// for no write.
pub proof fn lemma_missing_key_without_create(fresh: Seq<u8>)
    ensures
        load_step(KeyFileReadView::Missing, false, fresh) == (LoadStepView::Failed {
            error: IdentityErrorView::NotFound,
        }),
        !load_step(KeyFileReadView::Missing, false, fresh).writes_key_file(),
{
}

/// A key file of the wrong length is corrupt whether or not creating is
/// allowed, and is never overwritten.
pub proof fn lemma_wrong_length_is_corrupt(bytes: Seq<u8>, allow_create: bool, fresh: Seq<u8>)
    requires
        bytes.len() != SEED_LEN,
    ensures
        load_step(KeyFileReadView::Found { bytes }, allow_create, fresh) == (LoadStepView::Failed {
            error: IdentityErrorView::Corrupt { len: bytes.len() as usize },
        }),
        !load_step(KeyFileReadView::Found { bytes }, allow_create, fresh).writes_key_file(),
{
}

/// The key file is written only where it was missing and creating is
/// allowed: a file that is there is never replaced by loading.
pub proof fn lemma_write_only_when_missing(read: KeyFileReadView, allow_create: bool, fresh: Seq<u8>)
    ensures
        load_step(read, allow_create, fresh).writes_key_file() <==> read is Missing && allow_create,
{
}

} // verus!
