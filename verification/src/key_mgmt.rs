//! At-rest storage of this device's signing and key-wrap keypairs.
//!
//! The four key files live under one directory. A `KeyManager` holds what the
//! files contain and decides what is written to them and how it is read back;
//! reading and writing the files themselves is left to the caller, who loads
//! each file's contents into the manager and writes out what it then holds.

use vstd::prelude::*;
use vstd::string::StringExecFns;
use crate::bytes::{copy_range, option_bytes};
use crate::encoding::{base64_decode, base64_decoding, base64_encode, base64_encoding, encodable};

verus! {

/// How private keys are protected at rest.
#[derive(Clone, Copy, Debug, PartialEq, Eq, Structural)]
pub enum KeyProtection {
    /// The platform's data protection interface. It does not transform the
    /// bytes yet: a private key is stored as it is.
    Dpapi,
    /// No protection: a private key is stored in base64, which anyone can
    /// reverse.
    Encoded,
}

/// The four key files.
#[derive(Clone, Copy, Debug, PartialEq, Eq, Structural)]
pub enum KeyFile {
    SignPrivate,
    SignPublic,
    BoxPrivate,
    BoxPublic,
}

/// Why a key could not be had.
#[derive(Clone, Copy, Debug, PartialEq, Eq, Structural)]
pub enum KeyStoreError {
    /// The key file, or the directory it should be in, is not there.
    Io,
    /// The key file's contents do not decode.
    Decode,
}

/// The name of a key file within the key directory.
pub open spec fn key_file_name(which: KeyFile) -> Seq<char> {
    match which {
        KeyFile::SignPrivate => "sign_private.bin"@,
        KeyFile::SignPublic => "sign_public.bin"@,
        KeyFile::BoxPrivate => "box_private.bin"@,
        KeyFile::BoxPublic => "box_public.bin"@,
    }
}

/// Whether a key file holds a private key.
pub open spec fn is_private(which: KeyFile) -> bool {
    which == KeyFile::SignPrivate || which == KeyFile::BoxPrivate
}

/// What is written to a key file for `key`: a private key passes through the
/// protection in effect, a public key is written in base64.
pub open spec fn stored_form(protection: KeyProtection, which: KeyFile, key: Seq<u8>) -> Seq<u8> {
    if is_private(which) && protection == KeyProtection::Dpapi {
        key
    } else {
        base64_encoding(key)
    }
}

/// The key that the contents of a key file stand for, if any.
pub open spec fn loaded_form(protection: KeyProtection, which: KeyFile, contents: Seq<u8>) -> Option<
    Seq<u8>,
> {
    if is_private(which) && protection == KeyProtection::Dpapi {
        Some(contents)
    } else {
        base64_decoding(contents)
    }
}

/// What reading a key gives, from what its file holds.
pub open spec fn key_read(protection: KeyProtection, which: KeyFile, file: Option<Seq<u8>>) -> Result<
    Seq<u8>,
    KeyStoreError,
> {
    match file {
        None => Err(KeyStoreError::Io),
        Some(contents) => match loaded_form(protection, which, contents) {
            Some(key) => Ok(key),
            None => Err(KeyStoreError::Decode),
        },
    }
}

/// The view of the result of reading a key.
pub open spec fn read_view(read: Result<Vec<u8>, KeyStoreError>) -> Result<Seq<u8>, KeyStoreError> {
    match read {
        Ok(key) => Ok(key@),
        Err(e) => Err(e),
    }
}

/// The directory under the platform's data directory where keys are kept.
pub open spec fn default_key_dir(data_dir: Seq<char>) -> Seq<char> {
    data_dir + "/ScingOS/spectrocap_phase2a"@
}

/// Protects a private key through the platform's data protection interface,
/// which leaves the bytes as they are.
pub fn dpapi_protect(data: &[u8]) -> (protected: Vec<u8>)
    ensures
        protected@ == data@,
{
    let protected = copy_range(data, 0, data.len());
    assert(data@.subrange(0, data@.len() as int) =~= data@);
    protected
}

/// Reverses `dpapi_protect`.
pub fn dpapi_unprotect(encrypted: &[u8]) -> (data: Vec<u8>)
    ensures
        data@ == encrypted@,
{
    let data = copy_range(encrypted, 0, encrypted.len());
    assert(encrypted@.subrange(0, encrypted@.len() as int) =~= encrypted@);
    data
}

/// Calls `dirs::data_dir`, which asks the platform for the user's data
/// directory. Nothing is claimed of the answer: it depends on the machine.
#[verifier::external_body]
fn platform_data_dir() -> (dir: Option<String>) {
    dirs::data_dir().map(|path| path.to_string_lossy().into_owned())
}

pub struct KeyManager {
    key_dir: String,
    protection: KeyProtection,
    sign_private: Option<Vec<u8>>,
    sign_public: Option<Vec<u8>>,
    box_private: Option<Vec<u8>>,
    box_public: Option<Vec<u8>>,
}

impl KeyManager {
    /// The directory that the key files are in.
    pub closed spec fn dir(&self) -> Seq<char> {
        self.key_dir@
    }

    /// The protection that private keys pass through.
    pub closed spec fn protection_level(&self) -> KeyProtection {
        self.protection
    }

    /// What a key file holds; `None` when the file is not there.
    pub closed spec fn file(&self, which: KeyFile) -> Option<Seq<u8>> {
        match which {
            KeyFile::SignPrivate => option_bytes(self.sign_private),
            KeyFile::SignPublic => option_bytes(self.sign_public),
            KeyFile::BoxPrivate => option_bytes(self.box_private),
            KeyFile::BoxPublic => option_bytes(self.box_public),
        }
    }

    /// Whether `other` has the same directory and protection, and the same
    /// contents in every key file but `which`.
    pub open spec fn same_but(&self, other: &KeyManager, which: KeyFile) -> bool {
        &&& self.dir() == other.dir()
        &&& self.protection_level() == other.protection_level()
        &&& forall|f: KeyFile| f != which ==> self.file(f) == other.file(f)
    }

    /// What reading a key gives in this state of the store.
    pub open spec fn reads(&self, which: KeyFile) -> Result<Seq<u8>, KeyStoreError> {
        key_read(self.protection_level(), which, self.file(which))
    }

    /// The path of a key file.
    pub open spec fn path_of(&self, which: KeyFile) -> Seq<char> {
        self.dir() + "/"@ + key_file_name(which)
    }

    /// A manager for the key directory `key_dir`, with no key file loaded and
    /// private keys stored without protection, in base64.
    pub fn new(key_dir: &str) -> (manager: KeyManager)
        ensures
            manager.dir() == key_dir@,
            manager.protection_level() == KeyProtection::Encoded,
            forall|f: KeyFile| manager.file(f) is None,
    {
        Self::with_protection(key_dir, KeyProtection::Encoded)
    }

    /// A manager for the key directory `key_dir`, with no key file loaded and
    /// the given protection for private keys.
    pub fn with_protection(key_dir: &str, protection: KeyProtection) -> (manager: KeyManager)
        ensures
            manager.dir() == key_dir@,
            manager.protection_level() == protection,
            forall|f: KeyFile| manager.file(f) is None,
    {
        KeyManager {
            key_dir: key_dir.to_string(),
            protection,
            sign_private: None,
            sign_public: None,
            box_private: None,
            box_public: None,
        }
    }

    /// A manager for the default key directory under the platform's data
    /// directory `data_dir`. Fails with `Io` exactly when there is no such
    /// directory.
    pub fn in_data_dir(data_dir: Option<String>) -> (made: Result<KeyManager, KeyStoreError>)
        ensures
            match made {
                Ok(manager) => data_dir matches Some(dir) && manager.dir() == default_key_dir(dir@)
                    && manager.protection_level() == KeyProtection::Encoded && forall|f: KeyFile|
                    manager.file(f) is None,
                Err(e) => data_dir is None && e == KeyStoreError::Io,
            },
    {
        match data_dir {
            Some(dir) => {
                let key_dir = dir.concat("/ScingOS/spectrocap_phase2a");
                Ok(Self::new(key_dir.as_str()))
            },
            None => Err(KeyStoreError::Io),
        }
    }

    /// A manager for the default key directory of this user, which lies under
    /// the data directory that the platform names. Fails with `Io` when the
    /// platform names none.
    pub fn default_windows() -> (made: Result<KeyManager, KeyStoreError>)
        ensures
            match made {
                Ok(manager) => (exists|data_dir: Seq<char>|
                    manager.dir() == #[trigger] default_key_dir(data_dir))
                    && manager.protection_level() == KeyProtection::Encoded
                    && forall|f: KeyFile| manager.file(f) is None,
                Err(e) => e == KeyStoreError::Io,
            },
    {
        Self::in_data_dir(platform_data_dir())
    }

    /// The directory that the key files are in.
    pub fn key_dir(&self) -> (dir: String)
        ensures
            dir@ == self.dir(),
    {
        self.key_dir.clone()
    }

    /// The protection that private keys pass through.
    pub fn protection(&self) -> (level: KeyProtection)
        ensures
            level == self.protection_level(),
    {
        self.protection
    }

    /// Takes in what a key file was found to hold; `None` for a file that is
    /// not there or cannot be read.
    pub fn load(&mut self, which: KeyFile, contents: Option<Vec<u8>>)
        ensures
            final(self).file(which) == option_bytes(contents),
            final(self).same_but(old(self), which),
    {
        match which {
            KeyFile::SignPrivate => {
                self.sign_private = contents;
            },
            KeyFile::SignPublic => {
                self.sign_public = contents;
            },
            KeyFile::BoxPrivate => {
                self.box_private = contents;
            },
            KeyFile::BoxPublic => {
                self.box_public = contents;
            },
        }
    }

    /// What a key file is to hold; `None` for a file that is not to be there.
    pub fn contents(&self, which: KeyFile) -> (held: Option<Vec<u8>>)
        ensures
            option_bytes(held) == self.file(which),
    {
        let slot = match which {
            KeyFile::SignPrivate => &self.sign_private,
            KeyFile::SignPublic => &self.sign_public,
            KeyFile::BoxPrivate => &self.box_private,
            KeyFile::BoxPublic => &self.box_public,
        };
        match slot {
            Some(bytes) => {
                let held = copy_range(bytes.as_slice(), 0, bytes.len());
                assert(bytes@.subrange(0, bytes@.len() as int) =~= bytes@);
                Some(held)
            },
            None => None,
        }
    }

    /// Stores the signing keypair: the private key in its protected form, the
    /// public key in base64.
    pub fn store_sign_keys(&mut self, private_key: &[u8], public_key: &[u8])
        requires
            encodable(private_key@),
            encodable(public_key@),
        ensures
            final(self).file(KeyFile::SignPrivate) == Some(
                stored_form(old(self).protection_level(), KeyFile::SignPrivate, private_key@),
            ),
            final(self).file(KeyFile::SignPublic) == Some(base64_encoding(public_key@)),
            final(self).reads(KeyFile::SignPrivate) == Ok::<Seq<u8>, KeyStoreError>(private_key@),
            final(self).reads(KeyFile::SignPublic) == Ok::<Seq<u8>, KeyStoreError>(public_key@),
            final(self).file(KeyFile::BoxPrivate) == old(self).file(KeyFile::BoxPrivate),
            final(self).file(KeyFile::BoxPublic) == old(self).file(KeyFile::BoxPublic),
            final(self).dir() == old(self).dir(),
            final(self).protection_level() == old(self).protection_level(),
    {
        self.store_key(KeyFile::SignPrivate, private_key);
        self.store_public_key(KeyFile::SignPublic, public_key);
    }

    /// Stores the key-wrap keypair: the private key in its protected form, the
    /// public key in base64.
    pub fn store_box_keys(&mut self, private_key: &[u8], public_key: &[u8])
        requires
            encodable(private_key@),
            encodable(public_key@),
        ensures
            final(self).file(KeyFile::BoxPrivate) == Some(
                stored_form(old(self).protection_level(), KeyFile::BoxPrivate, private_key@),
            ),
            final(self).file(KeyFile::BoxPublic) == Some(base64_encoding(public_key@)),
            final(self).reads(KeyFile::BoxPrivate) == Ok::<Seq<u8>, KeyStoreError>(private_key@),
            final(self).reads(KeyFile::BoxPublic) == Ok::<Seq<u8>, KeyStoreError>(public_key@),
            final(self).file(KeyFile::SignPrivate) == old(self).file(KeyFile::SignPrivate),
            final(self).file(KeyFile::SignPublic) == old(self).file(KeyFile::SignPublic),
            final(self).dir() == old(self).dir(),
            final(self).protection_level() == old(self).protection_level(),
    {
        self.store_key(KeyFile::BoxPrivate, private_key);
        self.store_public_key(KeyFile::BoxPublic, public_key);
    }

    /// The signing private key. Fails with `Io` when its file is not there and
    /// with `Decode` when the file's contents do not decode.
    pub fn get_sign_private_key(&self) -> (key: Result<Vec<u8>, KeyStoreError>)
        ensures
            read_view(key) == self.reads(KeyFile::SignPrivate),
    {
        self.retrieve_key(KeyFile::SignPrivate)
    }

    /// The signing public key. Fails as `get_sign_private_key` does.
    pub fn get_sign_public_key(&self) -> (key: Result<Vec<u8>, KeyStoreError>)
        ensures
            read_view(key) == self.reads(KeyFile::SignPublic),
    {
        self.retrieve_public_key(KeyFile::SignPublic)
    }

    /// The key-wrap private key. Fails as `get_sign_private_key` does.
    pub fn get_box_private_key(&self) -> (key: Result<Vec<u8>, KeyStoreError>)
        ensures
            read_view(key) == self.reads(KeyFile::BoxPrivate),
    {
        self.retrieve_key(KeyFile::BoxPrivate)
    }

    /// The key-wrap public key. Fails as `get_sign_private_key` does.
    pub fn get_box_public_key(&self) -> (key: Result<Vec<u8>, KeyStoreError>)
        ensures
            read_view(key) == self.reads(KeyFile::BoxPublic),
    {
        self.retrieve_public_key(KeyFile::BoxPublic)
    }

    /// Whether both private-key files are there.
    pub fn has_keys(&self) -> (both: bool)
        ensures
            both == (self.file(KeyFile::SignPrivate) is Some && self.file(KeyFile::BoxPrivate)
                is Some),
    {
        self.sign_private.is_some() && self.box_private.is_some()
    }

    /// Removes all four key files. Clearing a store that holds none changes
    /// nothing.
    pub fn clear_keys(&mut self)
        ensures
            forall|f: KeyFile| final(self).file(f) is None,
            final(self).dir() == old(self).dir(),
            final(self).protection_level() == old(self).protection_level(),
    {
        self.sign_private = None;
        self.sign_public = None;
        self.box_private = None;
        self.box_public = None;
    }

    /// The path of the signing private key's file.
    pub fn sign_private_path(&self) -> (path: String)
        ensures
            path@ == self.path_of(KeyFile::SignPrivate),
    {
        self.key_dir.clone().concat("/").concat("sign_private.bin")
    }

    /// The path of the signing public key's file.
    pub fn sign_public_path(&self) -> (path: String)
        ensures
            path@ == self.path_of(KeyFile::SignPublic),
    {
        self.key_dir.clone().concat("/").concat("sign_public.bin")
    }

    /// The path of the key-wrap private key's file.
    pub fn box_private_path(&self) -> (path: String)
        ensures
            path@ == self.path_of(KeyFile::BoxPrivate),
    {
        self.key_dir.clone().concat("/").concat("box_private.bin")
    }

    /// The path of the key-wrap public key's file.
    pub fn box_public_path(&self) -> (path: String)
        ensures
            path@ == self.path_of(KeyFile::BoxPublic),
    {
        self.key_dir.clone().concat("/").concat("box_public.bin")
    }

    /// Stores a private key in its protected form.
    fn store_key(&mut self, which: KeyFile, key_bytes: &[u8])
        requires
            is_private(which),
            encodable(key_bytes@),
        ensures
            final(self).file(which) == Some(
                stored_form(old(self).protection_level(), which, key_bytes@),
            ),
            final(self).reads(which) == Ok::<Seq<u8>, KeyStoreError>(key_bytes@),
            final(self).same_but(old(self), which),
    {
        let stored = match self.protection {
            KeyProtection::Dpapi => dpapi_protect(key_bytes),
            KeyProtection::Encoded => base64_encode(key_bytes),
        };
        self.load(which, Some(stored));
    }

    /// Stores a public key in base64.
    fn store_public_key(&mut self, which: KeyFile, key_bytes: &[u8])
        requires
            !is_private(which),
            encodable(key_bytes@),
        ensures
            final(self).file(which) == Some(base64_encoding(key_bytes@)),
            final(self).reads(which) == Ok::<Seq<u8>, KeyStoreError>(key_bytes@),
            final(self).same_but(old(self), which),
    {
        let stored = base64_encode(key_bytes);
        self.load(which, Some(stored));
    }

    /// Reads a private key back from its protected form.
    fn retrieve_key(&self, which: KeyFile) -> (key: Result<Vec<u8>, KeyStoreError>)
        requires
            is_private(which),
        ensures
            read_view(key) == self.reads(which),
    {
        let slot = match which {
            KeyFile::SignPrivate => &self.sign_private,
            _ => &self.box_private,
        };
        let stored = match slot {
            Some(bytes) => bytes,
            None => return Err(KeyStoreError::Io),
        };
        match self.protection {
            KeyProtection::Dpapi => Ok(dpapi_unprotect(stored.as_slice())),
            KeyProtection::Encoded => match base64_decode(stored.as_slice()) {
                Ok(key) => Ok(key),
                Err(_) => Err(KeyStoreError::Decode),
            },
        }
    }

    /// Reads a public key back from base64.
    fn retrieve_public_key(&self, which: KeyFile) -> (key: Result<Vec<u8>, KeyStoreError>)
        requires
            !is_private(which),
        ensures
            read_view(key) == self.reads(which),
    {
        let slot = match which {
            KeyFile::SignPublic => &self.sign_public,
            _ => &self.box_public,
        };
        let stored = match slot {
            Some(bytes) => bytes,
            None => return Err(KeyStoreError::Io),
        };
        match base64_decode(stored.as_slice()) {
            Ok(key) => Ok(key),
            Err(_) => Err(KeyStoreError::Decode),
        }
    }
}

} // verus!
