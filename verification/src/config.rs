//! How a database is described before it is opened.
//!
//! Each kind of database has a structure of its own, with the settings that
//! the kind understands; [`Database`] chooses among them. The structures
//! hold plain data and can be written down, read back and compared without
//! a database at hand.

use vstd::prelude::*;
use std::path::PathBuf;
use std::time::Duration;

verus! {

/// `std::path::PathBuf`: a path in the file system. Nothing is claimed of
/// it; the library carries paths and never looks into them.
#[verifier::external_type_specification]
#[verifier::external_body]
pub struct ExPathBuf(std::path::PathBuf);

/// `bytes::Bytes`: the bytes of an encryption key. Nothing is claimed of
/// it; the library carries keys and never looks into them.
#[verifier::external_type_specification]
#[verifier::external_body]
pub struct ExBytes(bytes::Bytes);

/// The database to open: one of five kinds, each with its own settings.
#[derive(Debug)]
pub enum Database {
    /// A database in a local file.
    Local(Local),
    /// A local file that takes replicated frames.
    LocalReplica(LocalReplica),
    /// A database on a remote server.
    Remote(Remote),
    /// A local replica of a remote database.
    RemoteReplica(RemoteReplica),
    /// A local database that is synchronised with a remote one.
    SyncedDatabase(SyncedDatabase),
}

/// A database in a local file.
#[derive(Debug)]
pub struct Local {
    pub path: PathBuf,
    pub encryption_config: Option<EncryptionConfig>,
    pub flags: Option<OpenFlags>,
}

/// How a local file is encrypted.
#[derive(Debug)]
pub struct EncryptionConfig {
    pub cipher: Cipher,
    pub encryption_key: bytes::Bytes,
}

/// The cipher of an encrypted file.
#[derive(Clone, Copy, Debug, PartialEq, Eq, Structural)]
pub enum Cipher {
    /// AES with 256 bit keys in CBC mode, without HMAC.
    Aes256Cbc,
}

impl Default for Cipher {
    fn default() -> (cipher: Cipher)
        ensures
            cipher == Cipher::Aes256Cbc,
    {
        Cipher::Aes256Cbc
    }
}

/// The modes in which a local file is opened.
#[derive(Clone, Copy, Debug, PartialEq, Eq, Structural)]
pub struct OpenFlags {
    pub read_only: bool,
    pub read_write: bool,
    pub create: bool,
}

/// One mode in which a local file can be opened.
#[derive(Clone, Copy, Debug, PartialEq, Eq, Structural)]
pub enum OpenFlag {
    /// The file is opened for reading only.
    ReadOnly,
    /// The file is opened for reading and writing.
    ReadWrite,
    /// The file is created if it does not exist.
    Create,
}

/// A local file that takes replicated frames.
#[derive(Debug)]
pub struct LocalReplica {
    pub path: PathBuf,
    pub encryption_config: Option<EncryptionConfig>,
    pub flags: Option<OpenFlags>,
}

/// A database on a remote server.
#[derive(Clone, Debug)]
pub struct Remote {
    pub url: String,
    pub auth_token: String,
    pub namespace: Option<String>,
    pub remote_encryption: Option<EncryptionContext>,
}

/// A local replica of a remote database.
#[derive(Debug)]
pub struct RemoteReplica {
    pub path: PathBuf,
    pub url: String,
    pub auth_token: String,
    pub encryption_config: Option<EncryptionConfig>,
    pub namespace: Option<String>,
    pub read_your_writes: Option<bool>,
    pub remote_encryption: Option<EncryptionContext>,
    pub sync_interval: Option<Duration>,
    pub sync_protocol: Option<SyncProtocol>,
}

/// What a remote server needs to decrypt a database.
#[derive(Clone, Debug)]
pub struct EncryptionContext {
    /// The key, sent with every request.
    pub key: EncryptionKey,
}

/// The key of a remote encryption, in one of two forms.
#[derive(Clone, Debug)]
pub enum EncryptionKey {
    /// The key as a base64 text.
    Base64Encoded(String),
    /// The key as bytes.
    Bytes(Vec<u8>),
}

/// The protocol by which a replica is synchronised.
#[derive(Clone, Copy, Debug, PartialEq, Eq, Structural)]
pub enum SyncProtocol {
    V1,
    V2,
}

/// A local database that is synchronised with a remote one.
#[derive(Debug)]
pub struct SyncedDatabase {
    pub path: PathBuf,
    pub url: String,
    pub auth_token: String,
    pub read_your_writes: Option<bool>,
    pub remote_encryption: Option<EncryptionContext>,
    pub remote_writes: Option<bool>,
    pub set_push_batch_size: Option<u32>,
    pub sync_interval: Option<Duration>,
}

/// A value of `libsql::OpenFlags`, which is a set of bits, one for each
/// flag. The field is the value as libsql takes it.
#[verifier::external_body]
pub struct LibsqlOpenFlags {
    pub flags: libsql::OpenFlags,
}

/// The modes that a value of `libsql::OpenFlags` stands for: a mode is in
/// the set exactly if the value contains (`OpenFlags::contains`) libsql's
/// flag of that mode, which is `SQLITE_OPEN_READ_ONLY` for `ReadOnly`,
/// `SQLITE_OPEN_READ_WRITE` for `ReadWrite` and `SQLITE_OPEN_CREATE` for
/// `Create`.
pub uninterp spec fn libsql_flags(flags: LibsqlOpenFlags) -> Set<OpenFlag>;

impl LibsqlOpenFlags {
    /// Calls `libsql::OpenFlags::empty`. Claimed, not proved: the result
    /// has no bit set, so it contains none of the three flags.
    #[verifier::external_body]
    fn empty() -> (flags: LibsqlOpenFlags)
        ensures
            libsql_flags(flags) == Set::<OpenFlag>::empty(),
    {
        LibsqlOpenFlags { flags: libsql::OpenFlags::empty() }
    }

    /// Reads `libsql::OpenFlags::SQLITE_OPEN_READ_ONLY`. Claimed, not
    /// proved: it contains its own flag and neither of the other two,
    /// each flag being one bit of its own.
    #[verifier::external_body]
    fn read_only() -> (flags: LibsqlOpenFlags)
        ensures
            libsql_flags(flags) == set![OpenFlag::ReadOnly],
    {
        LibsqlOpenFlags { flags: libsql::OpenFlags::SQLITE_OPEN_READ_ONLY }
    }

    /// Reads `libsql::OpenFlags::SQLITE_OPEN_READ_WRITE`. Claimed, not
    /// proved: it contains its own flag and neither of the other two.
    #[verifier::external_body]
    fn read_write() -> (flags: LibsqlOpenFlags)
        ensures
            libsql_flags(flags) == set![OpenFlag::ReadWrite],
    {
        LibsqlOpenFlags { flags: libsql::OpenFlags::SQLITE_OPEN_READ_WRITE }
    }

    /// Reads `libsql::OpenFlags::SQLITE_OPEN_CREATE`. Claimed, not proved:
    /// it contains its own flag and neither of the other two.
    #[verifier::external_body]
    fn create() -> (flags: LibsqlOpenFlags)
        ensures
            libsql_flags(flags) == set![OpenFlag::Create],
    {
        LibsqlOpenFlags { flags: libsql::OpenFlags::SQLITE_OPEN_CREATE }
    }

    /// Calls the operator `|` of `libsql::OpenFlags`. Claimed, not proved:
    /// the result has the bits of both operands, so it contains a flag
    /// exactly if one of them does.
    #[verifier::external_body]
    fn union(self, other: LibsqlOpenFlags) -> (flags: LibsqlOpenFlags)
        ensures
            libsql_flags(flags) == libsql_flags(self).union(libsql_flags(other)),
    {
        LibsqlOpenFlags { flags: self.flags | other.flags }
    }
}

impl OpenFlags {
    /// The modes that are switched on.
    pub open spec fn modes(self) -> Set<OpenFlag> {
        Set::new(
            |flag: OpenFlag|
                match flag {
                    OpenFlag::ReadOnly => self.read_only,
                    OpenFlag::ReadWrite => self.read_write,
                    OpenFlag::Create => self.create,
                },
        )
    }

    /// The same modes as a set of libsql's open flags.
    pub fn to_libsql(self) -> (flags: LibsqlOpenFlags)
        ensures
            libsql_flags(flags) == self.modes(),
    {
        let read_only = if self.read_only {
            LibsqlOpenFlags::read_only()
        } else {
            LibsqlOpenFlags::empty()
        };
        let read_write = if self.read_write {
            LibsqlOpenFlags::read_write()
        } else {
            LibsqlOpenFlags::empty()
        };
        let create = if self.create {
            LibsqlOpenFlags::create()
        } else {
            LibsqlOpenFlags::empty()
        };
        let flags = read_only.union(read_write).union(create);
        flags
    }
}

} // verus!
