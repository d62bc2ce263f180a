//! Persistent identity and trust records.

use vstd::prelude::*;
use vstd::string::*;
use crate::text::{is_control, is_white_space, text_chars, white_space};

verus! {

pub const MAX_STORAGE_FILE_BYTES: u64 = 524288;

pub const MAX_SERVER_NAME_BYTES: usize = 253;

pub const MAX_DISPLAY_NAME_BYTES: usize = 63;

#[derive(Clone, Copy, Debug, PartialEq, Eq, Structural)]
pub enum StorageError {
    /// Persistent storage input or output failed.
    Io,
    /// Persistent storage data is invalid or unsupported.
    InvalidData,
    /// A persistent storage path is unsafe.
    UnsafePath,
    /// Keychain access requires a signed entitlement.
    MissingEntitlement,
    /// Keychain storage failed.
    Keychain,
}

/// A file of the development storage: the directory, and the name in it.
pub struct StoragePath<'a, Directory> {
    pub directory: &'a Directory,
    pub file_name: &'static str,
}

/// Development storage in private files below one directory.
pub struct FileDevelopmentStorage<Directory> {
    directory: Directory,
}

impl<Directory> FileDevelopmentStorage<Directory> {
    /// The directory that holds the files.
    pub closed spec fn location(self) -> Directory {
        self.directory
    }

    pub fn new(directory: Directory) -> (storage: FileDevelopmentStorage<Directory>)
        ensures
            storage.location() == directory,
    {
        FileDevelopmentStorage { directory }
    }

    /// Where the device identity is kept.
    pub fn identity_path(&self) -> (path: StoragePath<'_, Directory>)
        ensures
            *path.directory == self.location(),
            path.file_name@ == "development-identity-v1.json"@,
    {
        StoragePath { directory: &self.directory, file_name: "development-identity-v1.json" }
    }

    /// Where the trusted peers are kept.
    pub fn trust_path(&self) -> (path: StoragePath<'_, Directory>)
        ensures
            *path.directory == self.location(),
            path.file_name@ == "development-trust-v1.json"@,
    {
        StoragePath { directory: &self.directory, file_name: "development-trust-v1.json" }
    }
}

/// What stands at a path, links not followed.
#[derive(Clone, Copy, Debug, PartialEq, Eq, Structural)]
pub struct PathSight {
    pub is_directory: bool,
    pub is_file: bool,
    pub is_symlink: bool,
    pub length: u64,
}

/// What is to be done about the storage directory.
#[derive(Clone, Copy, Debug, PartialEq, Eq, Structural)]
pub enum DirectoryStep {
    Create,
    Use,
}

/// A directory that is there already must be one, and no link; one that is not
/// there is created.
pub fn prepare_directory(sight: Option<PathSight>) -> (step: Result<DirectoryStep, StorageError>)
    ensures
        step == match sight {
            Some(seen) => if seen.is_directory && !seen.is_symlink {
                Ok::<DirectoryStep, StorageError>(DirectoryStep::Use)
            } else {
                Err(StorageError::UnsafePath)
            },
            None => Ok(DirectoryStep::Create),
        },
{
    match sight {
        Some(seen) => if !seen.is_directory || seen.is_symlink {
            Err(StorageError::UnsafePath)
        } else {
            Ok(DirectoryStep::Use)
        },
        None => Ok(DirectoryStep::Create),
    }
}

/// Whether a stored file may be read: `Ok(false)` when there is none, `Ok(true)`
/// when it is an ordinary file of a bounded length.
pub fn read_allowed(sight: Result<Option<PathSight>, ()>) -> (allowed: Result<bool, StorageError>)
    ensures
        allowed == match sight {
            Err(_) => Err::<bool, StorageError>(StorageError::Io),
            Ok(None) => Ok(false),
            Ok(Some(seen)) => if seen.is_file && !seen.is_symlink && seen.length
                <= MAX_STORAGE_FILE_BYTES {
                Ok(true)
            } else {
                Err(StorageError::UnsafePath)
            },
        },
{
    match sight {
        Err(_) => Err(StorageError::Io),
        Ok(None) => Ok(false),
        Ok(Some(seen)) => if !seen.is_file || seen.is_symlink || seen.length
            > MAX_STORAGE_FILE_BYTES {
            Err(StorageError::UnsafePath)
        } else {
            Ok(true)
        },
    }
}

/// Whether `length` bytes may replace what stands at a path. What is too long
/// is refused first; what is there and no ordinary file is left alone.
pub fn write_allowed(length: u64, sight: Option<PathSight>) -> (allowed: Result<(), StorageError>)
    ensures
        allowed == if length > MAX_STORAGE_FILE_BYTES {
            Err::<(), StorageError>(StorageError::InvalidData)
        } else {
            match sight {
                Some(seen) => if seen.is_file && !seen.is_symlink {
                    Ok(())
                } else {
                    Err(StorageError::UnsafePath)
                },
                None => Ok(()),
            }
        },
{
    if length > MAX_STORAGE_FILE_BYTES {
        return Err(StorageError::InvalidData);
    }
    match sight {
        Some(seen) => if !seen.is_file || seen.is_symlink {
            Err(StorageError::UnsafePath)
        } else {
            Ok(())
        },
        None => Ok(()),
    }
}

pub open spec fn storage_result(valid: bool) -> Result<(), StorageError> {
    if valid {
        Ok(())
    } else {
        Err(StorageError::InvalidData)
    }
}

/// A stored payload is not empty and not too long.
pub fn validate_payload_size(bytes: &[u8]) -> (checked: Result<(), StorageError>)
    ensures
        checked == storage_result(1 <= bytes@.len() <= MAX_STORAGE_FILE_BYTES),
{
    if bytes.len() == 0 || bytes.len() as u64 > MAX_STORAGE_FILE_BYTES {
        Err(StorageError::InvalidData)
    } else {
        Ok(())
    }
}

pub open spec fn server_name_form(name: Seq<char>) -> bool {
    1 <= name.len() <= MAX_SERVER_NAME_BYTES && vstd::utf8::is_ascii_chars(name)
}

/// A server name is ASCII and of a bounded length.
pub fn validate_server_name(name: &str) -> (checked: Result<(), StorageError>)
    ensures
        checked == storage_result(server_name_form(name@)),
{
    if !name.is_ascii() {
        return Err(StorageError::InvalidData);
    }
    proof {
        is_ascii_spec_bytes(name);
    }
    if name.is_empty() || name.as_bytes().len() > MAX_SERVER_NAME_BYTES {
        Err(StorageError::InvalidData)
    } else {
        Ok(())
    }
}

/// A display name: short, without white space at either end, and without
/// control characters.
pub open spec fn display_name_form(name: Seq<char>) -> bool {
    &&& name.len() >= 1
    &&& vstd::utf8::encode_utf8(name).len() <= MAX_DISPLAY_NAME_BYTES
    &&& !is_white_space(name[0])
    &&& !is_white_space(name[name.len() - 1])
    &&& forall|i: int| 0 <= i < name.len() ==> !is_control(#[trigger] name[i])
}

/// Checks a name that is shown to the user.
pub fn validate_display_name(name: &str) -> (checked: Result<(), StorageError>)
    ensures
        checked == storage_result(display_name_form(name@)),
{
    let chars = text_chars(name);
    let total: usize = chars.len();
    if total == 0 || name.as_bytes().len() > MAX_DISPLAY_NAME_BYTES {
        return Err(StorageError::InvalidData);
    }
    if white_space(chars[0]) || white_space(chars[total - 1]) {
        return Err(StorageError::InvalidData);
    }
    let mut at: usize = 0;
    while at < total
        invariant
            at <= total,
            total == chars@.len(),
            chars@ == name@,
            forall|i: int| 0 <= i < at ==> !is_control(#[trigger] chars@[i]),
        decreases total - at,
    {
        let code: u32 = chars[at] as u32;
        if code <= 0x1f || (0x7f <= code && code <= 0x9f) {
            assert(is_control(chars@[at as int]));
            return Err(StorageError::InvalidData);
        }
        at = at + 1;
    }
    Ok(())
}

/// A server name is one to two hundred and fifty-three characters of ASCII.
pub proof fn law_server_names_are_short_ascii(name: Seq<char>)
    ensures
        server_name_form(name) <==> 1 <= name.len() <= 253 && forall|i: int|
            0 <= i < name.len() ==> 0 <= #[trigger] name[i] as int <= 127,
{
}

/// A display name has a character at least and sixty-three bytes at most, no white
/// space at its ends and no control character anywhere.
pub proof fn law_display_names_are_clean(name: Seq<char>)
    ensures
        display_name_form(name) <==> {
            &&& name.len() > 0
            &&& vstd::utf8::encode_utf8(name).len() <= 63
            &&& !is_white_space(name[0])
            &&& !is_white_space(name.last())
            &&& forall|i: int| 0 <= i < name.len() ==> !is_control(#[trigger] name[i])
        },
        storage_result(true) is Ok,
        storage_result(false) == Err::<(), StorageError>(StorageError::InvalidData),
        MAX_STORAGE_FILE_BYTES == 512 * 1024,
{
}

/// Links are followed neither to a directory nor to a file, to read or to
/// write; what is not there is created, found missing or written anew.
pub proof fn law_links_are_not_followed(
    seen: PathSight,
    length: u64,
    step: Result<DirectoryStep, StorageError>,
    read: Result<bool, StorageError>,
    written: Result<(), StorageError>,
)
    requires
        call_ensures(prepare_directory, (Some(seen),), step),
        call_ensures(read_allowed, (Ok::<Option<PathSight>, ()>(Some(seen)),), read),
        call_ensures(write_allowed, (length, Some(seen)), written),
    ensures
        seen.is_symlink ==> step is Err && read is Err && written is Err,
        step is Ok <==> seen.is_directory && !seen.is_symlink,
        step is Ok ==> (step matches Ok(DirectoryStep::Use)),
        read is Ok <==> seen.is_file && !seen.is_symlink && seen.length <= MAX_STORAGE_FILE_BYTES,
        read is Ok ==> read == Ok::<bool, StorageError>(true),
        written is Ok <==> seen.is_file && !seen.is_symlink && length <= MAX_STORAGE_FILE_BYTES,
        step matches Err(error) ==> error is UnsafePath,
        read matches Err(error) ==> error is UnsafePath,
        written matches Err(error) ==> (error is InvalidData <==> length > MAX_STORAGE_FILE_BYTES),
        written matches Err(error) ==> error is InvalidData || error is UnsafePath,
{
}

/// What is missing is made, found missing, or written where it fits.
pub proof fn law_missing_paths_are_no_failure(
    length: u64,
    step: Result<DirectoryStep, StorageError>,
    read: Result<bool, StorageError>,
    unseen: Result<bool, StorageError>,
    written: Result<(), StorageError>,
)
    requires
        call_ensures(prepare_directory, (None::<PathSight>,), step),
        call_ensures(read_allowed, (Ok::<Option<PathSight>, ()>(None),), read),
        call_ensures(read_allowed, (Err::<Option<PathSight>, ()>(()),), unseen),
        call_ensures(write_allowed, (length, None::<PathSight>), written),
    ensures
        step matches Ok(DirectoryStep::Create),
        read == Ok::<bool, StorageError>(false),
        unseen == Err::<bool, StorageError>(StorageError::Io),
        written is Ok <==> length <= MAX_STORAGE_FILE_BYTES,
{
}

/// A payload is neither empty nor too long.
pub proof fn law_payloads_have_a_size(bytes: &[u8], checked: Result<(), StorageError>)
    requires
        call_ensures(validate_payload_size, (bytes,), checked),
    ensures
        checked is Ok <==> 0 < bytes@.len() <= MAX_STORAGE_FILE_BYTES,
{
}

} // verus!
