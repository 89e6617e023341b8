//! Obtaining `micromamba`: where it is kept, where it is downloaded from, and
//! which file of the downloaded archive it is.
use vstd::prelude::*;

use crate::csmrc::Config;
use crate::platform::{Platform, TargetArch, TargetOs};
use crate::micromamba::{str_texts, texts};
use crate::text::{concat2, concat3, owned, same_text};

verus! {

/// Why `micromamba` could not be obtained.
#[derive(Debug, PartialEq, Eq)]
pub enum DownloadError {
    IncompatibleOS,
    IncompatibleArch,
    BinNotInArchive,
    DownloadDisabled,
    /// An I/O error, by its kind and text.
    IO { kind: IoErrorKind, message: String },
    /// A failed download, by its text.
    Reqwest(String),
}

/// The kind of an I/O error (`std::io::ErrorKind`), for the kinds that
/// `csm` tells apart; every other kind is `Other`.
#[derive(Clone, Copy, Debug, PartialEq, Eq, Structural)]
pub enum IoErrorKind {
    NotFound,
    PermissionDenied,
    AlreadyExists,
    InvalidInput,
    InvalidData,
    UnexpectedEof,
    Other,
}

#[verifier::external_type_specification]
#[verifier::external_body]
pub struct ExIoError(std::io::Error);

/// The kind of an I/O error (`std::io::Error::kind`).
#[verifier::external_body]
fn io_error_kind(e: &std::io::Error) -> IoErrorKind {
    match e.kind() {
        std::io::ErrorKind::NotFound => IoErrorKind::NotFound,
        std::io::ErrorKind::PermissionDenied => IoErrorKind::PermissionDenied,
        std::io::ErrorKind::AlreadyExists => IoErrorKind::AlreadyExists,
        std::io::ErrorKind::InvalidInput => IoErrorKind::InvalidInput,
        std::io::ErrorKind::InvalidData => IoErrorKind::InvalidData,
        std::io::ErrorKind::UnexpectedEof => IoErrorKind::UnexpectedEof,
        _ => IoErrorKind::Other,
    }
}

/// The text of an I/O error (its `Display`).
#[verifier::external_body]
fn io_error_text(e: &std::io::Error) -> String {
    e.to_string()
}

/// A `DownloadError::IO` for an I/O error.
fn download_io_error(e: &std::io::Error) -> (r: DownloadError)
    ensures
        r is IO,
{
    DownloadError::IO { kind: io_error_kind(e), message: io_error_text(e) }
}

/// The text that describes each error.
pub open spec fn spec_download_error_message(e: DownloadError) -> Seq<char> {
    match e {
        DownloadError::IncompatibleOS => "Incompatible OS for micromamba download"@,
        DownloadError::IncompatibleArch => "Incompatible architecture/OS combination for micromamba download"@,
        DownloadError::BinNotInArchive => "micromamba binary not found in downloaded archive"@,
        DownloadError::DownloadDisabled => "Wanted to download micromamba, but doing so is disabled by csm configuration"@,
        DownloadError::IO { kind, message } => "IO error: "@ + message@,
        DownloadError::Reqwest(m) => "Failed to download micromamba: "@ + m@,
    }
}

impl DownloadError {
    /// The text that describes the error.
    pub fn message(&self) -> (r: String)
        ensures
            r@ == spec_download_error_message(*self),
    {
        match self {
            DownloadError::IncompatibleOS => owned("Incompatible OS for micromamba download"),
            DownloadError::IncompatibleArch => owned(
                "Incompatible architecture/OS combination for micromamba download",
            ),
            DownloadError::BinNotInArchive => owned(
                "micromamba binary not found in downloaded archive",
            ),
            DownloadError::DownloadDisabled => owned(
                "Wanted to download micromamba, but doing so is disabled by csm configuration",
            ),
            DownloadError::IO { kind, message } => concat2("IO error: ", message.as_str()),
            DownloadError::Reqwest(m) => concat2("Failed to download micromamba: ", m.as_str()),
        }
    }
}

/// The name of the `micromamba` executable on each operating system.
pub open spec fn spec_executable_name(os: TargetOs) -> Option<Seq<char>> {
    match os {
        TargetOs::Linux => Some("micromamba"@),
        TargetOs::Windows => Some("micromamba.exe"@),
        TargetOs::Other => None,
    }
}

/// The platform part of the download URL.
pub open spec fn spec_os_arch(platform: Platform) -> Result<Seq<char>, DownloadError> {
    match platform.os {
        TargetOs::Linux => match platform.arch {
            TargetArch::X86_64 => Ok("linux-64"@),
            TargetArch::Aarch64 => Ok("linux-aarch64"@),
            TargetArch::Other => Err(DownloadError::IncompatibleArch),
        },
        TargetOs::Windows => match platform.arch {
            TargetArch::X86_64 => Ok("win-64"@),
            _ => Err(DownloadError::IncompatibleArch),
        },
        TargetOs::Other => Err(DownloadError::IncompatibleOS),
    }
}

/// The URL that `micromamba` is downloaded from.
pub open spec fn spec_micromamba_url(os_arch: Seq<char>) -> Seq<char> {
    "https://micro.mamba.pm/api/micromamba/"@ + os_arch + "/latest"@
}

/// The path of the executable inside the downloaded archive, by component.
pub open spec fn spec_archive_binary_path(os: TargetOs) -> Option<Seq<Seq<char>>> {
    match os {
        TargetOs::Linux => Some(seq!["bin"@, "micromamba"@]),
        TargetOs::Windows => Some(seq!["Library"@, "bin"@, "micromamba.exe"@]),
        TargetOs::Other => None,
    }
}

/// The name of the `micromamba` executable.
pub fn micromamba_executable_name(platform: Platform) -> (r: Result<&'static str, DownloadError>)
    ensures
        match spec_executable_name(platform.os) {
            Some(n) => r matches Ok(s) && s@ == n,
            None => r == Err::<&'static str, DownloadError>(DownloadError::IncompatibleOS),
        },
{
    match platform.os {
        TargetOs::Linux => Ok("micromamba"),
        TargetOs::Windows => Ok("micromamba.exe"),
        TargetOs::Other => Err(DownloadError::IncompatibleOS),
    }
}

/// The URL that `micromamba` is downloaded from.
pub fn micromamba_url(platform: Platform) -> (r: Result<String, DownloadError>)
    ensures
        match spec_os_arch(platform) {
            Ok(a) => r matches Ok(u) && u@ == spec_micromamba_url(a),
            Err(e) => r == Err::<String, DownloadError>(e),
        },
{
    let os_arch = match platform.os {
        TargetOs::Linux => match platform.arch {
            TargetArch::X86_64 => "linux-64",
            TargetArch::Aarch64 => "linux-aarch64",
            TargetArch::Other => {
                return Err(DownloadError::IncompatibleArch);
            },
        },
        TargetOs::Windows => match platform.arch {
            TargetArch::X86_64 => "win-64",
            _ => {
                return Err(DownloadError::IncompatibleArch);
            },
        },
        TargetOs::Other => {
            return Err(DownloadError::IncompatibleOS);
        },
    };
    Ok(concat3("https://micro.mamba.pm/api/micromamba/", os_arch, "/latest"))
}

/// Which directory is the cache directory of `csm`.
#[derive(Debug, PartialEq, Eq)]
pub enum CacheDirChoice {
    /// The directory set in the configuration.
    Configured(String),
    /// The directory `subdir` below the user cache directory `base`.
    UnderUserCache { base: String, subdir: &'static str },
}

/// The cache directory: the configured one if there is one, else `csm` below
/// the user's cache directory (`user_cache_dir`, if it could be determined).
pub fn csm_cache_dir(config: &Config, user_cache_dir: Option<String>) -> (r: Result<
    CacheDirChoice,
    DownloadError,
>)
    ensures
        match config.cache_dir {
            Some(d) => r == Ok::<CacheDirChoice, DownloadError>(CacheDirChoice::Configured(d)),
            None => match user_cache_dir {
                Some(u) => r matches Ok(CacheDirChoice::UnderUserCache { base, subdir }) && base == u
                    && subdir@ == "csm"@,
                None => r matches Err(DownloadError::IO { kind, message }) && kind
                    == IoErrorKind::NotFound && message@ == "could not determine user cache directory"@,
            },
        },
{
    match &config.cache_dir {
        Some(d) => Ok(CacheDirChoice::Configured(d.clone())),
        None => match user_cache_dir {
            Some(u) => Ok(CacheDirChoice::UnderUserCache { base: u, subdir: "csm" }),
            None => Err(
                DownloadError::IO {
                    kind: IoErrorKind::NotFound,
                    message: owned("could not determine user cache directory"),
                },
            ),
        },
    }
}

/// What to do to have a `micromamba` binary in the cache directory.
#[derive(Debug, PartialEq, Eq)]
pub enum DownloadStep {
    /// The binary is there already.
    UseCached,
    /// Download the archive from this URL.
    Fetch(String),
}

/// Whether and from where to download `micromamba`, given whether the cache
/// directory holds it already (`cached`). A download is never attempted when
/// the configuration disables it.
pub fn download_micromamba(config: &Config, platform: Platform, cached: bool) -> (r: Result<
    DownloadStep,
    DownloadError,
>)
    ensures
        spec_executable_name(platform.os) is None ==> r == Err::<DownloadStep, DownloadError>(
            DownloadError::IncompatibleOS,
        ),
        spec_executable_name(platform.os) is Some ==> if cached {
            r == Ok::<DownloadStep, DownloadError>(DownloadStep::UseCached)
        } else {
            match spec_os_arch(platform) {
                Err(e) => r == Err::<DownloadStep, DownloadError>(e),
                Ok(a) => if config.download_micromamba {
                    r matches Ok(DownloadStep::Fetch(u)) && u@ == spec_micromamba_url(a)
                } else {
                    r == Err::<DownloadStep, DownloadError>(DownloadError::DownloadDisabled)
                },
            }
        },
{
    let _exe = micromamba_executable_name(platform)?;
    if cached {
        return Ok(DownloadStep::UseCached);
    }
    let url = micromamba_url(platform)?;
    if !config.download_micromamba {
        return Err(DownloadError::DownloadDisabled);
    }
    Ok(DownloadStep::Fetch(url))
}

/// The path of the executable inside the downloaded archive, by component.
pub fn archive_binary_path(platform: Platform) -> (r: Result<Vec<&'static str>, DownloadError>)
    ensures
        match spec_archive_binary_path(platform.os) {
            Some(p) => r matches Ok(v) && v@.len() == p.len() && forall|i: int|
                0 <= i < p.len() ==> #[trigger] v@[i]@ == p[i],
            None => r == Err::<Vec<&'static str>, DownloadError>(DownloadError::IncompatibleOS),
        },
{
    match platform.os {
        TargetOs::Linux => Ok(vec!["bin", "micromamba"]),
        TargetOs::Windows => Ok(vec!["Library", "bin", "micromamba.exe"]),
        TargetOs::Other => Err(DownloadError::IncompatibleOS),
    }
}

/// Whether an archive entry, given by the components of its path, is the
/// executable at `expected`.
pub fn is_micromamba_entry(expected: &Vec<&str>, entry_path: &Vec<String>) -> (r: bool)
    ensures
        r == (expected@.len() == entry_path@.len() && forall|i: int|
            0 <= i < expected@.len() ==> #[trigger] expected@[i]@ == entry_path@[i]@),
{
    if expected.len() != entry_path.len() {
        return false;
    }
    let mut i: usize = 0;
    while i < expected.len()
        invariant
            expected@.len() == entry_path@.len(),
            i <= expected@.len(),
            forall|j: int| 0 <= j < i ==> #[trigger] expected@[j]@ == entry_path@[j]@,
        decreases expected@.len() - i,
    {
        if !same_text(expected[i], entry_path[i].as_str()) {
            return false;
        }
        i = i + 1;
    }
    true
}

/// What bzip2 decompression makes of `data`: the bytes of its first stream
/// that decode before the stream ends or decoding fails, and whether it failed.
pub uninterp spec fn spec_bunzip2(data: Seq<u8>) -> (Seq<u8>, bool);

/// What reading `data` as a tar archive gives: the entries read, in archive
/// order, each as its path (by component, `None` where the path could not be
/// read) and its contents; and whether reading stopped at an error.
pub uninterp spec fn spec_tar_entries(data: Seq<u8>) -> (Seq<(Option<Seq<Seq<char>>>, Seq<u8>)>, bool);

/// The view of one archive entry.
pub open spec fn entry_view(e: (Option<Vec<String>>, Vec<u8>)) -> (Option<Seq<Seq<char>>>, Seq<u8>) {
    (
        match e.0 {
            Some(p) => Some(texts(p@)),
            None => None,
        },
        e.1@,
    )
}

/// The bytes decoded from bzip2 data, with the error that stopped decoding, if any.
pub struct Decoded {
    pub bytes: Vec<u8>,
    pub error: Option<std::io::Error>,
}

/// The entries read from an archive, with the error that stopped reading, if any.
pub struct TarListing {
    pub entries: Vec<(Option<Vec<String>>, Vec<u8>)>,
    pub error: Option<std::io::Error>,
}

/// Decompress bzip2 data with `bzip2::read::BzDecoder`, reading to the end;
/// on an error, the bytes decoded before it are kept (`Read::read_to_end`).
/// The result is named by `spec_bunzip2`; the error itself is not stated.
#[verifier::external_body]
pub fn bunzip2(data: &[u8]) -> (r: Decoded)
    ensures
        (r.bytes@, r.error is Some) == spec_bunzip2(data@),
{
    let mut bytes = Vec::new();
    let read = std::io::Read::read_to_end(&mut bzip2::read::BzDecoder::new(data), &mut bytes);
    Decoded { bytes, error: read.err() }
}

/// Read a tar archive with `tar::Archive::entries`, taking each entry's
/// `path()` (by component) and contents, until the entries end or one cannot
/// be read. The result is named by `spec_tar_entries`; the error itself is
/// not stated.
#[verifier::external_body]
pub fn tar_entries(data: &[u8]) -> (r: TarListing)
    ensures
        r.entries@.map_values(|e: (Option<Vec<String>>, Vec<u8>)| entry_view(e)) == spec_tar_entries(data@).0,
        r.error is Some == spec_tar_entries(data@).1,
{
    let mut archive = tar::Archive::new(data);
    let mut listing = TarListing { entries: Vec::new(), error: None };
    let read = archive.entries().and_then(|entries| {
        for entry in entries {
            let mut e = entry?;
            let path = e.path().ok().map(|p| p.components().map(|c| c.as_os_str().to_string_lossy().into_owned()).collect());
            let mut bytes = Vec::new();
            std::io::Read::read_to_end(&mut e, &mut bytes)?;
            listing.entries.push((path, bytes));
        }
        Ok(())
    });
    listing.error = read.err();
    listing
}

/// The index of the first entry whose path is `path`, if there is one.
pub open spec fn first_entry_at(entries: Seq<(Option<Seq<Seq<char>>>, Seq<u8>)>, path: Seq<Seq<char>>, i: int) -> bool {
    &&& 0 <= i < entries.len()
    &&& entries[i].0 == Some(path)
    &&& forall|j: int| 0 <= j < i ==> #[trigger] entries[j].0 != Some(path)
}

/// Some entry has the path `path`.
pub open spec fn has_entry(entries: Seq<(Option<Seq<Seq<char>>>, Seq<u8>)>, path: Seq<Seq<char>>) -> bool {
    exists|i: int| 0 <= i < entries.len() && #[trigger] entries[i].0 == Some(path)
}

/// The `micromamba` executable in a downloaded `.tar.bz2` archive: the contents
/// of the first entry whose path is the executable's path for the platform.
/// As when the archive is read as it is decompressed, what comes after that
/// entry does not matter, errors included.
pub fn find_micromamba_in_archive(platform: Platform, archive: &[u8]) -> (r: Result<Vec<u8>, DownloadError>)
    ensures
        match spec_archive_binary_path(platform.os) {
            None => r == Err::<Vec<u8>, DownloadError>(DownloadError::IncompatibleOS),
            Some(path) => {
                let (tar, bz_failed) = spec_bunzip2(archive@);
                let (entries, tar_failed) = spec_tar_entries(tar);
                if has_entry(entries, path) {
                    r matches Ok(bin) && exists|i: int| first_entry_at(entries, path, i) && #[trigger] entries[i].1 == bin@
                } else if bz_failed || tar_failed {
                    r matches Err(DownloadError::IO { .. })
                } else {
                    r == Err::<Vec<u8>, DownloadError>(DownloadError::BinNotInArchive)
                }
            },
        },
{
    let expected = archive_binary_path(platform)?;
    let ghost path = spec_archive_binary_path(platform.os)->0;
    assert(str_texts(expected@) == path) by {
        assert(str_texts(expected@) =~= path);
    }
    let decoded = bunzip2(archive);
    let tar_bytes = decoded.bytes.as_slice();
    let listing = tar_entries(tar_bytes);
    let ghost tar = decoded.bytes@;
    let ghost entries = spec_tar_entries(tar).0;
    assert(tar_bytes@ == tar);
    let mut i: usize = 0;
    while i < listing.entries.len()
        invariant
            i <= listing.entries@.len(),
            listing.entries@.map_values(|e: (Option<Vec<String>>, Vec<u8>)| entry_view(e)) == entries,
            str_texts(expected@) == path,
            spec_archive_binary_path(platform.os) == Some(path),
            spec_bunzip2(archive@).0 == tar,
            entries == spec_tar_entries(tar).0,
            forall|j: int| 0 <= j < i ==> #[trigger] entries[j].0 != Some(path),
        decreases listing.entries@.len() - i,
    {
        assert(entries[i as int] == entry_view(listing.entries@[i as int]));
        match &listing.entries[i].0 {
            Some(components) => {
                if is_micromamba_entry(&expected, components) {
                    assert(texts(components@) =~= path);
                    assert(first_entry_at(entries, path, i as int));
                    let bin = listing.entries[i].1.clone();
                    assert(bin@ =~= listing.entries@[i as int].1@);
                    assert(entries[i as int].1 == bin@);
                    assert(has_entry(entries, path));
                    assert(exists|k: int| first_entry_at(entries, path, k) && #[trigger] entries[k].1 == bin@);
                    return Ok(bin);
                } else {
                    assert(texts(components@) != path) by {
                        if texts(components@) == path {
                            assert forall|k: int| 0 <= k < expected@.len() implies #[trigger] expected@[k]@ == components@[k]@ by {
                                assert(str_texts(expected@)[k] == texts(components@)[k]);
                            }
                        }
                    }
                }
            },
            None => {},
        }
        i = i + 1;
    }
    assert(!has_entry(entries, path));
    match &decoded.error {
        Some(e) => Err(download_io_error(e)),
        None => match &listing.error {
            Some(e) => Err(download_io_error(e)),
            None => Err(DownloadError::BinNotInArchive),
        },
    }
}

} // verus!
