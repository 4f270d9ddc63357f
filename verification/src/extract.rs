//! Archive handling: the declared archive kinds, and the preparation of a
//! downloaded payload for unpacking. A zip payload is unpacked whole and a
//! tar+gzip payload is streamed, so both pass through unchanged; a
//! tar+zstd payload is fully decompressed into memory first, because this
//! design does not stream zstd (archives are bounded in size). Writing the
//! unpacked tree to the destination directory is disk work done by the
//! surrounding application.

use vstd::prelude::*;
use vstd::string::StringExecFns;
use crate::Runtime;
use crate::errors::{ErrorKind, MlvmError};
use crate::strutil::str_eq;

verus! {

/// The declared format of a downloaded archive.
#[derive(Clone, Copy, Debug, PartialEq, Eq, Structural)]
pub enum ArchiveKind {
    Zip,
    TarGz,
    TarZst,
}

/// The file-name extension of each archive kind.
pub open spec fn ext_of(k: ArchiveKind) -> Seq<char> {
    match k {
        ArchiveKind::Zip => "zip"@,
        ArchiveKind::TarGz => "tar.gz"@,
        ArchiveKind::TarZst => "tar.zst"@,
    }
}

impl ArchiveKind {
    /// The extension used in download file names.
    pub fn ext_str(&self) -> (r: &'static str)
        ensures
            r@ == ext_of(*self),
    {
        match self {
            ArchiveKind::Zip => "zip",
            ArchiveKind::TarGz => "tar.gz",
            ArchiveKind::TarZst => "tar.zst",
        }
    }

    /// Recognize an extension; an unrecognized one yields `None`, never a
    /// silently guessed kind.
    pub fn from_ext(ext: &str) -> (r: Option<ArchiveKind>)
        ensures
            ext@ == "zip"@ ==> r == Some(ArchiveKind::Zip),
            ext@ == "tar.gz"@ ==> r == Some(ArchiveKind::TarGz),
            ext@ == "tar.zst"@ ==> r == Some(ArchiveKind::TarZst),
            r matches Some(k) ==> ext@ == ext_of(k),
    {
        proof {
            reveal_strlit("zip");
            reveal_strlit("tar.gz");
            reveal_strlit("tar.zst");
            assert("zip"@.len() == 3);
            assert("tar.gz"@.len() == 6);
            assert("tar.zst"@.len() == 7);
        }
        if str_eq(ext, "zip") {
            Some(ArchiveKind::Zip)
        } else if str_eq(ext, "tar.gz") {
            Some(ArchiveKind::TarGz)
        } else if str_eq(ext, "tar.zst") {
            Some(ArchiveKind::TarZst)
        } else {
            None
        }
    }
}

/// What `zstd::stream::decode_all` yields for a byte string: `Some` of the
/// decompressed bytes when the input is a well-formed zstd frame, `None`
/// when decoding fails. A function of the input bytes alone.
pub uninterp spec fn zstd_plain(frame: Seq<u8>) -> Option<Seq<u8>>;

/// Relies on zstd::stream::decode_all: decompression reads nothing but the
/// given bytes, so success and output are functions of them alone.
#[verifier::external_body]
fn zstd_decode_all(frame: &Vec<u8>) -> (r: Option<Vec<u8>>)
    ensures
        r is Some <==> zstd_plain(frame@) is Some,
        r matches Some(p) ==> Some(p@) == zstd_plain(frame@),
{
    zstd::stream::decode_all(frame.as_slice()).ok()
}

/// A payload ready for unpacking to disk: either an archive handed through
/// unchanged, or a plain tar stream recovered from a zstd frame.
#[derive(Debug)]
pub enum Unpackable {
    /// Whole-archive zip extraction, preserving internal paths.
    Zip { bytes: Vec<u8> },
    /// Gzip-compressed tar stream, decompressed while unpacking.
    TarGz { bytes: Vec<u8> },
    /// Plain tar stream.
    Tar { bytes: Vec<u8> },
}

/// Turn a downloaded payload into an unpackable one. Zip and tar+gzip
/// payloads pass through unchanged; a tar+zstd payload is decompressed in
/// memory, and a malformed frame is a `Format` error naming the runtime
/// and version.
pub fn prepare_payload(bytes: Vec<u8>, kind: ArchiveKind, rt: Runtime, version: &str) -> (r:
    Result<Unpackable, MlvmError>)
    ensures
        kind == ArchiveKind::Zip ==> (r matches Ok(u) && (u matches Unpackable::Zip { bytes: b }
            && b@ == bytes@)),
        kind == ArchiveKind::TarGz ==> (r matches Ok(u) && (u matches Unpackable::TarGz {
            bytes: b } && b@ == bytes@)),
        kind == ArchiveKind::TarZst ==> ((r is Ok <==> zstd_plain(bytes@) is Some) && (
        r matches Ok(u) ==> u matches Unpackable::Tar { bytes: b } && Some(b@) == zstd_plain(
            bytes@,
        ))),
        r matches Err(e) ==> kind == ArchiveKind::TarZst && zstd_plain(bytes@) is None
            && e.kind == ErrorKind::Format && e.runtime == rt && e.version@ == version@,
{
    match kind {
        ArchiveKind::Zip => Ok(Unpackable::Zip { bytes }),
        ArchiveKind::TarGz => Ok(Unpackable::TarGz { bytes }),
        ArchiveKind::TarZst => {
            match zstd_decode_all(&bytes) {
                Some(plain) => Ok(Unpackable::Tar { bytes: plain }),
                None => Err(
                    MlvmError::new(
                        ErrorKind::Format,
                        rt,
                        String::from_str(version),
                        String::from_str("payload is not a well-formed zstd frame"),
                    ),
                ),
            }
        },
    }
}

} // verus!
