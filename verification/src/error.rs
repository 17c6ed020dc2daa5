//! Decode errors and the source-key names they point at.

use vstd::prelude::*;

verus! {

/// The position in the source tree that a decode error points at: one of the
/// known source keys, or the root dictionary itself.
#[derive(Clone, Copy, Debug, PartialEq, Eq, Structural)]
pub enum FieldName {
    /// The root dictionary handed to the library decoder (no source key).
    LibraryRoot,
    /// "AlbumId" inside an album dictionary.
    AlbumId,
    /// "AlbumName" inside an album dictionary.
    AlbumName,
    /// "KeyList" inside an album dictionary.
    KeyList,
    /// "ImagePath" inside a master-image dictionary.
    ImagePath,
    /// "DateAsTimerIntervalGMT" inside a master-image dictionary.
    DateAsTimerIntervalGmt,
    /// "ModDateAsTimerInterval" inside a master-image dictionary.
    ModDateAsTimerInterval,
    /// "Caption" inside a master-image dictionary.
    Caption,
    /// "Comment" inside a master-image dictionary.
    Comment,
    /// "Application Version" at the root.
    ApplicationVersion,
    /// "Archive Path" at the root.
    ArchivePath,
    /// "ArchiveId" at the root.
    ArchiveId,
    /// "Major Version" at the root.
    MajorVersion,
    /// "Minor Version" at the root.
    MinorVersion,
    /// "List of Albums" at the root.
    ListOfAlbums,
    /// "Master Image List" at the root.
    MasterImageList,
}

impl FieldName {
    /// The exact key under which this field is stored in the source tree;
    /// empty for the root position, which sits under no key.
    pub open spec fn spec_source_key(self) -> Seq<char> {
        match self {
            FieldName::LibraryRoot => ""@,
            FieldName::AlbumId => "AlbumId"@,
            FieldName::AlbumName => "AlbumName"@,
            FieldName::KeyList => "KeyList"@,
            FieldName::ImagePath => "ImagePath"@,
            FieldName::DateAsTimerIntervalGmt => "DateAsTimerIntervalGMT"@,
            FieldName::ModDateAsTimerInterval => "ModDateAsTimerInterval"@,
            FieldName::Caption => "Caption"@,
            FieldName::Comment => "Comment"@,
            FieldName::ApplicationVersion => "Application Version"@,
            FieldName::ArchivePath => "Archive Path"@,
            FieldName::ArchiveId => "ArchiveId"@,
            FieldName::MajorVersion => "Major Version"@,
            FieldName::MinorVersion => "Minor Version"@,
            FieldName::ListOfAlbums => "List of Albums"@,
            FieldName::MasterImageList => "Master Image List"@,
        }
    }

    /// The exact key under which this field is stored in the source tree.
    pub fn source_key(&self) -> (r: &'static str)
        ensures
            r@ == self.spec_source_key(),
    {
        match self {
            FieldName::LibraryRoot => "",
            FieldName::AlbumId => "AlbumId",
            FieldName::AlbumName => "AlbumName",
            FieldName::KeyList => "KeyList",
            FieldName::ImagePath => "ImagePath",
            FieldName::DateAsTimerIntervalGmt => "DateAsTimerIntervalGMT",
            FieldName::ModDateAsTimerInterval => "ModDateAsTimerInterval",
            FieldName::Caption => "Caption",
            FieldName::Comment => "Comment",
            FieldName::ApplicationVersion => "Application Version",
            FieldName::ArchivePath => "Archive Path",
            FieldName::ArchiveId => "ArchiveId",
            FieldName::MajorVersion => "Major Version",
            FieldName::MinorVersion => "Minor Version",
            FieldName::ListOfAlbums => "List of Albums",
            FieldName::MasterImageList => "Master Image List",
        }
    }
}

/// Why a decode failed. Every error is terminal for the whole decode: a
/// single malformed entry fails the entire library, and no partial result
/// is ever produced.
#[derive(Clone, Copy, Debug, PartialEq, Eq, Structural)]
pub enum DecodeError {
    /// A required source key is absent from a dictionary node.
    MissingField(FieldName),
    /// A source value's dynamic type does not match the shape the field needs.
    TypeMismatch(FieldName),
    /// A converted numeric value exceeds the representable range of its
    /// target (timestamp seconds, unsigned integer field, or the nanosecond
    /// component of a timer interval).
    Overflow(FieldName),
}

impl DecodeError {
    /// The position in the source tree that the error points at.
    pub fn field(&self) -> (r: FieldName)
        ensures
            r == self.spec_field(),
    {
        match self {
            DecodeError::MissingField(f) => *f,
            DecodeError::TypeMismatch(f) => *f,
            DecodeError::Overflow(f) => *f,
        }
    }

    /// The position in the source tree that the error points at.
    pub open spec fn spec_field(self) -> FieldName {
        match self {
            DecodeError::MissingField(f) => f,
            DecodeError::TypeMismatch(f) => f,
            DecodeError::Overflow(f) => f,
        }
    }
}

} // verus!
