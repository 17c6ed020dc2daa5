//! The record decoders: a generic tree to one typed `Library` record.
//!
//! Decoding is purely key-driven: unknown extra keys are ignored, a missing
//! required key is a `MissingField` error, a wrongly shaped value is a
//! `TypeMismatch`, and a numeric value out of range is an `Overflow`. Any
//! single nested failure aborts the whole decode; no partial library is
//! ever produced.

use vstd::prelude::*;

use crate::error::{DecodeError, FieldName};
use crate::name::{sanitize_name, spec_sanitized};
use crate::records::{
    album_views, key_views, master_entry_views, Album, AlbumView, Library, LibraryView, Master,
    MasterView,
};
use crate::time::{spec_timestamp_from_interval, timestamp_from_interval, Timestamp};
use crate::value::{dict_get, spec_dict_get, Value};

verus! {

/// The value stored under required field `f`, or `MissingField`.
pub open spec fn spec_field(entries: Seq<(String, Value)>, f: FieldName) -> Result<
    Value,
    DecodeError,
> {
    match spec_dict_get(entries, f.spec_source_key()) {
        Some(v) => Ok(v),
        None => Err(DecodeError::MissingField(f)),
    }
}

/// What coercing a node to an unsigned 64-bit integer yields: the value of
/// an integer scalar when it is non-negative, `Overflow` when it is
/// negative, `TypeMismatch` on every other shape.
pub open spec fn spec_decode_u64(v: Value, f: FieldName) -> Result<u64, DecodeError> {
    match v {
        Value::Integer(i) => if i >= 0 {
            Ok(i as u64)
        } else {
            Err(DecodeError::Overflow(f))
        },
        _ => Err(DecodeError::TypeMismatch(f)),
    }
}

/// What coercing a node to text yields: the characters of a text scalar,
/// `TypeMismatch` on every other shape.
pub open spec fn spec_decode_text(v: Value, f: FieldName) -> Result<Seq<char>, DecodeError> {
    match v {
        Value::Text(s) => Ok(s@),
        _ => Err(DecodeError::TypeMismatch(f)),
    }
}

/// What decoding a display name yields: the sanitized characters of a text
/// scalar, `TypeMismatch` on every other shape.
pub open spec fn spec_decode_name(v: Value, f: FieldName) -> Result<Seq<char>, DecodeError> {
    match v {
        Value::Text(s) => Ok(spec_sanitized(s@)),
        _ => Err(DecodeError::TypeMismatch(f)),
    }
}

/// What decoding a timestamp field yields: the converted timer interval of
/// a number scalar, `TypeMismatch` on every other shape.
pub open spec fn spec_decode_timestamp(v: Value, f: FieldName) -> Result<Timestamp, DecodeError> {
    match v {
        Value::Real(iv) => spec_timestamp_from_interval(iv, f),
        _ => Err(DecodeError::TypeMismatch(f)),
    }
}

/// The characters of a text scalar; the empty sequence on any other shape.
pub open spec fn text_view_of(v: Value) -> Seq<char> {
    match v {
        Value::Text(s) => s@,
        _ => Seq::<char>::empty(),
    }
}

/// Whether every node of `items` is a text scalar.
pub open spec fn all_text(items: Seq<Value>) -> bool {
    forall|k: int| 0 <= k < items.len() ==> (#[trigger] items[k]) is Text
}

/// The characters of each text scalar of `items`, in order.
pub open spec fn text_views(items: Seq<Value>) -> Seq<Seq<char>> {
    items.map_values(|v: Value| text_view_of(v))
}

/// What coercing a node to a key list yields: the texts of a sequence of
/// text scalars, order preserved; `TypeMismatch` when the node is no
/// sequence or any element is no text scalar.
pub open spec fn spec_decode_key_list(v: Value, f: FieldName) -> Result<
    Seq<Seq<char>>,
    DecodeError,
> {
    match v {
        Value::Sequence(items) => if all_text(items@) {
            Ok(text_views(items@))
        } else {
            Err(DecodeError::TypeMismatch(f))
        },
        _ => Err(DecodeError::TypeMismatch(f)),
    }
}

/// What decoding the fields of an album dictionary yields, field order
/// "AlbumId", "AlbumName", "KeyList".
pub open spec fn spec_decode_album_fields(entries: Seq<(String, Value)>) -> Result<
    AlbumView,
    DecodeError,
> {
    match spec_field(entries, FieldName::AlbumId) {
        Err(e) => Err(e),
        Ok(idv) => match spec_decode_u64(idv, FieldName::AlbumId) {
            Err(e) => Err(e),
            Ok(id) => match spec_field(entries, FieldName::AlbumName) {
                Err(e) => Err(e),
                Ok(nv) => match spec_decode_name(nv, FieldName::AlbumName) {
                    Err(e) => Err(e),
                    Ok(nm) => match spec_field(entries, FieldName::KeyList) {
                        Err(e) => Err(e),
                        Ok(kv) => match spec_decode_key_list(kv, FieldName::KeyList) {
                            Err(e) => Err(e),
                            Ok(keys) => Ok(AlbumView { id, name: nm, images: keys }),
                        },
                    },
                },
            },
        },
    }
}

/// What decoding one album node yields: its fields when the node is a
/// dictionary, `TypeMismatch` at the album-list position otherwise.
pub open spec fn spec_decode_album(v: Value) -> Result<AlbumView, DecodeError> {
    match v {
        Value::Dictionary(entries) => spec_decode_album_fields(entries@),
        _ => Err(DecodeError::TypeMismatch(FieldName::ListOfAlbums)),
    }
}

/// What decoding the fields of a master-image dictionary yields, field
/// order "ImagePath", "DateAsTimerIntervalGMT", "ModDateAsTimerInterval",
/// "Caption", "Comment".
pub open spec fn spec_decode_master_fields(entries: Seq<(String, Value)>) -> Result<
    MasterView,
    DecodeError,
> {
    match spec_field(entries, FieldName::ImagePath) {
        Err(e) => Err(e),
        Ok(pv) => match spec_decode_text(pv, FieldName::ImagePath) {
            Err(e) => Err(e),
            Ok(path) => match spec_field(entries, FieldName::DateAsTimerIntervalGmt) {
                Err(e) => Err(e),
                Ok(cv) => match spec_decode_timestamp(cv, FieldName::DateAsTimerIntervalGmt) {
                    Err(e) => Err(e),
                    Ok(created) => match spec_field(entries, FieldName::ModDateAsTimerInterval) {
                        Err(e) => Err(e),
                        Ok(mv) => match spec_decode_timestamp(
                            mv,
                            FieldName::ModDateAsTimerInterval,
                        ) {
                            Err(e) => Err(e),
                            Ok(modified) => match spec_field(entries, FieldName::Caption) {
                                Err(e) => Err(e),
                                Ok(capv) => match spec_decode_text(capv, FieldName::Caption) {
                                    Err(e) => Err(e),
                                    Ok(caption) => match spec_field(entries, FieldName::Comment) {
                                        Err(e) => Err(e),
                                        Ok(comv) => match spec_decode_text(
                                            comv,
                                            FieldName::Comment,
                                        ) {
                                            Err(e) => Err(e),
                                            Ok(comment) => Ok(
                                                MasterView {
                                                    path,
                                                    creation_date: created,
                                                    modification_date: modified,
                                                    caption,
                                                    comment,
                                                },
                                            ),
                                        },
                                    },
                                },
                            },
                        },
                    },
                },
            },
        },
    }
}

/// What decoding one master-image node yields: its fields when the node is
/// a dictionary, `TypeMismatch` at the mapping position otherwise.
pub open spec fn spec_decode_master(v: Value) -> Result<MasterView, DecodeError> {
    match v {
        Value::Dictionary(entries) => spec_decode_master_fields(entries@),
        _ => Err(DecodeError::TypeMismatch(FieldName::MasterImageList)),
    }
}

/// What decoding the album list yields: every album in order, or the first
/// failure.
pub open spec fn spec_decode_albums(items: Seq<Value>) -> Result<Seq<AlbumView>, DecodeError>
    decreases items.len(),
{
    if items.len() == 0 {
        Ok(Seq::<AlbumView>::empty())
    } else {
        match spec_decode_album(items[0]) {
            Err(e) => Err(e),
            Ok(a) => match spec_decode_albums(items.drop_first()) {
                Err(e) => Err(e),
                Ok(rest) => Ok(seq![a] + rest),
            },
        }
    }
}

/// What decoding the master-image mapping yields: every entry in source
/// order under its key, or the first failure.
pub open spec fn spec_decode_masters(entries: Seq<(String, Value)>) -> Result<
    Seq<(Seq<char>, MasterView)>,
    DecodeError,
>
    decreases entries.len(),
{
    if entries.len() == 0 {
        Ok(Seq::<(Seq<char>, MasterView)>::empty())
    } else {
        match spec_decode_master(entries[0].1) {
            Err(e) => Err(e),
            Ok(m) => match spec_decode_masters(entries.drop_first()) {
                Err(e) => Err(e),
                Ok(rest) => Ok(seq![(entries[0].0@, m)] + rest),
            },
        }
    }
}

/// What decoding the fields of the root dictionary yields.
pub open spec fn spec_decode_library_fields(entries: Seq<(String, Value)>) -> Result<
    LibraryView,
    DecodeError,
> {
    match spec_field(entries, FieldName::ApplicationVersion) {
        Err(e) => Err(e),
        Ok(av) => match spec_decode_text(av, FieldName::ApplicationVersion) {
            Err(e) => Err(e),
            Ok(app_version) => match spec_field(entries, FieldName::ArchivePath) {
                Err(e) => Err(e),
                Ok(apv) => match spec_decode_text(apv, FieldName::ArchivePath) {
                    Err(e) => Err(e),
                    Ok(archive_path) => match spec_field(entries, FieldName::ArchiveId) {
                        Err(e) => Err(e),
                        Ok(aiv) => match spec_decode_text(aiv, FieldName::ArchiveId) {
                            Err(e) => Err(e),
                            Ok(archive_id) => match spec_field(entries, FieldName::MajorVersion) {
                                Err(e) => Err(e),
                                Ok(mjv) => match spec_decode_u64(mjv, FieldName::MajorVersion) {
                                    Err(e) => Err(e),
                                    Ok(major) => match spec_field(
                                        entries,
                                        FieldName::MinorVersion,
                                    ) {
                                        Err(e) => Err(e),
                                        Ok(mnv) => match spec_decode_u64(
                                            mnv,
                                            FieldName::MinorVersion,
                                        ) {
                                            Err(e) => Err(e),
                                            Ok(minor) => match spec_decode_library_albums(
                                                entries,
                                            ) {
                                                Err(e) => Err(e),
                                                Ok(albums) => match spec_decode_library_masters(
                                                    entries,
                                                ) {
                                                    Err(e) => Err(e),
                                                    Ok(masters) => Ok(
                                                        LibraryView {
                                                            application_version: app_version,
                                                            archive_path,
                                                            archive_id,
                                                            major_version: major,
                                                            minor_version: minor,
                                                            albums,
                                                            master_images: masters,
                                                        },
                                                    ),
                                                },
                                            },
                                        },
                                    },
                                },
                            },
                        },
                    },
                },
            },
        },
    }
}

/// What the "List of Albums" field of the root yields: the decoded albums
/// of a sequence node, `TypeMismatch` on every other shape.
pub open spec fn spec_decode_library_albums(entries: Seq<(String, Value)>) -> Result<
    Seq<AlbumView>,
    DecodeError,
> {
    match spec_field(entries, FieldName::ListOfAlbums) {
        Err(e) => Err(e),
        Ok(v) => match v {
            Value::Sequence(items) => spec_decode_albums(items@),
            _ => Err(DecodeError::TypeMismatch(FieldName::ListOfAlbums)),
        },
    }
}

/// What the "Master Image List" field of the root yields: the decoded
/// mapping of a dictionary node, `TypeMismatch` on every other shape.
pub open spec fn spec_decode_library_masters(entries: Seq<(String, Value)>) -> Result<
    Seq<(Seq<char>, MasterView)>,
    DecodeError,
> {
    match spec_field(entries, FieldName::MasterImageList) {
        Err(e) => Err(e),
        Ok(v) => match v {
            Value::Dictionary(mes) => spec_decode_masters(mes@),
            _ => Err(DecodeError::TypeMismatch(FieldName::MasterImageList)),
        },
    }
}

/// What decoding a whole catalog yields: the library of the root
/// dictionary, `TypeMismatch` at the root position on every other shape.
pub open spec fn spec_decode_library(v: Value) -> Result<LibraryView, DecodeError> {
    match v {
        Value::Dictionary(entries) => spec_decode_library_fields(entries@),
        _ => Err(DecodeError::TypeMismatch(FieldName::LibraryRoot)),
    }
}

proof fn lemma_decode_album_separator_free(v: Value)
    ensures
        spec_decode_album(v) matches Ok(a) ==> forall|j: int|
            0 <= j < a.name.len() ==> a.name[j] != crate::name::SEPARATOR,
{
    if let Ok(a) = spec_decode_album(v) {
        let entries = v->Dictionary_0@;
        let nv = spec_field(entries, FieldName::AlbumName)->Ok_0;
        assert(a.name == spec_sanitized(nv->Text_0@));
        crate::name::lemma_sanitized_separator_free(nv->Text_0@);
    }
}

proof fn lemma_decode_albums_separator_free(items: Seq<Value>)
    ensures
        spec_decode_albums(items) matches Ok(avs) ==> forall|i: int, j: int|
            0 <= i < avs.len() && 0 <= j < avs[i].name.len() ==> #[trigger] avs[i].name[j]
                != crate::name::SEPARATOR,
    decreases items.len(),
{
    if items.len() > 0 {
        lemma_decode_album_separator_free(items[0]);
        lemma_decode_albums_separator_free(items.drop_first());
        if let Ok(avs) = spec_decode_albums(items) {
            let a = spec_decode_album(items[0])->Ok_0;
            let rest = spec_decode_albums(items.drop_first())->Ok_0;
            assert forall|i: int, j: int|
                0 <= i < avs.len() && 0 <= j < avs[i].name.len() implies #[trigger] avs[i].name[j]
                != crate::name::SEPARATOR by {
                if i == 0 {
                    assert(avs[i] == a);
                } else {
                    assert(avs[i] == rest[i - 1]);
                }
            }
        }
    }
}

proof fn lemma_decode_master_wf(v: Value)
    ensures
        spec_decode_master(v) matches Ok(m) ==> m.wf(),
{
}

proof fn lemma_decode_masters_wf(entries: Seq<(String, Value)>)
    ensures
        spec_decode_masters(entries) matches Ok(ms) ==> forall|i: int|
            0 <= i < ms.len() ==> (#[trigger] ms[i]).1.wf(),
    decreases entries.len(),
{
    if entries.len() > 0 {
        lemma_decode_master_wf(entries[0].1);
        lemma_decode_masters_wf(entries.drop_first());
        if let Ok(ms) = spec_decode_masters(entries) {
            let m = spec_decode_master(entries[0].1)->Ok_0;
            let rest = spec_decode_masters(entries.drop_first())->Ok_0;
            assert forall|i: int| 0 <= i < ms.len() implies (#[trigger] ms[i]).1.wf() by {
                if i == 0 {
                    assert(ms[i] == (entries[0].0@, m));
                } else {
                    assert(ms[i] == rest[i - 1]);
                }
            }
        }
    }
}

/// Every successfully decoded library is well formed: each master record's
/// two timestamps keep their nanosecond component within one second, and no
/// album name contains a path separator.
pub proof fn lemma_decoded_library_wf(v: Value)
    ensures
        spec_decode_library(v) matches Ok(lv) ==> lv.wf(),
{
    if let Ok(lv) = spec_decode_library(v) {
        let entries = v->Dictionary_0@;
        let lav = spec_field(entries, FieldName::ListOfAlbums)->Ok_0;
        lemma_decode_albums_separator_free(lav->Sequence_0@);
        let mlv = spec_field(entries, FieldName::MasterImageList)->Ok_0;
        lemma_decode_masters_wf(mlv->Dictionary_0@);
        assert(lv.albums == spec_decode_albums(lav->Sequence_0@)->Ok_0);
        assert(lv.master_images == spec_decode_masters(mlv->Dictionary_0@)->Ok_0);
    }
}

/// Looks required field `f` up in a dictionary's entries.
fn get_field<'a>(entries: &'a Vec<(String, Value)>, f: FieldName) -> (r: Result<
    &'a Value,
    DecodeError,
>)
    ensures
        match r {
            Ok(v) => spec_field(entries@, f) == Ok::<Value, DecodeError>(*v),
            Err(e) => spec_field(entries@, f) == Err::<Value, DecodeError>(e),
        },
{
    match dict_get(entries, f.source_key()) {
        Some(v) => Ok(v),
        None => Err(DecodeError::MissingField(f)),
    }
}

/// Coerces a node to an unsigned 64-bit integer.
pub fn decode_u64(v: &Value, f: FieldName) -> (r: Result<u64, DecodeError>)
    ensures
        r == spec_decode_u64(*v, f),
{
    match v {
        Value::Integer(i) => if *i >= 0 {
            Ok(*i as u64)
        } else {
            Err(DecodeError::Overflow(f))
        },
        _ => Err(DecodeError::TypeMismatch(f)),
    }
}

/// Coerces a node to text.
pub fn decode_text(v: &Value, f: FieldName) -> (r: Result<String, DecodeError>)
    ensures
        match r {
            Ok(s) => spec_decode_text(*v, f) == Ok::<Seq<char>, DecodeError>(s@),
            Err(e) => spec_decode_text(*v, f) == Err::<Seq<char>, DecodeError>(e),
        },
{
    match v {
        Value::Text(s) => Ok(s.clone()),
        _ => Err(DecodeError::TypeMismatch(f)),
    }
}

/// Decodes a display name: text, sanitized.
pub fn decode_name(v: &Value, f: FieldName) -> (r: Result<String, DecodeError>)
    ensures
        match r {
            Ok(s) => spec_decode_name(*v, f) == Ok::<Seq<char>, DecodeError>(s@),
            Err(e) => spec_decode_name(*v, f) == Err::<Seq<char>, DecodeError>(e),
        },
{
    match v {
        Value::Text(s) => Ok(sanitize_name(s.as_str())),
        _ => Err(DecodeError::TypeMismatch(f)),
    }
}

/// Decodes a timestamp field: a timer-interval number, converted.
pub fn decode_timestamp(v: &Value, f: FieldName) -> (r: Result<Timestamp, DecodeError>)
    ensures
        r == spec_decode_timestamp(*v, f),
{
    match v {
        Value::Real(iv) => timestamp_from_interval(*iv, f),
        _ => Err(DecodeError::TypeMismatch(f)),
    }
}

/// Coerces a node to an ordered list of image keys.
#[verifier::loop_isolation(false)]
pub fn decode_key_list(v: &Value, f: FieldName) -> (r: Result<Vec<String>, DecodeError>)
    ensures
        match r {
            Ok(keys) => spec_decode_key_list(*v, f) == Ok::<Seq<Seq<char>>, DecodeError>(
                key_views(keys@),
            ),
            Err(e) => spec_decode_key_list(*v, f) == Err::<Seq<Seq<char>>, DecodeError>(e),
        },
{
    match v {
        Value::Sequence(items) => {
            let mut keys: Vec<String> = Vec::new();
            let mut i: usize = 0;
            while i < items.len()
                invariant
                    i <= items@.len(),
                    keys@.len() == i,
                    forall|k: int| 0 <= k < i ==> (#[trigger] items@[k]) is Text,
                    key_views(keys@) == text_views(items@.subrange(0, i as int)),
                decreases items@.len() - i,
            {
                let ghost pre = keys@;
                match &items[i] {
                    Value::Text(s) => {
                        let ghost sv = s@;
                        keys.push(s.clone());
                        proof {
                            assert(keys@ == pre.push(items@[i as int]->Text_0));
                            assert forall|k: int| 0 <= k < keys@.len() implies key_views(keys@)[k]
                                == text_views(items@.subrange(0, i as int + 1))[k] by {
                                if k < i {
                                    assert(key_views(pre)[k] == text_views(
                                        items@.subrange(0, i as int),
                                    )[k]);
                                    assert(items@.subrange(0, i as int)[k] == items@.subrange(
                                        0,
                                        i as int + 1,
                                    )[k]);
                                } else {
                                    assert(k == i);
                                    assert(items@.subrange(0, i as int + 1)[k] == items@[
                                    i as int]);
                                    assert(text_view_of(items@[i as int]) == sv);
                                }
                            }
                            assert(key_views(keys@) =~= text_views(
                                items@.subrange(0, i as int + 1),
                            ));
                        }
                    },
                    _ => {
                        proof {
                            assert(!(items@[i as int] is Text));
                            assert(!all_text(items@));
                        }
                        return Err(DecodeError::TypeMismatch(f));
                    },
                }
                i += 1;
            }
            proof {
                assert(items@.subrange(0, items@.len() as int) =~= items@);
            }
            Ok(keys)
        },
        _ => Err(DecodeError::TypeMismatch(f)),
    }
}

/// Decodes one album node: a dictionary with "AlbumId", "AlbumName" and
/// "KeyList".
pub fn decode_album(v: &Value) -> (r: Result<Album, DecodeError>)
    ensures
        match r {
            Ok(a) => spec_decode_album(*v) == Ok::<AlbumView, DecodeError>(a@),
            Err(e) => spec_decode_album(*v) == Err::<AlbumView, DecodeError>(e),
        },
{
    let entries = match v {
        Value::Dictionary(entries) => entries,
        _ => {
            return Err(DecodeError::TypeMismatch(FieldName::ListOfAlbums));
        },
    };
    let idv = match get_field(entries, FieldName::AlbumId) {
        Ok(x) => x,
        Err(e) => {
            return Err(e);
        },
    };
    let id = match decode_u64(idv, FieldName::AlbumId) {
        Ok(x) => x,
        Err(e) => {
            return Err(e);
        },
    };
    let nv = match get_field(entries, FieldName::AlbumName) {
        Ok(x) => x,
        Err(e) => {
            return Err(e);
        },
    };
    let name = match decode_name(nv, FieldName::AlbumName) {
        Ok(x) => x,
        Err(e) => {
            return Err(e);
        },
    };
    let kv = match get_field(entries, FieldName::KeyList) {
        Ok(x) => x,
        Err(e) => {
            return Err(e);
        },
    };
    let images = match decode_key_list(kv, FieldName::KeyList) {
        Ok(x) => x,
        Err(e) => {
            return Err(e);
        },
    };
    Ok(Album { id, name, images })
}

/// Decodes one master-image node: a dictionary with "ImagePath", the two
/// timer-interval dates, "Caption" and "Comment".
pub fn decode_master(v: &Value) -> (r: Result<Master, DecodeError>)
    ensures
        match r {
            Ok(m) => spec_decode_master(*v) == Ok::<MasterView, DecodeError>(m@),
            Err(e) => spec_decode_master(*v) == Err::<MasterView, DecodeError>(e),
        },
{
    let entries = match v {
        Value::Dictionary(entries) => entries,
        _ => {
            return Err(DecodeError::TypeMismatch(FieldName::MasterImageList));
        },
    };
    let pv = match get_field(entries, FieldName::ImagePath) {
        Ok(x) => x,
        Err(e) => {
            return Err(e);
        },
    };
    let path = match decode_text(pv, FieldName::ImagePath) {
        Ok(x) => x,
        Err(e) => {
            return Err(e);
        },
    };
    let cv = match get_field(entries, FieldName::DateAsTimerIntervalGmt) {
        Ok(x) => x,
        Err(e) => {
            return Err(e);
        },
    };
    let creation_date = match decode_timestamp(cv, FieldName::DateAsTimerIntervalGmt) {
        Ok(x) => x,
        Err(e) => {
            return Err(e);
        },
    };
    let mv = match get_field(entries, FieldName::ModDateAsTimerInterval) {
        Ok(x) => x,
        Err(e) => {
            return Err(e);
        },
    };
    let modification_date = match decode_timestamp(mv, FieldName::ModDateAsTimerInterval) {
        Ok(x) => x,
        Err(e) => {
            return Err(e);
        },
    };
    let capv = match get_field(entries, FieldName::Caption) {
        Ok(x) => x,
        Err(e) => {
            return Err(e);
        },
    };
    let caption = match decode_text(capv, FieldName::Caption) {
        Ok(x) => x,
        Err(e) => {
            return Err(e);
        },
    };
    let comv = match get_field(entries, FieldName::Comment) {
        Ok(x) => x,
        Err(e) => {
            return Err(e);
        },
    };
    let comment = match decode_text(comv, FieldName::Comment) {
        Ok(x) => x,
        Err(e) => {
            return Err(e);
        },
    };
    Ok(Master { path, creation_date, modification_date, caption, comment })
}

/// Decodes the album list: every element in order; the first failure fails
/// the list.
#[verifier::loop_isolation(false)]
fn decode_albums(items: &Vec<Value>) -> (r: Result<Vec<Album>, DecodeError>)
    ensures
        match r {
            Ok(albums) => spec_decode_albums(items@) == Ok::<Seq<AlbumView>, DecodeError>(
                album_views(albums@),
            ),
            Err(e) => spec_decode_albums(items@) == Err::<Seq<AlbumView>, DecodeError>(e),
        },
{
    let mut albums: Vec<Album> = Vec::new();
    proof {
        assert(items@.skip(0) =~= items@);
        assert(album_views(albums@) =~= Seq::<AlbumView>::empty());
    }
    let mut i: usize = 0;
    while i < items.len()
        invariant
            i <= items@.len(),
            match spec_decode_albums(items@.skip(i as int)) {
                Ok(rest) => spec_decode_albums(items@) == Ok::<Seq<AlbumView>, DecodeError>(
                    album_views(albums@) + rest,
                ),
                Err(e) => spec_decode_albums(items@) == Err::<Seq<AlbumView>, DecodeError>(e),
            },
        decreases items@.len() - i,
    {
        proof {
            assert(items@.skip(i as int)[0] == items@[i as int]);
            assert(items@.skip(i as int).drop_first() =~= items@.skip(i as int + 1));
        }
        match decode_album(&items[i]) {
            Ok(a) => {
                let ghost pre = album_views(albums@);
                let ghost av = a@;
                albums.push(a);
                proof {
                    assert(album_views(albums@) =~= pre.push(av));
                    if let Ok(rest) = spec_decode_albums(items@.skip(i as int + 1)) {
                        assert(pre.push(av) + rest =~= pre + (seq![av] + rest));
                    }
                }
            },
            Err(e) => {
                return Err(e);
            },
        }
        i += 1;
    }
    proof {
        assert(items@.skip(items@.len() as int) =~= Seq::<Value>::empty());
        assert(album_views(albums@) + Seq::<AlbumView>::empty() =~= album_views(albums@));
    }
    Ok(albums)
}

/// Decodes the master-image mapping: every entry in source order under its
/// key; the first failure fails the mapping.
#[verifier::loop_isolation(false)]
fn decode_masters(entries: &Vec<(String, Value)>) -> (r: Result<
    Vec<(String, Master)>,
    DecodeError,
>)
    ensures
        match r {
            Ok(masters) => spec_decode_masters(entries@) == Ok::<
                Seq<(Seq<char>, MasterView)>,
                DecodeError,
            >(master_entry_views(masters@)),
            Err(e) => spec_decode_masters(entries@) == Err::<
                Seq<(Seq<char>, MasterView)>,
                DecodeError,
            >(e),
        },
{
    let mut masters: Vec<(String, Master)> = Vec::new();
    proof {
        assert(entries@.skip(0) =~= entries@);
        assert(master_entry_views(masters@) =~= Seq::<(Seq<char>, MasterView)>::empty());
    }
    let mut i: usize = 0;
    while i < entries.len()
        invariant
            i <= entries@.len(),
            match spec_decode_masters(entries@.skip(i as int)) {
                Ok(rest) => spec_decode_masters(entries@) == Ok::<
                    Seq<(Seq<char>, MasterView)>,
                    DecodeError,
                >(master_entry_views(masters@) + rest),
                Err(e) => spec_decode_masters(entries@) == Err::<
                    Seq<(Seq<char>, MasterView)>,
                    DecodeError,
                >(e),
            },
        decreases entries@.len() - i,
    {
        proof {
            assert(entries@.skip(i as int)[0] == entries@[i as int]);
            assert(entries@.skip(i as int).drop_first() =~= entries@.skip(i as int + 1));
        }
        match decode_master(&entries[i].1) {
            Ok(m) => {
                let ghost pre = master_entry_views(masters@);
                let ghost kv = (entries@[i as int].0@, m@);
                let key = entries[i].0.clone();
                masters.push((key, m));
                proof {
                    assert(master_entry_views(masters@) =~= pre.push(kv));
                    if let Ok(rest) = spec_decode_masters(entries@.skip(i as int + 1)) {
                        assert(pre.push(kv) + rest =~= pre + (seq![kv] + rest));
                    }
                }
            },
            Err(e) => {
                return Err(e);
            },
        }
        i += 1;
    }
    proof {
        assert(entries@.skip(entries@.len() as int) =~= Seq::<(String, Value)>::empty());
        assert(master_entry_views(masters@) + Seq::<(Seq<char>, MasterView)>::empty()
            =~= master_entry_views(masters@));
    }
    Ok(masters)
}

/// Decodes a whole catalog: the root dictionary to one `Library` record.
/// Any single nested failure aborts the decode with the error of the first
/// field that failed; no partial library is ever produced.
pub fn decode_library(v: &Value) -> (r: Result<Library, DecodeError>)
    ensures
        match r {
            Ok(lib) => spec_decode_library(*v) == Ok::<LibraryView, DecodeError>(lib@)
                && lib@.wf(),
            Err(e) => spec_decode_library(*v) == Err::<LibraryView, DecodeError>(e),
        },
{
    proof {
        lemma_decoded_library_wf(*v);
    }
    let entries = match v {
        Value::Dictionary(entries) => entries,
        _ => {
            return Err(DecodeError::TypeMismatch(FieldName::LibraryRoot));
        },
    };
    let av = match get_field(entries, FieldName::ApplicationVersion) {
        Ok(x) => x,
        Err(e) => {
            return Err(e);
        },
    };
    let application_version = match decode_text(av, FieldName::ApplicationVersion) {
        Ok(x) => x,
        Err(e) => {
            return Err(e);
        },
    };
    let apv = match get_field(entries, FieldName::ArchivePath) {
        Ok(x) => x,
        Err(e) => {
            return Err(e);
        },
    };
    let archive_path = match decode_text(apv, FieldName::ArchivePath) {
        Ok(x) => x,
        Err(e) => {
            return Err(e);
        },
    };
    let aiv = match get_field(entries, FieldName::ArchiveId) {
        Ok(x) => x,
        Err(e) => {
            return Err(e);
        },
    };
    let archive_id = match decode_text(aiv, FieldName::ArchiveId) {
        Ok(x) => x,
        Err(e) => {
            return Err(e);
        },
    };
    let mjv = match get_field(entries, FieldName::MajorVersion) {
        Ok(x) => x,
        Err(e) => {
            return Err(e);
        },
    };
    let major_version = match decode_u64(mjv, FieldName::MajorVersion) {
        Ok(x) => x,
        Err(e) => {
            return Err(e);
        },
    };
    let mnv = match get_field(entries, FieldName::MinorVersion) {
        Ok(x) => x,
        Err(e) => {
            return Err(e);
        },
    };
    let minor_version = match decode_u64(mnv, FieldName::MinorVersion) {
        Ok(x) => x,
        Err(e) => {
            return Err(e);
        },
    };
    let lav = match get_field(entries, FieldName::ListOfAlbums) {
        Ok(x) => x,
        Err(e) => {
            return Err(e);
        },
    };
    let albums = match lav {
        Value::Sequence(items) => match decode_albums(items) {
            Ok(x) => x,
            Err(e) => {
                return Err(e);
            },
        },
        _ => {
            return Err(DecodeError::TypeMismatch(FieldName::ListOfAlbums));
        },
    };
    let mlv = match get_field(entries, FieldName::MasterImageList) {
        Ok(x) => x,
        Err(e) => {
            return Err(e);
        },
    };
    let master_images = match mlv {
        Value::Dictionary(mes) => match decode_masters(mes) {
            Ok(x) => x,
            Err(e) => {
                return Err(e);
            },
        },
        _ => {
            return Err(DecodeError::TypeMismatch(FieldName::MasterImageList));
        },
    };
    Ok(
        Library {
            application_version,
            archive_path,
            archive_id,
            major_version,
            minor_version,
            albums,
            master_images,
        },
    )
}

} // verus!
