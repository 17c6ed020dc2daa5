//! The typed records a successful decode produces.

use vstd::prelude::*;

use crate::name;
use crate::time::Timestamp;

verus! {

/// An ordered, named collection of references to master images.
#[derive(Debug)]
pub struct Album {
    /// Numeric identifier of the album.
    pub id: u64,
    /// Sanitized display name: trimmed, with every path separator deleted.
    pub name: String,
    /// Keys of the album's images, in display order, referencing entries of
    /// the library's master-image mapping.
    pub images: Vec<String>,
}

/// Mathematical model of an [`Album`].
pub struct AlbumView {
    pub id: u64,
    pub name: Seq<char>,
    pub images: Seq<Seq<char>>,
}

/// The views of a sequence of image keys.
pub open spec fn key_views(keys: Seq<String>) -> Seq<Seq<char>> {
    keys.map_values(|k: String| k@)
}

/// The views of a sequence of albums.
pub open spec fn album_views(albums: Seq<Album>) -> Seq<AlbumView> {
    albums.map_values(|a: Album| a@)
}

/// The views of a sequence of master-image mapping entries.
pub open spec fn master_entry_views(entries: Seq<(String, Master)>) -> Seq<
    (Seq<char>, MasterView),
> {
    entries.map_values(|p: (String, Master)| (p.0@, p.1@))
}

impl View for Album {
    type V = AlbumView;

    open spec fn view(&self) -> AlbumView {
        AlbumView { id: self.id, name: self.name@, images: key_views(self.images@) }
    }
}

/// A record describing one original image asset tracked by the library.
#[derive(Debug)]
pub struct Master {
    /// Filesystem path of the original image asset.
    pub path: String,
    /// When the image was created.
    pub creation_date: Timestamp,
    /// When the image was last modified.
    pub modification_date: Timestamp,
    /// Caption text; may be empty.
    pub caption: String,
    /// Comment text; may be empty.
    pub comment: String,
}

/// Mathematical model of a [`Master`].
pub struct MasterView {
    pub path: Seq<char>,
    pub creation_date: Timestamp,
    pub modification_date: Timestamp,
    pub caption: Seq<char>,
    pub comment: Seq<char>,
}

impl View for Master {
    type V = MasterView;

    open spec fn view(&self) -> MasterView {
        MasterView {
            path: self.path@,
            creation_date: self.creation_date,
            modification_date: self.modification_date,
            caption: self.caption@,
            comment: self.comment@,
        }
    }
}

impl MasterView {
    /// Both timestamps carry a nanosecond component within one second.
    pub open spec fn wf(self) -> bool {
        self.creation_date.wf() && self.modification_date.wf()
    }
}

/// The root record of one decoded catalog.
#[derive(Debug)]
pub struct Library {
    /// Version string of the application that wrote the catalog.
    pub application_version: String,
    /// Filesystem path of the library bundle.
    pub archive_path: String,
    /// Identifier string of the archive.
    pub archive_id: String,
    /// Major format version, recorded informationally.
    pub major_version: u64,
    /// Minor format version, recorded informationally.
    pub minor_version: u64,
    /// The albums, in source order.
    pub albums: Vec<Album>,
    /// The master-image mapping: image key to master record, in source
    /// order; lookups take the first entry with a matching key.
    pub master_images: Vec<(String, Master)>,
}

/// Mathematical model of a [`Library`].
pub struct LibraryView {
    pub application_version: Seq<char>,
    pub archive_path: Seq<char>,
    pub archive_id: Seq<char>,
    pub major_version: u64,
    pub minor_version: u64,
    pub albums: Seq<AlbumView>,
    pub master_images: Seq<(Seq<char>, MasterView)>,
}

impl View for Library {
    type V = LibraryView;

    open spec fn view(&self) -> LibraryView {
        LibraryView {
            application_version: self.application_version@,
            archive_path: self.archive_path@,
            archive_id: self.archive_id@,
            major_version: self.major_version,
            minor_version: self.minor_version,
            albums: album_views(self.albums@),
            master_images: master_entry_views(self.master_images@),
        }
    }
}

impl LibraryView {
    /// Every master record carries well-formed timestamps, and no album
    /// name contains a path separator.
    pub open spec fn wf(self) -> bool {
        (forall|i: int|
            0 <= i < self.master_images.len() ==> (#[trigger] self.master_images[i]).1.wf()) && (
        forall|i: int, j: int|
            0 <= i < self.albums.len() && 0 <= j < self.albums[i].name.len()
                ==> #[trigger] self.albums[i].name[j] != name::SEPARATOR)
    }

    /// The first master record stored under `key`, if any.
    pub open spec fn spec_get_master(self, key: Seq<char>) -> Option<MasterView> {
        spec_lookup_master(self.master_images, key)
    }

    /// Every image key referenced by any album exists in the master-image
    /// mapping. The decoder does not enforce this; it is the separate,
    /// opt-in post-decode check of [`Library::check_referential_integrity`].
    pub open spec fn referentially_intact(self) -> bool {
        forall|i: int, j: int|
            0 <= i < self.albums.len() && 0 <= j < self.albums[i].images.len()
                ==> spec_lookup_master(
                self.master_images,
                #[trigger] self.albums[i].images[j],
            ) is Some
    }
}

/// The first master record stored under `key` in `entries`, if any.
pub open spec fn spec_lookup_master(
    entries: Seq<(Seq<char>, MasterView)>,
    key: Seq<char>,
) -> Option<MasterView>
    decreases entries.len(),
{
    if entries.len() == 0 {
        None
    } else if entries[0].0 == key {
        Some(entries[0].1)
    } else {
        spec_lookup_master(entries.drop_first(), key)
    }
}

impl Library {
    /// Looks an image key up in the master-image mapping: the first master
    /// record stored under `key`, or `None` when the key is absent.
    pub fn get_master<'a>(&'a self, key: &str) -> (r: Option<&'a Master>)
        ensures
            match r {
                Some(m) => self@.spec_get_master(key@) == Some(m@),
                None => self@.spec_get_master(key@) is None,
            },
    {
        let ghost es = self@.master_images;
        proof {
            assert(es.skip(0) =~= es);
        }
        let mut i: usize = 0;
        while i < self.master_images.len()
            invariant
                es == self@.master_images,
                es.len() == self.master_images@.len(),
                i <= es.len(),
                spec_lookup_master(es, key@) == spec_lookup_master(es.skip(i as int), key@),
            decreases es.len() - i,
        {
            proof {
                assert(es.skip(i as int)[0] == es[i as int]);
                assert(es[i as int] == (self.master_images@[i as int].0@,
                self.master_images@[i as int].1@));
                assert(es.skip(i as int).drop_first() =~= es.skip(i as int + 1));
            }
            if crate::value::str_eq(self.master_images[i].0.as_str(), key) {
                return Some(&self.master_images[i].1);
            }
            i += 1;
        }
        proof {
            assert(es.skip(es.len() as int) =~= Seq::<(Seq<char>, MasterView)>::empty());
        }
        None
    }

    /// The opt-in post-decode integrity check: whether every image key
    /// referenced by any album exists in the master-image mapping.
    #[verifier::loop_isolation(false)]
    pub fn check_referential_integrity(&self) -> (r: bool)
        ensures
            r == self@.referentially_intact(),
    {
        let mut i: usize = 0;
        while i < self.albums.len()
            invariant
                i <= self.albums@.len(),
                forall|x: int, y: int|
                    0 <= x < i && 0 <= y < self@.albums[x].images.len() ==> spec_lookup_master(
                        self@.master_images,
                        #[trigger] self@.albums[x].images[y],
                    ) is Some,
            decreases self.albums@.len() - i,
        {
            let album = &self.albums[i];
            proof {
                assert(album@ == self@.albums[i as int]);
            }
            let mut j: usize = 0;
            while j < album.images.len()
                invariant
                    i < self.albums@.len(),
                    album@ == self@.albums[i as int],
                    j <= album.images@.len(),
                    forall|y: int|
                        0 <= y < j ==> spec_lookup_master(
                            self@.master_images,
                            #[trigger] self@.albums[i as int].images[y],
                        ) is Some,
                decreases album.images@.len() - j,
            {
                proof {
                    assert(album@.images[j as int] == album.images@[j as int]@);
                }
                if self.get_master(album.images[j].as_str()).is_none() {
                    proof {
                        assert(spec_lookup_master(
                            self@.master_images,
                            self@.albums[i as int].images[j as int],
                        ) is None);
                    }
                    return false;
                }
                j += 1;
            }
            i += 1;
        }
        true
    }
}

} // verus!
