use vstd::prelude::*;
use vstd::string::StringExecFns;

verus! {

/// One audio item: a display name and a path fragment that is joined to the
/// manifest's prefix to form the track's URL.
#[derive(Debug, Clone, PartialEq, Eq)]
pub struct Song {
    pub name: String,
    pub path: String,
}

pub struct SongView {
    pub name: Seq<char>,
    pub path: Seq<char>,
}

impl View for Song {
    type V = SongView;

    open spec fn view(&self) -> SongView {
        SongView { name: self.name@, path: self.path@ }
    }
}

/// A titled, ordered list of tracks that share one URL prefix.
#[derive(Debug, Clone, PartialEq, Eq)]
pub struct Manifest {
    pub title: String,
    pub prefix: String,
    pub songs: Vec<Song>,
}

pub struct ManifestView {
    pub title: Seq<char>,
    pub prefix: Seq<char>,
    pub songs: Seq<SongView>,
}

impl View for Manifest {
    type V = ManifestView;

    open spec fn view(&self) -> ManifestView {
        ManifestView { title: self.title@, prefix: self.prefix@, songs: self.songs@.map_values(|s: Song| s@) }
    }
}

/// The URL of a track: the prefix followed verbatim by the path.
pub open spec fn url_of(prefix: Seq<char>, path: Seq<char>) -> Seq<char> {
    prefix + path
}

/// Joins `prefix` and `path` into a URL, with no separator and no normalization.
pub fn song_url(prefix: &str, path: &str) -> (r: String)
    ensures
        r@ == url_of(prefix@, path@),
{
    let r = String::from_str(prefix);
    r.concat(path)
}

impl Song {
    pub fn new(name: String, path: String) -> (r: Song)
        ensures
            r@ == (SongView { name: name@, path: path@ }),
    {
        Song { name, path }
    }
}

impl Manifest {
    pub fn new(title: String, prefix: String, songs: Vec<Song>) -> (r: Manifest)
        ensures
            r.title@ == title@,
            r.prefix@ == prefix@,
            r.songs@ == songs@,
    {
        Manifest { title, prefix, songs }
    }

    /// Appends `song` after the existing tracks; title and prefix are kept.
    pub fn add(&mut self, song: Song)
        ensures
            final(self).title@ == old(self).title@,
            final(self).prefix@ == old(self).prefix@,
            final(self).songs@ == old(self).songs@.push(song),
            final(self)@.songs == old(self)@.songs.push(song@),
    {
        self.songs.push(song);
        proof {
            assert(self@.songs =~= old(self)@.songs.push(song@));
        }
    }
}

impl Default for Manifest {
    /// The template manifest: empty title, empty prefix, no tracks.
    fn default() -> (r: Manifest)
        ensures
            r@.title.len() == 0,
            r@.prefix.len() == 0,
            r@.songs.len() == 0,
    {
        Manifest { title: String::new(), prefix: String::new(), songs: Vec::new() }
    }
}

} // verus!
