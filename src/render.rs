use vstd::prelude::*;
use vstd::string::StringExecFns;
use crate::manifest::{song_url, url_of, Manifest, ManifestView, SongView};

verus! {

/// The HTML entity that stands for `c` in text and attribute values, or `c`
/// itself where it needs none.
pub open spec fn escape_char(c: char) -> Seq<char> {
    if c == '"' {
        "&quot;"@
    } else if c == '&' {
        "&amp;"@
    } else if c == '\'' {
        "&#39;"@
    } else if c == '<' {
        "&lt;"@
    } else if c == '>' {
        "&gt;"@
    } else {
        seq![c]
    }
}

/// `s` with each character replaced by its escaped form.
pub open spec fn escaped(s: Seq<char>) -> Seq<char>
    decreases s.len(),
{
    if s.len() == 0 {
        Seq::empty()
    } else {
        escaped(s.drop_last()) + escape_char(s.last())
    }
}

/// Relies on laby::internal::escape_str: every `"`, `&`, `'`, `<` and `>` is
/// replaced by its HTML entity, every other character is kept, in order.
#[verifier::external_body]
fn escape_html(s: &str) -> (r: String)
    ensures
        r@ == escaped(s@),
{
    laby::internal::escape_str(s)
}

/// The markup of one track: a heading with its name and an audio player whose
/// source is the track's URL.
pub open spec fn song_block(prefix: Seq<char>, song: SongView) -> Seq<char> {
    "<div><h3>"@ + escaped(song.name) + "</h3><audio class=\"track\" controls=\"controls\"><source src=\""@
        + escaped(url_of(prefix, song.path)) + "\"></audio></div>"@
}

/// The blocks of `songs`, one after another, in order.
pub open spec fn song_blocks(prefix: Seq<char>, songs: Seq<SongView>) -> Seq<char>
    decreases songs.len(),
{
    if songs.len() == 0 {
        Seq::empty()
    } else {
        song_blocks(prefix, songs.drop_last()) + song_block(prefix, songs.last())
    }
}

/// Everything of the page up to the first track's block.
pub open spec fn page_head(title: Seq<char>) -> Seq<char> {
    "<html><head><title>"@ + escaped(title) + "</title></head><body class=\"dark\">"@
}

/// Everything of the page after the last track's block.
pub open spec fn page_tail() -> Seq<char> {
    "</body></html>"@
}

/// The whole page of a manifest.
pub open spec fn page(m: ManifestView) -> Seq<char> {
    page_head(m.title) + song_blocks(m.prefix, m.songs) + page_tail()
}

/// Renders the HTML page of `m`: its title in the head, and in a dark body one
/// block per track, in the manifest's order.
pub fn render(m: &Manifest) -> (r: String)
    ensures
        r@ == page(m@),
{
    let mut out = String::from_str("<html><head><title>");
    let title = escape_html(m.title.as_str());
    out.append(title.as_str());
    out.append("</title></head><body class=\"dark\">");
    let ghost head = out@;
    assert(head == page_head(m@.title));
    let mut i: usize = 0;
    while i < m.songs.len()
        invariant
            i <= m.songs.len(),
            out@ == head + song_blocks(m@.prefix, m@.songs.take(i as int)),
        decreases m.songs.len() - i,
    {
        let song = &m.songs[i];
        out.append("<div><h3>");
        let name = escape_html(song.name.as_str());
        out.append(name.as_str());
        out.append("</h3><audio class=\"track\" controls=\"controls\"><source src=\"");
        let url = song_url(m.prefix.as_str(), song.path.as_str());
        let src = escape_html(url.as_str());
        out.append(src.as_str());
        out.append("\"></audio></div>");
        proof {
            let s = m@.songs.take(i as int + 1);
            assert(s.drop_last() =~= m@.songs.take(i as int));
            assert(s.last() == m@.songs[i as int]);
            assert(out@ =~= head + song_blocks(m@.prefix, m@.songs.take(i as int)) + song_block(m@.prefix, m@.songs[i as int]));
        }
        i = i + 1;
    }
    out.append("</body></html>");
    proof {
        assert(m@.songs.take(m.songs.len() as int) =~= m@.songs);
        assert(out@ =~= page(m@));
    }
    out
}

/// The blocks of the tracks of `songs`, in order, as one sequence per track.
pub open spec fn blocks_of(prefix: Seq<char>, songs: Seq<SongView>) -> Seq<Seq<char>> {
    songs.map_values(|s: SongView| song_block(prefix, s))
}

proof fn lemma_song_blocks_flatten(prefix: Seq<char>, songs: Seq<SongView>)
    ensures
        song_blocks(prefix, songs) == blocks_of(prefix, songs).flatten_alt(),
    decreases songs.len(),
{
    if songs.len() > 0 {
        lemma_song_blocks_flatten(prefix, songs.drop_last());
        assert(blocks_of(prefix, songs).drop_last() =~= blocks_of(prefix, songs.drop_last()));
    }
}

/// A page holds its head, then exactly one block per track, the i-th block for
/// the i-th track, then its tail: nothing is dropped, added or reordered.
pub proof fn lemma_page_has_one_block_per_song(m: ManifestView)
    ensures
        blocks_of(m.prefix, m.songs).len() == m.songs.len(),
        forall|i: int|
            0 <= i < m.songs.len() ==> #[trigger] blocks_of(m.prefix, m.songs)[i] == song_block(
                m.prefix,
                m.songs[i],
            ),
        page(m) == page_head(m.title) + blocks_of(m.prefix, m.songs).flatten() + page_tail(),
{
    lemma_song_blocks_flatten(m.prefix, m.songs);
    blocks_of(m.prefix, m.songs).lemma_flatten_and_flatten_alt_are_equivalent();
}

} // verus!
