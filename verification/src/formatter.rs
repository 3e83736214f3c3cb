//! Builds the bounded-length display line from raw title and artist fields.

use vstd::prelude::*;

verus! {

/// Character count past which a display line is cut off.
pub const META_STR_MAX_LEN: usize = 100;

/// The artist names joined by `", "`, with no separator around a single name.
pub open spec fn joined_artists(artists: Seq<Seq<char>>) -> Seq<char>
    decreases artists.len(),
{
    if artists.len() == 0 {
        Seq::empty()
    } else if artists.len() == 1 {
        artists[0]
    } else {
        joined_artists(artists.drop_last()) + ", "@ + artists.last()
    }
}

/// The untruncated display line `"{artists} - {title}"`.
pub open spec fn raw_line(title: Seq<char>, artists: Seq<Seq<char>>) -> Seq<char> {
    joined_artists(artists) + " - "@ + title
}

/// A line over `META_STR_MAX_LEN` characters keeps exactly its first
/// `META_STR_MAX_LEN` characters and gains a `"..."` marker; a shorter
/// line passes through unchanged.
pub open spec fn truncated(line: Seq<char>) -> Seq<char> {
    if line.len() > META_STR_MAX_LEN {
        line.subrange(0, META_STR_MAX_LEN as int) + "..."@
    } else {
        line
    }
}

/// The display line for a title and artist list.
pub open spec fn formatted(title: Seq<char>, artists: Seq<Seq<char>>) -> Seq<char> {
    truncated(raw_line(title, artists))
}

fn join_artists(artists: &Vec<String>) -> (r: String)
    ensures
        r@ == joined_artists(artists.deep_view()),
{
    let mut r = String::new();
    let mut i: usize = 0;
    while i < artists.len()
        invariant
            i <= artists.len(),
            r@ == joined_artists(artists.deep_view().take(i as int)),
        decreases artists.len() - i,
    {
        if i > 0 {
            r.append(", ");
        }
        r.append(artists[i].as_str());
        proof {
            let dv = artists.deep_view();
            assert(dv.take(i + 1).drop_last() =~= dv.take(i as int));
            assert(dv.take(i + 1).last() == dv[i as int]);
            if i == 0 {
                assert(r@ =~= joined_artists(dv.take(i + 1)));
            }
        }
        i = i + 1;
    }
    proof {
        assert(artists.deep_view().take(artists@.len() as int) =~= artists.deep_view());
    }
    r
}

/// The single line a widget should show for a track: the artists joined by
/// `", "`, then `" - "`, then the title, truncated past `META_STR_MAX_LEN`
/// characters.
pub fn format_metadata(title: &str, artists: &Vec<String>) -> (r: String)
    ensures
        r@ == formatted(title@, artists.deep_view()),
{
    let mut line = join_artists(artists);
    line.append(" - ");
    line.append(title);
    let n = line.as_str().unicode_len();
    if n > META_STR_MAX_LEN {
        let mut cut = String::from_str(line.as_str().substring_char(0, META_STR_MAX_LEN));
        cut.append("...");
        cut
    } else {
        line
    }
}

/// A pair whose untruncated line fits in `META_STR_MAX_LEN` characters is
/// formatted to exactly that line, unmodified.
pub proof fn lemma_format_short(title: Seq<char>, artists: Seq<Seq<char>>)
    requires
        raw_line(title, artists).len() <= META_STR_MAX_LEN,
    ensures
        formatted(title, artists) == raw_line(title, artists),
{
}

/// A pair whose untruncated line is longer is formatted to exactly the first
/// `META_STR_MAX_LEN` characters of that line followed by `"..."`.
pub proof fn lemma_format_truncates(title: Seq<char>, artists: Seq<Seq<char>>)
    requires
        raw_line(title, artists).len() > META_STR_MAX_LEN,
    ensures
        formatted(title, artists) == raw_line(title, artists).subrange(0, META_STR_MAX_LEN as int)
            + "..."@,
{
}

/// No formatted line exceeds `META_STR_MAX_LEN + 3` characters.
pub proof fn lemma_formatted_len(title: Seq<char>, artists: Seq<Seq<char>>)
    ensures
        formatted(title, artists).len() <= META_STR_MAX_LEN + 3,
{
    reveal_strlit("...");
}

} // verus!
