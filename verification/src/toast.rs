//! The XML document of the toast that announces a new track.
use vstd::prelude::*;
use vstd::string::StringExecFns;

verus! {

/// Text of the toast document before the image path.
pub const TOAST_HEAD: &'static str = "<toast>\n            <audio silent=\"true\"/>\n            <visual>\n                <binding template=\"ToastImageAndText02\">\n                    <image id=\"1\" src=\"";

/// Text between the image path and the title.
pub const TOAST_BEFORE_TITLE: &'static str = "\" hint-crop=\"circle\"/>\n                    <text id=\"1\"> ";

/// Text between the title and the artist.
pub const TOAST_BEFORE_ARTIST: &'static str = " </text>\n                    <text id=\"2\"> ";

/// Text of the toast document after the artist.
pub const TOAST_TAIL: &'static str = " </text>\n                </binding>\n            </visual>\n        </toast>";

/// The toast document for a track: a round-cropped image from `image_path`
/// beside two text lines, the title and the artist, inserted as they are.
pub open spec fn toast_document(image_path: Seq<char>, title: Seq<char>, artist: Seq<char>) -> Seq<char> {
    TOAST_HEAD@ + image_path + TOAST_BEFORE_TITLE@ + title + TOAST_BEFORE_ARTIST@ + artist + TOAST_TAIL@
}

/// The document holds each of its three fields whole, in place: it starts
/// with the fixed head, the image path follows it unchanged, then the fixed
/// text before the title, the whole title, the fixed text before the artist,
/// the whole artist and the fixed tail, so its length is the sum of theirs.
pub proof fn lemma_toast_document_holds_fields_whole(p: Seq<char>, t: Seq<char>, a: Seq<char>)
    ensures
        ({
            let d = toast_document(p, t, a);
            let h = TOAST_HEAD@.len() as int;
            let bt = TOAST_BEFORE_TITLE@.len() as int;
            let ba = TOAST_BEFORE_ARTIST@.len() as int;
            let title_at = h + p.len() + bt;
            let artist_at = title_at + t.len() + ba;
            &&& d.len() == artist_at + a.len() + TOAST_TAIL@.len()
            &&& d.subrange(0, h) == TOAST_HEAD@
            &&& d.subrange(h, h + p.len()) == p
            &&& d.subrange(h + p.len(), title_at) == TOAST_BEFORE_TITLE@
            &&& d.subrange(title_at, title_at + t.len()) == t
            &&& d.subrange(title_at + t.len(), artist_at) == TOAST_BEFORE_ARTIST@
            &&& d.subrange(artist_at, artist_at + a.len()) == a
            &&& d.subrange(artist_at + a.len(), d.len() as int) == TOAST_TAIL@
        }),
{
    let d = toast_document(p, t, a);
    let h = TOAST_HEAD@.len() as int;
    let bt = TOAST_BEFORE_TITLE@.len() as int;
    let ba = TOAST_BEFORE_ARTIST@.len() as int;
    let title_at = h + p.len() + bt;
    let artist_at = title_at + t.len() + ba;
    assert(d.subrange(0, h) =~= TOAST_HEAD@);
    assert(d.subrange(h, h + p.len()) =~= p);
    assert(d.subrange(h + p.len(), title_at) =~= TOAST_BEFORE_TITLE@);
    assert(d.subrange(title_at, title_at + t.len()) =~= t);
    assert(d.subrange(title_at + t.len(), artist_at) =~= TOAST_BEFORE_ARTIST@);
    assert(d.subrange(artist_at, artist_at + a.len()) =~= a);
    assert(d.subrange(artist_at + a.len(), d.len() as int) =~= TOAST_TAIL@);
}

/// Builds the toast document announcing `title` by `artist` with the
/// thumbnail stored at `image_path`.
pub fn toast_xml(title: &str, artist: &str, image_path: &str) -> (xml: String)
    ensures
        xml@ == toast_document(image_path@, title@, artist@),
        xml@.len() == TOAST_HEAD@.len() + image_path@.len() + TOAST_BEFORE_TITLE@.len()
            + title@.len() + TOAST_BEFORE_ARTIST@.len() + artist@.len() + TOAST_TAIL@.len(),
        xml@.subrange(
            (TOAST_HEAD@.len() + image_path@.len() + TOAST_BEFORE_TITLE@.len()) as int,
            (TOAST_HEAD@.len() + image_path@.len() + TOAST_BEFORE_TITLE@.len() + title@.len()) as int,
        ) == title@,
{
    let mut xml: String = String::from_str(TOAST_HEAD);
    xml.append(image_path);
    xml.append(TOAST_BEFORE_TITLE);
    xml.append(title);
    xml.append(TOAST_BEFORE_ARTIST);
    xml.append(artist);
    xml.append(TOAST_TAIL);
    proof {
        lemma_toast_document_holds_fields_whole(image_path@, title@, artist@);
    }
    xml
}

} // verus!
