//! Grapheme clusters and display widths of text, as the Unicode crates give them.

use unicode_segmentation::UnicodeSegmentation;
use unicode_width::UnicodeWidthStr;
use vstd::prelude::*;
use vstd::utf8::encode_utf8;

verus! {

/// One grapheme cluster of a string.
#[derive(Debug)]
pub struct Grapheme {
    /// The byte offset in the string at which the cluster starts.
    pub offset: usize,
    /// The cluster's text.
    pub text: String,
}

/// The extended grapheme clusters of `text`, in order.
pub uninterp spec fn grapheme_clusters(text: Seq<char>) -> Seq<Seq<char>>;

/// The number of terminal columns that `text` takes.
pub uninterp spec fn display_width(text: Seq<char>) -> nat;

/// A character from U+0020 to U+007E.
pub open spec fn printable_ascii(c: char) -> bool {
    ' ' <= c <= '~'
}

/// Whether every character of `text` is printable ASCII.
pub open spec fn all_printable_ascii(text: Seq<char>) -> bool {
    forall|i: int| 0 <= i < text.len() ==> printable_ascii(#[trigger] text[i])
}

/// The length of `text` in bytes of UTF-8.
pub open spec fn byte_len(text: Seq<char>) -> nat {
    encode_utf8(text).len()
}

/// The byte offset at which cluster `i` starts: the byte lengths of the
/// clusters before it, added up. For `i == clusters.len()` it is the byte
/// length of the whole text.
pub open spec fn cluster_offset(clusters: Seq<Seq<char>>, i: int) -> nat
    decreases i,
{
    if i <= 0 {
        0
    } else {
        cluster_offset(clusters, i - 1) + byte_len(clusters[i - 1])
    }
}

/// The texts of a list of graphemes.
pub open spec fn cluster_texts(graphemes: Seq<Grapheme>) -> Seq<Seq<char>> {
    graphemes.map_values(|g: Grapheme| g.text@)
}

/// Splits `text` into its extended grapheme clusters with
/// `UnicodeSegmentation::grapheme_indices`.
///
/// Trusted: the clusters are those that the crate finds, a function of the
/// text alone. They are consecutive non-empty slices that cover the text from
/// its first byte to its last, and each offset is the byte at which its slice
/// starts. Characters from U+0020 to U+007E have no joining property, so a
/// text made of them alone splits into one cluster per character.
#[verifier::external_body]
pub(crate) fn split_graphemes(text: &str) -> (out: Vec<Grapheme>)
    ensures
        cluster_texts(out@) == grapheme_clusters(text@),
        cluster_texts(out@).flatten() == text@,
        cluster_offset(cluster_texts(out@), out.len() as int) == text.len(),
        forall|i: int| 0 <= i < out.len() ==> (#[trigger] out[i]).text@.len() > 0,
        forall|i: int|
            0 <= i < out.len() ==> (#[trigger] out[i]).offset == cluster_offset(
                cluster_texts(out@),
                i,
            ),
        all_printable_ascii(text@) ==> forall|i: int|
            0 <= i < out.len() ==> (#[trigger] out[i]).text@.len() == 1,
{
    text.grapheme_indices(true).map(
        |(offset, cluster)| Grapheme { offset, text: cluster.to_string() },
    ).collect()
}

/// Measures `text` with `UnicodeWidthStr::width`.
///
/// Trusted: the width is the one that the crate computes, a function of the
/// text alone, and a single character from U+0020 to U+007E is one column wide.
#[verifier::external_body]
pub(crate) fn width_of(text: &str) -> (width: usize)
    ensures
        width == display_width(text@),
        text@.len() == 1 && printable_ascii(text@[0]) ==> width == 1,
{
    text.width()
}

/// The display widths of a list of clusters.
pub open spec fn cluster_widths(clusters: Seq<Seq<char>>) -> Seq<nat> {
    clusters.map_values(|c: Seq<char>| display_width(c))
}

/// Widths as natural numbers.
pub open spec fn as_columns(widths: Seq<usize>) -> Seq<nat> {
    widths.map_values(|w: usize| w as nat)
}

/// Measures every grapheme of a list.
pub fn measure(graphemes: &Vec<Grapheme>) -> (widths: Vec<usize>)
    ensures
        widths.len() == graphemes.len(),
        as_columns(widths@) == cluster_widths(cluster_texts(graphemes@)),
        forall|i: int|
            0 <= i < widths.len() && graphemes[i].text@.len() == 1 && printable_ascii(
                graphemes[i].text@[0],
            ) ==> #[trigger] widths[i] == 1,
{
    let mut widths: Vec<usize> = Vec::new();
    let mut i: usize = 0;
    while i < graphemes.len()
        invariant
            i <= graphemes.len(),
            widths.len() == i,
            forall|j: int|
                0 <= j < i ==> widths[j] as nat == display_width(#[trigger] graphemes[j].text@),
            forall|j: int|
                0 <= j < i && graphemes[j].text@.len() == 1 && printable_ascii(
                    graphemes[j].text@[0],
                ) ==> #[trigger] widths[j] == 1,
        decreases graphemes.len() - i,
    {
        let w = width_of(graphemes[i].text.as_str());
        widths.push(w);
        i = i + 1;
    }
    assert(as_columns(widths@) =~= cluster_widths(cluster_texts(graphemes@)));
    widths
}

} // verus!
