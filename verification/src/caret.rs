//! Where the caret of the search query stands on screen: display columns of
//! grapheme clusters, counted from byte offsets.

use crate::unicode::{
    all_printable_ascii, as_columns, byte_len, cluster_offset, cluster_texts, cluster_widths,
    grapheme_clusters, measure, printable_ascii, split_graphemes, Grapheme,
};
use vstd::prelude::*;
use vstd::utf8::{is_ascii_chars, is_ascii_chars_encode_utf8};

verus! {

/// The first `n` widths, added up: the display columns that the first `n`
/// clusters take together.
pub open spec fn columns_through(widths: Seq<nat>, n: int) -> nat
    decreases n,
{
    if n <= 0 {
        0
    } else {
        columns_through(widths, n - 1) + widths[n - 1]
    }
}

/// The widths of those among the first `n` clusters that end at or before
/// the byte `caret`, added up: the column at which the caret stands.
pub open spec fn caret_column(
    clusters: Seq<Seq<char>>,
    widths: Seq<nat>,
    caret: int,
    n: int,
) -> nat
    decreases n,
{
    if n <= 0 {
        0
    } else {
        caret_column(clusters, widths, caret, n - 1) + if cluster_offset(clusters, n) <= caret {
            widths[n - 1]
        } else {
            0
        }
    }
}

/// `n`, or the largest `usize` where `n` does not fit.
pub open spec fn saturated(n: nat) -> usize {
    if n > usize::MAX {
        usize::MAX
    } else {
        n as usize
    }
}

/// The caret column of a query, as handed to the column window: its
/// clusters are those of the query, their widths the display widths.
pub open spec fn query_caret_column(query: Seq<char>, byte_caret: int) -> usize {
    let clusters = grapheme_clusters(query);
    saturated(
        caret_column(clusters, cluster_widths(clusters), byte_caret, clusters.len() as int),
    )
}

/// Graphemes that lie one after the other from byte 0 to byte `total`, with
/// one width for each.
pub open spec fn is_segmentation(
    graphemes: Seq<Grapheme>,
    widths: Seq<usize>,
    total: usize,
) -> bool {
    &&& widths.len() == graphemes.len()
    &&& total == cluster_offset(cluster_texts(graphemes), graphemes.len() as int)
    &&& forall|i: int|
        0 <= i < graphemes.len() ==> (#[trigger] graphemes[i]).offset == cluster_offset(
            cluster_texts(graphemes),
            i,
        )
}

/// The byte offset at which cluster `i` ends, from the offsets as measured.
pub fn end_offset(graphemes: &Vec<Grapheme>, total: usize, i: usize) -> (end: usize)
    requires
        i < graphemes.len(),
        total == cluster_offset(cluster_texts(graphemes@), graphemes.len() as int),
        forall|j: int|
            0 <= j < graphemes.len() ==> (#[trigger] graphemes[j]).offset == cluster_offset(
                cluster_texts(graphemes@),
                j,
            ),
    ensures
        end == cluster_offset(cluster_texts(graphemes@), i + 1),
{
    if i + 1 < graphemes.len() {
        graphemes[i + 1].offset
    } else {
        total
    }
}

/// Computes the caret column from a measured segmentation.
pub fn caret_column_of(
    graphemes: &Vec<Grapheme>,
    widths: &Vec<usize>,
    total: usize,
    byte_caret: usize,
) -> (col: usize)
    requires
        is_segmentation(graphemes@, widths@, total),
    ensures
        col == saturated(
            caret_column(
                cluster_texts(graphemes@),
                as_columns(widths@),
                byte_caret as int,
                graphemes.len() as int,
            ),
        ),
{
    let ghost clusters = cluster_texts(graphemes@);
    let ghost columns = as_columns(widths@);
    let mut sum: u128 = 0;
    let mut i: usize = 0;
    while i < graphemes.len()
        invariant
            i <= graphemes.len(),
            is_segmentation(graphemes@, widths@, total),
            clusters == cluster_texts(graphemes@),
            columns == as_columns(widths@),
            sum == caret_column(clusters, columns, byte_caret as int, i as int),
            sum <= i * 0xffff_ffff_ffff_ffff,
        decreases graphemes.len() - i,
    {
        let end = end_offset(graphemes, total, i);
        if end <= byte_caret {
            sum = sum + widths[i] as u128;
        }
        i = i + 1;
    }
    if sum > usize::MAX as u128 {
        usize::MAX
    } else {
        sum as usize
    }
}

/// In a text split into single characters, cluster `i` is character `i`.
pub proof fn lemma_single_character_clusters(clusters: Seq<Seq<char>>)
    requires
        forall|i: int| 0 <= i < clusters.len() ==> (#[trigger] clusters[i]).len() == 1,
    ensures
        clusters.flatten().len() == clusters.len(),
        forall|i: int|
            0 <= i < clusters.len() ==> (#[trigger] clusters[i])[0] == clusters.flatten()[i],
    decreases clusters.len(),
{
    if clusters.len() > 0 {
        let rest = clusters.drop_first();
        assert forall|i: int| 0 <= i < rest.len() implies (#[trigger] rest[i]).len() == 1 by {
            assert(rest[i] == clusters[i + 1]);
        }
        lemma_single_character_clusters(rest);
        assert(clusters.flatten() == clusters.first() + rest.flatten());
        assert forall|i: int| 0 <= i < clusters.len() implies (#[trigger] clusters[i])[0]
            == clusters.flatten()[i] by {
            if i > 0 {
                assert(rest[i - 1] == clusters[i]);
            }
        }
    }
}

/// Where every cluster is one printable ASCII character of width one, the
/// caret column is the caret's byte offset, as far as the text reaches.
pub proof fn lemma_ascii_caret_column(
    clusters: Seq<Seq<char>>,
    widths: Seq<nat>,
    caret: int,
    n: int,
)
    requires
        0 <= n <= clusters.len(),
        widths.len() == clusters.len(),
        0 <= caret,
        forall|i: int|
            0 <= i < clusters.len() ==> (#[trigger] clusters[i]).len() == 1 && printable_ascii(
                clusters[i][0],
            ) && widths[i] == 1,
    ensures
        cluster_offset(clusters, n) == n,
        caret_column(clusters, widths, caret, n) == if caret <= n { caret } else { n },
    decreases n,
{
    if n > 0 {
        lemma_ascii_caret_column(clusters, widths, caret, n - 1);
        let c = clusters[n - 1];
        assert(is_ascii_chars(c));
        is_ascii_chars_encode_utf8(c);
        assert(byte_len(c) == 1);
    }
}

/// A query's graphemes, their display widths and the query's length in bytes.
pub struct Segmentation {
    pub graphemes: Vec<Grapheme>,
    pub widths: Vec<usize>,
    pub total: usize,
}

/// Splits `query` into grapheme clusters and measures each.
///
/// A query of printable ASCII has one cluster for each character, one byte
/// long and one column wide.
pub fn segment(query: &str) -> (parts: Segmentation)
    ensures
        is_segmentation(parts.graphemes@, parts.widths@, parts.total),
        cluster_texts(parts.graphemes@) == grapheme_clusters(query@),
        as_columns(parts.widths@) == cluster_widths(grapheme_clusters(query@)),
        grapheme_clusters(query@).flatten() == query@,
        all_printable_ascii(query@) ==> parts.graphemes.len() == query@.len() && forall|i: int|
            0 <= i < parts.graphemes.len() ==> (#[trigger] parts.graphemes[i]).text@
                == seq![query@[i]] && parts.widths[i] == 1,
{
    let graphemes = split_graphemes(query);
    let widths = measure(&graphemes);
    let total = query.len();
    proof {
        if all_printable_ascii(query@) {
            let clusters = cluster_texts(graphemes@);
            assert forall|i: int| 0 <= i < clusters.len() implies (#[trigger] clusters[i]).len()
                == 1 by {
                assert(clusters[i] == graphemes[i].text@);
            }
            lemma_single_character_clusters(clusters);
            assert forall|i: int| 0 <= i < graphemes.len() implies (#[trigger] graphemes[i]).text@
                == seq![query@[i]] && widths[i] == 1 by {
                assert(clusters[i] == graphemes[i].text@);
                assert(clusters[i][0] == query@[i]);
                assert(graphemes[i].text@ =~= seq![query@[i]]);
            }
        }
    }
    Segmentation { graphemes, widths, total }
}

/// The display column at which the caret of `query` stands: the widths of the
/// grapheme clusters that end at or before byte `byte_caret`, added up. For a
/// query of printable ASCII and a caret inside it or at its end, the column
/// is the byte offset itself.
pub fn grapheme_caret_columns(query: &str, byte_caret: usize) -> (col: usize)
    ensures
        col == query_caret_column(query@, byte_caret as int),
        all_printable_ascii(query@) && byte_caret <= query@.len() ==> col == byte_caret,
{
    let parts = segment(query);
    let col = caret_column_of(&parts.graphemes, &parts.widths, parts.total, byte_caret);
    proof {
        let clusters = cluster_texts(parts.graphemes@);
        let widths = as_columns(parts.widths@);
        if all_printable_ascii(query@) && byte_caret <= query@.len() {
            assert forall|i: int| 0 <= i < clusters.len() implies (#[trigger] clusters[i]).len()
                == 1 && printable_ascii(clusters[i][0]) && widths[i] == 1 by {
                assert(clusters[i] == parts.graphemes[i].text@);
            }
            lemma_ascii_caret_column(clusters, widths, byte_caret as int, clusters.len() as int);
        }
    }
    col
}

} // verus!
