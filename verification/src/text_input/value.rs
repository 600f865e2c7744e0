//! The value of a text input: its text split into grapheme clusters, the
//! units that the cursor moves over and that editing removes.

use unicode_segmentation::UnicodeSegmentation;
use vstd::prelude::*;
use vstd::seq_lib::lemma_flatten_concat;

verus! {

/// The extended grapheme clusters of a text, in order, as Unicode
/// Standard Annex #29 draws their boundaries.
pub uninterp spec fn grapheme_clusters(text: Seq<char>) -> Seq<Seq<char>>;

/// The texts of a list of strings.
pub open spec fn texts(strings: Seq<String>) -> Seq<Seq<char>> {
    strings.map_values(|s: String| s@)
}

/// Splits a text into its extended grapheme clusters with
/// `UnicodeSegmentation::graphemes`.
///
/// Its source yields consecutive, non-empty slices of the text from its
/// start to its end, each ending at the next grapheme boundary: so the
/// clusters are non-empty and together spell the text. Where the
/// boundaries fall is not restated here; the result is named instead.
#[verifier::external_body]
fn split_graphemes(text: &str) -> (clusters: Vec<String>)
    ensures
        texts(clusters@) == grapheme_clusters(text@),
        texts(clusters@).flatten() == text@,
        forall|i: int| 0 <= i < clusters@.len() ==> (#[trigger] clusters@[i])@.len() > 0,
{
    text.graphemes(true).map(String::from).collect()
}

/// The number of clusters that start before the first `limit` characters
/// end: those whose first character lies among them.
pub open spec fn count_starting_before(clusters: Seq<Seq<char>>, limit: int) -> nat
    decreases clusters.len(),
{
    if clusters.len() == 0 || limit <= 0 {
        0
    } else {
        1 + count_starting_before(clusters.drop_first(), limit - clusters[0].len())
    }
}

/// Among non-empty clusters, the number of those that start before the
/// first `limit` characters end is the least count of leading clusters
/// that hold at least `limit` characters (or all of them when they hold
/// fewer): the first that many clusters reach `limit`, and one fewer would
/// not. So a cursor placed there after an insertion sits just past the
/// inserted text, never inside a cluster and never a cluster further on.
pub proof fn law_count_starting_before(clusters: Seq<Seq<char>>, limit: int)
    requires
        forall|i: int| 0 <= i < clusters.len() ==> (#[trigger] clusters[i]).len() > 0,
    ensures
        count_starting_before(clusters, limit) <= clusters.len(),
        count_starting_before(clusters, limit) < clusters.len() ==> clusters.take(
            count_starting_before(clusters, limit) as int,
        ).flatten().len() >= limit,
        count_starting_before(clusters, limit) > 0 ==> clusters.take(
            count_starting_before(clusters, limit) - 1,
        ).flatten().len() < limit,
    decreases clusters.len(),
{
    if clusters.len() == 0 || limit <= 0 {
        assert(clusters.take(0) =~= Seq::<Seq<char>>::empty());
    } else {
        let rest = clusters.drop_first();
        let first = clusters[0];
        let smaller = limit - first.len();
        assert forall|i: int| 0 <= i < rest.len() implies (#[trigger] rest[i]).len() > 0 by {
            assert(rest[i] == clusters[i + 1]);
        }
        law_count_starting_before(rest, smaller);
        let k = count_starting_before(clusters, limit) as int;
        let k1 = count_starting_before(rest, smaller) as int;
        assert(k == 1 + k1);
        assert(clusters.take(k).drop_first() =~= rest.take(k1));
        assert(clusters.take(k).flatten() == first + rest.take(k1).flatten());
        if k1 > 0 {
            assert(clusters.take(k - 1).drop_first() =~= rest.take(k1 - 1));
            assert(clusters.take(k - 1).flatten() == first + rest.take(k1 - 1).flatten());
        } else {
            assert(clusters.take(k - 1) =~= Seq::<Seq<char>>::empty());
        }
    }
}

/// The text of a text input, as grapheme clusters.
#[derive(Debug, Clone)]
pub struct Value {
    graphemes: Vec<String>,
}

impl View for Value {
    type V = Seq<Seq<char>>;

    /// The grapheme clusters, in order.
    closed spec fn view(&self) -> Seq<Seq<char>> {
        texts(self.graphemes@)
    }
}

impl Value {
    /// Creates a value from a text, split into its grapheme clusters.
    pub fn new(text: &str) -> (value: Value)
        ensures
            value@ == grapheme_clusters(text@),
            value@.flatten() == text@,
            forall|i: int| 0 <= i < value@.len() ==> (#[trigger] value@[i]).len() > 0,
    {
        Value { graphemes: split_graphemes(text) }
    }

    /// The number of grapheme clusters.
    pub fn len(&self) -> (n: usize)
        ensures
            n == self@.len(),
    {
        self.graphemes.len()
    }

    /// Whether the value holds no text.
    pub fn is_empty(&self) -> (b: bool)
        ensures
            b == (self@.len() == 0),
    {
        self.graphemes.len() == 0
    }

    /// The text of the value.
    pub fn to_string(&self) -> (text: String)
        ensures
            text@ == self@.flatten(),
    {
        let mut text = String::new();
        let mut i: usize = 0;
        while i < self.graphemes.len()
            invariant
                i <= self.graphemes@.len(),
                text@ == self@.take(i as int).flatten(),
            decreases self.graphemes@.len() - i,
        {
            proof {
                self@.take(i as int).lemma_flatten_push(self@[i as int]);
                assert(self@.take(i as int).push(self@[i as int]) =~= self@.take(i + 1));
            }
            text.append(self.graphemes[i].as_str());
            i = i + 1;
        }
        assert(self@.take(i as int) =~= self@);
        text
    }

    /// Removes the grapheme cluster at `index`.
    pub fn remove(&mut self, index: usize)
        requires
            index < old(self)@.len(),
        ensures
            final(self)@ == old(self)@.remove(index as int),
    {
        let _ = self.graphemes.remove(index);
        assert(texts(self.graphemes@) =~= texts(old(self).graphemes@).remove(index as int));
    }

    /// Removes the grapheme clusters from `start` up to, not including,
    /// `end`.
    pub fn remove_many(&mut self, start: usize, end: usize)
        requires
            start <= end <= old(self)@.len(),
        ensures
            final(self)@ == old(self)@.subrange(0, start as int) + old(self)@.subrange(
                end as int,
                old(self)@.len() as int,
            ),
    {
        let mut rest = self.graphemes.split_off(start);
        let mut tail = rest.split_off(end - start);
        self.graphemes.append(&mut tail);
        assert(texts(self.graphemes@) =~= texts(old(self).graphemes@).subrange(0, start as int)
            + texts(old(self).graphemes@).subrange(end as int, old(self)@.len() as int));
    }
    /// Inserts the text of `content` before the cluster at `index`, splits
    /// the whole text into clusters anew, so that a combining mark joins
    /// the cluster before it and recomposes with it, and returns the
    /// position just past the inserted text: the number of clusters that
    /// start before the inserted text ends.
    pub fn insert_many_at(&mut self, index: usize, content: Value) -> (cursor: usize)
        requires
            index <= old(self)@.len(),
        ensures
            ({
                let before = old(self)@.take(index as int).flatten() + content@.flatten();
                let text = before + old(self)@.skip(index as int).flatten();
                &&& final(self)@ == grapheme_clusters(text)
                &&& final(self)@.flatten() == text
                &&& forall|i: int|
                    0 <= i < final(self)@.len() ==> (#[trigger] final(self)@[i]).len() > 0
                &&& cursor == count_starting_before(final(self)@, before.len() as int)
            }),
            cursor <= final(self)@.len(),
    {
        let ghost old_view = self@;
        let n = self.graphemes.len();
        let mut combined = String::new();
        let mut i: usize = 0;
        while i < index
            invariant
                index <= n == old_view.len(),
                self@ == old_view,
                i <= index,
                combined@ == old_view.take(i as int).flatten(),
            decreases index - i,
        {
            proof {
                old_view.take(i as int).lemma_flatten_push(old_view[i as int]);
                assert(old_view.take(i as int).push(old_view[i as int]) =~= old_view.take(i + 1));
            }
            combined.append(self.graphemes[i].as_str());
            i = i + 1;
        }
        let content_text = content.to_string();
        combined.append(content_text.as_str());
        let upto = combined.as_str().unicode_len();
        let ghost before = combined@;
        while i < n
            invariant
                index <= n == old_view.len(),
                self@ == old_view,
                index <= i <= n,
                before == old_view.take(index as int).flatten() + content@.flatten(),
                combined@ == before + old_view.subrange(index as int, i as int).flatten(),
            decreases n - i,
        {
            proof {
                let done = old_view.subrange(index as int, i as int);
                done.lemma_flatten_push(old_view[i as int]);
                assert(done.push(old_view[i as int]) =~= old_view.subrange(index as int, i + 1));
            }
            combined.append(self.graphemes[i].as_str());
            i = i + 1;
        }
        assert(old_view.subrange(index as int, n as int) =~= old_view.skip(index as int));
        let total = combined.as_str().unicode_len();
        self.graphemes = split_graphemes(combined.as_str());
        let ghost view = self@;
        let count = self.graphemes.len();
        let mut k: usize = 0;
        let mut seen: usize = 0;
        assert(view.skip(0) =~= view);
        while k < count && seen < upto
            invariant
                count == view.len(),
                view == self@,
                view.flatten().len() == total,
                k <= count,
                seen == view.take(k as int).flatten().len(),
                count_starting_before(view, upto as int) == k + count_starting_before(
                    view.skip(k as int),
                    upto - seen,
                ),
            decreases count - k,
        {
            proof {
                view.take(k as int).lemma_flatten_push(view[k as int]);
                assert(view.take(k as int).push(view[k as int]) =~= view.take(k + 1));
                lemma_flatten_concat(view.take(k + 1), view.skip(k + 1));
                assert(view.take(k + 1) + view.skip(k + 1) =~= view);
                assert(view.skip(k as int).drop_first() =~= view.skip(k + 1));
                assert(view.skip(k as int)[0] == view[k as int]);
            }
            let width = self.graphemes[k].as_str().unicode_len();
            seen = seen + width;
            k = k + 1;
        }
        k
    }
}

} // verus!
