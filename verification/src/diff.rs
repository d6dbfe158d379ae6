//! Word-level alignment between two text blocks and its rendering.
//!
//! The alignment is computed by the `similar` crate over word-like tokens
//! (contiguous runs split at whitespace and punctuation boundaries); this
//! module states what every alignment satisfies — the segments reconstruct
//! both inputs — and renders it as one linear, unified view.

use vstd::prelude::*;
use vstd::string::StringExecFns;

verus! {

/// One tagged unit of a computed alignment, carrying a text fragment.
/// An ordered sequence of segments fully reconstructs both inputs when
/// filtered by tag: equal and deleted segments spell the previous text,
/// equal and inserted segments spell the current text.
#[derive(Debug, PartialEq, Eq)]
pub enum DiffSegment {
    /// A fragment common to both texts.
    Equal(String),
    /// A fragment of the previous text that the current text lacks.
    Deleted(String),
    /// A fragment of the current text that the previous text lacks.
    Inserted(String),
}

/// The text fragment a segment carries.
pub open spec fn segment_text(s: DiffSegment) -> Seq<char> {
    match s {
        DiffSegment::Equal(t) => t@,
        DiffSegment::Deleted(t) => t@,
        DiffSegment::Inserted(t) => t@,
    }
}

/// The previous text as an alignment spells it: the concatenation of the
/// equal and deleted fragments, in order.
pub open spec fn previous_text(segs: Seq<DiffSegment>) -> Seq<char>
    decreases segs.len(),
{
    if segs.len() == 0 {
        Seq::empty()
    } else {
        (match segs[0] {
            DiffSegment::Equal(t) => t@,
            DiffSegment::Deleted(t) => t@,
            DiffSegment::Inserted(_) => Seq::empty(),
        }) + previous_text(segs.drop_first())
    }
}

/// The current text as an alignment spells it: the concatenation of the
/// equal and inserted fragments, in order.
pub open spec fn current_text(segs: Seq<DiffSegment>) -> Seq<char>
    decreases segs.len(),
{
    if segs.len() == 0 {
        Seq::empty()
    } else {
        (match segs[0] {
            DiffSegment::Equal(t) => t@,
            DiffSegment::Inserted(t) => t@,
            DiffSegment::Deleted(_) => Seq::empty(),
        }) + current_text(segs.drop_first())
    }
}

/// The alignment that the word-level diff computes for a pair of texts. The
/// underlying algorithm is a deterministic function of the two texts alone,
/// so its result can be named; nothing further is assumed of it beyond what
/// the trusted wrapper below states.
pub uninterp spec fn word_diff_of(previous: Seq<char>, current: Seq<char>) -> Seq<DiffSegment>;

/// Relies on similar::TextDiff::from_unicode_words: the diff is a
/// deterministic function of the two texts; its tokenization splits at
/// whitespace and word boundaries losslessly, and the emitted changes tile
/// both token sequences in order, so the equal and deleted fragments
/// concatenate to the previous text and the equal and inserted fragments to
/// the current text.
#[verifier::external_body]
fn word_diff(previous: &str, current: &str) -> (r: Vec<DiffSegment>)
    ensures
        r@ == word_diff_of(previous@, current@),
        previous_text(r@) == previous@,
        current_text(r@) == current@,
{
    let diff = similar::TextDiff::from_unicode_words(previous, current);
    let mut segments: Vec<DiffSegment> = Vec::new();
    for change in diff.iter_all_changes() {
        let fragment = change.value().to_string();
        segments.push(match change.tag() {
            similar::ChangeTag::Equal => DiffSegment::Equal(fragment),
            similar::ChangeTag::Delete => DiffSegment::Deleted(fragment),
            similar::ChangeTag::Insert => DiffSegment::Inserted(fragment),
        });
    }
    segments
}

/// Computes the word-level alignment between the previous and the current
/// AST text.
pub fn diff_texts(previous: &str, current: &str) -> (r: Vec<DiffSegment>)
    ensures
        r@ == word_diff_of(previous@, current@),
        previous_text(r@) == previous@,
        current_text(r@) == current@,
{
    word_diff(previous, current)
}

/// The rendering of one segment: deleted fragments are marked with a leading
/// `-`, inserted fragments with `+`, and equal fragments are unmarked.
pub open spec fn spec_render_segment(s: DiffSegment) -> Seq<char> {
    match s {
        DiffSegment::Equal(t) => t@,
        DiffSegment::Deleted(t) => "-"@ + t@,
        DiffSegment::Inserted(t) => "+"@ + t@,
    }
}

/// The rendering of an alignment: the segment renderings concatenated in
/// sequence order, one linear view.
pub open spec fn spec_render(segs: Seq<DiffSegment>) -> Seq<char>
    decreases segs.len(),
{
    if segs.len() == 0 {
        Seq::empty()
    } else {
        spec_render_segment(segs[0]) + spec_render(segs.drop_first())
    }
}

/// Renders an alignment as one unified, linear diff view.
pub fn render_diff(segments: &Vec<DiffSegment>) -> (r: String)
    ensures
        r@ == spec_render(segments@),
{
    let mut rendered = String::new();
    let mut i: usize = 0;
    while i < segments.len()
        invariant
            i <= segments@.len(),
            rendered@ == spec_render(segments@.take(i as int)),
        decreases segments@.len() - i,
    {
        proof {
            assert(segments@.take(i + 1int) =~= segments@.take(i as int).push(segments@[i as int]));
            lemma_spec_render_push(segments@.take(i as int), segments@[i as int]);
        }
        match &segments[i] {
            DiffSegment::Equal(t) => {
                rendered.append(t.as_str());
            },
            DiffSegment::Deleted(t) => {
                rendered.append("-");
                rendered.append(t.as_str());
            },
            DiffSegment::Inserted(t) => {
                rendered.append("+");
                rendered.append(t.as_str());
            },
        }
        i = i + 1;
    }
    proof {
        assert(segments@.take(segments@.len() as int) =~= segments@);
    }
    rendered
}

/// Rendering one more segment appends that segment's rendering.
proof fn lemma_spec_render_push(segs: Seq<DiffSegment>, s: DiffSegment)
    ensures
        spec_render(segs.push(s)) == spec_render(segs) + spec_render_segment(s),
    decreases segs.len(),
{
    if segs.len() == 0 {
        assert(segs.push(s)[0] == s);
        assert(segs.push(s).drop_first() =~= Seq::<DiffSegment>::empty());
        assert(spec_render(segs.push(s)) == spec_render_segment(segs.push(s)[0]) + spec_render(
            segs.push(s).drop_first(),
        ));
        assert(spec_render(Seq::<DiffSegment>::empty()) == Seq::<char>::empty());
        assert(spec_render(segs.push(s)) =~= spec_render_segment(s));
        assert(spec_render(segs) + spec_render_segment(s) =~= spec_render_segment(s));
    } else {
        lemma_spec_render_push(segs.drop_first(), s);
        assert(segs.push(s)[0] == segs[0]);
        assert(segs.push(s).drop_first() =~= segs.drop_first().push(s));
        assert(spec_render(segs.push(s)) =~= spec_render(segs) + spec_render_segment(s));
    }
}

} // verus!
