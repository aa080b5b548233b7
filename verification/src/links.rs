//! Link normalization: bare `http://` / `https://` URLs in the raw input
//! are wrapped in angle brackets so the downstream Markdown parser treats
//! them as explicit autolinks. Detection of URL spans is delegated to the
//! `linkify` crate; the filtering and the splicing are verified here.
//!
//! All offsets are byte offsets into the UTF-8 encoding of the input.
use vstd::prelude::*;

verus! {

use vstd::string::StringSliceAdditionalSpecFns;

pub const BYTE_NEWLINE: u8 = 10;

pub const BYTE_BACKSLASH: u8 = 92;

pub const BYTE_LT: u8 = 60;

pub const BYTE_GT: u8 = 62;

/// The byte spans that the link detector finds in the given UTF-8 text,
/// configured for URLs only, scheme required, IRI forms disabled.
pub uninterp spec fn url_spans_of(text: Seq<u8>) -> Seq<(usize, usize)>;

/// Well-formed span list over a text: each span is nonempty and within
/// bounds, and the spans are in order and disjoint.
pub open spec fn spans_wf(text: Seq<u8>, spans: Seq<(usize, usize)>) -> bool {
    &&& forall|i: int|
        0 <= i < spans.len() ==> (#[trigger] spans[i]).0 < spans[i].1 && spans[i].1 <= text.len()
    &&& forall|i: int| 0 <= i + 1 < spans.len() ==> (#[trigger] spans[i]).1 <= spans[i + 1].0
}

/// Relies on linkify's `LinkFinder`, configured as: URL links only, a
/// scheme required, IRI forms disabled. Its iterator scans the text left
/// to right and advances past each link it returns, so the spans come
/// back in order, disjoint, nonempty and within bounds; the result
/// depends on the text alone.
#[verifier::external_body]
pub(crate) fn url_spans(text: &str) -> (r: Vec<(usize, usize)>)
    ensures
        r@ == url_spans_of(text.spec_bytes()),
        spans_wf(text.spec_bytes(), r@),
{
    let mut finder = linkify::LinkFinder::new();
    finder.url_can_be_iri(false);
    finder.url_must_have_scheme(true);
    finder.kinds(&[linkify::LinkKind::Url]);
    finder.links(text).map(|l| (l.start(), l.end())).collect()
}

/// The UTF-8 bytes of `http://`.
pub open spec fn http_prefix() -> Seq<u8> {
    seq![104u8, 116u8, 116u8, 112u8, 58u8, 47u8, 47u8]
}

/// The UTF-8 bytes of `https://`.
pub open spec fn https_prefix() -> Seq<u8> {
    seq![104u8, 116u8, 116u8, 112u8, 115u8, 58u8, 47u8, 47u8]
}

/// Whether the span `[start, end)` of `text` begins with `http://` or
/// `https://`: only such spans are rewritten into autolinks.
pub open spec fn spec_span_is_http(text: Seq<u8>, start: int, end: int) -> bool {
    ||| (end - start >= 7 && text.subrange(start, start + 7) == http_prefix())
    ||| (end - start >= 8 && text.subrange(start, start + 8) == https_prefix())
}

fn span_is_http(text: &Vec<u8>, start: usize, end: usize) -> (r: bool)
    requires
        start <= end <= text@.len(),
    ensures
        r == spec_span_is_http(text@, start as int, end as int),
{
    let http_ok = end - start >= 7 && text[start] == 104 && text[start + 1] == 116 && text[start
        + 2] == 116 && text[start + 3] == 112 && text[start + 4] == 58 && text[start + 5] == 47
        && text[start + 6] == 47;
    let https_ok = end - start >= 8 && text[start] == 104 && text[start + 1] == 116 && text[start
        + 2] == 116 && text[start + 3] == 112 && text[start + 4] == 115 && text[start + 5] == 58
        && text[start + 6] == 47 && text[start + 7] == 47;
    proof {
        let s = start as int;
        if end - start >= 7 {
            let sub7 = text@.subrange(s, s + 7);
            assert(forall|k: int| 0 <= k < 7 ==> #[trigger] sub7[k] == text@[s + k]);
            if http_ok {
                assert(sub7 =~= http_prefix());
            } else {
                assert(sub7 != http_prefix());
            }
        }
        if end - start >= 8 {
            let sub8 = text@.subrange(s, s + 8);
            assert(forall|k: int| 0 <= k < 8 ==> #[trigger] sub8[k] == text@[s + k]);
            if https_ok {
                assert(sub8 =~= https_prefix());
            } else {
                assert(sub8 != https_prefix());
            }
        }
    }
    http_ok || https_ok
}

/// The text spliced from `last` on: each qualifying span is copied with
/// a `<` before and a `>` after it, the text between spans verbatim.
pub open spec fn spec_splice(text: Seq<u8>, spans: Seq<(usize, usize)>, last: int) -> Seq<u8>
    decreases spans.len(),
{
    if spans.len() == 0 {
        text.subrange(last, text.len() as int)
    } else {
        let start = spans[0].0 as int;
        let end = spans[0].1 as int;
        if spec_span_is_http(text, start, end) {
            text.subrange(last, start) + seq![BYTE_LT] + text.subrange(start, end) + seq![BYTE_GT]
                + spec_splice(text, spans.drop_first(), end)
        } else {
            spec_splice(text, spans.drop_first(), last)
        }
    }
}

/// The input with every detected span whose scheme is exactly `http://`
/// or `https://` wrapped in angle brackets; all other text verbatim, in
/// original order.
pub open spec fn spec_normalize_links(text: Seq<u8>) -> Seq<u8> {
    spec_splice(text, url_spans_of(text), 0)
}

/// Append `text[from..to]` to `out`.
fn push_range(out: &mut Vec<u8>, text: &Vec<u8>, from: usize, to: usize)
    requires
        from <= to <= text@.len(),
    ensures
        final(out)@ == old(out)@ + text@.subrange(from as int, to as int),
{
    proof {
        assert(out@ =~= old(out)@ + text@.subrange(from as int, from as int));
    }
    let mut j = from;
    while j < to
        invariant
            from <= j <= to <= text@.len(),
            out@ == old(out)@ + text@.subrange(from as int, j as int),
        decreases to - j,
    {
        out.push(text[j]);
        proof {
            assert(out@ =~= old(out)@ + text@.subrange(from as int, j as int + 1));
        }
        j = j + 1;
    }
}

/// Splice the detected spans into the text: qualifying spans get wrapped
/// in angle brackets, everything else is preserved verbatim.
pub fn normalize_links(text: &Vec<u8>, spans: &Vec<(usize, usize)>) -> (r: Vec<u8>)
    requires
        spans_wf(text@, spans@),
    ensures
        r@ == spec_splice(text@, spans@, 0),
{
    let mut out: Vec<u8> = Vec::new();
    let mut last: usize = 0;
    let n = spans.len();
    proof {
        assert(spans@.skip(0) =~= spans@);
        assert(out@ + spec_splice(text@, spans@, 0) =~= spec_splice(text@, spans@, 0));
    }
    for i in 0..n
        invariant
            spans_wf(text@, spans@),
            n == spans@.len(),
            last <= text@.len(),
            i < n ==> last <= spans@[i as int].0,
            spec_splice(text@, spans@, 0) == out@ + spec_splice(
                text@,
                spans@.skip(i as int),
                last as int,
            ),
    {
        let (start, end) = spans[i];
        proof {
            assert(spans@.skip(i as int)[0] == spans@[i as int]);
            assert(spans@.skip(i as int).drop_first() =~= spans@.skip(i as int + 1));
            if i + 1 < n {
                assert(spans@[i as int].1 <= spans@[i as int + 1].0);
            }
        }
        let ghost prev_out = out@;
        let ghost prev_last = last as int;
        if span_is_http(text, start, end) {
            push_range(&mut out, text, last, start);
            out.push(BYTE_LT);
            push_range(&mut out, text, start, end);
            out.push(BYTE_GT);
            last = end;
            proof {
                assert(out@ =~= prev_out + text@.subrange(prev_last, start as int) + seq![BYTE_LT]
                    + text@.subrange(start as int, end as int) + seq![BYTE_GT]);
                assert(out@ + spec_splice(text@, spans@.skip(i as int + 1), end as int)
                    =~= prev_out + spec_splice(text@, spans@.skip(i as int), prev_last));
            }
        }
    }
    proof {
        assert(spans@.skip(n as int) =~= Seq::<(usize, usize)>::empty());
    }
    let ghost tail_start = last as int;
    let ghost done = out@;
    push_range(&mut out, text, last, text.len());
    proof {
        assert(out@ =~= done + text@.subrange(tail_start, text@.len() as int));
    }
    out
}

/// The text with a backslash inserted before every newline byte, so that
/// every line break in the source becomes a Markdown hard break.
pub open spec fn spec_escape_newlines(text: Seq<u8>) -> Seq<u8>
    decreases text.len(),
{
    if text.len() == 0 {
        Seq::empty()
    } else {
        (if text[0] == BYTE_NEWLINE {
            seq![BYTE_BACKSLASH, BYTE_NEWLINE]
        } else {
            seq![text[0]]
        }) + spec_escape_newlines(text.drop_first())
    }
}

/// Insert a backslash before every newline byte.
pub fn escape_newlines(text: &Vec<u8>) -> (r: Vec<u8>)
    ensures
        r@ == spec_escape_newlines(text@),
{
    let mut out: Vec<u8> = Vec::new();
    let n = text.len();
    proof {
        assert(text@.skip(0) =~= text@);
        assert(out@ + spec_escape_newlines(text@) =~= spec_escape_newlines(text@));
    }
    for i in 0..n
        invariant
            n == text@.len(),
            spec_escape_newlines(text@) == out@ + spec_escape_newlines(text@.skip(i as int)),
    {
        proof {
            assert(text@.skip(i as int)[0] == text@[i as int]);
            assert(text@.skip(i as int).drop_first() =~= text@.skip(i as int + 1));
        }
        let ghost prev_out = out@;
        if text[i] == BYTE_NEWLINE {
            out.push(BYTE_BACKSLASH);
            out.push(BYTE_NEWLINE);
            proof {
                assert(out@ =~= prev_out + seq![BYTE_BACKSLASH, BYTE_NEWLINE]);
                assert(out@ + spec_escape_newlines(text@.skip(i as int + 1)) =~= prev_out
                    + spec_escape_newlines(text@.skip(i as int)));
            }
        } else {
            out.push(text[i]);
            proof {
                assert(out@ =~= prev_out + seq![text@[i as int]]);
                assert(out@ + spec_escape_newlines(text@.skip(i as int + 1)) =~= prev_out
                    + spec_escape_newlines(text@.skip(i as int)));
            }
        }
    }
    proof {
        assert(text@.skip(n as int) =~= Seq::<u8>::empty());
        assert(out@ =~= out@ + spec_escape_newlines(text@.skip(n as int)));
    }
    out
}


/// When no detected span begins with `http://` or `https://`, the splice
/// from any position returns the rest of the text verbatim.
proof fn lemma_splice_without_http(text: Seq<u8>, spans: Seq<(usize, usize)>, last: int)
    requires
        forall|i: int|
            0 <= i < spans.len() ==> !spec_span_is_http(
                text,
                (#[trigger] spans[i]).0 as int,
                spans[i].1 as int,
            ),
    ensures
        spec_splice(text, spans, last) == text.subrange(last, text.len() as int),
    decreases spans.len(),
{
    if spans.len() > 0 {
        assert(forall|i: int|
            0 <= i < spans.drop_first().len() ==> (#[trigger] spans.drop_first()[i]) == spans[
                i + 1
            ]);
        lemma_splice_without_http(text, spans.drop_first(), last);
    }
}

/// A text in which the detector finds no `http://` / `https://` span is
/// normalized to itself: nothing else is ever auto-linked.
pub proof fn lemma_no_http_span_no_rewrite(text: Seq<u8>)
    requires
        forall|i: int|
            0 <= i < url_spans_of(text).len() ==> !spec_span_is_http(
                text,
                (#[trigger] url_spans_of(text)[i]).0 as int,
                url_spans_of(text)[i].1 as int,
            ),
    ensures
        spec_normalize_links(text) == text,
{
    lemma_splice_without_http(text, url_spans_of(text), 0);
    assert(text.subrange(0, text.len() as int) =~= text);
}

/// A single detected span whose scheme is `http://` or `https://` is
/// rewritten to the same text with the span wrapped in angle brackets:
/// all other text is preserved verbatim, in original order.
pub proof fn lemma_http_span_wrapped(text: Seq<u8>, start: usize, end: usize)
    requires
        start < end <= text.len(),
        spec_span_is_http(text, start as int, end as int),
    ensures
        spec_splice(text, seq![(start, end)], 0) == text.subrange(0, start as int) + seq![BYTE_LT]
            + text.subrange(start as int, end as int) + seq![BYTE_GT] + text.subrange(
            end as int,
            text.len() as int,
        ),
{
    let spans = seq![(start, end)];
    assert(spans.drop_first() =~= Seq::<(usize, usize)>::empty());
    assert(spec_splice(text, spans.drop_first(), end as int) == text.subrange(
        end as int,
        text.len() as int,
    ));
}

} // verus!
