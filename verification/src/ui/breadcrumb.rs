//! The breadcrumb line: the titles of the navigation trail, shortened to fit.

use vstd::prelude::*;
use crate::state::BrowserState;
use crate::style::{Style, plain_style};
use crate::text::{append, chars_of, owned, repeat_char, repeated, string_of_range};
use crate::theme::{BREADCRUMB_SEP, Theme};
use super::{StyledSpan, span, span_views};

verus! {

/// Segments are not shortened below this many characters.
pub const MIN_SEG: usize = 3;

/// The separator between segments.
pub open spec fn sep() -> Seq<char> {
    " > "@
}

/// `s` cut to `budget` characters, ending in `...` when cut; a budget of
/// three or less keeps the first character and fills the rest with dots.
pub open spec fn shortened(s: Seq<char>, budget: nat) -> Seq<char> {
    if s.len() <= budget {
        s
    } else if budget == 0 {
        seq![]
    } else if budget <= 3 {
        s.take(1) + repeat_char('.', (budget - 1) as nat)
    } else {
        s.take(budget - 3) + "..."@
    }
}

/// Shortens `s` to at most `budget` characters.
pub fn shorten_to(s: &str, budget: usize) -> (res: String)
    ensures
        res@ == shortened(s@, budget as nat),
{
    let v = chars_of(s);
    if v.len() <= budget {
        return owned(s);
    }
    if budget == 0 {
        return String::new();
    }
    if budget <= 3 {
        let mut out = string_of_range(v.as_slice(), 0, 1);
        let dots = repeated('.', budget - 1);
        append(&mut out, dots.as_str());
        assert(v@.subrange(0, 1) =~= v@.take(1));
        return out;
    }
    let mut out = string_of_range(v.as_slice(), 0, budget - 3);
    append(&mut out, "...");
    assert(v@.subrange(0, budget - 3) =~= v@.take(budget - 3));
    out
}

/// The strings joined by `sep` (`[String]::join`).
pub open spec fn joined_by(segs: Seq<Seq<char>>, sep: Seq<char>) -> Seq<char>
    decreases segs.len(),
{
    if segs.len() == 0 {
        seq![]
    } else if segs.len() == 1 {
        segs[0]
    } else {
        joined_by(segs.drop_last(), sep) + sep + segs.last()
    }
}

/// The segments joined by the breadcrumb separator.
pub open spec fn joined(segs: Seq<Seq<char>>) -> Seq<char> {
    joined_by(segs, sep())
}

/// The views of a list of strings.
pub open spec fn views(v: Seq<String>) -> Seq<Seq<char>> {
    v.map_values(|s: String| s@)
}

/// The strings joined by `sep` (`[String]::join`).
pub fn join_strings(segments: &Vec<String>, sep: &str) -> (res: String)
    ensures
        res@ == joined_by(views(segments@), sep@),
{
    let mut out = String::new();
    let n = segments.len();
    for i in 0..n
        invariant
            n == segments@.len(),
            out@ == joined_by(views(segments@).take(i as int), sep@),
    {
        let ghost before = views(segments@).take(i as int);
        if i > 0 {
            append(&mut out, sep);
        }
        append(&mut out, segments[i].as_str());
        proof {
            let after = views(segments@).take(i + 1);
            assert(after.drop_last() =~= before);
            if i == 0 {
                assert(after =~= seq![segments@[0]@]);
            }
        }
    }
    assert(views(segments@).take(n as int) =~= views(segments@));
    out
}

/// The segments joined by the breadcrumb separator.
pub fn join_with_sep(segments: &Vec<String>) -> (res: String)
    ensures
        res@ == joined(views(segments@)),
{
    join_strings(segments, BREADCRUMB_SEP)
}

/// The sum of `b`.
pub open spec fn total(b: Seq<usize>) -> nat
    decreases b.len(),
{
    if b.len() == 0 {
        0
    } else {
        total(b.drop_last()) + b.last() as nat
    }
}

/// The index of the longest budget above the minimum among `b[..k]`; on a
/// tie, the later one.
pub open spec fn longest_in(b: Seq<usize>, k: nat) -> Option<int>
    decreases k,
{
    if k == 0 {
        None
    } else {
        let prev = longest_in(b, (k - 1) as nat);
        if b[k - 1] > MIN_SEG {
            match prev {
                Some(j) => if b[k - 1] >= b[j] {
                    Some(k - 1)
                } else {
                    Some(j)
                },
                None => Some(k - 1),
            }
        } else {
            prev
        }
    }
}

/// The index of the longest budget above the minimum, the last one on a tie.
pub open spec fn longest(b: Seq<usize>) -> Option<int> {
    longest_in(b, b.len())
}

/// The budgets after shortening: while the segments and separators exceed
/// `limit` characters, the longest budget above the minimum loses one.
pub open spec fn shrink(b: Seq<usize>, limit: int) -> Seq<usize>
    decreases total(b),
{
    if total(b) <= limit {
        b
    } else {
        match longest(b) {
            Some(i) => if 0 <= i < b.len() && b[i] > 0 {
                proof {
                    lemma_total_update(b, i, (b[i] - 1) as usize);
                }
                shrink(b.update(i, (b[i] - 1) as usize), limit)
            } else {
                b
            },
            None => b,
        }
    }
}

pub proof fn lemma_total_update(b: Seq<usize>, i: int, v: usize)
    requires
        0 <= i < b.len(),
    ensures
        total(b.update(i, v)) == total(b) - b[i] + v,
    decreases b.len(),
{
    let u = b.update(i, v);
    if i == b.len() - 1 {
        assert(u.drop_last() =~= b.drop_last());
    } else {
        assert(u.drop_last() =~= b.drop_last().update(i, v));
        lemma_total_update(b.drop_last(), i, v);
    }
}

proof fn lemma_total_prefix(b: Seq<usize>, k: int)
    requires
        0 <= k <= b.len(),
    ensures
        total(b.take(k)) <= total(b),
    decreases b.len() - k,
{
    if k < b.len() {
        lemma_total_prefix(b, k + 1);
        assert(b.take(k + 1).drop_last() =~= b.take(k));
    } else {
        assert(b.take(k) =~= b);
    }
}

proof fn lemma_longest_in_range(b: Seq<usize>, k: nat)
    requires
        k <= b.len(),
    ensures
        longest_in(b, k) matches Some(j) ==> 0 <= j < k && b[j] > MIN_SEG,
    decreases k,
{
    if k > 0 {
        lemma_longest_in_range(b, (k - 1) as nat);
    }
}

fn sum_of(b: &Vec<usize>, bound: usize) -> (res: usize)
    requires
        total(b@) <= bound,
    ensures
        res == total(b@),
{
    let mut acc: usize = 0;
    let n = b.len();
    for k in 0..n
        invariant
            n == b@.len(),
            total(b@) <= bound,
            acc == total(b@.take(k as int)),
    {
        proof {
            lemma_total_prefix(b@, k + 1);
            assert(b@.take(k + 1).drop_last() =~= b@.take(k as int));
        }
        acc = acc + b[k];
    }
    assert(b@.take(n as int) =~= b@);
    acc
}

fn longest_index(b: &Vec<usize>) -> (res: Option<usize>)
    ensures
        match res {
            Some(i) => longest(b@) == Some(i as int),
            None => longest(b@) is None,
        },
{
    let mut best: Option<usize> = None;
    let n = b.len();
    for k in 0..n
        invariant
            n == b@.len(),
            match best {
                Some(i) => longest_in(b@, k as nat) == Some(i as int),
                None => longest_in(b@, k as nat) is None,
            },
    {
        proof {
            lemma_longest_in_range(b@, k as nat);
        }
        if b[k] > MIN_SEG {
            match best {
                Some(j) => {
                    if b[k] >= b[j] {
                        best = Some(k);
                    }
                },
                None => {
                    best = Some(k);
                },
            }
        }
    }
    best
}

/// The character counts of the segments.
pub open spec fn lengths(segs: Seq<Seq<char>>) -> Seq<usize> {
    segs.map_values(|s: Seq<char>| s.len() as usize)
}

/// `s` without its first `n` characters (`chars().skip(n)`).
pub open spec fn skipped(s: Seq<char>, n: int) -> Seq<char> {
    if n <= s.len() {
        s.skip(n)
    } else {
        seq![]
    }
}

/// The segments cut to their budgets, the budgets shrunk until the
/// segments and separators take at most `max_width` characters or every
/// segment is down to the minimum.
pub open spec fn budgeted(segs: Seq<Seq<char>>, max_width: nat) -> Seq<Seq<char>> {
    let sep_total = 3 * (segs.len() - 1);
    let budgets = shrink(lengths(segs), max_width - sep_total);
    Seq::new(segs.len(), |i: int| shortened(segs[i], budgets[i] as nat))
}

/// What `fit_segments` gives: the segments shortened by their budgets, or,
/// when even the minimum budgets overflow, one segment holding the right
/// end of the joined line after `...`.
pub open spec fn fitted(segs: Seq<Seq<char>>, max_width: nat) -> Seq<Seq<char>> {
    if segs.len() == 0 {
        seq![]
    } else {
        let short = budgeted(segs, max_width);
        let line = joined(short);
        if line.len() <= max_width {
            short
        } else if max_width >= 3 {
            let drop = line.len() - max_width + 3;
            seq!["..."@ + skipped(line, drop)]
        } else {
            seq![repeat_char('.', max_width)]
        }
    }
}

/// Shortens the segments so that, joined by the separator, they fit in
/// `max_width` characters: the longest segment loses a character at a time,
/// down to three. If that is not enough, the whole line is cut from the
/// left behind a leading `...`, so the deepest part stays visible.
pub fn fit_segments(segments: &Vec<String>, max_width: usize) -> (res: Vec<String>)
    requires
        total(lengths(views(segments@))) + 3 * segments@.len() <= usize::MAX,
    ensures
        views(res@) == fitted(views(segments@), max_width as nat),
{
    let ghost segs = views(segments@);
    let n = segments.len();
    if n == 0 {
        let res: Vec<String> = Vec::new();
        assert(views(res@) =~= Seq::<Seq<char>>::empty());
        return res;
    }
    let sep_total = 3 * (n - 1);
    let mut budgets: Vec<usize> = Vec::new();
    for i in 0..n
        invariant
            n == segments@.len(),
            segs == views(segments@),
            budgets@ =~= lengths(segs).take(i as int),
    {
        let len = chars_of(segments[i].as_str()).len();
        budgets.push(len);
    }
    let ghost init = lengths(segs);
    let ghost limit = max_width - sep_total;
    assert(budgets@ =~= init);
    loop
        invariant
            n == segments@.len(),
            segs == views(segments@),
            budgets@.len() == n,
            total(budgets@) <= total(init),
            total(init) + 3 * n <= usize::MAX,
            init == lengths(segs),
            limit == max_width - sep_total,
            sep_total == 3 * (n - 1),
            shrink(budgets@, limit) == shrink(init, limit),
        ensures
            budgets@ == shrink(init, limit),
            budgets@.len() == n,
        decreases total(budgets@),
    {
        let sum = sum_of(&budgets, usize::MAX - sep_total);
        if sum + sep_total <= max_width {
            break;
        }
        match longest_index(&budgets) {
            Some(i) => {
                proof {
                    lemma_longest_in_range(budgets@, n as nat);
                    lemma_total_update(budgets@, i as int, (budgets@[i as int] - 1) as usize);
                }
                let b = budgets[i] - 1;
                budgets.set(i, b);
            },
            None => break,
        }
    }
    let ghost budgets_final = shrink(init, limit);
    let mut short: Vec<String> = Vec::new();
    for i in 0..n
        invariant
            n == segments@.len(),
            segs == views(segments@),
            budgets@ == budgets_final,
            budgets@.len() == n,
            views(short@) =~= Seq::new(i as nat, |j: int| shortened(segs[j], budgets@[j] as nat)),
    {
        let ghost before = views(short@);
        assert(segs[i as int] == segments@[i as int]@);
        short.push(shorten_to(segments[i].as_str(), budgets[i]));
        assert(views(short@) =~= before.push(shortened(segs[i as int], budgets@[i as int] as nat)));
    }
    let ghost short_spec = Seq::new(segs.len(), |i: int| shortened(segs[i], budgets_final[i] as nat));
    assert(views(short@) =~= short_spec);
    let line = join_with_sep(&short);
    let line_chars = chars_of(line.as_str());
    let line_len = line_chars.len();
    if line_len <= max_width {
        return short;
    }
    let mut res: Vec<String> = Vec::new();
    if max_width >= 3 {
        let ghost drop = line_len - max_width + 3;
        let mut out = owned("...");
        let from = line_len - (max_width - 3);
        let rest = string_of_range(line_chars.as_slice(), from, line_len);
        append(&mut out, rest.as_str());
        assert(line_chars@.subrange(from as int, line_len as int) =~= skipped(line@, drop));
        res.push(out);
        assert(views(res@) =~= seq!["..."@ + skipped(line@, drop)]);
    } else {
        res.push(repeated('.', max_width));
        assert(views(res@) =~= seq![repeat_char('.', max_width as nat)]);
    }
    res
}

/// The breadcrumb never overflows its line: the fitted segments, joined,
/// take at most `max_width` characters.
pub proof fn law_fitted_fits(segs: Seq<Seq<char>>, max_width: nat)
    ensures
        joined(fitted(segs, max_width)).len() <= max_width,
{
    if segs.len() > 0 {
        let sep_total = 3 * (segs.len() - 1);
        let budgets = shrink(lengths(segs), max_width - sep_total);
        let short = Seq::new(segs.len(), |i: int| shortened(segs[i], budgets[i] as nat));
        let line = joined(short);
        if line.len() > max_width && max_width >= 3 {
            let drop = line.len() - max_width + 3;
            let one = seq!["..."@ + skipped(line, drop)];
            reveal_strlit("...");
            assert(joined(one) == one[0]);
            assert(skipped(line, drop).len() == line.len() - drop);
        }
    }
}

proof fn lemma_shrink_bounds(b: Seq<usize>, limit: int)
    ensures
        shrink(b, limit).len() == b.len(),
        forall|i: int| 0 <= i < b.len() ==> {
            let m = if b[i] < MIN_SEG { b[i] } else { MIN_SEG };
            m <= #[trigger] shrink(b, limit)[i] <= b[i]
        },
    decreases total(b),
{
    if total(b) > limit {
        match longest(b) {
            Some(i) => if 0 <= i < b.len() && b[i] > 0 {
                lemma_longest_in_range(b, b.len());
                lemma_total_update(b, i, (b[i] - 1) as usize);
                let b1 = b.update(i, (b[i] - 1) as usize);
                lemma_shrink_bounds(b1, limit);
                assert forall|j: int| 0 <= j < b.len() implies {
                    let m = if b[j] < MIN_SEG { b[j] } else { MIN_SEG };
                    m <= #[trigger] shrink(b, limit)[j] <= b[j]
                } by {
                    assert(shrink(b, limit) == shrink(b1, limit));
                    if j != i {
                        assert(b1[j] == b[j]);
                    }
                }
            },
            None => {},
        }
    }
}

proof fn lemma_shortened_len(s: Seq<char>, budget: nat)
    ensures
        shortened(s, budget).len() == if s.len() <= budget { s.len() } else { budget },
{
    reveal_strlit("...");
}

/// Shortening goes segment by segment and cuts none below three characters
/// (or its own length, if shorter): every budgeted segment keeps between
/// that minimum and all of its characters, always begins with the
/// segment's first character, and the budgeted segments are what is shown
/// whenever they fit.
pub proof fn law_segments_keep_minimum(segs: Seq<Seq<char>>, max_width: nat)
    requires
        segs.len() > 0,
        forall|i: int| 0 <= i < segs.len() ==> #[trigger] segs[i].len() <= usize::MAX,
    ensures
        budgeted(segs, max_width).len() == segs.len(),
        forall|i: int| 0 <= i < segs.len() ==> {
            let m = if segs[i].len() < MIN_SEG { segs[i].len() } else { MIN_SEG as nat };
            m <= #[trigger] budgeted(segs, max_width)[i].len() <= segs[i].len()
        },
        forall|i: int| 0 <= i < segs.len() && segs[i].len() > 0 ==> #[trigger] budgeted(segs, max_width)[i][0] == segs[i][0],
        joined(budgeted(segs, max_width)).len() <= max_width ==> fitted(segs, max_width)
            == budgeted(segs, max_width),
{
    let sep_total = 3 * (segs.len() - 1);
    let b = lengths(segs);
    lemma_shrink_bounds(b, max_width - sep_total);
    let budgets = shrink(b, max_width - sep_total);
    assert forall|i: int| 0 <= i < segs.len() implies {
        let m = if segs[i].len() < MIN_SEG { segs[i].len() } else { MIN_SEG as nat };
        m <= #[trigger] budgeted(segs, max_width)[i].len() <= segs[i].len()
    } by {
        assert(b[i] == segs[i].len());
        assert(budgets[i] <= b[i]);
        lemma_shortened_len(segs[i], budgets[i] as nat);
    }
    assert forall|i: int| 0 <= i < segs.len() && segs[i].len() > 0 implies #[trigger] budgeted(segs, max_width)[i][0] == segs[i][0] by {
        assert(b[i] == segs[i].len());
        reveal_strlit("...");
    }
}

/// The spans of the breadcrumb: segments in the default style, the last one
/// in the current-segment style, separators muted in between.
pub open spec fn crumb_spans(segs: Seq<Seq<char>>, theme: Theme) -> Seq<(Seq<char>, Style)>
    decreases segs.len(),
{
    if segs.len() == 0 {
        seq![]
    } else {
        let init = segs.drop_last();
        let before = crumb_spans_plain(init, theme);
        let last = (segs.last(), theme.breadcrumb_current);
        if init.len() == 0 {
            seq![last]
        } else {
            before + seq![(sep(), theme.muted), last]
        }
    }
}

/// The spans of segments none of which is the last.
pub open spec fn crumb_spans_plain(segs: Seq<Seq<char>>, theme: Theme) -> Seq<(Seq<char>, Style)>
    decreases segs.len(),
{
    if segs.len() == 0 {
        seq![]
    } else {
        let init = segs.drop_last();
        let last = (segs.last(), plain_style());
        if init.len() == 0 {
            seq![last]
        } else {
            crumb_spans_plain(init, theme) + seq![(sep(), theme.muted), last]
        }
    }
}

/// Styles the fitted segments.
fn build_spans(segments: &Vec<String>, theme: &Theme) -> (res: Vec<StyledSpan>)
    ensures
        span_views(res@) == crumb_spans(views(segments@), *theme),
{
    let ghost segs = views(segments@);
    let n = segments.len();
    let mut spans: Vec<StyledSpan> = Vec::new();
    let mut i: usize = 0;
    proof {
        reveal_strlit(" > ");
    }
    assert(span_views(spans@) =~= crumb_spans_plain(segs.take(0), *theme));
    while i < n
        invariant
            n == segs.len(),
            segs == views(segments@),
            i <= n,
            i < n || n == 0,
            span_views(spans@) == crumb_spans_plain(segs.take(i as int), *theme),
        decreases n - i,
    {
        let seg = owned(segments[i].as_str());
        assert(seg@ == segs[i as int]);
        if i > 0 {
            spans.push(span(owned(BREADCRUMB_SEP), theme.muted));
        }
        if i + 1 == n {
            proof {
                assert(segs.take(i + 1).drop_last() =~= segs.take(i as int));
            }
            spans.push(span(seg, theme.breadcrumb_current));
            proof {
                assert(segs.take(n as int) =~= segs);
                assert(segs.drop_last() =~= segs.take(n - 1));
            }
            assert(span_views(spans@) =~= crumb_spans(segs, *theme));
            return spans;
        }
        spans.push(span(seg, plain_style_exec()));
        proof {
            assert(segs.take(i + 1).drop_last() =~= segs.take(i as int));
        }
        i = i + 1;
        assert(span_views(spans@) =~= crumb_spans_plain(segs.take(i as int), *theme));
    }
    assert(segs.len() == 0);
    assert(span_views(spans@) =~= crumb_spans(segs, *theme));
    spans
}

fn plain_style_exec() -> (res: Style)
    ensures
        res == plain_style(),
{
    Style::new()
}

/// What the breadcrumb shows for `titles` in `width` cells.
pub open spec fn breadcrumb(titles: Seq<Seq<char>>, width: nat, theme: Theme) -> Seq<(Seq<char>, Style)> {
    if width == 0 || titles.len() == 0 {
        seq![]
    } else {
        crumb_spans(fitted(titles, width), theme)
    }
}

/// The breadcrumb line for the navigation trail, in a line `width` cells wide.
pub fn breadcrumb_spans(trail: &[BrowserState], width: u16, theme: &Theme) -> (res: Vec<StyledSpan>)
    requires
        total(lengths(trail@.map_values(|b: BrowserState| b.title@))) + 3 * trail@.len() <= usize::MAX,
    ensures
        span_views(res@) == breadcrumb(trail@.map_values(|b: BrowserState| b.title@), width as nat, *theme),
{
    let ghost titles = trail@.map_values(|b: BrowserState| b.title@);
    if width == 0 || trail.len() == 0 {
        let res: Vec<StyledSpan> = Vec::new();
        assert(span_views(res@) =~= Seq::<(Seq<char>, Style)>::empty());
        return res;
    }
    let mut segments: Vec<String> = Vec::new();
    let n = trail.len();
    for i in 0..n
        invariant
            n == trail@.len(),
            titles == trail@.map_values(|b: BrowserState| b.title@),
            views(segments@) =~= titles.take(i as int),
    {
        let ghost before = views(segments@);
        assert(titles[i as int] == trail@[i as int].title@);
        segments.push(owned(trail[i].title.as_str()));
        assert(views(segments@) =~= before.push(titles[i as int]));
        assert(titles.take(i + 1) =~= titles.take(i as int).push(titles[i as int]));
    }
    assert(views(segments@) =~= titles);
    let fitted_segments = fit_segments(&segments, width as usize);
    build_spans(&fitted_segments, theme)
}

} // verus!
