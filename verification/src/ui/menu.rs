//! The context menu and the help overlay.

use vstd::prelude::*;
use crate::style::{Style, plain_style};
use crate::text::{append, chars_of, concat2, owned, repeat_char, repeated};
use crate::theme::Theme;
use super::{Rect, StyledSpan, span, span_views};

verus! {

/// A list of entries with one selected, for picking an action.
#[derive(Debug, Clone)]
pub struct Menu {
    pub title: String,
    pub entries: Vec<String>,
    pub selected: usize,
}

impl Menu {
    /// A menu with the first entry selected.
    pub fn new(title: String, entries: Vec<String>) -> (res: Self)
        ensures
            res.title == title,
            res.entries == entries,
            res.selected == 0,
    {
        Menu { title, entries, selected: 0 }
    }

    /// The selection after moving down: past the last entry it wraps to the first.
    pub open spec fn next_selection(&self) -> nat {
        if self.entries@.len() == 0 {
            self.selected as nat
        } else {
            ((self.selected + 1) % (self.entries@.len() as int)) as nat
        }
    }

    /// Moves the selection down, wrapping around at the end.
    pub fn next(&mut self)
        requires
            old(self).entries@.len() > 0 ==> old(self).selected < usize::MAX,
        ensures
            final(self).selected == old(self).next_selection(),
            final(self).title == old(self).title,
            final(self).entries == old(self).entries,
    {
        if self.entries.len() == 0 {
            return;
        }
        self.selected = (self.selected + 1) % self.entries.len();
    }

    /// The selection after moving up: above the first entry it wraps to the last.
    pub open spec fn previous_selection(&self) -> nat {
        if self.entries@.len() == 0 {
            self.selected as nat
        } else if self.selected == 0 {
            (self.entries@.len() - 1) as nat
        } else {
            (self.selected - 1) as nat
        }
    }

    /// Moves the selection up, wrapping around at the start.
    pub fn previous(&mut self)
        ensures
            final(self).selected == old(self).previous_selection(),
            final(self).title == old(self).title,
            final(self).entries == old(self).entries,
    {
        if self.entries.len() == 0 {
            return;
        }
        if self.selected == 0 {
            self.selected = self.entries.len() - 1;
        } else {
            self.selected = self.selected - 1;
        }
    }
}

/// Moving down and then up returns to the same entry, and so does moving
/// up and then down.
pub proof fn law_menu_moves_undo(m: Menu)
    requires
        m.entries@.len() > 0,
        m.selected < m.entries@.len(),
    ensures
        (Menu { selected: m.next_selection() as usize, ..m }).previous_selection() == m.selected,
        (Menu { selected: m.previous_selection() as usize, ..m }).next_selection() == m.selected,
{
    let n = m.entries@.len() as int;
    let s = m.selected as int;
    if s + 1 < n {
        assert((s + 1) % n == s + 1) by (nonlinear_arith) requires 0 <= s + 1 < n;
        assert(m.next_selection() == s + 1);
    } else {
        assert((s + 1) % n == 0) by (nonlinear_arith) requires s + 1 == n, n > 0;
        assert(m.next_selection() == 0);
    }
    assert(m.entries.len() == n);
    let m1 = Menu { selected: m.next_selection() as usize, ..m };
    assert(m1.selected == m.next_selection());
    assert(m1.entries@.len() == n);
    if s == 0 {
        assert((n - 1 + 1) % n == 0) by (nonlinear_arith) requires n > 0;
        assert(m.previous_selection() == n - 1);
    } else {
        assert((s - 1 + 1) % n == s) by (nonlinear_arith) requires 0 < s < n;
        assert(m.previous_selection() == s - 1);
    }
    let m2 = Menu { selected: m.previous_selection() as usize, ..m };
    assert(m2.selected == m.previous_selection());
    assert(m2.entries@.len() == n);
    assert(m2.next_selection() == ((m2.selected + 1) % n) as nat);
}

/// The selection always points at an entry after a move.
pub proof fn law_menu_selection_in_range(m: Menu)
    requires
        m.entries@.len() > 0,
        m.selected < m.entries@.len(),
    ensures
        m.next_selection() < m.entries@.len(),
        m.previous_selection() < m.entries@.len(),
{
    let n = m.entries@.len() as int;
    let s = m.selected as int;
    assert(0 <= (s + 1) % n < n) by (nonlinear_arith) requires n > 0;
}

/// `Rect::new`: the size is cut so the far edges stay within `u16`.
pub open spec fn new_rect(x: u16, y: u16, width: u16, height: u16) -> Rect {
    Rect {
        x,
        y,
        width: if width > u16::MAX - x { (u16::MAX - x) as u16 } else { width },
        height: if height > u16::MAX - y { (u16::MAX - y) as u16 } else { height },
    }
}

impl Rect {
    /// A rectangle at `(x, y)`, its size cut so the far edges stay within `u16`.
    pub fn new(x: u16, y: u16, width: u16, height: u16) -> (res: Rect)
        ensures
            res == new_rect(x, y, width, height),
    {
        let max_width = u16::MAX - x;
        let max_height = u16::MAX - y;
        let width = if width > max_width { max_width } else { width };
        let height = if height > max_height { max_height } else { height };
        Rect { x, y, width, height }
    }
}

/// A rectangle of at most `width` by `height` centered in `parent`.
pub open spec fn centered(parent: Rect, width: u16, height: u16) -> Rect {
    let w = if width < parent.width { width } else { parent.width };
    let h = if height < parent.height { height } else { parent.height };
    new_rect(
        (parent.x + (parent.width - w) / 2) as u16,
        (parent.y + (parent.height - h) / 2) as u16,
        w,
        h,
    )
}

/// Centers a `width` by `height` box in `parent`, shrunk to fit it.
pub fn centered_rect(parent: Rect, width: u16, height: u16) -> (res: Rect)
    requires
        parent.x + parent.width <= u16::MAX,
        parent.y + parent.height <= u16::MAX,
    ensures
        res == centered(parent, width, height),
{
    let width = if width < parent.width { width } else { parent.width };
    let height = if height < parent.height { height } else { parent.height };
    let x = parent.x + (parent.width - width) / 2;
    let y = parent.y + (parent.height - height) / 2;
    Rect::new(x, y, width, height)
}

/// A centered box lies inside its parent.
pub proof fn law_centered_inside(parent: Rect, width: u16, height: u16)
    requires
        parent.x + parent.width <= u16::MAX,
        parent.y + parent.height <= u16::MAX,
    ensures
        parent.x <= centered(parent, width, height).x,
        centered(parent, width, height).x + centered(parent, width, height).width <= parent.x
            + parent.width,
        parent.y <= centered(parent, width, height).y,
        centered(parent, width, height).y + centered(parent, width, height).height <= parent.y
            + parent.height,
{
}

/// The inside of a box: two cells in from the sides, one from the top and
/// bottom (at the edge of the coordinate range, as far in as it goes).
pub open spec fn padded(area: Rect) -> Rect {
    new_rect(
        if area.x + 2 <= u16::MAX { (area.x + 2) as u16 } else { u16::MAX },
        if area.y + 1 <= u16::MAX { (area.y + 1) as u16 } else { u16::MAX },
        if area.width >= 4 { (area.width - 4) as u16 } else { 0 },
        if area.height >= 2 { (area.height - 2) as u16 } else { 0 },
    )
}

fn pad(area: Rect) -> (res: Rect)
    ensures
        res == padded(area),
{
    Rect::new(
        area.x.saturating_add(2),
        area.y.saturating_add(1),
        if area.width >= 4 { area.width - 4 } else { 0 },
        if area.height >= 2 { area.height - 2 } else { 0 },
    )
}

/// An overlay: the box to clear, the area inside it to write in, and the
/// lines to write, each made of styled spans.
pub struct Overlay {
    pub frame: Rect,
    pub body: Rect,
    pub lines: Vec<Vec<StyledSpan>>,
}

/// The views of overlay lines.
pub open spec fn line_views(v: Seq<Vec<StyledSpan>>) -> Seq<Seq<(Seq<char>, Style)>> {
    v.map_values(|l: Vec<StyledSpan>| span_views(l@))
}

fn one_span(text: String, style: Style) -> (res: Vec<StyledSpan>)
    ensures
        span_views(res@) == seq![(text@, style)],
{
    let mut line: Vec<StyledSpan> = Vec::new();
    line.push(span(text, style));
    assert(span_views(line@) =~= seq![(text@, style)]);
    line
}

fn two_spans(a: String, a_style: Style, b: String, b_style: Style) -> (res: Vec<StyledSpan>)
    ensures
        span_views(res@) == seq![(a@, a_style), (b@, b_style)],
{
    let mut line: Vec<StyledSpan> = Vec::new();
    line.push(span(a, a_style));
    line.push(span(b, b_style));
    assert(span_views(line@) =~= seq![(a@, a_style), (b@, b_style)]);
    line
}

fn push_line(lines: &mut Vec<Vec<StyledSpan>>, line: Vec<StyledSpan>)
    ensures
        line_views(final(lines)@) == line_views(old(lines)@).push(span_views(line@)),
{
    let ghost before = line_views(lines@);
    let ghost l = span_views(line@);
    lines.push(line);
    assert(line_views(lines@) =~= before.push(l));
}

/// The largest character count among `texts`, 0 for none.
pub open spec fn widest(texts: Seq<Seq<char>>) -> nat
    decreases texts.len(),
{
    if texts.len() == 0 {
        0
    } else {
        let w = widest(texts.drop_last());
        if texts.last().len() > w { texts.last().len() } else { w }
    }
}

fn widest_of(texts: &Vec<String>) -> (res: usize)
    ensures
        res == widest(texts@.map_values(|s: String| s@)),
{
    let ghost views = texts@.map_values(|s: String| s@);
    let mut w: usize = 0;
    let n = texts.len();
    for i in 0..n
        invariant
            n == texts@.len(),
            views == texts@.map_values(|s: String| s@),
            w == widest(views.take(i as int)),
    {
        let l = chars_of(texts[i].as_str()).len();
        proof {
            assert(views.take(i + 1).drop_last() =~= views.take(i as int));
            assert(views[i as int] == texts@[i as int]@);
        }
        if l > w {
            w = l;
        }
    }
    assert(views.take(n as int) =~= views);
    w
}

/// The size of a box for content `inner` cells wide and `rows` lines high,
/// with a minimum width: two cells of border room on each side, and no
/// taller than the screen.
pub open spec fn box_size(inner: nat, rows: nat, min_width: nat, screen: Rect) -> (u16, u16) {
    let w0 = if inner + 4 < screen.width { inner + 4 } else { screen.width as nat };
    let w = if w0 > min_width { w0 } else { min_width };
    let h = if rows < screen.height { rows } else { screen.height as nat };
    (w as u16, h as u16)
}

/// The lines of the context menu: title, a blank, then the entries, the
/// selected one marked with `> ` and highlighted.
pub open spec fn menu_lines(menu: Menu, theme: Theme) -> Seq<Seq<(Seq<char>, Style)>> {
    seq![seq![(menu.title@, theme.title)], seq![(seq![], plain_style())]] + Seq::new(
        menu.entries@.len(),
        |i: int|
            if i == menu.selected {
                seq![("> "@ + menu.entries@[i]@, theme.selection)]
            } else {
                seq![("  "@ + menu.entries@[i]@, theme.muted)]
            },
    )
}

/// The box of the context menu on `screen`.
pub open spec fn menu_box(menu: Menu, screen: Rect) -> Rect {
    let inner = if widest(menu.entries@.map_values(|s: String| s@)) > menu.title@.len() {
        widest(menu.entries@.map_values(|s: String| s@))
    } else {
        menu.title@.len()
    };
    let (w, h) = box_size(inner, menu.entries@.len() + 3, 16, screen);
    centered(screen, w, h)
}

/// The context menu as an overlay on `screen`.
pub fn menu_overlay(menu: &Menu, theme: &Theme, screen: Rect) -> (res: Overlay)
    requires
        screen.x + screen.width <= u16::MAX,
        screen.y + screen.height <= u16::MAX,
        menu.entries@.len() + 3 <= usize::MAX,
        forall|i: int| 0 <= i < menu.entries@.len() ==> menu.entries@[i]@.len() + 4 <= usize::MAX,
        menu.title@.len() + 4 <= usize::MAX,
    ensures
        res.frame == menu_box(*menu, screen),
        res.body == padded(res.frame),
        line_views(res.lines@) == menu_lines(*menu, *theme),
{
    let ghost views = menu.entries@.map_values(|s: String| s@);
    let entry_width = widest_of(&menu.entries);
    let title_width = chars_of(menu.title.as_str()).len();
    let inner = if entry_width > title_width { entry_width } else { title_width };
    proof {
        lemma_widest_is_one_of(views);
        if views.len() > 0 {
            let j = choose|j: int| 0 <= j < views.len() && views[j].len() == widest(views);
            assert(views[j] == menu.entries@[j]@);
        }
    }
    let w0: usize = if inner + 4 < screen.width as usize { inner + 4 } else { screen.width as usize };
    let w: usize = if w0 > 16 { w0 } else { 16 };
    let rows = menu.entries.len() + 3;
    let h: usize = if rows < screen.height as usize { rows } else { screen.height as usize };
    let frame = centered_rect(screen, w as u16, h as u16);
    proof {
        law_centered_inside(screen, w as u16, h as u16);
    }
    let body = pad(frame);
    let mut lines: Vec<Vec<StyledSpan>> = Vec::new();
    assert(line_views(lines@) =~= Seq::<Seq<(Seq<char>, Style)>>::empty());
    push_line(&mut lines, one_span(owned(menu.title.as_str()), theme.title));
    push_line(&mut lines, one_span(String::new(), Style::new()));
    let ghost head = seq![seq![(menu.title@, theme.title)], seq![(Seq::<char>::empty(), plain_style())]];
    assert(line_views(lines@) =~= head);
    let n = menu.entries.len();
    for i in 0..n
        invariant
            n == menu.entries@.len(),
            line_views(lines@) =~= head + Seq::new(
                i as nat,
                |k: int|
                    if k == menu.selected {
                        seq![("> "@ + menu.entries@[k]@, theme.selection)]
                    } else {
                        seq![("  "@ + menu.entries@[k]@, theme.muted)]
                    },
            ),
    {
        let ghost before = line_views(lines@);
        if i == menu.selected {
            push_line(&mut lines, one_span(concat2("> ", menu.entries[i].as_str()), theme.selection));
        } else {
            push_line(&mut lines, one_span(concat2("  ", menu.entries[i].as_str()), theme.muted));
        }
        assert(line_views(lines@) =~= before.push(
            if i == menu.selected {
                seq![("> "@ + menu.entries@[i as int]@, theme.selection)]
            } else {
                seq![("  "@ + menu.entries@[i as int]@, theme.muted)]
            },
        ));
    }
    Overlay { frame, body, lines }
}

proof fn lemma_widest_is_one_of(texts: Seq<Seq<char>>)
    ensures
        texts.len() == 0 ==> widest(texts) == 0,
        texts.len() > 0 ==> exists|j: int| 0 <= j < texts.len() && texts[j].len() == widest(texts),
    decreases texts.len(),
{
    if texts.len() > 0 {
        let init = texts.drop_last();
        lemma_widest_is_one_of(init);
        if init.len() > 0 && texts.last().len() <= widest(init) {
            let j = choose|j: int| 0 <= j < init.len() && init[j].len() == widest(init);
            assert(texts[j] == init[j]);
        } else {
            assert(texts[texts.len() - 1] == texts.last());
        }
    }
}

/// The lines of the help overlay: a title, a blank, one line per binding
/// with the keys padded to a common width, a blank, and how to close it.
pub open spec fn help_lines(keys: Seq<Seq<char>>, descs: Seq<Seq<char>>, theme: Theme) -> Seq<Seq<(Seq<char>, Style)>> {
    seq![seq![("Keybindings"@, theme.title)], seq![(seq![], plain_style())]] + Seq::new(
        keys.len(),
        |i: int| help_row(keys, descs, theme, i),
    ) + seq![seq![(seq![], plain_style())], seq![("Press Esc or ? to close"@, theme.hint)]]
}

/// One binding of the help overlay: the keys padded to the widest keys,
/// two spaces, and the description.
pub open spec fn help_row(keys: Seq<Seq<char>>, descs: Seq<Seq<char>>, theme: Theme, i: int) -> Seq<(Seq<char>, Style)> {
    let key_w = widest(keys);
    let fill: nat = if keys[i].len() < key_w { (key_w - keys[i].len()) as nat } else { 0 };
    seq![
        (keys[i] + repeat_char(' ', fill) + "  "@, theme.breadcrumb_current),
        (descs[i], theme.description),
    ]
}

/// The box of the help overlay on `screen`.
pub open spec fn help_box(keys: Seq<Seq<char>>, descs: Seq<Seq<char>>, screen: Rect) -> Rect {
    let content = widest(keys) + 2 + widest(descs);
    let inner = if content > 11 { content } else { 11 };
    let (w, h) = box_size(inner, keys.len() + 4, 20, screen);
    centered(screen, w, h)
}

/// The help overlay listing `(keys, description)` pairs on `screen`.
pub fn help_overlay(keys: &Vec<String>, descs: &Vec<String>, theme: &Theme, screen: Rect) -> (res: Overlay)
    requires
        keys@.len() == descs@.len(),
        screen.x + screen.width <= u16::MAX,
        screen.y + screen.height <= u16::MAX,
        keys@.len() + 4 <= usize::MAX,
        forall|i: int| 0 <= i < keys@.len() ==> keys@[i]@.len() + descs@[i]@.len() + 6 <= usize::MAX,
        forall|i: int| 0 <= i < keys@.len() ==> keys@[i]@.len() < usize::MAX / 4,
        forall|i: int| 0 <= i < descs@.len() ==> descs@[i]@.len() < usize::MAX / 4,
    ensures
        res.frame == help_box(keys@.map_values(|s: String| s@), descs@.map_values(|s: String| s@), screen),
        res.body == padded(res.frame),
        line_views(res.lines@) == help_lines(
            keys@.map_values(|s: String| s@),
            descs@.map_values(|s: String| s@),
            *theme,
        ),
{
    let ghost kv = keys@.map_values(|s: String| s@);
    let ghost dv = descs@.map_values(|s: String| s@);
    let key_w = widest_of(keys);
    let desc_w = widest_of(descs);
    proof {
        lemma_widest_is_one_of(kv);
        lemma_widest_is_one_of(dv);
        if kv.len() > 0 {
            let j = choose|j: int| 0 <= j < kv.len() && kv[j].len() == widest(kv);
            assert(kv[j] == keys@[j]@);
        }
        if dv.len() > 0 {
            let j = choose|j: int| 0 <= j < dv.len() && dv[j].len() == widest(dv);
            assert(dv[j] == descs@[j]@);
        }
    }
    let content = key_w + 2 + desc_w;
    let inner = if content > 11 { content } else { 11 };
    let w0: usize = if inner + 4 < screen.width as usize { inner + 4 } else { screen.width as usize };
    let w: usize = if w0 > 20 { w0 } else { 20 };
    let rows = keys.len() + 4;
    let h: usize = if rows < screen.height as usize { rows } else { screen.height as usize };
    let frame = centered_rect(screen, w as u16, h as u16);
    proof {
        law_centered_inside(screen, w as u16, h as u16);
    }
    let body = pad(frame);
    let mut lines: Vec<Vec<StyledSpan>> = Vec::new();
    assert(line_views(lines@) =~= Seq::<Seq<(Seq<char>, Style)>>::empty());
    push_line(&mut lines, one_span(owned("Keybindings"), theme.title));
    push_line(&mut lines, one_span(String::new(), Style::new()));
    let ghost head = seq![seq![("Keybindings"@, theme.title)], seq![(Seq::<char>::empty(), plain_style())]];
    assert(line_views(lines@) =~= head);
    let n = keys.len();
    for i in 0..n
        invariant
            n == keys@.len(),
            n == descs@.len(),
            kv == keys@.map_values(|s: String| s@),
            dv == descs@.map_values(|s: String| s@),
            key_w == widest(kv),
            line_views(lines@) =~= head + Seq::new(i as nat, |k: int| help_row(kv, dv, *theme, k)),
    {
        let ghost before = line_views(lines@);
        assert(kv[i as int] == keys@[i as int]@);
        assert(dv[i as int] == descs@[i as int]@);
        let key = keys[i].as_str();
        let key_len = chars_of(key).len();
        let fill = if key_len < key_w { key_w - key_len } else { 0 };
        let mut padded_key = owned(key);
        append(&mut padded_key, repeated(' ', fill).as_str());
        append(&mut padded_key, "  ");
        assert(key_len == kv[i as int].len());
        assert(fill == (if kv[i as int].len() < key_w { (key_w - kv[i as int].len()) as nat } else { 0 }));
        assert(padded_key@ == kv[i as int] + repeat_char(' ', fill as nat) + "  "@);
        let ghost line_view = seq![(padded_key@, theme.breadcrumb_current), (dv[i as int], theme.description)];
        assert(line_view == help_row(kv, dv, *theme, i as int));
        push_line(
            &mut lines,
            two_spans(padded_key, theme.breadcrumb_current, owned(descs[i].as_str()), theme.description),
        );
        proof {
            assert(line_views(lines@) =~= before.push(help_row(kv, dv, *theme, i as int)));
        }
    }
    push_line(&mut lines, one_span(String::new(), Style::new()));
    push_line(&mut lines, one_span(owned("Press Esc or ? to close"), theme.hint));
    assert(line_views(lines@) =~= help_lines(kv, dv, *theme));
    Overlay { frame, body, lines }
}

} // verus!
