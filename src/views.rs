//! The views: a list of pull requests with a hovered row, and the detail of
//! one pull request. Each renders itself to text, handles events, and says
//! whether it must be drawn again.

use vstd::prelude::*;
use crate::events::{Command, Direction, Event};
use crate::models::PullRequest;
use crate::palette::Palette;
use crate::term::{bg_code, bg_seq, clear_rest, clear_rest_seq, fg_code, fg_seq, goto, goto_seq};
use crate::text::{decimal, decimal_of, lemma_decimal_len, pad_right, padded};

verus! {

/// What every view offers: rendering, event handling, a dirty flag, and the
/// navigation it requests when an item is selected.
pub trait Component {
    fn select(&self) -> Option<Command>;

    fn render(&mut self, palette: &Palette) -> String;

    fn handle_event(&mut self, event: Event);

    fn dirty(&self) -> bool;
}

/// The hovered row after moving down among `len` rows: the next row, the
/// first after the last, the first when none was hovered.
pub open spec fn next_down(h: Option<usize>, len: nat) -> Option<usize> {
    if len == 0 {
        h
    } else {
        match h {
            None => Some(0),
            Some(i) => if i + 1 < len {
                Some((i + 1) as usize)
            } else {
                Some(0)
            },
        }
    }
}

/// The hovered row after moving up among `len` rows: the previous row, the
/// last before the first, the last when none was hovered.
pub open spec fn next_up(h: Option<usize>, len: nat) -> Option<usize> {
    if len == 0 {
        h
    } else {
        match h {
            None => Some((len - 1) as usize),
            Some(i) => if i == 0 {
                Some((len - 1) as usize)
            } else {
                Some((i - 1) as usize)
            },
        }
    }
}

/// Moving up from the first row, or with no row hovered, lands on the last
/// row; moving down from the last row lands on the first.
pub proof fn lemma_hover_wraps(len: nat)
    requires
        0 < len <= usize::MAX,
    ensures
        next_up(Some(0), len) == Some((len - 1) as usize),
        next_up(None, len) == Some((len - 1) as usize),
        next_down(Some((len - 1) as usize), len) == Some(0usize),
        next_down(None, len) == Some(0usize),
{
}

/// The text of column `col` of a row: number, title, owner's login, state.
pub open spec fn cell_text(pr: PullRequest, col: int) -> Seq<char> {
    if col == 0 {
        decimal_of(pr.number as nat)
    } else if col == 1 {
        pr.title@
    } else if col == 2 {
        pr.owner.login@
    } else {
        pr.state@
    }
}

/// The widest text of column `col` over `items`; zero when there are none.
pub open spec fn column_width(items: Seq<PullRequest>, col: int) -> nat
    decreases items.len(),
{
    if items.len() == 0 {
        0
    } else {
        let rest = column_width(items.drop_last(), col);
        let here = cell_text(items.last(), col).len();
        if rest < here {
            here
        } else {
            rest
        }
    }
}

/// The four column widths of a list of items.
pub open spec fn widths_of(items: Seq<PullRequest>) -> Seq<usize> {
    seq![
        column_width(items, 0) as usize,
        column_width(items, 1) as usize,
        column_width(items, 2) as usize,
        column_width(items, 3) as usize,
    ]
}

/// The header row: the column names, each padded to its column's width (the
/// number column is one wider, for the `#` sign).
#[verifier::opaque]
pub open spec fn header_text(widths: Seq<usize>, p: Palette) -> Seq<char> {
    goto_seq(1, 1) + bg_seq(p.bg_alt1) + padded("Num"@, (widths[0] + 1) as nat) + " "@ + padded(
        "Title"@,
        widths[1] as nat,
    ) + " "@ + padded("Owner"@, widths[2] as nat) + " "@ + padded("State"@, widths[3] as nat)
        + " "@ + clear_rest_seq() + p.dual_reset_text() + "\n\r"@
}

/// One row of the list: each cell padded to its column's width, on the
/// highlight background when the row is hovered.
#[verifier::opaque]
pub open spec fn line_text(pr: PullRequest, widths: Seq<usize>, p: Palette, hovered: bool) -> Seq<
    char,
> {
    (if hovered {
        bg_seq(p.bg_highlight)
    } else {
        Seq::empty()
    }) + fg_seq(p.fg_alt2) + "#"@ + padded(cell_text(pr, 0), widths[0] as nat) + " "@ + fg_seq(
        p.fg_alt3,
    ) + padded(cell_text(pr, 1), widths[1] as nat) + " "@ + fg_seq(p.fg_alt4) + padded(
        cell_text(pr, 2),
        widths[2] as nat,
    ) + " "@ + fg_seq(p.fg_alt5) + padded(cell_text(pr, 3), widths[3] as nat) + clear_rest_seq()
        + p.dual_reset_text() + "\n\r"@
}

/// The first `k` rows of the list, one after the other.
pub open spec fn lines_text(
    items: Seq<PullRequest>,
    widths: Seq<usize>,
    p: Palette,
    hovered: Option<usize>,
    k: nat,
) -> Seq<char>
    decreases k,
{
    if k == 0 || k > items.len() {
        Seq::empty()
    } else {
        lines_text(items, widths, p, hovered, (k - 1) as nat) + line_text(
            items[k - 1],
            widths,
            p,
            hovered == Some((k - 1) as usize),
        )
    }
}

/// The width of a column is the length of its widest cell: no cell is wider,
/// and some cell is that wide unless the list is empty.
pub proof fn lemma_column_width_is_widest(items: Seq<PullRequest>, col: int)
    ensures
        forall|i: int| 0 <= i < items.len() ==> cell_text(#[trigger] items[i], col).len() <= column_width(items, col),
        items.len() == 0 ==> column_width(items, col) == 0,
        items.len() > 0 ==> exists|i: int| 0 <= i < items.len() && cell_text(#[trigger] items[i], col).len() == column_width(items, col),
    decreases items.len(),
{
    if items.len() > 0 {
        let rest = items.drop_last();
        lemma_column_width_is_widest(rest, col);
        assert forall|i: int| 0 <= i < items.len() implies cell_text(#[trigger] items[i], col).len()
            <= column_width(items, col) by {
            if i < rest.len() {
                assert(items[i] == rest[i]);
            }
        }
        if rest.len() == 0 || column_width(rest, col) < cell_text(items.last(), col).len() {
            assert(cell_text(items[items.len() - 1], col).len() == column_width(items, col));
        } else {
            let j = choose|j: int| 0 <= j < rest.len() && cell_text(#[trigger] rest[j], col).len() == column_width(rest, col);
            assert(items[j] == rest[j]);
        }
    }
}

/// Every cell of every row is padded to exactly its column's width, so the
/// columns line up whatever the lengths of the texts.
pub proof fn lemma_cells_aligned(items: Seq<PullRequest>, col: int, i: int)
    requires
        0 <= i < items.len(),
    ensures
        padded(cell_text(items[i], col), column_width(items, col)).len() == column_width(items, col),
{
    lemma_column_width_is_widest(items, col);
}

/// The number column of any list is narrower than the largest `usize`.
proof fn lemma_number_width_small(items: Seq<PullRequest>)
    ensures
        column_width(items, 0) < usize::MAX,
{
    lemma_column_width_is_widest(items, 0);
    if items.len() > 0 {
        let i = choose|i: int| 0 <= i < items.len() && cell_text(#[trigger] items[i], 0).len() == column_width(items, 0);
        lemma_decimal_len(items[i].number as nat);
    }
}

/// A list of pull requests, at most one of them hovered.
pub struct PullRequestList {
    pub(crate) dirty: bool,
    pub(crate) items: Vec<PullRequest>,
    pub(crate) hovered_index: Option<usize>,
}

impl PullRequestList {
    pub open(crate) spec fn spec_items(&self) -> Seq<PullRequest> {
        self.items@
    }

    pub open(crate) spec fn hovered(&self) -> Option<usize> {
        self.hovered_index
    }

    pub open(crate) spec fn is_dirty(&self) -> bool {
        self.dirty
    }

    /// The hovered row, if any, is a row of the list.
    pub open spec fn wf(&self) -> bool {
        self.hovered() matches Some(i) ==> i < self.spec_items().len()
    }

    /// The whole list as drawn: the header, then every row.
    pub open spec fn frame(&self, p: Palette) -> Seq<char> {
        let items = self.spec_items();
        header_text(widths_of(items), p) + lines_text(
            items,
            widths_of(items),
            p,
            self.hovered(),
            items.len(),
        )
    }

    /// The navigation that selecting requests: the detail of the hovered item.
    pub open spec fn selection(&self) -> Option<Command> {
        match self.hovered() {
            Some(i) => if i < self.spec_items().len() {
                Some(Command::ShowPull(Box::new(self.spec_items()[i as int])))
            } else {
                None
            },
            None => None,
        }
    }

    /// This list after `event`: moving up or down moves the hover and marks the
    /// list dirty; other events leave it as it is.
    pub open(crate) spec fn after(self, event: Event) -> PullRequestList {
        match event {
            Event::Move(Direction::Up) => PullRequestList {
                dirty: true,
                hovered_index: next_up(self.hovered_index, self.items@.len()),
                ..self
            },
            Event::Move(Direction::Down) => PullRequestList {
                dirty: true,
                hovered_index: next_down(self.hovered_index, self.items@.len()),
                ..self
            },
            _ => self,
        }
    }

    pub open(crate) spec fn invalidated(self) -> PullRequestList {
        PullRequestList { dirty: true, ..self }
    }

    pub open(crate) spec fn rendered(self) -> PullRequestList {
        PullRequestList { dirty: false, ..self }
    }

    /// A list of `pull_requests`, none hovered, to be drawn.
    pub fn new(pull_requests: Vec<PullRequest>) -> (r: PullRequestList)
        ensures
            r.spec_items() == pull_requests@,
            r.hovered() == None::<usize>,
            r.is_dirty(),
            r.wf(),
    {
        PullRequestList { dirty: true, items: pull_requests, hovered_index: None }
    }

    pub fn into_items(self) -> (r: Vec<PullRequest>)
        ensures
            r@ == self.spec_items(),
    {
        self.items
    }

    pub fn hovered_index(&self) -> (r: Option<usize>)
        ensures
            r == self.hovered(),
    {
        self.hovered_index
    }

    pub fn items(&self) -> (r: &Vec<PullRequest>)
        ensures
            r@ == self.spec_items(),
    {
        &self.items
    }

    /// Hovers the next row, wrapping from the last to the first; an empty
    /// list has no row to hover.
    pub fn hover_down(&mut self)
        ensures
            *final(self) == old(self).after(Event::Move(Direction::Down)),
            final(self).hovered() == next_down(old(self).hovered(), old(self).spec_items().len()),
            final(self).spec_items() == old(self).spec_items(),
            final(self).is_dirty(),
            old(self).wf() ==> final(self).wf(),
    {
        let len = self.items.len();
        if len > 0 {
            match self.hovered_index {
                None => self.hovered_index = Some(0),
                Some(idx) => {
                    if idx < len - 1 {
                        self.hovered_index = Some(idx + 1);
                    } else {
                        self.hovered_index = Some(0);
                    }
                },
            }
        }
        self.dirty = true;
    }

    /// Hovers the previous row, wrapping from the first to the last; with
    /// none hovered, hovers the last. An empty list has no row to hover.
    pub fn hover_up(&mut self)
        ensures
            *final(self) == old(self).after(Event::Move(Direction::Up)),
            final(self).hovered() == next_up(old(self).hovered(), old(self).spec_items().len()),
            final(self).spec_items() == old(self).spec_items(),
            final(self).is_dirty(),
            old(self).wf() ==> final(self).wf(),
    {
        let len = self.items.len();
        if len > 0 {
            match self.hovered_index {
                None => self.hovered_index = Some(len - 1),
                Some(idx) => {
                    if idx == 0 {
                        self.hovered_index = Some(len - 1);
                    } else {
                        self.hovered_index = Some(idx - 1);
                    }
                },
            }
        }
        self.dirty = true;
    }

    /// The width of each column: the widest number, title, owner's login and
    /// state over the items.
    pub fn column_widths(&self) -> (r: Vec<usize>)
        ensures
            r@ == widths_of(self.spec_items()),
            forall|c: int| 0 <= c < 4 ==> r@[c] == column_width(self.spec_items(), c),
    {
        let ghost items = self.items@;
        let mut w0: usize = 0;
        let mut w1: usize = 0;
        let mut w2: usize = 0;
        let mut w3: usize = 0;
        let mut i: usize = 0;
        while i < self.items.len()
            invariant
                items == self.items@,
                i <= items.len(),
                w0 == column_width(items.take(i as int), 0),
                w1 == column_width(items.take(i as int), 1),
                w2 == column_width(items.take(i as int), 2),
                w3 == column_width(items.take(i as int), 3),
            decreases items.len() - i,
        {
            let pr = &self.items[i];
            let num = decimal(pr.number);
            let n0 = num.as_str().unicode_len();
            let n1 = pr.title.as_str().unicode_len();
            let n2 = pr.owner.login.as_str().unicode_len();
            let n3 = pr.state.as_str().unicode_len();
            if w0 < n0 {
                w0 = n0;
            }
            if w1 < n1 {
                w1 = n1;
            }
            if w2 < n2 {
                w2 = n2;
            }
            if w3 < n3 {
                w3 = n3;
            }
            proof {
                assert(items.take(i + 1).drop_last() =~= items.take(i as int));
                assert(items.take(i + 1).last() == items[i as int]);
            }
            i = i + 1;
        }
        proof {
            assert(items.take(items.len() as int) =~= items);
        }
        vec![w0, w1, w2, w3]
    }

    /// The header row, drawn at the top left.
    pub fn draw_header(&self, widths: &Vec<usize>, palette: &Palette) -> (r: String)
        requires
            widths@.len() == 4,
            widths@[0] < usize::MAX,
        ensures
            r@ == header_text(widths@, *palette),
    {
        reveal(header_text);
        let mut r = goto(1, 1);
        let bg = bg_code(palette.bg_alt1);
        r.append(bg.as_str());
        let c0 = pad_right("Num", widths[0] + 1);
        r.append(c0.as_str());
        r.append(" ");
        let c1 = pad_right("Title", widths[1]);
        r.append(c1.as_str());
        r.append(" ");
        let c2 = pad_right("Owner", widths[2]);
        r.append(c2.as_str());
        r.append(" ");
        let c3 = pad_right("State", widths[3]);
        r.append(c3.as_str());
        r.append(" ");
        let cr = clear_rest();
        r.append(cr.as_str());
        let reset = palette.dual_reset();
        r.append(reset.as_str());
        r.append("\n\r");
        r
    }

    /// One row for `pr`, highlighted when `hovered`.
    pub fn draw_line(&self, pr: &PullRequest, widths: &Vec<usize>, palette: &Palette, hovered: bool) -> (r:
        String)
        requires
            widths@.len() == 4,
        ensures
            r@ == line_text(*pr, widths@, *palette, hovered),
    {
        reveal(line_text);
        let mut r = if hovered {
            bg_code(palette.bg_highlight)
        } else {
            String::new()
        };
        let f2 = fg_code(palette.fg_alt2);
        r.append(f2.as_str());
        r.append("#");
        let num = decimal(pr.number);
        let c0 = pad_right(num.as_str(), widths[0]);
        r.append(c0.as_str());
        r.append(" ");
        let f3 = fg_code(palette.fg_alt3);
        r.append(f3.as_str());
        let c1 = pad_right(pr.title.as_str(), widths[1]);
        r.append(c1.as_str());
        r.append(" ");
        let f4 = fg_code(palette.fg_alt4);
        r.append(f4.as_str());
        let c2 = pad_right(pr.owner.login.as_str(), widths[2]);
        r.append(c2.as_str());
        r.append(" ");
        let f5 = fg_code(palette.fg_alt5);
        r.append(f5.as_str());
        let c3 = pad_right(pr.state.as_str(), widths[3]);
        r.append(c3.as_str());
        let cr = clear_rest();
        r.append(cr.as_str());
        let reset = palette.dual_reset();
        r.append(reset.as_str());
        r.append("\n\r");
        r
    }
}

impl Component for PullRequestList {
    /// The detail of the hovered item, if one is hovered.
    fn select(&self) -> (r: Option<Command>)
        ensures
            r == self.selection(),
    {
        match self.hovered_index {
            Some(index) => {
                if index < self.items.len() {
                    let item = self.items[index].clone();
                    Some(Command::ShowPull(Box::new(item)))
                } else {
                    None
                }
            },
            None => None,
        }
    }

    /// Draws the header and every row, and clears the dirty flag.
    fn render(&mut self, palette: &Palette) -> (r: String)
        ensures
            r@ == old(self).frame(*palette),
            *final(self) == old(self).rendered(),
    {
        let widths = self.column_widths();
        proof {
            lemma_number_width_small(self.items@);
        }
        let mut r = self.draw_header(&widths, palette);
        let mut i: usize = 0;
        while i < self.items.len()
            invariant
                widths@ == widths_of(self.items@),
                i <= self.items@.len(),
                r@ == header_text(widths@, *palette) + lines_text(
                    self.items@,
                    widths@,
                    *palette,
                    self.hovered_index,
                    i as nat,
                ),
            decreases self.items@.len() - i,
        {
            let hovered = match self.hovered_index {
                Some(h) => h == i,
                None => false,
            };
            let line = self.draw_line(&self.items[i], &widths, palette, hovered);
            let ghost before = r@;
            r.append(line.as_str());
            proof {
                assert(r@ == before + line@);
            }
            i = i + 1;
        }
        self.dirty = false;
        r
    }

    /// Moving up or down moves the hover; other events are ignored here.
    fn handle_event(&mut self, event: Event)
        ensures
            *final(self) == old(self).after(event),
    {
        match event {
            Event::Move(direction) => match direction {
                Direction::Up => self.hover_up(),
                Direction::Down => self.hover_down(),
                _ => {},
            },
            _ => {},
        }
    }

    fn dirty(&self) -> (r: bool)
        ensures
            r == self.is_dirty(),
    {
        self.dirty
    }
}

/// The detail as drawn: `#number title`, then the author's login, then the
/// body.
pub open spec fn detail_text(pr: PullRequest, p: Palette) -> Seq<char> {
    goto_seq(1, 1) + fg_seq(p.fg_alt5) + "#"@ + decimal_of(pr.number as nat) + " "@ + fg_seq(p.fg_alt3)
        + pr.title@ + "\n\r"@ + fg_seq(p.fg_alt1) + pr.owner.login@ + "\n\r"@ + fg_seq(p.fg_normal)
        + pr.body@
}

/// The detail of one pull request. It requests no navigation and ignores
/// events; it is dirty until it has been drawn.
pub struct FullPullRequest {
    pub(crate) dirty: bool,
    pub(crate) item: Box<PullRequest>,
}

impl FullPullRequest {
    pub open(crate) spec fn item(&self) -> PullRequest {
        *self.item
    }

    pub open(crate) spec fn is_dirty(&self) -> bool {
        self.dirty
    }

    pub open spec fn frame(&self, p: Palette) -> Seq<char> {
        detail_text(self.item(), p)
    }

    /// A new detail view of `item`, to be drawn.
    pub open(crate) spec fn showing(item: PullRequest) -> FullPullRequest {
        FullPullRequest { dirty: true, item: Box::new(item) }
    }

    pub open(crate) spec fn invalidated(self) -> FullPullRequest {
        FullPullRequest { dirty: true, ..self }
    }

    pub open(crate) spec fn rendered(self) -> FullPullRequest {
        FullPullRequest { dirty: false, ..self }
    }

    /// The detail view of `item`, to be drawn.
    pub fn new(item: Box<PullRequest>) -> (r: FullPullRequest)
        ensures
            r == FullPullRequest::showing(*item),
            r.item() == *item,
            r.is_dirty(),
    {
        FullPullRequest { dirty: true, item }
    }

    pub fn item_ref(&self) -> (r: &PullRequest)
        ensures
            *r == self.item(),
    {
        &self.item
    }
}

impl Component for FullPullRequest {
    fn select(&self) -> (r: Option<Command>)
        ensures
            r == None::<Command>,
    {
        None
    }

    /// Draws the detail and clears the dirty flag.
    fn render(&mut self, palette: &Palette) -> (r: String)
        ensures
            r@ == old(self).frame(*palette),
            *final(self) == old(self).rendered(),
    {
        let mut r = goto(1, 1);
        let f5 = fg_code(palette.fg_alt5);
        r.append(f5.as_str());
        r.append("#");
        let num = decimal(self.item.number);
        r.append(num.as_str());
        r.append(" ");
        let f3 = fg_code(palette.fg_alt3);
        r.append(f3.as_str());
        r.append(self.item.title.as_str());
        r.append("\n\r");
        let f1 = fg_code(palette.fg_alt1);
        r.append(f1.as_str());
        r.append(self.item.owner.login.as_str());
        r.append("\n\r");
        let fnormal = fg_code(palette.fg_normal);
        r.append(fnormal.as_str());
        r.append(self.item.body.as_str());
        self.dirty = false;
        r
    }

    fn handle_event(&mut self, event: Event)
        ensures
            *final(self) == *old(self),
    {
    }

    fn dirty(&self) -> (r: bool)
        ensures
            r == self.is_dirty(),
    {
        self.dirty
    }
}

/// The view on screen, or one kept in the navigation history.
pub enum Page {
    List(PullRequestList),
    Detail(FullPullRequest),
}

impl Page {
    pub open spec fn is_dirty(&self) -> bool {
        match self {
            Page::List(l) => l.is_dirty(),
            Page::Detail(d) => d.is_dirty(),
        }
    }

    pub open spec fn selection(&self) -> Option<Command> {
        match self {
            Page::List(l) => l.selection(),
            Page::Detail(_) => None,
        }
    }

    pub open spec fn frame(&self, p: Palette) -> Seq<char> {
        match self {
            Page::List(l) => l.frame(p),
            Page::Detail(d) => d.frame(p),
        }
    }

    pub open spec fn after(self, event: Event) -> Page {
        match self {
            Page::List(l) => Page::List(l.after(event)),
            Page::Detail(d) => Page::Detail(d),
        }
    }

    /// This view, marked to be drawn again.
    pub open spec fn invalidated(self) -> Page {
        match self {
            Page::List(l) => Page::List(l.invalidated()),
            Page::Detail(d) => Page::Detail(d.invalidated()),
        }
    }

    pub open spec fn rendered(self) -> Page {
        match self {
            Page::List(l) => Page::List(l.rendered()),
            Page::Detail(d) => Page::Detail(d.rendered()),
        }
    }

    /// Marks this view to be drawn again.
    pub fn invalidate(&mut self)
        ensures
            *final(self) == old(self).invalidated(),
    {
        match self {
            Page::List(l) => l.dirty = true,
            Page::Detail(d) => d.dirty = true,
        }
    }
}

impl Component for Page {
    fn select(&self) -> (r: Option<Command>)
        ensures
            r == self.selection(),
    {
        match self {
            Page::List(l) => l.select(),
            Page::Detail(d) => d.select(),
        }
    }

    fn render(&mut self, palette: &Palette) -> (r: String)
        ensures
            r@ == old(self).frame(*palette),
            *final(self) == old(self).rendered(),
    {
        match self {
            Page::List(l) => l.render(palette),
            Page::Detail(d) => d.render(palette),
        }
    }

    fn handle_event(&mut self, event: Event)
        ensures
            *final(self) == old(self).after(event),
    {
        match self {
            Page::List(l) => l.handle_event(event),
            Page::Detail(d) => d.handle_event(event),
        }
    }

    fn dirty(&self) -> (r: bool)
        ensures
            r == self.is_dirty(),
    {
        match self {
            Page::List(l) => l.dirty(),
            Page::Detail(d) => d.dirty(),
        }
    }
}

} // verus!
