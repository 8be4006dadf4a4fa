//! The layout engine: a tree of panes partitions a rectangle of the terminal
//! into bands of rows or columns, down to coloured leaves.

use vstd::prelude::*;
use vstd::arithmetic::div_mod::lemma_fundamental_div_mod;
use vstd::arithmetic::mul::{lemma_mul_inequality, lemma_mul_is_distributive_add};
use crate::term::{Shade, bg_code, bg_seq, goto, goto_seq};
use crate::text::{decimal, decimal_of, pad_right, padded};

verus! {

/// The colours a pane can be painted with.
#[derive(Debug, Clone, Copy, PartialEq, Eq, Structural)]
pub enum Color {
    Red,
    Green,
    Blue,
    Magenta,
    Black,
    White,
    Cyan,
}

/// The axis along which a pane splits its region among its children.
#[derive(Debug, Clone, Copy, PartialEq, Eq, Structural)]
pub enum Format {
    /// Children are stacked top to bottom; the height is divided.
    Rows,
    /// Children stand left to right; the width is divided.
    Columns,
}

/// A node of the pane tree: a leaf when its layout has no panes, whose
/// colour is then the one painted; otherwise its colour is ignored.
#[derive(Debug)]
pub struct Pane {
    layout: Layout,
    color: Color,
}

/// How a pane splits its region, and the children it splits it among.
#[derive(Debug)]
pub struct Layout {
    pub format: Format,
    pub panes: Vec<Pane>,
}

impl Pane {
    pub fn new(layout: Layout, color: Color) -> (r: Pane)
        ensures
            r.layout() == layout,
            r.color() == color,
    {
        Pane { layout, color }
    }

    pub closed spec fn layout(self) -> Layout {
        self.layout
    }

    pub closed spec fn color(self) -> Color {
        self.color
    }

    /// The children of this pane, in order.
    pub open spec fn children(self) -> Seq<Pane> {
        self.layout().panes@
    }

    pub open spec fn is_leaf(self) -> bool {
        self.children().len() == 0
    }
}

impl Default for Layout {
    fn default() -> (r: Layout)
        ensures
            r.format == Format::Rows,
            r.panes@.len() == 0,
    {
        Layout { format: Format::Rows, panes: Vec::new() }
    }
}

impl Layout {
    /// This layout with `pane` added as its last child.
    pub fn add_pane(self, pane: Pane) -> (r: Layout)
        ensures
            r.format == self.format,
            r.panes@ == self.panes@.push(pane),
    {
        let mut layout = self;
        layout.panes.push(pane);
        layout
    }
}

/// The leaves that laying out `pane` over `r` produces, in pre-order: a leaf
/// pane yields its own region and colour; an inner pane yields the leaves of
/// its children, each laid out over its band of `r`.
pub open spec fn layout_leaves(pane: Pane, r: Rect) -> Seq<(Rect, Color)>
    decreases pane, 1nat, 0nat,
{
    if pane.is_leaf() {
        seq![(r, pane.color())]
    } else {
        children_leaves(pane, r, pane.children().len() as nat)
    }
}

/// The leaves of the first `k` children of `pane`, laid out over their bands
/// of `r`, one child after the other.
pub open spec fn children_leaves(pane: Pane, r: Rect, k: nat) -> Seq<(Rect, Color)>
    decreases pane, 0nat, k,
{
    let n = pane.children().len();
    if k == 0 || k > n {
        Seq::empty()
    } else {
        children_leaves(pane, r, (k - 1) as nat) + layout_leaves(
            pane.children()[k - 1],
            split_rect(r, k - 1, n as int, pane.layout().format),
        )
    }
}

/// The colours of the leaf nodes of the tree under `pane`, in pre-order.
pub open spec fn leaf_colors(pane: Pane) -> Seq<Color>
    decreases pane, 1nat, 0nat,
{
    if pane.is_leaf() {
        seq![pane.color()]
    } else {
        children_colors(pane, pane.children().len() as nat)
    }
}

/// The leaf colours under the first `k` children of `pane`, in pre-order.
pub open spec fn children_colors(pane: Pane, k: nat) -> Seq<Color>
    decreases pane, 0nat, k,
{
    if k == 0 || k > pane.children().len() {
        Seq::empty()
    } else {
        children_colors(pane, (k - 1) as nat) + leaf_colors(pane.children()[k - 1])
    }
}

/// The computed segments are the spec leaves, region for region and colour
/// for colour.
pub open spec fn segments_are<'a>(segs: Seq<(Context, &'a Color)>, leaves: Seq<(Rect, Color)>) -> bool {
    &&& segs.len() == leaves.len()
    &&& forall|i: int| 0 <= i < segs.len() ==> (#[trigger] segs[i]).0@ == leaves[i].0 && *segs[i].1 == leaves[i].1
}

/// Lays `pane` out over `context`: one segment per leaf of the tree, in
/// pre-order, each the leaf's region and colour.
pub fn generate_layout<'a>(pane: &'a Pane, context: Context) -> (r: Vec<(Context, &'a Color)>)
    requires
        context.wf(),
    ensures
        segments_are(r@, layout_leaves(*pane, context@)),
    decreases pane,
{
    let pane_count = pane.layout.panes.len();
    if pane_count == 0 {
        return vec![(context, &pane.color)];
    }
    let mut segments: Vec<(Context, &'a Color)> = Vec::new();
    let mut i: usize = 0;
    while i < pane_count
        invariant
            pane_count == pane.children().len(),
            context.wf(),
            i <= pane_count,
            segments_are(segments@, children_leaves(*pane, context@, i as nat)),
        decreases pane_count - i,
    {
        let child = &pane.layout.panes[i];
        let band = contexts_offset(&context, i, pane_count, &pane.layout.format);
        proof {
            assert(decreases_to!(*pane => pane.layout.panes[i as int]));
        }
        let mut sub = generate_layout(child, band);
        let ghost before = segments@;
        let ghost added = sub@;
        segments.append(&mut sub);
        proof {
            let want = children_leaves(*pane, context@, (i + 1) as nat);
            assert(segments@ =~= before + added);
            assert forall|j: int| 0 <= j < segments@.len() implies (#[trigger] segments@[j]).0@ == want[j].0 && *segments@[j].1 == want[j].1 by {
                if j >= before.len() {
                    assert(segments@[j] == added[j - before.len()]);
                }
            }
        }
        i = i + 1;
    }
    segments
}

/// A rectangle on the 1-based terminal grid: top-left corner and extent.
pub ghost struct Rect {
    pub left: int,
    pub top: int,
    pub width: int,
    pub height: int,
}

impl Rect {
    /// The corner is on the 1-based grid, the extent is not negative, and the
    /// last column and row are representable as `usize`.
    pub open spec fn fits(self) -> bool {
        &&& 1 <= self.left
        &&& 1 <= self.top
        &&& 0 <= self.width
        &&& 0 <= self.height
        &&& self.left - 1 + self.width <= usize::MAX
        &&& self.top - 1 + self.height <= usize::MAX
    }

    pub open spec fn bottom(self) -> int {
        self.top + self.height - 1
    }

    pub open spec fn right(self) -> int {
        self.left + self.width - 1
    }
}

/// A region of the terminal. A split into more bands than the region has rows
/// or columns gives bands of extent zero, which cover nothing.
#[derive(Debug, Clone, Copy, PartialEq, Eq)]
pub struct Context {
    x: usize,
    y: usize,
    width: usize,
    height: usize,
}

impl View for Context {
    type V = Rect;

    closed spec fn view(&self) -> Rect {
        Rect { left: self.x as int, top: self.y as int, width: self.width as int, height: self.height as int }
    }
}

impl Context {
    pub closed spec fn wf(&self) -> bool {
        self@.fits()
    }

    pub fn new(x: usize, y: usize, width: usize, height: usize) -> (r: Context)
        requires
            (Rect { left: x as int, top: y as int, width: width as int, height: height as int }).fits(),
        ensures
            r@ == (Rect { left: x as int, top: y as int, width: width as int, height: height as int }),
            r.wf(),
    {
        Context { x, y, width, height }
    }

    pub fn top(&self) -> (r: usize)
        ensures
            r == self@.top,
    {
        self.y
    }

    /// The last row of the region: `top + height - 1`.
    pub fn bottom(&self) -> (r: usize)
        requires
            self.wf(),
        ensures
            r == self@.bottom(),
    {
        self.y - 1 + self.height
    }

    pub fn left(&self) -> (r: usize)
        ensures
            r == self@.left,
    {
        self.x
    }

    /// The last column of the region: `left + width - 1`.
    pub fn right(&self) -> (r: usize)
        requires
            self.wf(),
        ensures
            r == self@.right(),
    {
        self.x - 1 + self.width
    }

    pub fn width(&self) -> (r: usize)
        ensures
            r == self@.width,
    {
        self.width
    }

    pub fn height(&self) -> (r: usize)
        ensures
            r == self@.height,
    {
        self.height
    }
}

/// Band `i` of `n` equal bands of `r` along `format`, by integer division:
/// the remainder of the divided extent is left to no band.
pub open spec fn split_rect(r: Rect, i: int, n: int, format: Format) -> Rect {
    match format {
        Format::Rows => Rect { top: r.top + (r.height / n) * i, height: r.height / n, ..r },
        Format::Columns => Rect { left: r.left + (r.width / n) * i, width: r.width / n, ..r },
    }
}

proof fn lemma_bands_fit(extent: int, n: int, i: int)
    requires
        0 <= extent,
        0 <= i < n,
    ensures
        0 <= (extent / n) * i,
        (extent / n) * i + extent / n <= extent,
        extent / n == 0 ==> (extent / n) * i == 0,
{
    lemma_fundamental_div_mod(extent, n);
    lemma_mul_inequality(i + 1, n, extent / n);
    lemma_mul_is_distributive_add(extent / n, i, 1);
    assert(0 <= (extent / n) * i) by (nonlinear_arith)
        requires
            0 <= extent / n,
            0 <= i,
    ;
    assert((extent / n) * n == n * (extent / n)) by (nonlinear_arith);
}

/// The region of child `offset` among `pane_count` children splitting
/// `context` along `format`.
pub fn contexts_offset(context: &Context, offset: usize, pane_count: usize, format: &Format) -> (r:
    Context)
    requires
        context.wf(),
        offset < pane_count,
    ensures
        r@ == split_rect(context@, offset as int, pane_count as int, *format),
        r.wf(),
{
    match format {
        Format::Rows => {
            proof {
                lemma_bands_fit(context@.height, pane_count as int, offset as int);
            }
            let height = context.height / pane_count;
            let top = context.top() + height * offset;
            Context::new(context.left(), top, context.width, height)
        },
        Format::Columns => {
            proof {
                lemma_bands_fit(context@.width, pane_count as int, offset as int);
            }
            let width = context.width / pane_count;
            let left = context.left() + width * offset;
            Context::new(left, context.top(), width, context.height)
        },
    }
}

/// The label of a segment: `x,y@width`.
pub open spec fn segment_label(x: usize, y: usize, width: usize) -> Seq<char> {
    decimal_of(x as nat) + ","@ + decimal_of(y as nat) + "@"@ + decimal_of(width as nat)
}

/// One row of a pane: the cursor moved to its start, the background set to
/// its colour, and its label padded to its width.
pub open spec fn segment_text(x: usize, y: usize, width: usize, color: Color) -> Seq<char> {
    goto_seq(x as u16, y as u16) + bg_seq(Shade::Basic(color)) + padded(
        segment_label(x, y, width),
        width as nat,
    )
}

/// The first `k` rows of a region painted in `color`.
pub open spec fn fill_text(r: Rect, color: Color, k: nat) -> Seq<char>
    decreases k,
{
    if k == 0 {
        Seq::empty()
    } else {
        fill_text(r, color, (k - 1) as nat) + segment_text(
            r.left as usize,
            (r.top + k - 1) as usize,
            r.width as usize,
            color,
        )
    }
}

/// Paints one row of a pane, from column `x` of row `y`, `width` columns wide.
pub fn draw_segment(x: usize, y: usize, width: usize, color: Color) -> (r: String)
    requires
        x <= u16::MAX,
        y <= u16::MAX,
    ensures
        r@ == segment_text(x, y, width, color),
{
    let mut r = goto(x, y);
    let bg = bg_code(Shade::Basic(color));
    r.append(bg.as_str());
    let mut label = decimal(x);
    label.append(",");
    let ys = decimal(y);
    label.append(ys.as_str());
    label.append("@");
    let ws = decimal(width);
    label.append(ws.as_str());
    let text = pad_right(label.as_str(), width);
    r.append(text.as_str());
    r
}

/// Paints every row of `context` in `color`, top to bottom.
pub fn fill_context(context: &Context, color: Color) -> (r: String)
    requires
        context.wf(),
        context@.left <= u16::MAX,
        context@.bottom() <= u16::MAX,
    ensures
        r@ == fill_text(context@, color, context@.height as nat),
{
    let mut r = String::new();
    let mut k: usize = 0;
    while k < context.height
        invariant
            context.wf(),
            context@.left <= u16::MAX,
            context@.bottom() <= u16::MAX,
            k <= context@.height,
            r@ == fill_text(context@, color, k as nat),
        decreases context@.height - k,
    {
        let line = context.top() + k;
        let segment = draw_segment(context.left(), line, context.width, color);
        r.append(segment.as_str());
        k = k + 1;
    }
    r
}

/// Laying out a pane tree over any region yields exactly one segment per leaf
/// node of the tree, in pre-order: the colours of the segments, in order, are
/// the colours of the leaf nodes met in a pre-order walk.
pub proof fn lemma_one_segment_per_leaf(pane: Pane, r: Rect)
    ensures
        layout_leaves(pane, r).len() == leaf_colors(pane).len(),
        layout_leaves(pane, r).map_values(|l: (Rect, Color)| l.1) == leaf_colors(pane),
    decreases pane, 1nat, 0nat,
{
    if !pane.is_leaf() {
        lemma_children_segments(pane, r, pane.children().len() as nat);
    } else {
        assert(layout_leaves(pane, r).map_values(|l: (Rect, Color)| l.1) =~= leaf_colors(pane));
    }
}

proof fn lemma_children_segments(pane: Pane, r: Rect, k: nat)
    ensures
        children_leaves(pane, r, k).map_values(|l: (Rect, Color)| l.1) == children_colors(pane, k),
    decreases pane, 0nat, k,
{
    let n = pane.children().len();
    if k == 0 || k > n {
        assert(children_leaves(pane, r, k).map_values(|l: (Rect, Color)| l.1) =~= children_colors(pane, k));
    } else {
        let child = pane.children()[k - 1];
        let band = split_rect(r, k - 1, n as int, pane.layout().format);
        lemma_children_segments(pane, r, (k - 1) as nat);
        assert(decreases_to!(pane => child));
        lemma_one_segment_per_leaf(child, band);
        let front = children_leaves(pane, r, (k - 1) as nat);
        let back = layout_leaves(child, band);
        assert((front + back).map_values(|l: (Rect, Color)| l.1) =~= front.map_values(
            |l: (Rect, Color)| l.1,
        ) + back.map_values(|l: (Rect, Color)| l.1));
    }
}

/// The total height of the first `k` of `n` row bands of `r`.
pub open spec fn rows_total(r: Rect, n: int, k: nat) -> int
    decreases k,
{
    if k == 0 {
        0
    } else {
        rows_total(r, n, (k - 1) as nat) + split_rect(r, k - 1, n, Format::Rows).height
    }
}

proof fn lemma_rows_total(r: Rect, n: int, k: nat)
    ensures
        rows_total(r, n, k) == k * (r.height / n),
    decreases k,
{
    if k > 0 {
        lemma_rows_total(r, n, (k - 1) as nat);
        let q = r.height / n;
        assert(k * q == (k - 1) * q + q) by (nonlinear_arith);
    } else {
        assert(k * (r.height / n) == 0) by (nonlinear_arith)
            requires
                k == 0,
        ;
    }
}

/// Splitting a region into `n` row bands: every band is `height / n` rows high
/// and as wide as the region; the bands lie inside the region, one right below
/// the other, so none overlaps another; together they are `height / n * n`
/// rows high, which is the height less `height % n`, and so never more than it.
pub proof fn lemma_row_split(r: Rect, n: int)
    requires
        r.fits(),
        0 < n,
    ensures
        forall|i: int|
            0 <= i < n ==> {
                let b = #[trigger] split_rect(r, i, n, Format::Rows);
                &&& b.height == r.height / n
                &&& b.left == r.left
                &&& b.width == r.width
                &&& r.top <= b.top
                &&& b.bottom() <= r.bottom()
            },
        forall|i: int|
            0 <= i < n - 1 ==> #[trigger] split_rect(r, i, n, Format::Rows).bottom() + 1 == split_rect(
                r,
                i + 1,
                n,
                Format::Rows,
            ).top,
        rows_total(r, n, n as nat) == r.height - r.height % n,
        rows_total(r, n, n as nat) <= r.height,
{
    assert forall|i: int| 0 <= i < n implies {
        let b = #[trigger] split_rect(r, i, n, Format::Rows);
        &&& b.height == r.height / n
        &&& b.left == r.left
        &&& b.width == r.width
        &&& r.top <= b.top
        &&& b.bottom() <= r.bottom()
    } by {
        lemma_bands_fit(r.height, n, i);
    }
    assert forall|i: int| 0 <= i < n - 1 implies #[trigger] split_rect(r, i, n, Format::Rows).bottom()
        + 1 == split_rect(r, i + 1, n, Format::Rows).top by {
        lemma_mul_is_distributive_add(r.height / n, i, 1);
    }
    lemma_rows_total(r, n, n as nat);
    lemma_fundamental_div_mod(r.height, n);
    assert(n * (r.height / n) == (r.height / n) * n) by (nonlinear_arith);
    assert(0 <= r.height % n) by {
        vstd::arithmetic::div_mod::lemma_mod_bound(r.height, n);
    }
}

} // verus!
