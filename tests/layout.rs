use prtui::layout::{contexts_offset, draw_segment, fill_context, generate_layout, Color, Context, Format, Layout, Pane};

fn leaf(color: Color) -> Pane {
    Pane::new(Layout::default(), color)
}

fn sample_tree() -> Pane {
    let inner = Pane::new(
        Layout {
            panes: vec![
                Pane::new(
                    Layout { panes: vec![leaf(Color::Magenta), leaf(Color::Cyan)], format: Format::Rows },
                    Color::Blue,
                ),
                leaf(Color::Green),
            ],
            format: Format::Columns,
        },
        Color::Blue,
    );
    Pane::new(Layout::default().add_pane(inner).add_pane(leaf(Color::White)), Color::Blue)
}

#[test]
fn region_accessors() {
    let c = Context::new(3, 5, 10, 4);
    assert_eq!(c.top(), 5);
    assert_eq!(c.bottom(), 8);
    assert_eq!(c.left(), 3);
    assert_eq!(c.right(), 12);
    assert_eq!(c.width(), 10);
    assert_eq!(c.height(), 4);
}

#[test]
fn region_of_one_cell() {
    let c = Context::new(1, 1, 1, 1);
    assert_eq!(c.bottom(), c.top());
    assert_eq!(c.right(), c.left());
}

#[test]
fn row_bands_divide_height() {
    let c = Context::new(1, 1, 80, 10);
    let bands: Vec<Context> = (0..3).map(|i| contexts_offset(&c, i, 3, &Format::Rows)).collect();
    for (i, b) in bands.iter().enumerate() {
        assert_eq!(b.height(), 3);
        assert_eq!(b.width(), 80);
        assert_eq!(b.left(), 1);
        assert_eq!(b.top(), 1 + 3 * i);
    }
    let total: usize = bands.iter().map(|b| b.height()).sum();
    assert_eq!(total, 9);
    assert!(total <= 10);
    assert_eq!(bands[2].bottom(), 9);
}

#[test]
fn column_bands_divide_width() {
    let c = Context::new(2, 4, 9, 5);
    let b = contexts_offset(&c, 1, 2, &Format::Columns);
    assert_eq!(b.left(), 6);
    assert_eq!(b.width(), 4);
    assert_eq!(b.top(), 4);
    assert_eq!(b.height(), 5);
}

#[test]
fn more_bands_than_rows() {
    let c = Context::new(1, 1, 5, 2);
    let b = contexts_offset(&c, 2, 3, &Format::Rows);
    assert_eq!(b.height(), 0);
    assert_eq!(b.top(), 1);
}

#[test]
fn single_leaf_layout() {
    let p = leaf(Color::Red);
    let segs = generate_layout(&p, Context::new(1, 1, 20, 10));
    assert_eq!(segs.len(), 1);
    assert_eq!(segs[0].0, Context::new(1, 1, 20, 10));
    assert_eq!(*segs[0].1, Color::Red);
}

#[test]
fn layout_has_one_segment_per_leaf_in_pre_order() {
    let tree = sample_tree();
    let segs = generate_layout(&tree, Context::new(1, 1, 80, 24));
    let colors: Vec<Color> = segs.iter().map(|s| *s.1).collect();
    assert_eq!(colors, vec![Color::Magenta, Color::Cyan, Color::Green, Color::White]);
    assert_eq!(segs[0].0, Context::new(1, 1, 40, 6));
    assert_eq!(segs[1].0, Context::new(1, 7, 40, 6));
    assert_eq!(segs[2].0, Context::new(41, 1, 40, 12));
    assert_eq!(segs[3].0, Context::new(1, 13, 80, 12));
}

#[test]
fn uneven_split_drops_remainder() {
    let tree = Pane::new(
        Layout::default().add_pane(leaf(Color::Red)).add_pane(leaf(Color::Green)).add_pane(leaf(Color::Blue)),
        Color::Black,
    );
    let segs = generate_layout(&tree, Context::new(1, 1, 10, 11));
    let heights: Vec<usize> = segs.iter().map(|s| s.0.height()).collect();
    assert_eq!(heights, vec![3, 3, 3]);
    assert_eq!(segs[2].0.bottom(), 9);
}

#[test]
fn segment_text_is_label_padded() {
    let s = draw_segment(3, 2, 8, Color::Red);
    assert_eq!(s, "\x1b[2;3H\x1b[48;5;1m3,2@8   ");
}

#[test]
fn segment_label_longer_than_width() {
    let s = draw_segment(1, 1, 2, Color::Green);
    assert_eq!(s, "\x1b[1;1H\x1b[48;5;2m1,1@2");
}

#[test]
fn fill_paints_every_row() {
    let c = Context::new(2, 3, 6, 2);
    let s = fill_context(&c, Color::Blue);
    assert_eq!(s, "\x1b[3;2H\x1b[48;5;4m2,3@6 \x1b[4;2H\x1b[48;5;4m2,4@6 ");
}

#[test]
fn fill_of_empty_region_paints_nothing() {
    let c = Context::new(2, 3, 6, 0);
    assert_eq!(fill_context(&c, Color::Blue), "");
}
