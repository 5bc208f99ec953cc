use vstd::prelude::*;

use ratatui::layout::{Constraint, Direction, Layout, Rect};

verus! {

/// A rectangle of terminal cells: its top-left corner and its size.
#[derive(Clone, Copy, Debug, PartialEq, Eq, Structural)]
pub struct Region {
    pub x: u16,
    pub y: u16,
    pub width: u16,
    pub height: u16,
}

/// How much of a split a part asks for.
#[derive(Clone, Copy, Debug, PartialEq, Eq, Structural)]
pub enum Extent {
    /// This percentage of the whole.
    Percentage(u16),
    /// Exactly this many cells.
    Length(u16),
    /// At least this many cells.
    Min(u16),
    /// A share, by this weight, of what the others leave.
    Fill(u16),
}

/// `area` is small enough that the layout solver cuts it unclipped (at most
/// 65,535 cells, its far edges on the screen's coordinates), and holds a
/// margin of `margin` cells on every side.
pub open spec fn fits(area: Region, margin: u16) -> bool {
    &&& area.width * area.height <= 65535
    &&& area.x + area.width <= 65535
    &&& area.y + area.height <= 65535
    &&& area.width >= 2 * margin
    &&& area.height >= 2 * margin
}

/// `r` lies inside `area` shrunk by `margin` on every side, and spans that
/// inner area across the direction of the cut.
pub open spec fn placed(area: Region, horizontal: bool, margin: u16, r: Region) -> bool {
    if horizontal {
        &&& r.y == area.y + margin
        &&& r.height == area.height - 2 * margin
        &&& area.x + margin <= r.x
        &&& r.x + r.width <= area.x + area.width - margin
    } else {
        &&& r.x == area.x + margin
        &&& r.width == area.width - 2 * margin
        &&& area.y + margin <= r.y
        &&& r.y + r.height <= area.y + area.height - margin
    }
}

/// `a` ends at or before the start of `b` along the direction of the cut.
pub open spec fn in_order(horizontal: bool, a: Region, b: Region) -> bool {
    if horizontal {
        a.x + a.width <= b.x
    } else {
        a.y + a.height <= b.y
    }
}

/// Each part lies in `area` as `placed` says, and the parts follow one
/// another in order along the cut, without overlap.
pub open spec fn split_within(area: Region, horizontal: bool, margin: u16, parts: Seq<Region>) -> bool {
    &&& forall|i: int| 0 <= i < parts.len() ==> placed(area, horizontal, margin, #[trigger] parts[i])
    &&& forall|i: int, j: int|
        0 <= i < j < parts.len() ==> in_order(horizontal, #[trigger] parts[i], #[trigger] parts[j])
}

/// Relies on ratatui's `Layout::split`: it cuts `area`, shrunk by `margin` on
/// every side, left to right when `horizontal`, else top to bottom, into one
/// rectangle for each constraint. The solver's boundaries are required to lie
/// inside the shrunk area and to ascend, and each rectangle spans the shrunk
/// area across the cut; which boundaries it picks is up to the solver, and two
/// calls on the same arguments may differ.
#[verifier::external_body]
pub(crate) fn split(area: Region, horizontal: bool, extents: &Vec<Extent>, margin: u16) -> (r: Vec<Region>)
    ensures
        r@.len() == extents@.len(),
        fits(area, margin) ==> split_within(area, horizontal, margin, r@),
{
    let constraints = extents.iter().map(|e| match *e {
        Extent::Percentage(p) => Constraint::Percentage(p),
        Extent::Length(n) => Constraint::Length(n),
        Extent::Min(n) => Constraint::Min(n),
        Extent::Fill(n) => Constraint::Fill(n),
    });
    let direction = if horizontal { Direction::Horizontal } else { Direction::Vertical };
    let layout = Layout::new(direction, constraints).margin(margin);
    let rects = layout.split(Rect::new(area.x, area.y, area.width, area.height));
    rects.iter().map(|r| Region { x: r.x, y: r.y, width: r.width, height: r.height }).collect()
}

/// A part that `split` placed in a fitting area fits too, with any margin
/// that its own size holds.
pub proof fn lemma_part_fits(area: Region, horizontal: bool, margin: u16, part: Region, inner: u16)
    requires
        fits(area, margin),
        placed(area, horizontal, margin, part),
        part.width >= 2 * inner,
        part.height >= 2 * inner,
    ensures
        fits(part, inner),
{
    let (aw, ah, pw, ph) = (area.width as int, area.height as int, part.width as int, part.height as int);
    assert(pw <= aw && ph <= ah);
    assert(pw * ph <= aw * ah) by (nonlinear_arith)
        requires
            0 <= pw <= aw,
            0 <= ph <= ah,
    ;
}

/// The regions of the home screen.
pub struct HomeLayout {
    /// The banner, top left.
    pub banner: Region,
    /// The manager panel, under the banner.
    pub summary: Region,
    /// The right-hand side, where the grid is framed.
    pub pitch: Region,
    /// One row for each group of the grid, top to bottom.
    pub rows: Vec<Region>,
    /// Where the detail view of the active card is drawn.
    pub detail: Region,
}

pub open spec fn home_columns_spec() -> Seq<Extent> {
    seq![Extent::Percentage(20), Extent::Percentage(80)]
}

pub open spec fn home_rows_spec() -> Seq<Extent> {
    seq![
        Extent::Length(1),
        Extent::Percentage(20),
        Extent::Percentage(20),
        Extent::Percentage(20),
        Extent::Percentage(20),
        Extent::Min(1),
        Extent::Length(1),
    ]
}

/// The screen's two columns, and the left column's banner over manager
/// panel: a fifth, then four fifths.
pub fn home_columns() -> (r: Vec<Extent>)
    ensures
        r@ == home_columns_spec(),
{
    let r = vec![Extent::Percentage(20), Extent::Percentage(80)];
    assert(r@ =~= home_columns_spec());
    r
}

/// The right column's rows: a one-cell line, the four groups of the pitch at a
/// fifth each, the bench taking what is left, and a one-cell line.
pub fn home_rows() -> (r: Vec<Extent>)
    ensures
        r@ == home_rows_spec(),
{
    let r = vec![
        Extent::Length(1),
        Extent::Percentage(20),
        Extent::Percentage(20),
        Extent::Percentage(20),
        Extent::Percentage(20),
        Extent::Min(1),
        Extent::Length(1),
    ];
    assert(r@ =~= home_rows_spec());
    r
}

/// The whole of an area, as one part.
pub fn whole() -> (r: Vec<Extent>)
    ensures
        r@ == seq![Extent::Percentage(100)],
{
    let r = vec![Extent::Percentage(100)];
    assert(r@ =~= seq![Extent::Percentage(100)]);
    r
}

/// The home screen's regions from the cuts of the screen: `outer` by
/// `home_columns`, `left` (of `outer[0]`) by `home_columns`, `rows` (of
/// `outer[1]`) by `home_rows`, and `detail` (of `outer[1]`, inside a margin)
/// by `whole`. The five groups take the rows between the two one-cell lines.
pub fn home_layout_from(outer: &Vec<Region>, left: &Vec<Region>, rows: &Vec<Region>, detail: &Vec<Region>) -> (r:
    HomeLayout)
    requires
        outer@.len() == 2,
        left@.len() == 2,
        rows@.len() == 7,
        detail@.len() == 1,
    ensures
        r.banner == left@[0],
        r.summary == left@[1],
        r.pitch == outer@[1],
        r.rows@ == rows@.subrange(1, 6),
        r.detail == detail@[0],
{
    let mut group_rows: Vec<Region> = Vec::new();
    let mut i: usize = 1;
    while i < 6
        invariant
            1 <= i <= 6,
            rows@.len() == 7,
            group_rows@ =~= rows@.subrange(1, i as int),
        decreases 6 - i,
    {
        group_rows.push(rows[i]);
        i = i + 1;
        assert(group_rows@ =~= rows@.subrange(1, i as int));
    }
    HomeLayout { banner: left[0], summary: left[1], pitch: outer[1], rows: group_rows, detail: detail[0] }
}

/// Where the home screen's regions lie in `area`, whatever the solver picks:
/// the banner over the manager panel in the left column, the pitch to their
/// right at full height, the five group rows across the pitch top to bottom,
/// and the detail view inside the pitch four cells in from each edge (when
/// the pitch is at least eight cells each way).
pub open spec fn screen_geometry(area: Region, l: HomeLayout) -> bool {
    let (b, s, p) = (l.banner, l.summary, l.pitch);
    &&& area.x <= b.x
    &&& b.x == s.x
    &&& b.width == s.width
    &&& area.y <= b.y
    &&& b.y + b.height <= s.y
    &&& s.y + s.height <= area.y + area.height
    &&& b.x + b.width <= p.x
    &&& p.x + p.width <= area.x + area.width
    &&& p.y == area.y
    &&& p.height == area.height
    &&& forall|i: int|
        0 <= i < 5 ==> {
            &&& #[trigger] l.rows@[i].x == p.x
            &&& l.rows@[i].width == p.width
            &&& p.y <= l.rows@[i].y
            &&& l.rows@[i].y + l.rows@[i].height <= p.y + p.height
        }
    &&& forall|i: int, j: int|
        0 <= i < j < 5 ==> #[trigger] l.rows@[i].y + l.rows@[i].height <= #[trigger] l.rows@[j].y
    &&& p.width >= 8 && p.height >= 8 ==> {
        &&& l.detail.x == p.x + 4
        &&& l.detail.width == p.width - 8
        &&& p.y + 4 <= l.detail.y
        &&& l.detail.y + l.detail.height <= p.y + p.height - 4
    }
}

/// Cuts the screen as `home_layout_from` describes; the detail view lies
/// inside a margin of four cells of the right column.
pub fn home_layout(area: Region) -> (r: HomeLayout)
    ensures
        r.rows@.len() == 5,
        fits(area, 0) ==> screen_geometry(area, r),
{
    let columns = home_columns();
    let outer = split(area, true, &columns, 0);
    proof {
        if fits(area, 0) {
            lemma_part_fits(area, true, 0, outer@[0], 0);
            lemma_part_fits(area, true, 0, outer@[1], 0);
            if outer@[1].width >= 8 && outer@[1].height >= 8 {
                lemma_part_fits(area, true, 0, outer@[1], 4);
            }
            assert(in_order(true, outer@[0], outer@[1]));
        }
    }
    let left = split(outer[0], false, &columns, 0);
    let rows = split(outer[1], false, &home_rows(), 0);
    let detail = split(outer[1], false, &whole(), 4);
    let r = home_layout_from(&outer, &left, &rows, &detail);
    proof {
        if fits(area, 0) {
            assert(placed(outer@[0], false, 0, left@[0]));
            assert(placed(outer@[0], false, 0, left@[1]));
            assert(in_order(false, left@[0], left@[1]));
            assert forall|i: int| 0 <= i < 5 implies {
                &&& #[trigger] r.rows@[i].x == r.pitch.x
                &&& r.rows@[i].width == r.pitch.width
                &&& r.pitch.y <= r.rows@[i].y
                &&& r.rows@[i].y + r.rows@[i].height <= r.pitch.y + r.pitch.height
            } by {
                assert(r.rows@[i] == rows@[i + 1]);
                assert(placed(outer@[1], false, 0, rows@[i + 1]));
            }
            assert forall|i: int, j: int| 0 <= i < j < 5 implies #[trigger] r.rows@[i].y + r.rows@[i].height
                <= #[trigger] r.rows@[j].y by {
                assert(r.rows@[i] == rows@[i + 1]);
                assert(r.rows@[j] == rows@[j + 1]);
                assert(in_order(false, rows@[i + 1], rows@[j + 1]));
            }
            if r.pitch.width >= 8 && r.pitch.height >= 8 {
                assert(placed(outer@[1], false, 4, detail@[0]));
            }
        }
    }
    r
}

/// The regions of a card: its text below, and its picture in a band above.
pub struct CardLayout {
    pub picture: Region,
    pub text: Region,
}

pub open spec fn card_bands_spec() -> Seq<Extent> {
    seq![Extent::Length(1), Extent::Percentage(30), Extent::Percentage(70)]
}

pub open spec fn picture_columns_spec(picture_width: u16) -> Seq<Extent> {
    seq![Extent::Fill(1), Extent::Length(picture_width), Extent::Fill(1)]
}

/// A card's bands, top to bottom: a one-cell line, three tenths for the
/// picture, the rest for the text.
pub fn card_bands() -> (r: Vec<Extent>)
    ensures
        r@ == card_bands_spec(),
{
    let r = vec![Extent::Length(1), Extent::Percentage(30), Extent::Percentage(70)];
    assert(r@ =~= card_bands_spec());
    r
}

/// The picture band's columns: the picture, `picture_width` cells wide,
/// between two equal margins.
pub fn picture_columns(picture_width: u16) -> (r: Vec<Extent>)
    ensures
        r@ == picture_columns_spec(picture_width),
{
    let r = vec![Extent::Fill(1), Extent::Length(picture_width), Extent::Fill(1)];
    assert(r@ =~= picture_columns_spec(picture_width));
    r
}

/// A card's regions from its cuts: `bands` of the card by `card_bands`, and
/// `columns` of the picture band by `picture_columns`. The text takes the last
/// band, the picture the middle column.
pub fn card_layout_from(bands: &Vec<Region>, columns: &Vec<Region>) -> (r: CardLayout)
    requires
        bands@.len() == 3,
        columns@.len() == 3,
    ensures
        r.text == bands@[2],
        r.picture == columns@[1],
{
    CardLayout { picture: columns[1], text: bands[2] }
}

/// Where a card's regions lie in `area`, whatever the solver picks: the text
/// across the card's full width, the picture within the card and above the text.
pub open spec fn card_geometry(area: Region, l: CardLayout) -> bool {
    &&& l.text.x == area.x
    &&& l.text.width == area.width
    &&& area.y <= l.picture.y
    &&& l.picture.y + l.picture.height <= l.text.y
    &&& l.text.y + l.text.height <= area.y + area.height
    &&& area.x <= l.picture.x
    &&& l.picture.x + l.picture.width <= area.x + area.width
}

/// Cuts a card's area as `card_layout_from` describes.
pub fn card_layout(area: Region, picture_width: u16) -> (r: CardLayout)
    ensures
        fits(area, 0) ==> card_geometry(area, r),
{
    let bands = split(area, false, &card_bands(), 0);
    proof {
        if fits(area, 0) {
            assert(placed(area, false, 0, bands@[1]));
            assert(placed(area, false, 0, bands@[2]));
            assert(in_order(false, bands@[1], bands@[2]));
            lemma_part_fits(area, false, 0, bands@[1], 0);
        }
    }
    let columns = split(bands[1], true, &picture_columns(picture_width), 0);
    proof {
        if fits(area, 0) {
            assert(placed(bands@[1], true, 0, columns@[1]));
        }
    }
    card_layout_from(&bands, &columns)
}

/// The cell size in pixels of the console font at a screen's DPI: the sizes of
/// the usual scalings (96, 120 and 144 DPI), and a large one for any other.
pub fn font_size_for_dpi(dpi: u32) -> (r: (u16, u16))
    ensures
        r == (if dpi == 96 {
            (9u16, 20u16)
        } else if dpi == 120 {
            (12u16, 25u16)
        } else if dpi == 144 {
            (14u16, 32u16)
        } else {
            (17u16, 38u16)
        }),
{
    match dpi {
        96 => (9, 20),
        120 => (12, 25),
        144 => (14, 32),
        _ => (17, 38),
    }
}

} // verus!
