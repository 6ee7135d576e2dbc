//! Rows of the card browser: a row as it was fetched, and the same row as
//! it is displayed.

use vstd::prelude::*;

verus! {

/// The colour of a row as it was fetched.
#[derive(Clone, Copy, Debug, PartialEq, Eq, Structural)]
pub enum RowColor {
    Default,
    Marked,
    Suspended,
    FlagRed,
    FlagOrange,
    FlagGreen,
    FlagBlue,
}

/// The colour that a row is displayed in.
#[derive(Clone, Copy, Debug, PartialEq, Eq, Structural)]
pub enum DisplayColor {
    Default,
    Marked,
    Suspended,
    FlagRed,
    FlagOrange,
    FlagGreen,
    FlagBlue,
}

/// The colour that a fetched colour is displayed in.
pub open spec fn display_color_of(color: RowColor) -> DisplayColor {
    match color {
        RowColor::Default => DisplayColor::Default,
        RowColor::Marked => DisplayColor::Marked,
        RowColor::Suspended => DisplayColor::Suspended,
        RowColor::FlagRed => DisplayColor::FlagRed,
        RowColor::FlagOrange => DisplayColor::FlagOrange,
        RowColor::FlagGreen => DisplayColor::FlagGreen,
        RowColor::FlagBlue => DisplayColor::FlagBlue,
    }
}

impl From<RowColor> for DisplayColor {
    fn from(color: RowColor) -> (r: DisplayColor) {
        match color {
            RowColor::Default => DisplayColor::Default,
            RowColor::Marked => DisplayColor::Marked,
            RowColor::Suspended => DisplayColor::Suspended,
            RowColor::FlagRed => DisplayColor::FlagRed,
            RowColor::FlagOrange => DisplayColor::FlagOrange,
            RowColor::FlagGreen => DisplayColor::FlagGreen,
            RowColor::FlagBlue => DisplayColor::FlagBlue,
        }
    }
}

impl vstd::std_specs::convert::FromSpecImpl<RowColor> for DisplayColor {
    open spec fn obeys_from_spec() -> bool {
        true
    }

    open spec fn from_spec(color: RowColor) -> DisplayColor {
        display_color_of(color)
    }
}

/// Two different fetched colours are displayed in two different colours.
pub proof fn lemma_display_colors_are_distinct(a: RowColor, b: RowColor)
    ensures
        display_color_of(a) == display_color_of(b) <==> a == b,
{
}

/// Every display colour is the colour of a fetched one: the one returned.
pub proof fn lemma_every_display_color_is_used(color: DisplayColor) -> (fetched: RowColor)
    ensures
        display_color_of(fetched) == color,
{
    match color {
        DisplayColor::Default => RowColor::Default,
        DisplayColor::Marked => RowColor::Marked,
        DisplayColor::Suspended => RowColor::Suspended,
        DisplayColor::FlagRed => RowColor::FlagRed,
        DisplayColor::FlagOrange => RowColor::FlagOrange,
        DisplayColor::FlagGreen => RowColor::FlagGreen,
        DisplayColor::FlagBlue => RowColor::FlagBlue,
    }
}

/// One cell of a fetched row.
#[derive(Debug, PartialEq, Eq)]
pub struct Cell {
    pub text: String,
    pub is_rtl: bool,
}

/// The font of a fetched row.
#[derive(Debug, PartialEq, Eq)]
pub struct Font {
    pub name: String,
    pub size: u32,
}

/// A row as it was fetched.
#[derive(Debug, PartialEq, Eq)]
pub struct Row {
    pub cells: Vec<Cell>,
    pub color: RowColor,
    pub font: Font,
}

/// One cell of a displayed row.
#[derive(Debug, PartialEq, Eq)]
pub struct DisplayCell {
    pub text: String,
    pub is_rtl: bool,
}

/// The font of a displayed row.
#[derive(Debug, PartialEq, Eq)]
pub struct DisplayFont {
    pub name: String,
    pub size: u32,
}

/// A row as it is displayed.
#[derive(Debug, PartialEq, Eq)]
pub struct DisplayRow {
    pub cells: Vec<DisplayCell>,
    pub color: DisplayColor,
    pub font: DisplayFont,
}

/// What a displayed row shows: for each cell its text and whether it reads
/// from right to left, then the colour, and the font's name and size.
pub struct DisplayRowView {
    pub cells: Seq<(Seq<char>, bool)>,
    pub color: DisplayColor,
    pub font_name: Seq<char>,
    pub font_size: u32,
}

impl View for DisplayRow {
    type V = DisplayRowView;

    open spec fn view(&self) -> DisplayRowView {
        DisplayRowView {
            cells: Seq::new(
                self.cells@.len(),
                |i: int| (self.cells@[i].text@, self.cells@[i].is_rtl),
            ),
            color: self.color,
            font_name: self.font.name@,
            font_size: self.font.size,
        }
    }
}

/// What the row is displayed as: the same cells in the same order, the
/// colour that its colour is displayed in, and the same font.
pub open spec fn formatted(row: Row) -> DisplayRowView {
    DisplayRowView {
        cells: Seq::new(row.cells@.len(), |i: int| (row.cells@[i].text@, row.cells@[i].is_rtl)),
        color: display_color_of(row.color),
        font_name: row.font.name@,
        font_size: row.font.size,
    }
}

/// A fetched cell as a displayed one.
pub fn format_cell(cell: Cell) -> (r: DisplayCell)
    ensures
        r.text@ == cell.text@,
        r.is_rtl == cell.is_rtl,
{
    DisplayCell { text: cell.text, is_rtl: cell.is_rtl }
}

/// A fetched row as a displayed one.
pub fn format_row(row: Row) -> (r: DisplayRow)
    ensures
        r@ == formatted(row),
{
    let Row { cells: fetched, color, font } = row;
    let mut cells: Vec<DisplayCell> = Vec::new();
    for cell in it: fetched.into_iter()
        invariant
            it.seq() == row.cells@,
            cells@.len() == it.index(),
            forall|j: int|
                0 <= j < cells@.len() ==> (#[trigger] cells@[j]).text@ == row.cells@[j].text@
                    && cells@[j].is_rtl == row.cells@[j].is_rtl,
    {
        cells.push(format_cell(cell));
    }
    let r = DisplayRow {
        cells,
        color: DisplayColor::from(color),
        font: DisplayFont { name: font.name, size: font.size },
    };
    assert(r@.cells =~= formatted(row).cells);
    r
}

} // verus!
