//! Styling dashboard text for the terminal, through `colored` and `comfy-table`.
//!
//! Both crates decide at run time whether to emit colour codes (from the
//! environment, such as `NO_COLOR`, and from whether the output is a
//! terminal), so what is stated here of styled text names every outcome.
use vstd::prelude::*;
use colored::Colorize;
use crate::dashboard::{row_view, Panel, PanelRow, ValueStyle};

verus! {

/// `colored::ColoredString`: a text with a style, opaque here.
#[verifier::external_type_specification]
#[verifier::external_body]
pub struct ExColoredString(colored::ColoredString);

/// `comfy_table::Table`: a table under construction, opaque here.
#[verifier::external_type_specification]
#[verifier::external_body]
pub struct ExTable(comfy_table::Table);

/// `comfy_table::Cell`: a table cell, opaque here.
#[verifier::external_type_specification]
#[verifier::external_body]
pub struct ExCell(comfy_table::Cell);

/// The text that a coloured string styles (its `input` field).
pub uninterp spec fn colored_input(c: colored::ColoredString) -> Seq<char>;

/// The parameters of the escape sequence that a coloured string opens with
/// when colours are on (such as `1;37` for bold white); empty when it
/// carries no style.
pub uninterp spec fn colored_codes(c: colored::ColoredString) -> Seq<char>;

/// `colored::Colorize::bright_black` on a `&str`: the text, in bright black.
#[verifier::external_body]
pub(crate) fn paint_bright_black(text: &str) -> (res: colored::ColoredString)
    ensures
        colored_input(res) == text@,
        colored_codes(res) == "90"@,
{
    text.bright_black()
}

/// `colored::Colorize::yellow` on a `&str`: the text, in yellow.
#[verifier::external_body]
pub(crate) fn paint_yellow(text: &str) -> (res: colored::ColoredString)
    ensures
        colored_input(res) == text@,
        colored_codes(res) == "33"@,
{
    text.yellow()
}

/// `colored::Colorize::bold` on a `&str`: the text, in bold.
#[verifier::external_body]
pub(crate) fn paint_bold(text: &str) -> (res: colored::ColoredString)
    ensures
        colored_input(res) == text@,
        colored_codes(res) == "1"@,
{
    text.bold()
}

/// `colored::Colorize::white` on a `ColoredString`: the same text and style,
/// with a white foreground (bold white when it was bold alone).
#[verifier::external_body]
pub(crate) fn paint_white(c: colored::ColoredString) -> (res: colored::ColoredString)
    ensures
        colored_input(res) == colored_input(c),
        colored_codes(c) == "1"@ ==> colored_codes(res) == "1;37"@,
{
    c.white()
}

/// `colored::Colorize::cyan` on a `ColoredString`: the same text and style,
/// with a cyan foreground (bold cyan when it was bold alone).
#[verifier::external_body]
pub(crate) fn paint_cyan(c: colored::ColoredString) -> (res: colored::ColoredString)
    ensures
        colored_input(res) == colored_input(c),
        colored_codes(c) == "1"@ ==> colored_codes(res) == "1;36"@,
{
    c.cyan()
}

/// Text `out` is `text` as `colored` prints it with the escape parameters
/// `codes`: either plain (colours off) or wrapped in the opening sequence
/// and the reset sequence.
pub open spec fn spec_styled(out: Seq<char>, text: Seq<char>, codes: Seq<char>) -> bool {
    out == text || out == "\x1b["@ + codes + "m"@ + text + "\x1b[0m"@
}

/// The `Display` text of a `colored::ColoredString`. Whether colour codes
/// are emitted depends on the environment and on whether the output is a
/// terminal; for text free of escape characters it is the text itself or
/// the text wrapped in the style's opening sequence and the reset sequence.
#[verifier::external_body]
pub(crate) fn colored_text(c: &colored::ColoredString) -> (res: String)
    ensures
        !colored_input(*c).contains('\x1b') ==> spec_styled(res@, colored_input(*c), colored_codes(*c)),
{
    c.to_string()
}

/// A cell seen as plain values: its text, whether it is bold, and its
/// foreground colour, if it has one, labelled 1 for `comfy_table::Color::Red`,
/// 2 for `Green` and 3 for `Yellow` (labels only, not terminal codes).
pub type CellView = (Seq<char>, bool, Option<u8>);

/// The header cells of a table.
pub uninterp spec fn table_header(t: comfy_table::Table) -> Option<Seq<(Seq<char>, bool, Option<u8>)>>;

/// The rows of a table.
pub uninterp spec fn table_rows(t: comfy_table::Table) -> Seq<Seq<(Seq<char>, bool, Option<u8>)>>;

/// The border style of a table: for each of comfy-table's nineteen table
/// components, in the order of `TableComponent`, the character drawn for it
/// (a space where the component is not drawn).
pub uninterp spec fn table_style(t: comfy_table::Table) -> Seq<char>;

/// Whether a table is laid out as a new table is, apart from its header,
/// rows and border style: no column constraints, width, alignment or
/// content arrangement set, and every cell plain (see `cell_plain`).
pub uninterp spec fn table_default_layout(t: comfy_table::Table) -> bool;

/// The `Display` text of a table in the default layout with the given
/// header, rows and border style: without any escape sequences (`styled`
/// false), or with the cells' styling sequences (`styled` true), in which the
/// colour parameters are written (`colours` true) or left out (`colours`
/// false, as crossterm does when `NO_COLOR` is set and not empty).
pub uninterp spec fn table_display(
    header: Option<Seq<(Seq<char>, bool, Option<u8>)>>,
    rows: Seq<Seq<(Seq<char>, bool, Option<u8>)>>,
    style: Seq<char>,
    styled: bool,
    colours: bool,
) -> Seq<char>;

/// The text of a cell (its lines joined by newlines, as `Cell::content` gives it).
pub uninterp spec fn cell_content(c: comfy_table::Cell) -> Seq<char>;

/// Whether a cell carries the bold attribute.
pub uninterp spec fn cell_bold(c: comfy_table::Cell) -> bool;

/// The foreground colour of a cell (as in `CellView`).
pub uninterp spec fn cell_foreground(c: comfy_table::Cell) -> Option<u8>;

/// Whether a cell has nothing set but its content, a foreground colour and
/// the bold attribute at most once.
pub uninterp spec fn cell_plain(c: comfy_table::Cell) -> bool;

pub open spec fn cells_view(cells: Seq<comfy_table::Cell>) -> Seq<CellView> {
    cells.map_values(|c: comfy_table::Cell| (cell_content(c), cell_bold(c), cell_foreground(c)))
}

pub open spec fn cells_plain(cells: Seq<comfy_table::Cell>) -> bool {
    forall|i: int| 0 <= i < cells.len() ==> cell_plain(#[trigger] cells[i])
}

/// The border style `UTF8_FULL_CONDENSED` of comfy-table's presets: UTF-8
/// borders, a double rule under the header, dotted column separators, no
/// rules between rows.
pub open spec fn spec_condensed_preset() -> Seq<char> {
    "││──╞═╪╡┆    ┬┴┌┐└┘"@
}

/// The modifier `UTF8_ROUND_CORNERS`: rounded corners, nothing else.
pub open spec fn spec_round_corners() -> Seq<char> {
    "               ╭╮╰╯"@
}

/// A border style after applying a modifier: each component whose
/// modifier character is not a space takes that character.
pub open spec fn spec_apply_modifier(style: Seq<char>, modifier: Seq<char>) -> Seq<char> {
    Seq::new(
        style.len(),
        |i: int|
            if i < modifier.len() && modifier[i] != ' ' {
                modifier[i]
            } else {
                style[i]
            },
    )
}

/// The border style of panels: the condensed UTF-8 preset with rounded corners.
pub open spec fn spec_panel_style() -> Seq<char> {
    "││──╞═╪╡┆    ┬┴╭╮╰╯"@
}

/// `comfy_table::Table::new`: a table without header or rows, in the
/// default layout, with the `ASCII_FULL` border style.
#[verifier::external_body]
fn table_new() -> (res: comfy_table::Table)
    ensures
        table_header(res) is None,
        table_rows(res) == Seq::<Seq<CellView>>::empty(),
        table_style(res) == "||--+==+|-+||++++++"@,
        table_default_layout(res),
{
    comfy_table::Table::new()
}

/// `comfy_table::Table::load_preset` with `UTF8_FULL_CONDENSED`: the border
/// style becomes the preset; header, rows and layout are kept.
#[verifier::external_body]
fn table_load_condensed_preset(t: &mut comfy_table::Table)
    ensures
        table_header(*final(t)) == table_header(*old(t)),
        table_rows(*final(t)) == table_rows(*old(t)),
        table_style(*final(t)) == spec_condensed_preset(),
        table_default_layout(*final(t)) == table_default_layout(*old(t)),
{
    t.load_preset(comfy_table::presets::UTF8_FULL_CONDENSED);
}

/// `comfy_table::Table::apply_modifier` with `UTF8_ROUND_CORNERS`: the four
/// corners become rounded; header, rows and layout are kept.
#[verifier::external_body]
fn table_round_corners(t: &mut comfy_table::Table)
    ensures
        table_header(*final(t)) == table_header(*old(t)),
        table_rows(*final(t)) == table_rows(*old(t)),
        table_style(*final(t)) == spec_apply_modifier(table_style(*old(t)), spec_round_corners()),
        table_default_layout(*final(t)) == table_default_layout(*old(t)),
{
    t.apply_modifier(comfy_table::modifiers::UTF8_ROUND_CORNERS);
}

/// `comfy_table::Table::set_header`: the header becomes the given cells.
#[verifier::external_body]
fn table_set_header(t: &mut comfy_table::Table, cells: Vec<comfy_table::Cell>)
    ensures
        table_header(*final(t)) == Some(cells_view(cells@)),
        table_rows(*final(t)) == table_rows(*old(t)),
        table_style(*final(t)) == table_style(*old(t)),
        table_default_layout(*old(t)) && cells_plain(cells@) ==> table_default_layout(*final(t)),
{
    t.set_header(cells);
}

/// `comfy_table::Table::add_row`: the cells become a new last row.
#[verifier::external_body]
fn table_add_row(t: &mut comfy_table::Table, cells: Vec<comfy_table::Cell>)
    ensures
        table_header(*final(t)) == table_header(*old(t)),
        table_rows(*final(t)) == table_rows(*old(t)).push(cells_view(cells@)),
        table_style(*final(t)) == table_style(*old(t)),
        table_default_layout(*old(t)) && cells_plain(cells@) ==> table_default_layout(*final(t)),
{
    t.add_row(cells);
}

/// The `Display` text of a `comfy_table::Table`. comfy-table styles cells
/// only when the output is a terminal (or styling is forced), and crossterm
/// then leaves colour parameters out when `NO_COLOR` is set; so for a table
/// in the default layout the text is one of its three displays.
#[verifier::external_body]
fn table_text(t: &comfy_table::Table) -> (res: String)
    ensures
        table_default_layout(*t) ==> {
            ||| res@ == table_display(table_header(*t), table_rows(*t), table_style(*t), false, false)
            ||| res@ == table_display(table_header(*t), table_rows(*t), table_style(*t), true, true)
            ||| res@ == table_display(table_header(*t), table_rows(*t), table_style(*t), true, false)
        },
{
    t.to_string()
}

/// `comfy_table::Cell::new`: a plain cell holding the text, without
/// attributes or colour.
#[verifier::external_body]
fn cell_new(text: &str) -> (res: comfy_table::Cell)
    ensures
        cell_content(res) == text@,
        !cell_bold(res),
        cell_foreground(res) is None,
        cell_plain(res),
{
    comfy_table::Cell::new(text)
}

/// `comfy_table::Cell::add_attribute` with the bold attribute.
#[verifier::external_body]
fn cell_add_bold(c: comfy_table::Cell) -> (res: comfy_table::Cell)
    ensures
        cell_content(res) == cell_content(c),
        cell_bold(res),
        cell_foreground(res) == cell_foreground(c),
        cell_plain(c) && !cell_bold(c) ==> cell_plain(res),
{
    c.add_attribute(comfy_table::Attribute::Bold)
}

/// The foreground colours that panels use.
#[derive(Debug, Clone, Copy, PartialEq, Eq, Structural)]
pub enum CellColor {
    Green,
    Red,
    Yellow,
}

/// The label of a colour (as in `CellView`).
pub open spec fn color_code(color: CellColor) -> u8 {
    match color {
        CellColor::Red => 1,
        CellColor::Green => 2,
        CellColor::Yellow => 3,
    }
}

/// `comfy_table::Cell::fg`: the cell with the given foreground colour.
#[verifier::external_body]
fn cell_set_fg(c: comfy_table::Cell, color: CellColor) -> (res: comfy_table::Cell)
    ensures
        cell_content(res) == cell_content(c),
        cell_bold(res) == cell_bold(c),
        cell_foreground(res) == Some(color_code(color)),
        cell_plain(c) ==> cell_plain(res),
{
    c.fg(match color {
        CellColor::Green => comfy_table::Color::Green,
        CellColor::Red => comfy_table::Color::Red,
        CellColor::Yellow => comfy_table::Color::Yellow,
    })
}

/// Whether the value of a row is shown in bold.
pub open spec fn spec_value_bold(style: ValueStyle) -> bool {
    style == ValueStyle::Good || style == ValueStyle::Bad
}

/// The foreground colour of a row's value: green for good news, red for
/// bad news, yellow for a hint.
pub open spec fn spec_value_fg(style: ValueStyle) -> Option<u8> {
    match style {
        ValueStyle::Plain => None,
        ValueStyle::Good => Some(color_code(CellColor::Green)),
        ValueStyle::Bad => Some(color_code(CellColor::Red)),
        ValueStyle::Warn => Some(color_code(CellColor::Yellow)),
    }
}

/// The cell of a row's value, styled as the row says.
fn value_cell(text: &str, style: ValueStyle) -> (res: comfy_table::Cell)
    ensures
        cell_content(res) == text@,
        cell_bold(res) == spec_value_bold(style),
        cell_foreground(res) == spec_value_fg(style),
        cell_plain(res),
{
    let c = cell_new(text);
    match style {
        ValueStyle::Plain => c,
        ValueStyle::Good => cell_add_bold(cell_set_fg(c, CellColor::Green)),
        ValueStyle::Bad => cell_add_bold(cell_set_fg(c, CellColor::Red)),
        ValueStyle::Warn => cell_set_fg(c, CellColor::Yellow),
    }
}

/// The cells of a panel's rows: the label in bold, then the value, bold
/// and green for good news, bold and red for bad news, yellow for a hint.
pub open spec fn spec_panel_cells(p: (Seq<char>, Seq<(Seq<char>, Seq<char>, ValueStyle)>)) -> Seq<Seq<CellView>> {
    p.1.map_values(
        |r: (Seq<char>, Seq<char>, ValueStyle)| seq![(r.0, true, None), (r.1, spec_value_bold(r.2), spec_value_fg(r.2))],
    )
}

/// The header of a panel's table: its title, in bold.
pub open spec fn spec_panel_header(p: (Seq<char>, Seq<(Seq<char>, Seq<char>, ValueStyle)>)) -> Option<Seq<CellView>> {
    Some(seq![(p.0, true, None)])
}

/// The printed text of a panel: without escape sequences, or styled with or
/// without colour parameters (see `table_display`).
pub open spec fn spec_render_panel(
    p: (Seq<char>, Seq<(Seq<char>, Seq<char>, ValueStyle)>),
    styled: bool,
    colours: bool,
) -> Seq<char> {
    table_display(spec_panel_header(p), spec_panel_cells(p), spec_panel_style(), styled, colours)
}

/// The table of a panel: condensed UTF-8 borders with rounded corners, the
/// bold title as header, one row per panel row holding its bold label and
/// its value, coloured as the row says.
pub fn panel_table(panel: &Panel) -> (res: comfy_table::Table)
    ensures
        table_header(res) == spec_panel_header(panel@),
        table_rows(res) == spec_panel_cells(panel@),
        table_style(res) == spec_panel_style(),
        table_default_layout(res),
{
    let mut t = table_new();
    table_load_condensed_preset(&mut t);
    table_round_corners(&mut t);
    proof {
        reveal_strlit("││──╞═╪╡┆    ┬┴┌┐└┘");
        reveal_strlit("               ╭╮╰╯");
        reveal_strlit("││──╞═╪╡┆    ┬┴╭╮╰╯");
        assert(spec_apply_modifier(spec_condensed_preset(), spec_round_corners()) =~= spec_panel_style());
    }
    let mut header: Vec<comfy_table::Cell> = Vec::new();
    header.push(cell_add_bold(cell_new(panel.title.as_str())));
    proof {
        assert(cells_view(header@) =~= seq![(panel@.0, true, None::<u8>)]);
    }
    table_set_header(&mut t, header);
    let mut i: usize = 0;
    while i < panel.rows.len()
        invariant
            i <= panel.rows@.len(),
            table_header(t) == spec_panel_header(panel@),
            table_rows(t) =~= spec_panel_cells(panel@).take(i as int),
            table_style(t) == spec_panel_style(),
            table_default_layout(t),
        decreases panel.rows@.len() - i,
    {
        let r: &PanelRow = &panel.rows[i];
        let mut cells: Vec<comfy_table::Cell> = Vec::new();
        cells.push(cell_add_bold(cell_new(r.label.as_str())));
        cells.push(value_cell(r.value.as_str(), r.style));
        proof {
            assert(cells_view(cells@) =~= seq![
                (r.label@, true, None::<u8>),
                (r.value@, spec_value_bold(r.style), spec_value_fg(r.style)),
            ]);
            assert(panel@.1[i as int] == row_view(*r));
            assert(spec_panel_cells(panel@).take(i + 1) =~= spec_panel_cells(panel@).take(i as int).push(
                seq![(r.label@, true, None::<u8>), (r.value@, spec_value_bold(r.style), spec_value_fg(r.style))],
            ));
        }
        table_add_row(&mut t, cells);
        i = i + 1;
    }
    proof {
        assert(spec_panel_cells(panel@).take(i as int) =~= spec_panel_cells(panel@));
    }
    t
}

/// The panel as a bordered table, ready to print: the display of the table
/// that `panel_table` builds, plain when the output is not a terminal, and
/// otherwise styled, with its colours unless `NO_COLOR` is set.
pub fn render_panel(panel: &Panel) -> (res: String)
    ensures
        res@ == spec_render_panel(panel@, false, false) || res@ == spec_render_panel(panel@, true, true)
            || res@ == spec_render_panel(panel@, true, false),
{
    let t = panel_table(panel);
    table_text(&t)
}

} // verus!
