//! What the renderers hand back: a description of the table and of the search
//! field in plain values, ready to be written to a terminal.

use crate::state::Area;
use vstd::prelude::*;

verus! {

/// The style of a piece of output, by its role in the host's theme.
#[derive(Clone, Copy, Debug, PartialEq, Eq, Structural)]
pub enum StyleRole {
    /// No style of its own.
    Plain,
    Text,
    Selected,
    TableHeader,
    Border,
    HighlightedBorder,
    WidgetTitle,
    InvalidRegex,
}

/// Which borders a block draws.
#[derive(Clone, Copy, Debug, PartialEq, Eq, Structural)]
pub enum BorderKind {
    Full,
    Sides,
    Hidden,
}

/// A piece of text with its style, as a mathematical value.
pub struct TextModel {
    pub text: Seq<char>,
    pub style: StyleRole,
}

/// A piece of text with its style.
#[derive(Debug)]
pub struct StyledText {
    pub text: String,
    pub style: StyleRole,
}

impl View for StyledText {
    type V = TextModel;

    open spec fn view(&self) -> TextModel {
        TextModel { text: self.text@, style: self.style }
    }
}

/// The views of a list of styled texts.
pub open spec fn text_models(texts: Seq<StyledText>) -> Seq<TextModel> {
    texts.map_values(|t: StyledText| t@)
}

/// The views of a list of strings.
pub open spec fn string_views(strings: Seq<String>) -> Seq<Seq<char>> {
    strings.map_values(|s: String| s@)
}

/// The frame around a widget, as a mathematical value.
pub struct BlockModel {
    pub title: Seq<char>,
    pub title_style: StyleRole,
    pub borders: BorderKind,
    pub border_style: StyleRole,
}

/// The frame around a widget.
#[derive(Debug)]
pub struct BlockPlan {
    pub title: String,
    pub title_style: StyleRole,
    pub borders: BorderKind,
    pub border_style: StyleRole,
}

impl View for BlockPlan {
    type V = BlockModel;

    open spec fn view(&self) -> BlockModel {
        BlockModel {
            title: self.title@,
            title_style: self.title_style,
            borders: self.borders,
            border_style: self.border_style,
        }
    }
}

/// One table row, as a mathematical value.
pub struct RowModel {
    pub cells: Seq<Seq<char>>,
    pub style: StyleRole,
}

/// One table row: its cells, left to right, and the style of the whole row.
#[derive(Debug)]
pub struct StyledRow {
    pub cells: Vec<String>,
    pub style: StyleRole,
}

impl View for StyledRow {
    type V = RowModel;

    open spec fn view(&self) -> RowModel {
        RowModel { cells: string_views(self.cells@), style: self.style }
    }
}

/// The views of a list of rows.
pub open spec fn row_models(rows: Seq<StyledRow>) -> Seq<RowModel> {
    rows.map_values(|r: StyledRow| r@)
}

/// The table, as a mathematical value.
pub struct TableModel {
    pub area: Area,
    pub headers: Seq<Seq<char>>,
    pub rows: Seq<RowModel>,
    pub widths: Seq<nat>,
    pub block: BlockModel,
}

/// The table to draw.
#[derive(Debug)]
pub struct TablePlan {
    /// The rectangle to draw the table into.
    pub area: Area,
    /// The header labels of all columns.
    pub headers: Vec<String>,
    /// The rows from the top of the window to the last row.
    pub rows: Vec<StyledRow>,
    /// The widths of the columns that fit, left to right.
    pub widths: Vec<u16>,
    pub block: BlockPlan,
}

impl View for TablePlan {
    type V = TableModel;

    open spec fn view(&self) -> TableModel {
        TableModel {
            area: self.area,
            headers: string_views(self.headers@),
            rows: row_models(self.rows@),
            widths: self.widths@.map_values(|w: u16| w as nat),
            block: self.block@,
        }
    }
}

/// The search field, as a mathematical value.
pub struct SearchModel {
    pub area: Area,
    pub prompt: TextModel,
    pub query: Seq<TextModel>,
    pub options: Seq<TextModel>,
    pub block: BlockModel,
}

/// The search field to draw. Its text is the prompt, the query and the
/// options, in this order.
#[derive(Debug)]
pub struct SearchPlan {
    /// The rectangle to draw the field into.
    pub area: Area,
    pub prompt: StyledText,
    /// The visible graphemes of the query, and the caret's cell where the
    /// caret stands behind the last of them.
    pub query: Vec<StyledText>,
    /// The line break and the three toggles below the query.
    pub options: Vec<StyledText>,
    pub block: BlockPlan,
}

impl View for SearchPlan {
    type V = SearchModel;

    open spec fn view(&self) -> SearchModel {
        SearchModel {
            area: self.area,
            prompt: self.prompt@,
            query: text_models(self.query@),
            options: text_models(self.options@),
            block: self.block@,
        }
    }
}

} // verus!
