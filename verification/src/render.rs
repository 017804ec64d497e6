//! The renderer: computes the contents of one frame as plain values. A
//! terminal surface then writes them; nothing here mutates the application
//! state, and the frame is a pure projection of snapshot and selection.

use vstd::prelude::*;
use crate::app::App;
use crate::layout::{layout, layout_spec, Rect};

verus! {

/// A one-piece band of centered text: the header or the footer.
pub struct BandContent {
    pub area: Rect,
    pub text: String,
}

/// The list pane: a titled panel with one row per snapshot entry, showing
/// the key, and at most one row highlighted.
pub struct ListContent {
    pub area: Rect,
    pub title: String,
    pub rows: Vec<String>,
    pub highlighted: Option<usize>,
    pub highlight_symbol: String,
}

/// The detail pane: a titled panel showing the selected entry's value, or a
/// fixed placeholder when nothing is selected.
pub struct DetailContent {
    pub area: Rect,
    pub title: String,
    pub text: String,
}

/// Everything one frame shows.
pub struct FrameContent {
    pub header: BandContent,
    pub list: ListContent,
    pub detail: DetailContent,
    pub footer: BandContent,
}

impl App {
    /// The header band: the fixed title, centered.
    pub fn render_header(area: Rect) -> (b: BandContent)
        ensures
            b.area == area,
            b.text@ == "Ratatui Environment Reader"@,
    {
        BandContent { area, text: "Ratatui Environment Reader".to_owned() }
    }

    /// The footer band: the fixed help line, centered.
    pub fn render_footer(area: Rect) -> (b: BandContent)
        ensures
            b.area == area,
            b.text@ == "Use ↓↑ or 'jk', 'gG' to move, and <Esc>, Ctrl-c or 'q' to quit"@,
    {
        BandContent {
            area,
            text: "Use ↓↑ or 'jk', 'gG' to move, and <Esc>, Ctrl-c or 'q' to quit".to_owned(),
        }
    }

    /// The list pane: one row per entry, carrying the key, and the selected
    /// row, if any, marked highlighted.
    pub fn render_list(&self, area: Rect) -> (l: ListContent)
        ensures
            l.area == area,
            l.title@ == "Environment List"@,
            l.highlight_symbol@ == ">"@,
            l.rows@.len() == self.env_list.items@.len(),
            forall|i: int|
                0 <= i < l.rows@.len() ==> l.rows@[i]@ == self.env_list.items@[i].key@,
            l.highlighted == self.env_list.state.selected,
    {
        let mut rows: Vec<String> = Vec::new();
        let n = self.env_list.items.len();
        for i in 0..n
            invariant
                n == self.env_list.items@.len(),
                rows@.len() == i,
                forall|j: int| 0 <= j < i ==> rows@[j]@ == self.env_list.items@[j].key@,
        {
            rows.push(self.env_list.items[i].key.clone());
        }
        ListContent {
            area,
            title: "Environment List".to_owned(),
            rows,
            highlighted: self.env_list.state.selected,
            highlight_symbol: ">".to_owned(),
        }
    }

    /// The detail pane: the selected entry's value, or the placeholder text
    /// when nothing is selected.
    pub fn render_selected_item(&self, area: Rect) -> (d: DetailContent)
        requires
            self.wf(),
        ensures
            d.area == area,
            d.title@ == "Value"@,
            (match self.env_list.state.selected {
                Some(i) => d.text@ == self.env_list.items@[i as int].value@,
                None => d.text@ == "Nothing selected"@,
            }),
    {
        let text = match self.env_list.state.selected {
            Some(i) => self.env_list.items[i].value.clone(),
            None => "Nothing selected".to_owned(),
        };
        DetailContent { area, title: "Value".to_owned(), text }
    }

    /// Computes one whole frame: the four regions of the layout, each filled
    /// from the snapshot and the selection alone.
    pub fn render(&self, area: Rect) -> (f: FrameContent)
        requires
            self.wf(),
            area.wf(),
        ensures
            f.header.area == layout_spec(area).header,
            f.list.area == layout_spec(area).list,
            f.detail.area == layout_spec(area).detail,
            f.footer.area == layout_spec(area).footer,
            f.header.text@ == "Ratatui Environment Reader"@,
            f.footer.text@ == "Use ↓↑ or 'jk', 'gG' to move, and <Esc>, Ctrl-c or 'q' to quit"@,
            f.list.title@ == "Environment List"@,
            f.list.highlight_symbol@ == ">"@,
            f.list.rows@.len() == self.env_list.items@.len(),
            forall|i: int|
                0 <= i < f.list.rows@.len() ==> f.list.rows@[i]@ == self.env_list.items@[i].key@,
            f.list.highlighted == self.env_list.state.selected,
            f.detail.title@ == "Value"@,
            (match self.env_list.state.selected {
                Some(i) => f.detail.text@ == self.env_list.items@[i as int].value@,
                None => f.detail.text@ == "Nothing selected"@,
            }),
    {
        let regions = layout(area);
        FrameContent {
            header: App::render_header(regions.header),
            list: self.render_list(regions.list),
            detail: self.render_selected_item(regions.detail),
            footer: App::render_footer(regions.footer),
        }
    }
}

} // verus!
