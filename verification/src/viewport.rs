//! The window through which the document is seen.

use crate::buffer::DocumentBuffer;
use vstd::prelude::*;

verus! {

/// The lines of the terminal that the status bar and the message bar take.
pub const BAR_ROWS: u16 = 2;

/// The first visible position after scrolling: the old one, moved just far
/// enough that `cursor` lies among the `extent` visible positions.
pub open spec fn scroll_offset(offset: int, cursor: int, extent: int) -> int {
    let low = if offset <= cursor {
        offset
    } else {
        cursor
    };
    if low >= cursor - extent + 1 {
        low
    } else {
        cursor - extent + 1
    }
}

/// The value of a viewport: the first visible line and column, and the
/// size of the drawing area.
pub struct ViewportModel {
    pub rowoff: int,
    pub coloff: int,
    pub screenrows: int,
    pub screencols: int,
}

impl ViewportModel {
    /// The drawing area has at least one cell.
    pub open spec fn wf(self) -> bool {
        &&& 0 <= self.rowoff
        &&& 0 <= self.coloff
        &&& 1 <= self.screenrows <= u16::MAX - BAR_ROWS
        &&& 1 <= self.screencols <= u16::MAX
    }

    /// Whether line `cy` and column `rx` lie in the window.
    pub open spec fn shows(self, cy: int, rx: int) -> bool {
        &&& self.rowoff <= cy < self.rowoff + self.screenrows
        &&& self.coloff <= rx < self.coloff + self.screencols
    }

    /// The window moved so that it shows line `cy` and column `rx`.
    pub open spec fn scroll(self, cy: int, rx: int) -> ViewportModel {
        ViewportModel {
            rowoff: scroll_offset(self.rowoff, cy, self.screenrows),
            coloff: scroll_offset(self.coloff, rx, self.screencols),
            ..self
        }
    }

    /// The window with another size, where the terminal has room for it.
    pub open spec fn resize(self, cols: int, rows: int) -> ViewportModel {
        if cols >= 1 && rows > BAR_ROWS {
            ViewportModel { screenrows: rows - BAR_ROWS, screencols: cols, ..self }
        } else {
            self
        }
    }
}

/// The first visible position after scrolling. Where anything is visible
/// at all, the cursor then is.
pub fn scroll_to(offset: usize, cursor: usize, extent: u16) -> (scrolled: usize)
    requires
        cursor - extent + 1 <= usize::MAX,
    ensures
        scrolled == scroll_offset(offset as int, cursor as int, extent as int),
        extent >= 1 ==> scrolled <= cursor < scrolled + extent,
{
    let low = if offset <= cursor {
        offset
    } else {
        cursor
    };
    if extent == 0 {
        cursor + 1
    } else {
        let span: usize = (extent - 1) as usize;
        if cursor >= span && low < cursor - span {
            cursor - span
        } else {
            low
        }
    }
}

/// The viewport.
pub struct Viewport {
    rowoff: usize,
    coloff: usize,
    screenrows: u16,
    screencols: u16,
}

impl View for Viewport {
    type V = ViewportModel;

    closed spec fn view(&self) -> ViewportModel {
        ViewportModel {
            rowoff: self.rowoff as int,
            coloff: self.coloff as int,
            screenrows: self.screenrows as int,
            screencols: self.screencols as int,
        }
    }
}

impl Viewport {
    /// The window is well formed.
    pub open spec fn wf(&self) -> bool {
        self@.wf()
    }

    /// The viewport of a terminal of `cols` columns and `rows` lines, at the
    /// top left of the document. The two bars take their lines; a terminal
    /// that leaves no line for the text, or has no column, gets no viewport.
    pub fn new(cols: u16, rows: u16) -> (viewport: Option<Viewport>)
        ensures
            viewport.is_some() <==> cols >= 1 && rows > BAR_ROWS,
            viewport.is_some() ==> viewport.unwrap().wf() && viewport.unwrap()@ == (ViewportModel {
                rowoff: 0,
                coloff: 0,
                screenrows: rows - BAR_ROWS,
                screencols: cols as int,
            }),
    {
        if cols >= 1 && rows > BAR_ROWS {
            Some(Viewport { rowoff: 0, coloff: 0, screenrows: rows - BAR_ROWS, screencols: cols })
        } else {
            None
        }
    }

    /// Takes over a new size of the terminal and returns whether it did; a
    /// terminal without room for the text leaves the viewport as it was.
    pub fn resize(&mut self, cols: u16, rows: u16) -> (resized: bool)
        requires
            old(self).wf(),
        ensures
            final(self).wf(),
            resized == (cols >= 1 && rows > BAR_ROWS),
            final(self)@ == old(self)@.resize(cols as int, rows as int),
    {
        if cols >= 1 && rows > BAR_ROWS {
            self.screenrows = rows - BAR_ROWS;
            self.screencols = cols;
            true
        } else {
            false
        }
    }

    /// The first visible line.
    pub fn rowoff(&self) -> (rowoff: usize)
        ensures
            rowoff == self@.rowoff,
    {
        self.rowoff
    }

    /// The first visible column.
    pub fn coloff(&self) -> (coloff: usize)
        ensures
            coloff == self@.coloff,
    {
        self.coloff
    }

    /// The number of lines of the drawing area.
    pub fn screenrows(&self) -> (screenrows: u16)
        ensures
            screenrows == self@.screenrows,
    {
        self.screenrows
    }

    /// The number of columns of the drawing area.
    pub fn screencols(&self) -> (screencols: u16)
        ensures
            screencols == self@.screencols,
    {
        self.screencols
    }

    /// Moves the window so that it shows the cursor of `buffer`.
    pub fn scroll(&mut self, buffer: &DocumentBuffer)
        requires
            old(self).wf(),
            buffer.wf(),
        ensures
            final(self).wf(),
            final(self)@ == old(self)@.scroll(buffer@.cy, buffer@.rx() as int),
            final(self)@.shows(buffer@.cy, buffer@.rx() as int),
    {
        self.rowoff = scroll_to(self.rowoff, buffer.cy(), self.screenrows);
        self.coloff = scroll_to(self.coloff, buffer.rx(), self.screencols);
    }
}

/// After scrolling the cursor lies in the window, wherever the window was
/// and wherever the cursor is.
pub proof fn lemma_scroll_shows_cursor(v: ViewportModel, cy: int, rx: int)
    requires
        v.wf(),
        0 <= cy,
        0 <= rx,
    ensures
        v.scroll(cy, rx).wf(),
        v.scroll(cy, rx).shows(cy, rx),
{
}

/// Scrolling moves the window no further than needed: a window that shows
/// the cursor stays where it is.
pub proof fn lemma_scroll_keeps_visible(v: ViewportModel, cy: int, rx: int)
    requires
        v.wf(),
        v.shows(cy, rx),
    ensures
        v.scroll(cy, rx) == v,
{
}

} // verus!
