//! The state that a frame is drawn from: the document, the window on it,
//! the status message, and the two settings of the editor.

use crate::buffer::{BufferModel, DocumentBuffer};
use crate::status::{is_live, StatusMessage};
use crate::viewport::{Viewport, ViewportModel};
use vstd::prelude::*;

verus! {

/// How often the quit key has to be pressed again to leave unsaved changes
/// behind, unless set otherwise.
pub const QUIT_TIMES: u32 = 3;

/// How long a status message is shown, unless set otherwise.
pub const MESSAGE_LIFETIME: u64 = 5;

/// The value of a `Config`.
pub struct ConfigModel {
    pub buffer: BufferModel,
    pub name: Option<Seq<char>>,
    pub viewport: ViewportModel,
    pub message: Seq<char>,
    pub message_time: int,
    pub quit_times: u32,
    pub message_lifetime: u64,
}

impl ConfigModel {
    /// The cursor is in range, the window has a size, and the window shows
    /// the cursor.
    pub open spec fn wf(self) -> bool {
        &&& self.buffer.wf()
        &&& self.viewport.wf()
        &&& self.viewport.shows(self.buffer.cy, self.buffer.rx() as int)
    }

    /// What the message bar shows at `now`.
    pub open spec fn shown_message(self, now: int) -> Seq<char> {
        if is_live(self.message_time, now, self.message_lifetime as int) {
            self.message
        } else {
            Seq::empty()
        }
    }
}

/// The document, the window, the message and the settings. Time is counted
/// in whatever unit the caller counts it in; `message_lifetime` is in that
/// unit.
pub struct Config {
    pub buffer: DocumentBuffer,
    pub viewport: Viewport,
    pub status: StatusMessage,
    pub quit_times: u32,
    pub message_lifetime: u64,
}

impl View for Config {
    type V = ConfigModel;

    open spec fn view(&self) -> ConfigModel {
        ConfigModel {
            buffer: self.buffer@,
            name: self.buffer.name(),
            viewport: self.viewport@,
            message: self.status.text_view(),
            message_time: self.status.set_at(),
            quit_times: self.quit_times,
            message_lifetime: self.message_lifetime,
        }
    }
}

impl Config {
    /// The parts are well formed and the window shows the cursor.
    pub open spec fn wf(&self) -> bool {
        self@.wf() && self.buffer.wf()
    }

    /// The state around a document, with the window moved to its cursor, no
    /// message, and the usual settings.
    pub fn new(buffer: DocumentBuffer, viewport: Viewport) -> (config: Config)
        requires
            buffer.wf(),
            viewport.wf(),
        ensures
            config.wf(),
            config@ == (ConfigModel {
                buffer: buffer@,
                name: buffer.name(),
                viewport: viewport@.scroll(buffer@.cy, buffer@.rx() as int),
                message: Seq::empty(),
                message_time: 0,
                quit_times: QUIT_TIMES,
                message_lifetime: MESSAGE_LIFETIME,
            }),
    {
        let mut viewport = viewport;
        viewport.scroll(&buffer);
        Config {
            buffer,
            viewport,
            status: StatusMessage::new(),
            quit_times: QUIT_TIMES,
            message_lifetime: MESSAGE_LIFETIME,
        }
    }
}

} // verus!
