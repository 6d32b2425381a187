use vstd::prelude::*;

use crate::buffer::{Buffer, BufferView};
use crate::window::{Window, WindowView};

verus! {

/// What an environment is, as plain mathematical values.
pub struct EnvironmentView {
    /// The text buffers, in the order they are kept.
    pub buffers: Seq<BufferView>,
    /// The windows, in the order they are kept.
    pub windows: Seq<WindowView>,
    /// The buffer in which a macro is written.
    pub macro_editor: BufferView,
    /// Width of the drawing area, in pixels.
    pub width: nat,
    /// Height of the drawing area, in pixels.
    pub height: nat,
}

/// The views of a sequence of buffers, in the same order.
pub open spec fn buffer_views(buffers: Seq<Buffer>) -> Seq<BufferView> {
    buffers.map_values(|b: Buffer| b@)
}

/// The views of a sequence of windows, in the same order.
pub open spec fn window_views(windows: Seq<Window>) -> Seq<WindowView> {
    windows.map_values(|w: Window| w@)
}

/// The environment that an editing session starts from: one main buffer, one
/// window on it, an almost empty macro buffer, and a drawing area that has
/// not been given a size yet.
pub open spec fn initial_environment() -> EnvironmentView {
    EnvironmentView {
        buffers: seq![
            BufferView {
                name: "Main Buffer"@,
                content: "This is the editor"@,
                markers: Seq::empty(),
            },
        ],
        windows: seq![
            WindowView { buffer_index: 0, marker_index: 0, twin_marker_index: None },
        ],
        macro_editor: BufferView {
            name: "Macro"@,
            content: "# Your macro gets written here"@,
            markers: Seq::empty(),
        },
        width: 0,
        height: 0,
    }
}

/// The buffers and windows of an editing session, the buffer its macro is
/// written in, and the size of the area it is drawn on.
///
/// Windows name buffers and markers by index. Nothing checks that those
/// indices stay inside the lists they point into.
pub struct MacroDSLEnvironment {
    buffers: Vec<Buffer>,
    windows: Vec<Window>,
    macro_editor: Buffer,
    width: u32,
    height: u32,
}

impl View for MacroDSLEnvironment {
    type V = EnvironmentView;

    closed spec fn view(&self) -> EnvironmentView {
        EnvironmentView {
            buffers: buffer_views(self.buffers@),
            windows: window_views(self.windows@),
            macro_editor: self.macro_editor@,
            width: self.width as nat,
            height: self.height as nat,
        }
    }
}

impl MacroDSLEnvironment {
    /// The environment that an editing session starts from.
    pub fn new() -> (environment: Self)
        ensures
            environment@ == initial_environment(),
    {
        let environment = MacroDSLEnvironment {
            buffers: vec![Buffer::new("Main Buffer", "This is the editor")],
            windows: vec![Window::new(0, 0)],
            macro_editor: Buffer::new("Macro", "# Your macro gets written here"),
            width: 0,
            height: 0,
        };
        // Both lists hold one element; equality of the views is element by element.
        assert(buffer_views(environment.buffers@) =~= initial_environment().buffers);
        assert(window_views(environment.windows@) =~= initial_environment().windows);
        environment
    }

    /// The place where the environment will be drawn. Nothing is drawn so
    /// far, and every part of the environment is left as it was.
    pub fn render(&mut self)
        ensures
            *final(self) == *old(self),
            final(self)@ == old(self)@,
    {
    }

    /// Records the size of the drawing area. Buffers, windows and the macro
    /// buffer stay as they were.
    pub fn resize(&mut self, width: u32, height: u32)
        ensures
            final(self)@ == (EnvironmentView {
                width: width as nat,
                height: height as nat,
                ..old(self)@
            }),
    {
        self.width = width;
        self.height = height;
    }

    /// The text buffers, in the order they are kept.
    pub fn buffers(&self) -> (buffers: &Vec<Buffer>)
        ensures
            buffer_views(buffers@) == self@.buffers,
            buffers@.len() == self@.buffers.len(),
    {
        &self.buffers
    }

    /// The windows, in the order they are kept.
    pub fn windows(&self) -> (windows: &Vec<Window>)
        ensures
            window_views(windows@) == self@.windows,
            windows@.len() == self@.windows.len(),
    {
        &self.windows
    }

    /// The buffer in which a macro is written.
    pub fn macro_editor(&self) -> (buffer: &Buffer)
        ensures
            buffer@ == self@.macro_editor,
    {
        &self.macro_editor
    }

    /// Width of the drawing area, in pixels.
    pub fn width(&self) -> (width: u32)
        ensures
            width as nat == self@.width,
    {
        self.width
    }

    /// Height of the drawing area, in pixels.
    pub fn height(&self) -> (height: u32)
        ensures
            height as nat == self@.height,
    {
        self.height
    }
}

} // verus!
