use vstd::prelude::*;

verus! {

/// What a window is, as plain mathematical values.
pub struct WindowView {
    /// Which buffer of the environment the window shows.
    pub buffer_index: nat,
    /// Which marker of that buffer the window follows.
    pub marker_index: nat,
    /// A second marker of that buffer, where the window has one.
    pub twin_marker_index: Option<nat>,
}

/// A view onto a buffer: the buffer and the marker are named by their places
/// in the lists that hold them.
///
/// The indices are kept as given. Nothing checks that a buffer or a marker
/// stands at them.
pub struct Window {
    buffer_index: u32,
    marker_index: u32,
    twin_marker_index: Option<u32>,
}

impl View for Window {
    type V = WindowView;

    closed spec fn view(&self) -> WindowView {
        WindowView {
            buffer_index: self.buffer_index as nat,
            marker_index: self.marker_index as nat,
            twin_marker_index: match self.twin_marker_index {
                Some(index) => Some(index as nat),
                None => None,
            },
        }
    }
}

impl Window {
    /// A window on buffer `buffer_index` that follows marker `marker_index`
    /// and has no twin marker.
    pub fn new(buffer_index: u32, marker_index: u32) -> (window: Self)
        ensures
            window@ == (WindowView {
                buffer_index: buffer_index as nat,
                marker_index: marker_index as nat,
                twin_marker_index: None,
            }),
    {
        Window { buffer_index, marker_index, twin_marker_index: None }
    }

    /// Which buffer of the environment the window shows.
    pub fn buffer_index(&self) -> (index: u32)
        ensures
            index as nat == self@.buffer_index,
    {
        self.buffer_index
    }

    /// Which marker of its buffer the window follows.
    pub fn marker_index(&self) -> (index: u32)
        ensures
            index as nat == self@.marker_index,
    {
        self.marker_index
    }

    /// The window's twin marker, where it has one.
    pub fn twin_marker_index(&self) -> (index: Option<u32>)
        ensures
            match index {
                Some(i) => self@.twin_marker_index == Some(i as nat),
                None => self@.twin_marker_index.is_none(),
            },
    {
        self.twin_marker_index
    }
}

} // verus!
