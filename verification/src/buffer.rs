use vstd::prelude::*;

use crate::marker::Marker;

verus! {

/// What a buffer is, as plain mathematical values.
pub struct BufferView {
    /// The name the buffer goes by.
    pub name: Seq<char>,
    /// The text held by the buffer.
    pub content: Seq<char>,
    /// The offsets of the buffer's markers, in the order they are kept.
    pub markers: Seq<nat>,
}

/// The offsets of a sequence of markers, in the same order.
pub open spec fn marker_positions(markers: Seq<Marker>) -> Seq<nat> {
    markers.map_values(|m: Marker| m@)
}

/// A named piece of text with the markers that point into it.
///
/// Nothing ties a marker's offset to the length of the text.
pub struct Buffer {
    name: String,
    content: String,
    markers: Vec<Marker>,
}

impl View for Buffer {
    type V = BufferView;

    closed spec fn view(&self) -> BufferView {
        BufferView {
            name: self.name@,
            content: self.content@,
            markers: marker_positions(self.markers@),
        }
    }
}

impl Buffer {
    /// A buffer called `name` that holds `content` and has no markers.
    pub fn new(name: &str, content: &str) -> (buffer: Self)
        ensures
            buffer@ == (BufferView { name: name@, content: content@, markers: Seq::empty() }),
    {
        let buffer = Buffer {
            name: name.to_owned(),
            content: content.to_owned(),
            markers: vec![],
        };
        // No markers, so no offsets either.
        assert(marker_positions(buffer.markers@) =~= Seq::<nat>::empty());
        buffer
    }

    /// The name the buffer goes by.
    pub fn name(&self) -> (name: &str)
        ensures
            name@ == self@.name,
    {
        self.name.as_str()
    }

    /// The text held by the buffer.
    pub fn content(&self) -> (content: &str)
        ensures
            content@ == self@.content,
    {
        self.content.as_str()
    }

    /// The buffer's markers, in the order they are kept.
    pub fn markers(&self) -> (markers: &Vec<Marker>)
        ensures
            marker_positions(markers@) == self@.markers,
            markers@.len() == self@.markers.len(),
    {
        &self.markers
    }
}

} // verus!
