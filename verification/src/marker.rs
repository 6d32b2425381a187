use vstd::prelude::*;

verus! {

/// A position inside the text of a buffer.
///
/// A marker is an offset and nothing more: it is not held against the length
/// of any text, and it does not move when text changes.
pub struct Marker {
    pos: u32,
}

impl View for Marker {
    type V = nat;

    /// The offset that the marker stands at.
    closed spec fn view(&self) -> nat {
        self.pos as nat
    }
}

impl Marker {
    /// A marker at offset `pos`.
    pub fn new(pos: u32) -> (marker: Self)
        ensures
            marker@ == pos as nat,
    {
        Marker { pos }
    }

    /// The offset that the marker stands at.
    pub fn pos(&self) -> (pos: u32)
        ensures
            pos as nat == self@,
    {
        self.pos
    }
}

} // verus!
