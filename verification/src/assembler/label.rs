//! Labels for branch resolution.
//!
//! Labels are opaque identifiers handed out by a code builder. Each label
//! can be *placed* (the position of the following instruction in the code
//! array) and *referenced* any number of times by branch instructions. The
//! builder resolves labels to signed 16 or 32 bit byte offsets when the
//! enclosing method is finalised.
use vstd::prelude::*;

verus! {

#[derive(Debug, Clone, Copy, PartialEq, Eq, Hash, Structural)]
pub struct Label(pub(crate) usize);

impl Label {
    /// The label's number within its builder.
    pub closed spec fn id(self) -> nat {
        self.0 as nat
    }

    pub fn index(self) -> (i: usize)
        ensures
            i == self.id(),
    {
        self.0
    }
}

/// Byte offset of each label, once placed.
#[derive(Debug, Clone)]
pub struct LabelTable {
    /// `positions[label_id] = Some(byte_offset)` once the label is placed.
    positions: Vec<Option<u32>>,
}

impl View for LabelTable {
    type V = Seq<Option<u32>>;

    closed spec fn view(&self) -> Seq<Option<u32>> {
        self.positions@
    }
}

impl Default for LabelTable {
    /// The empty table of `new`.
    fn default() -> (t: Self)
        ensures
            t@ == Seq::<Option<u32>>::empty(),
    {
        Self::new()
    }
}

impl LabelTable {
    pub fn new() -> (t: Self)
        ensures
            t@ == Seq::<Option<u32>>::empty(),
    {
        LabelTable { positions: Vec::new() }
    }

    /// A fresh, unplaced label numbered after every earlier one.
    pub fn new_label(&mut self) -> (l: Label)
        ensures
            l.id() == old(self)@.len(),
            final(self)@ == old(self)@.push(None),
    {
        let id = self.positions.len();
        self.positions.push(None);
        Label(id)
    }

    /// Record the byte offset of `label`.
    pub fn place(&mut self, label: Label, offset: u32)
        requires
            label.id() < old(self)@.len(),
        ensures
            final(self)@ == old(self)@.update(label.id() as int, Some(offset)),
    {
        self.positions.set(label.0, Some(offset));
    }

    /// The byte offset of `label`, if it has been placed.
    pub fn resolve(&self, label: Label) -> (r: Option<u32>)
        ensures
            r == (if label.id() < self@.len() { self@[label.id() as int] } else { None }),
    {
        if label.0 < self.positions.len() {
            self.positions[label.0]
        } else {
            None
        }
    }
}

} // verus!
