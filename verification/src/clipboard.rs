//! Access the clipboard.

use crate::geometry::Rectangle;
use crate::window;
use vstd::prelude::*;

verus! {

/// The kind of [`Clipboard`].
#[derive(Debug, Clone, Copy, PartialEq, Eq, Structural)]
pub enum Kind {
    /// The standard clipboard.
    Standard,
    /// The primary clipboard.
    ///
    /// Normally only present in X11 and Wayland.
    Primary,
}

/// A buffer for short-term storage and transfer within and between
/// applications.
pub trait Clipboard {
    /// Reads the current content of the [`Clipboard`] as text.
    fn read(&self, kind: Kind) -> Option<String>;

    /// Writes the given text contents to the [`Clipboard`].
    fn write(&mut self, kind: Kind, contents: String);

    /// Reads the current content of the [`Clipboard`] in one of the given
    /// formats, and says which one it came in.
    fn read_data(&self, kind: Kind, mimes: Vec<String>) -> Option<(Vec<u8>, String)>;

    /// Peeks the data of the ongoing drag in the given format.
    fn peek_dnd(&self, mime: String) -> Option<(Vec<u8>, String)>;
}

/// A null implementation of the [`Clipboard`] trait: it holds nothing and
/// keeps nothing.
#[derive(Debug, Clone, Copy)]
pub struct Null;

impl Clipboard for Null {
    fn read(&self, kind: Kind) -> (contents: Option<String>)
        ensures
            contents is None,
    {
        None
    }

    fn write(&mut self, kind: Kind, contents: String) {
    }

    fn read_data(&self, kind: Kind, mimes: Vec<String>) -> (contents: Option<(Vec<u8>, String)>)
        ensures
            contents is None,
    {
        None
    }

    fn peek_dnd(&self, mime: String) -> (contents: Option<(Vec<u8>, String)>)
        ensures
            contents is None,
    {
        None
    }
}

/// Source of a drag.
#[derive(Debug, Clone)]
pub enum DndSource {
    /// A widget is the source of the drag.
    Widget(crate::id::Id),
    /// A surface is the source of the drag.
    Surface(window::Id),
}

/// A clipboard action to be performed by the runtime.
#[derive(Debug, Clone, PartialEq, Eq)]
pub enum Action {
    /// Read the clipboard.
    Read(Kind),
    /// Write the given contents to the clipboard.
    Write(String, Kind),
}

/// Read the current contents of the clipboard.
pub fn read() -> (action: Action)
    ensures
        action == Action::Read(Kind::Standard),
{
    Action::Read(Kind::Standard)
}

/// Read the current contents of the primary clipboard.
pub fn read_primary() -> (action: Action)
    ensures
        action == Action::Read(Kind::Primary),
{
    Action::Read(Kind::Primary)
}

/// Write the given contents to the clipboard.
pub fn write(contents: String) -> (action: Action)
    ensures
        action == Action::Write(contents, Kind::Standard),
{
    Action::Write(contents, Kind::Standard)
}

/// Write the given contents to the primary clipboard.
pub fn write_primary(contents: String) -> (action: Action)
    ensures
        action == Action::Write(contents, Kind::Primary),
{
    Action::Write(contents, Kind::Primary)
}

/// A place of a surface where a drag can be dropped.
#[derive(Debug, Clone, Copy, PartialEq, Eq, Structural)]
pub struct DndDestinationRectangle {
    /// The id of the widget behind the place.
    pub id: u64,
    /// Where the place is.
    pub rectangle: Rectangle,
}

/// A list of places where a drag can be dropped.
#[derive(Debug, Clone)]
pub struct DndDestinationRectangles {
    /// The places, in the order in which they were found.
    pub rectangles: Vec<DndDestinationRectangle>,
}

impl DndDestinationRectangles {
    /// Creates a new, empty list.
    pub fn new() -> (list: DndDestinationRectangles)
        ensures
            list.rectangles@ == Seq::<DndDestinationRectangle>::empty(),
    {
        DndDestinationRectangles { rectangles: Vec::new() }
    }

    /// Creates a new, empty list with room for `capacity` places.
    pub fn with_capacity(capacity: usize) -> (list: DndDestinationRectangles)
        ensures
            list.rectangles@ == Seq::<DndDestinationRectangle>::empty(),
    {
        DndDestinationRectangles { rectangles: Vec::with_capacity(capacity) }
    }

    /// Pushes a new place to the list.
    pub fn push(&mut self, rectangle: DndDestinationRectangle)
        ensures
            final(self).rectangles@ == old(self).rectangles@.push(rectangle),
    {
        self.rectangles.push(rectangle);
    }

    /// Moves every place of `other` to the end of the list.
    pub fn append(&mut self, other: &mut Vec<DndDestinationRectangle>)
        ensures
            final(self).rectangles@ == old(self).rectangles@ + old(other)@,
            final(other)@ == Seq::<DndDestinationRectangle>::empty(),
    {
        self.rectangles.append(other);
    }

    /// Returns the places, the one found last first: a place that lies over
    /// another was found after it and has to be asked first.
    pub fn into_rectangles(self) -> (rectangles: Vec<DndDestinationRectangle>)
        ensures
            rectangles@ == self.rectangles@.reverse(),
    {
        let n: usize = self.rectangles.len();
        let mut reversed: Vec<DndDestinationRectangle> = Vec::with_capacity(n);
        let mut i: usize = n;
        while i > 0
            invariant
                i <= n,
                n == self.rectangles.len(),
                reversed.len() == n - i,
                forall|k: int|
                    0 <= k < reversed.len() ==> reversed@[k] == self.rectangles@[n - 1 - k],
            decreases i,
        {
            i -= 1;
            reversed.push(self.rectangles[i]);
        }
        assert(reversed@ =~= self.rectangles@.reverse());
        reversed
    }

    /// The number of places.
    pub fn len(&self) -> (len: usize)
        ensures
            len == self.rectangles@.len(),
    {
        self.rectangles.len()
    }
}

/// Whether the places where a drag can be dropped are registered anew after
/// a window has been laid out: whenever there are any.
pub fn registers_destinations(previous_count: usize, count: usize) -> (registers: bool)
    ensures
        registers == (count > 0),
{
    count > 0
}

} // verus!
