//! Widget and window ids of the accessibility tree.
//!
//! Widgets and windows share one space of node ids. Widget ids are counted
//! up from 1; window ids are counted up from 2^32, above every widget id of
//! the first 2^32 - 1 widgets, so that the two never meet.

use vstd::prelude::*;

verus! {

/// The counters that widget ids and window node ids are minted from. A
/// program keeps exactly one of these.
#[derive(Debug)]
pub struct Ids {
    /// The number of the next widget id.
    pub next_id: u64,
    /// The number of the next window, counted from 1.
    pub next_window_id: u64,
}

/// The number that a window node id lies above: the largest widget id that
/// never meets a window id.
pub const WIDGET_ID_MAX: u64 = 0xffff_ffff;

/// The node id of the window with the given number.
pub open spec fn window_node(number: u64) -> int {
    WIDGET_ID_MAX + number
}

/// A counter after one number has been taken from it: it wraps around at
/// the end of the range.
pub open spec fn counted_on(counter: u64) -> u64 {
    if counter == u64::MAX {
        0
    } else {
        (counter + 1) as u64
    }
}

impl Ids {
    /// Counters that have handed out nothing yet: the first widget id is 1
    /// and the first window is number 1.
    pub fn new() -> (ids: Ids)
        ensures
            ids.next_id == 1,
            ids.next_window_id == 1,
    {
        Ids { next_id: 1, next_window_id: 1 }
    }
}

/// Get a window node id that does not conflict with other node ids for the
/// duration of the program.
///
/// The counter must not have come so far that the id no longer fits.
pub fn window_node_id(ids: &mut Ids) -> (id: u64)
    requires
        window_node(old(ids).next_window_id) <= u64::MAX,
    ensures
        id == window_node(old(ids).next_window_id),
        final(ids).next_window_id == counted_on(old(ids).next_window_id),
        final(ids).next_id == old(ids).next_id,
{
    let taken: u64 = ids.next_window_id;
    ids.next_window_id = if taken == u64::MAX {
        0
    } else {
        taken + 1
    };
    WIDGET_ID_MAX + taken
}

/// Internal representation of an [`Id`].
#[derive(Debug)]
pub enum Internal {
    /// A unique id.
    Unique(u64),
    /// A custom id, which is equal to any [`Id`] with a matching number or
    /// string.
    Custom(u64, String),
    /// An id set, which is equal to any [`Id`] that is equal to one of its
    /// members. It stands for a widget with several nodes, and is never the
    /// id of a node itself.
    IdSet(Vec<Internal>),
}

impl Internal {
    /// Whether two ids are the same id: unique ids by their number, custom
    /// ids by their string, sets member by member.
    pub open spec fn same(self, other: Internal) -> bool
        decreases self,
    {
        match (self, other) {
            (Internal::Unique(l), Internal::Unique(r)) => l == r,
            (Internal::Custom(_, l), Internal::Custom(_, r)) => l@ == r@,
            (Internal::IdSet(l), Internal::IdSet(r)) => l@.len() == r@.len() && forall|i: int|
                0 <= i < l@.len() ==> (#[trigger] l@[i]).same(r@[i]),
            _ => false,
        }
    }

    /// Whether one of `members` is the same id as `other`.
    pub open spec fn any_same(members: Seq<Internal>, other: Internal) -> bool {
        exists|i: int| 0 <= i < members.len() && (#[trigger] members[i]).same(other)
    }

    /// Whether two ids name the same widget. A custom id matches by its
    /// number or by its string, a unique id matches a custom id by its
    /// number, and a set matches every id that is the same as one of its
    /// members.
    pub open spec fn matches(self, other: Internal) -> bool {
        match (self, other) {
            (Internal::Unique(l), Internal::Unique(r)) => l == r,
            (Internal::Custom(l0, l1), Internal::Custom(r0, r1)) => l0 == r0 || l1@ == r1@,
            (Internal::Unique(l), Internal::Custom(r, _)) => l == r,
            (Internal::Custom(l, _), Internal::Unique(r)) => l == r,
            (Internal::IdSet(_), Internal::IdSet(_)) => self.same(other),
            (Internal::IdSet(l), r) => Internal::any_same(l@, r),
            (l, Internal::IdSet(r)) => Internal::any_same(r@, l),
        }
    }

    /// Whether the id is a set.
    pub open spec fn is_set(self) -> bool {
        self is IdSet
    }

    /// The number of the id. A set has none.
    pub open spec fn number(self) -> u64 {
        match self {
            Internal::Unique(id) => id,
            Internal::Custom(id, _) => id,
            Internal::IdSet(_) => 0,
        }
    }

    /// Whether two ids are the same id.
    pub fn is_same(&self, other: &Internal) -> (same: bool)
        ensures
            same == self.same(*other),
        decreases self,
    {
        match (self, other) {
            (Internal::Unique(l), Internal::Unique(r)) => *l == *r,
            (Internal::Custom(_, l), Internal::Custom(_, r)) => *l == *r,
            (Internal::IdSet(l), Internal::IdSet(r)) => {
                if l.len() != r.len() {
                    return false;
                }
                let mut i: usize = 0;
                while i < l.len()
                    invariant
                        i <= l.len(),
                        l.len() == r.len(),
                        *self == Internal::IdSet(*l),
                        *other == Internal::IdSet(*r),
                        forall|k: int|
                            0 <= k < l@.len() ==> decreases_to!(*self => #[trigger] l@[k]),
                        forall|j: int| 0 <= j < i ==> (#[trigger] l@[j]).same(r@[j]),
                    decreases l.len() - i,
                {
                    if !l[i].is_same(&r[i]) {
                        assert(!(l@[i as int]).same(r@[i as int]));
                        return false;
                    }
                    i += 1;
                }
                true
            },
            _ => false,
        }
    }

    /// Whether one of `members` is the same id as `other`.
    pub fn is_any_same(members: &Vec<Internal>, other: &Internal) -> (found: bool)
        ensures
            found == Internal::any_same(members@, *other),
    {
        let mut i: usize = 0;
        while i < members.len()
            invariant
                i <= members.len(),
                forall|j: int| 0 <= j < i ==> !(#[trigger] members@[j]).same(*other),
            decreases members.len() - i,
        {
            if members[i].is_same(other) {
                return true;
            }
            i += 1;
        }
        false
    }
}

impl Clone for Internal {
    /// A copy of the id. The copy is the same id, member by member.
    fn clone(&self) -> (copy: Self)
        ensures
            self.same(copy),
        decreases self,
    {
        match self {
            Internal::Unique(id) => Internal::Unique(*id),
            Internal::Custom(id, name) => Internal::Custom(*id, name.clone()),
            Internal::IdSet(members) => {
                let mut copies: Vec<Internal> = Vec::new();
                let mut i: usize = 0;
                while i < members.len()
                    invariant
                        i <= members.len(),
                        copies.len() == i,
                        forall|k: int|
                            0 <= k < members@.len() ==> decreases_to!(*self => #[trigger] members@[k]),
                        forall|j: int| 0 <= j < i ==> (#[trigger] members@[j]).same(copies@[j]),
                    decreases members.len() - i,
                {
                    copies.push(members[i].clone());
                    i += 1;
                }
                Internal::IdSet(copies)
            },
        }
    }
}

impl PartialEq for Internal {
    fn eq(&self, other: &Self) -> (same: bool) {
        self.is_same(other)
    }
}

impl vstd::std_specs::cmp::PartialEqSpecImpl for Internal {
    open spec fn obeys_eq_spec() -> bool {
        true
    }

    open spec fn eq_spec(&self, other: &Self) -> bool {
        self.same(*other)
    }
}

impl Eq for Internal {

}

/// Similar to `PartialEq`, but only intended for use when comparing ids:
/// it asks whether two ids name the same widget, not whether they are the
/// same id.
pub trait IdEq {
    /// Whether two ids name the same widget.
    spec fn names_same(&self, other: &Self) -> bool;

    /// Whether two ids name the same widget.
    fn eq(&self, other: &Self) -> (same: bool)
        ensures
            same == self.names_same(other),
    ;
}

impl IdEq for Internal {
    open spec fn names_same(&self, other: &Self) -> bool {
        self.matches(*other)
    }

    fn eq(&self, other: &Self) -> (same: bool) {
        match (self, other) {
            (Internal::Unique(l), Internal::Unique(r)) => *l == *r,
            (Internal::Custom(l0, l1), Internal::Custom(r0, r1)) => *l0 == *r0 || *l1 == *r1,
            (Internal::Unique(l), Internal::Custom(r, _)) => *l == *r,
            (Internal::Custom(l, _), Internal::Unique(r)) => *l == *r,
            (Internal::IdSet(_), Internal::IdSet(_)) => self.is_same(other),
            (Internal::IdSet(l), r) => Internal::is_any_same(l, r),
            (l, Internal::IdSet(r)) => Internal::is_any_same(r, l),
        }
    }
}

/// The identifier of a generic widget.
#[derive(Debug, Clone, PartialEq, Eq)]
pub struct Id(pub Internal);

impl Id {
    /// Creates a custom [`Id`] with the given name.
    pub fn new(ids: &mut Ids, id: String) -> (made: Id)
        ensures
            made == Id(Internal::Custom(old(ids).next_id, id)),
            final(ids).next_id == counted_on(old(ids).next_id),
            final(ids).next_window_id == old(ids).next_window_id,
    {
        Id(Internal::Custom(Id::next(ids), id))
    }

    /// Resets the id counter. The widget ids start at 1 again.
    pub fn reset(ids: &mut Ids)
        ensures
            final(ids).next_id == 1,
            final(ids).next_window_id == old(ids).next_window_id,
    {
        ids.next_id = 1;
    }

    /// Takes the next number of the widget ids.
    pub fn next(ids: &mut Ids) -> (number: u64)
        ensures
            number == old(ids).next_id,
            final(ids).next_id == counted_on(old(ids).next_id),
            final(ids).next_window_id == old(ids).next_window_id,
    {
        let taken: u64 = ids.next_id;
        ids.next_id = if taken == u64::MAX {
            0
        } else {
            taken + 1
        };
        taken
    }

    /// Creates a unique [`Id`].
    ///
    /// This function produces a different [`Id`] every time it is called,
    /// until the counter has gone around the whole range.
    pub fn unique(ids: &mut Ids) -> (made: Id)
        ensures
            made == Id(Internal::Unique(old(ids).next_id)),
            final(ids).next_id == counted_on(old(ids).next_id),
            final(ids).next_window_id == old(ids).next_window_id,
    {
        let id = Id::next(ids);
        Id(Internal::Unique(id))
    }

    /// The unique id with the given number.
    pub fn from_number(value: u64) -> (made: Id)
        ensures
            made == Id(Internal::Unique(value)),
    {
        Id(Internal::Unique(value))
    }

    /// The number of the id. An id set has no number and cannot be asked
    /// for one.
    pub fn into_number(self) -> (number: u64)
        requires
            !self.0.is_set(),
        ensures
            number == self.0.number(),
    {
        match self.0 {
            Internal::Unique(id) => id,
            Internal::Custom(id, _) => id,
            Internal::IdSet(_) => 0,
        }
    }

    /// The name of the id: that of a custom id is the string it was made
    /// with.
    pub fn to_string(&self) -> (name: String)
        ensures
            name@ == match self.0 {
                Internal::Unique(_) => "Undefined"@,
                Internal::Custom(_, id) => id@,
                Internal::IdSet(_) => "Set"@,
            },
    {
        match &self.0 {
            Internal::Unique(_) => "Undefined".to_owned(),
            Internal::Custom(_, id) => id.clone(),
            Internal::IdSet(_) => "Set".to_owned(),
        }
    }
}

impl IdEq for Id {
    open spec fn names_same(&self, other: &Self) -> bool {
        self.0.matches(other.0)
    }

    fn eq(&self, other: &Self) -> (same: bool) {
        IdEq::eq(&self.0, &other.0)
    }
}

/// The id of a node of the accessibility tree.
#[derive(Debug, Clone, PartialEq, Eq)]
pub enum A11yId {
    Window(u64),
    Widget(Id),
}

/// The kind of node that a node id stands for: a window above the widget
/// range, a widget within it.
pub open spec fn node_of(value: u64) -> A11yId {
    if value > WIDGET_ID_MAX {
        A11yId::Window(value)
    } else {
        A11yId::Widget(Id(Internal::Unique(value)))
    }
}

impl A11yId {
    /// The node id. A widget whose id is a set has none.
    pub open spec fn spec_node_id(self) -> u64 {
        match self {
            A11yId::Window(id) => id,
            A11yId::Widget(id) => id.0.number(),
        }
    }

    /// Whether the id can be the id of a node: a widget whose id is a set
    /// cannot.
    pub open spec fn is_node(self) -> bool {
        self matches A11yId::Widget(id) ==> !id.0.is_set()
    }

    /// The id of the window with the given node id.
    pub fn from_window(id: u64) -> (made: A11yId)
        ensures
            made == A11yId::Window(id),
    {
        A11yId::Window(id)
    }

    /// The id of the widget with the given id, which must not be a set.
    pub fn from_widget(id: Id) -> (made: A11yId)
        requires
            !id.0.is_set(),
        ensures
            made == A11yId::Widget(id),
    {
        A11yId::Widget(id)
    }

    /// The id that a node id stands for: that of a window where it lies
    /// above the widget range, else that of a widget.
    pub fn from_node_id(value: u64) -> (made: A11yId)
        ensures
            made == node_of(value),
    {
        if value > WIDGET_ID_MAX {
            A11yId::Window(value)
        } else {
            A11yId::Widget(Id::from_number(value))
        }
    }

    /// The node id of the window or widget.
    pub fn node_id(self) -> (value: u64)
        requires
            self.is_node(),
        ensures
            value == self.spec_node_id(),
    {
        match self {
            A11yId::Window(id) => id,
            A11yId::Widget(id) => id.into_number(),
        }
    }
}

impl IdEq for A11yId {
    open spec fn names_same(&self, other: &Self) -> bool {
        match (*self, *other) {
            (A11yId::Widget(l), A11yId::Widget(r)) => l.0.matches(r.0),
            (A11yId::Window(l), A11yId::Window(r)) => l == r,
            _ => false,
        }
    }

    fn eq(&self, other: &Self) -> (same: bool) {
        match (self, other) {
            (A11yId::Widget(l), A11yId::Widget(r)) => IdEq::eq(l, r),
            (A11yId::Window(l), A11yId::Window(r)) => *l == *r,
            _ => false,
        }
    }
}

/// No window node id is a widget id: a window node id lies above the widget
/// range, and a widget id that is minted while the counter is within that
/// range lies within it. So a node id tells a window from a widget.
pub proof fn lemma_ids_disjoint(widget_counter: u64, window_counter: u64)
    requires
        widget_counter <= WIDGET_ID_MAX,
        1 <= window_counter,
        window_node(window_counter) <= u64::MAX,
    ensures
        window_node(window_counter) != widget_counter,
        node_of(window_node(window_counter) as u64) is Window,
        node_of(widget_counter) is Widget,
{
}

/// Window node ids are strictly monotone: a window that is numbered later
/// has a larger node id, as long as the ids fit.
pub proof fn lemma_window_ids_monotone(earlier: u64, later: u64)
    requires
        earlier < later,
        window_node(later) <= u64::MAX,
    ensures
        window_node(earlier) < window_node(later),
        counted_on(earlier) > earlier,
{
}

} // verus!
