//! Rows and columns built from a sequence of items.

use vstd::prelude::*;

verus! {

/// The direction in which a group lays out its children.
#[derive(Clone, Copy, Debug, PartialEq, Eq, Structural)]
pub enum Axis {
    /// Side by side, left to right.
    Horizontal,
    /// One below the other, top to bottom.
    Vertical,
}

/// An ordered group of child elements laid out along one axis.
#[derive(Clone, Debug, PartialEq, Eq)]
pub struct Group<E> {
    /// The direction of the layout.
    pub axis: Axis,
    /// The children, first to last.
    pub children: Vec<E>,
}

/// Whether `children` holds, in order, one result of `f` for each of `items`.
pub open spec fn maps_each<T, E, F: Fn(T) -> E>(items: Seq<T>, f: F, children: Seq<E>) -> bool {
    &&& children.len() == items.len()
    &&& forall|i: int| 0 <= i < items.len() ==> call_ensures(f, (items[i],), #[trigger] children[i])
}

/// Turns each item into an element with `f` and lays the elements out along
/// `axis`, in the order of the items.
fn collect_group<T, E, F: Fn(T) -> E>(axis: Axis, items: Vec<T>, f: F) -> (group: Group<E>)
    requires
        forall|i: int| 0 <= i < items@.len() ==> #[trigger] call_requires(f, (items@[i],)),
    ensures
        group.axis == axis,
        maps_each(items@, f, group.children@),
{
    let mut children: Vec<E> = Vec::new();
    let ghost all = items@;
    for item in iter: items
        invariant
            iter.seq() == all,
            children.len() == iter.index(),
            forall|i: int| 0 <= i < all.len() ==> #[trigger] call_requires(f, (all[i],)),
            forall|i: int|
                0 <= i < children.len() ==> call_ensures(f, (all[i],), #[trigger] children[i]),
    {
        children.push(f(item));
    }
    Group { axis, children }
}

/// Turning a sequence of items into a row or a column of elements.
pub trait IteratorWidgetExt<T>: Sized {
    /// The items, first to last.
    spec fn items(self) -> Seq<T>;

    /// Lays the items out one below the other, one element per item, in
    /// their order. No items give no children.
    fn collect_column<E, F: Fn(T) -> E>(self, f: F) -> (column: Group<E>)
        requires
            forall|i: int|
                0 <= i < self.items().len() ==> #[trigger] call_requires(f, (self.items()[i],)),
        ensures
            column.axis == Axis::Vertical,
            maps_each(self.items(), f, column.children@),
            self.items().len() == 0 ==> column.children@ =~= Seq::<E>::empty(),
    ;

    /// Lays the items out side by side, one element per item, in their
    /// order. No items give no children.
    fn collect_row<E, F: Fn(T) -> E>(self, f: F) -> (row: Group<E>)
        requires
            forall|i: int|
                0 <= i < self.items().len() ==> #[trigger] call_requires(f, (self.items()[i],)),
        ensures
            row.axis == Axis::Horizontal,
            maps_each(self.items(), f, row.children@),
            self.items().len() == 0 ==> row.children@ =~= Seq::<E>::empty(),
    ;
}

impl<T> IteratorWidgetExt<T> for Vec<T> {
    open spec fn items(self) -> Seq<T> {
        self@
    }

    fn collect_column<E, F: Fn(T) -> E>(self, f: F) -> (column: Group<E>) {
        assert(self.items() == self@);
        collect_group(Axis::Vertical, self, f)
    }

    fn collect_row<E, F: Fn(T) -> E>(self, f: F) -> (row: Group<E>) {
        assert(self.items() == self@);
        collect_group(Axis::Horizontal, self, f)
    }
}

} // verus!
