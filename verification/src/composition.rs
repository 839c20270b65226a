//! Lists of children: the fixed list of labels, and the element that puts
//! what a render function returns above a list of its children.

use vstd::prelude::*;

verus! {

/// A list item around one child.
#[derive(Debug, PartialEq, Eq)]
pub struct ListItem<T> {
    pub content: T,
}

/// What the composing element shows: the header that its render function
/// returned, and below it one list item for each child.
#[derive(Debug, PartialEq, Eq)]
pub struct ParentElement<R, T> {
    pub header: R,
    pub items: Vec<ListItem<T>>,
}

/// The labels of the fixed list.
pub open spec fn static_label_texts() -> Seq<Seq<char>> {
    seq!["Foo"@, "Bar"@, "Baz"@]
}

/// `items` holds one list item for each of `children`, in their order.
pub open spec fn wraps_each<T>(items: Seq<ListItem<T>>, children: Seq<T>) -> bool {
    &&& items.len() == children.len()
    &&& forall|i: int| 0 <= i < items.len() ==> (#[trigger] items[i]).content == children[i]
}

/// Puts each child into a list item of its own, keeping the order.
pub fn list_items<T>(children: Vec<T>) -> (items: Vec<ListItem<T>>)
    ensures
        wraps_each(items@, children@),
{
    let mut items: Vec<ListItem<T>> = Vec::new();
    for child in all: children
        invariant
            all.seq() == children@,
            wraps_each(items@, children@.take(all.index())),
    {
        items.push(ListItem { content: child });
    }
    items
}

/// The labels of the fixed list, in the order in which they are shown.
pub fn static_labels() -> (labels: Vec<&'static str>)
    ensures
        labels@.len() == static_label_texts().len(),
        forall|i: int|
            0 <= i < labels@.len() ==> (#[trigger] labels@[i])@ == static_label_texts()[i],
{
    let mut labels: Vec<&'static str> = Vec::new();
    labels.push("Foo");
    labels.push("Bar");
    labels.push("Baz");
    labels
}

/// Composes an element from a render function and children: the header is
/// what the function returns, and each child stands in a list item.
pub fn parent_element<R, T, F: FnOnce() -> R>(render_prop: F, children: Vec<T>) -> (element:
    ParentElement<R, T>)
    requires
        render_prop.requires(()),
    ensures
        render_prop.ensures((), element.header),
        wraps_each(element.items@, children@),
{
    let header = render_prop();
    let items = list_items(children);
    ParentElement { header, items }
}

} // verus!
