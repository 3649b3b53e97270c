use vstd::prelude::*;

verus! {

/// An ordered list that grows at its end and can be emptied. Items keep the
/// order in which they were appended; nothing is reordered or dropped as a
/// duplicate.
#[derive(Debug, PartialEq, Eq)]
pub struct ListStore<T> {
    items: Vec<T>,
}

impl<T> View for ListStore<T> {
    type V = Seq<T>;

    closed spec fn view(&self) -> Seq<T> {
        self.items@
    }
}

impl<T: DeepView> DeepView for ListStore<T> {
    type V = Seq<T::V>;

    open spec fn deep_view(&self) -> Seq<T::V> {
        Seq::new(self@.len(), |i: int| self@[i].deep_view())
    }
}

impl<T> ListStore<T> {
    /// An empty list.
    pub fn new() -> (list: Self)
        ensures
            list@ == Seq::<T>::empty(),
    {
        ListStore { items: Vec::new() }
    }

    /// A list of `items`, in their order.
    pub fn from_vec(items: Vec<T>) -> (list: Self)
        ensures
            list@ == items@,
    {
        ListStore { items }
    }

    /// The number of items.
    pub fn len(&self) -> (n: usize)
        ensures
            n == self@.len(),
    {
        self.items.len()
    }

    /// The item at `index`, if the list is that long.
    pub fn get(&self, index: usize) -> (item: Option<&T>)
        ensures
            index < self@.len() ==> item == Some(&self@[index as int]),
            index >= self@.len() ==> item is None,
    {
        if index < self.items.len() {
            Some(&self.items[index])
        } else {
            None
        }
    }

    /// Puts `item` at the end.
    pub fn append(&mut self, item: T)
        ensures
            final(self)@ == old(self)@.push(item),
    {
        self.items.push(item);
    }

    /// Puts `items` at the end, in their order.
    pub fn extend(&mut self, items: Vec<T>)
        ensures
            final(self)@ == old(self)@ + items@,
    {
        let mut items = items;
        self.items.append(&mut items);
    }

    /// Empties the list.
    pub fn remove_all(&mut self)
        ensures
            final(self)@ == Seq::<T>::empty(),
    {
        self.items.clear();
    }
}

} // verus!
