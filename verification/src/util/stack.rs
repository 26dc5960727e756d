use vstd::prelude::*;

verus! {

/// A LIFO stack. Its view is the sequence of items, bottom first.
pub struct Stack<T> {
    items: Vec<T>,
}

impl<T> View for Stack<T> {
    type V = Seq<T>;

    closed spec fn view(&self) -> Seq<T> {
        self.items@
    }
}

impl<T> Stack<T> {
    pub fn new() -> (s: Self)
        ensures
            s@ == Seq::<T>::empty(),
    {
        Stack { items: Vec::new() }
    }

    /// Number of items held.
    pub fn len(&self) -> (n: usize)
        ensures
            n == self@.len(),
    {
        self.items.len()
    }

    pub fn is_empty(&self) -> (b: bool)
        ensures
            b == (self@.len() == 0),
    {
        self.items.len() == 0
    }

    pub fn push(&mut self, item: T)
        ensures
            final(self)@ == old(self)@.push(item),
    {
        self.items.push(item);
    }

    /// Removes and returns the top item. The stack must not be empty.
    pub fn pop(&mut self) -> (item: T)
        requires
            old(self)@.len() > 0,
        ensures
            item == old(self)@.last(),
            final(self)@ == old(self)@.drop_last(),
    {
        self.items.pop().unwrap()
    }

    /// The top item. The stack must not be empty.
    pub fn peek(&self) -> (item: &T)
        requires
            self@.len() > 0,
        ensures
            *item == self@.last(),
    {
        &self.items[self.items.len() - 1]
    }

    /// Mutable access to the top item: the rest of the stack is untouched.
    pub fn peek_mut(&mut self) -> (item: &mut T)
        requires
            old(self)@.len() > 0,
        ensures
            *item == old(self)@.last(),
            final(self)@ == old(self)@.drop_last().push(*final(item)),
    {
        let n = self.items.len();
        &mut self.items[n - 1]
    }

    /// The item `depth` places below the top (`0` is the top itself).
    pub fn get(&self, depth: usize) -> (item: &T)
        requires
            depth < self@.len(),
        ensures
            *item == self@[self@.len() - 1 - depth],
    {
        &self.items[self.items.len() - 1 - depth]
    }
}

} // verus!
