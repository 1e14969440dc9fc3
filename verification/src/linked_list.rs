//! A singly linked list.

use vstd::prelude::*;

verus! {

/// A node of a singly linked list: a value and the rest of the list.
struct Node<T> {
    value: T,
    next: Option<Box<Node<T>>>,
}

/// A singly linked list.
///
/// The abstract view of a list is the sequence of its elements from the head
/// to the end of the list.
pub struct LinkedList<T> {
    head: Option<Box<Node<T>>>,
}

impl<T> Node<T> {
    /// The elements hanging off `node`, head first.
    spec fn optional_view(node: Option<Box<Node<T>>>) -> Seq<T>
        decreases node,
    {
        match node {
            None => Seq::empty(),
            Some(n) => seq![n.value] + Node::optional_view(n.next),
        }
    }

    /// Counts the elements hanging off `node`.
    fn optional_len(node: &Option<Box<Node<T>>>) -> (r: usize)
        requires
            Node::optional_view(*node).len() <= usize::MAX,
        ensures
            r == Node::optional_view(*node).len(),
        decreases *node,
    {
        match node {
            None => 0,
            Some(n) => 1 + Node::optional_len(&n.next),
        }
    }

    /// Hangs `value` off the far end of the elements hanging off `node`.
    fn append_to_optional(node: &mut Option<Box<Node<T>>>, value: T)
        ensures
            Node::optional_view(*final(node)) == Node::optional_view(*old(node)).push(value),
        decreases *old(node),
    {
        match node.take() {
            None => {
                *node = Some(Box::new(Node { value, next: None }));
                assert(Node::optional_view(*node) =~= Node::optional_view(*old(node)).push(value));
            },
            Some(mut boxed) => {
                Node::append_to_optional(&mut boxed.next, value);
                *node = Some(boxed);
                assert(Node::optional_view(*node) =~= Node::optional_view(*old(node)).push(value));
            },
        }
    }

    /// Walks `index` steps along the elements hanging off `node`.
    fn optional_get(node: &Option<Box<Node<T>>>, index: usize) -> (r: &T)
        requires
            index < Node::optional_view(*node).len(),
        ensures
            *r == Node::optional_view(*node)[index as int],
        decreases *node,
    {
        match node {
            None => unreached(),
            Some(n) => {
                if index == 0 {
                    &n.value
                } else {
                    Node::optional_get(&n.next, index - 1)
                }
            },
        }
    }
}

impl<T> View for LinkedList<T> {
    type V = Seq<T>;

    closed spec fn view(&self) -> Seq<T> {
        Node::optional_view(self.head)
    }
}

impl<T> LinkedList<T> {
    /// Creates an empty list.
    pub fn new() -> (l: Self)
        ensures
            l@ == Seq::<T>::empty(),
    {
        LinkedList { head: None }
    }

    /// True exactly when the list holds no elements.
    pub fn is_empty(&self) -> (r: bool)
        ensures
            r <==> self@.len() == 0,
    {
        self.head.is_none()
    }

    /// The number of elements in the list. The precondition only reflects a
    /// machine limit: the count must fit in `usize`, which holds of any list
    /// that fits in memory.
    pub fn len(&self) -> (r: usize)
        requires
            self@.len() <= usize::MAX,
        ensures
            r == self@.len(),
    {
        Node::optional_len(&self.head)
    }

    /// Inserts `value` at the beginning of the list: the view grows by
    /// `value` at its front.
    pub fn prepend(&mut self, value: T)
        ensures
            final(self)@ == seq![value] + old(self)@,
    {
        let head = self.head.take();
        self.head = Some(Box::new(Node { value, next: head }));
    }

    /// Appends `value` at the end of the list: the view grows by `value` at
    /// its back.
    pub fn append(&mut self, value: T)
        ensures
            final(self)@ == old(self)@.push(value),
    {
        Node::append_to_optional(&mut self.head, value);
    }

    /// A reference to the element `index` steps from the head of the list.
    pub fn get(&self, index: usize) -> (r: &T)
        requires
            index < self@.len(),
        ensures
            *r == self@[index as int],
    {
        Node::optional_get(&self.head, index)
    }
}

} // verus!
