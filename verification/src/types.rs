//! A first-in, first-out list with a roaming cursor, and the mailbox that
//! holds the latest key press.

use vstd::prelude::*;

verus! {

/// One cell of a list.
pub struct Node<T> {
    /// The value stored in this cell.
    pub value: T,
}

impl<T> Node<T> {
    /// A cell that holds `value`.
    pub fn new(value: T) -> (node: Self)
        ensures
            node.value == value,
    {
        Self { value }
    }
}

/// A list that grows at its end and shrinks at its head. It also carries a
/// cursor that `jump` moves from cell to cell.
pub struct List<T> {
    nodes: Vec<Node<T>>,
    current: Option<usize>,
}

/// A walk over the values of a list, from the head to the end.
pub struct ListIter<'a, T> {
    list: &'a List<T>,
    position: usize,
}

impl<T> View for List<T> {
    type V = Seq<T>;

    /// The values of the list, the head first.
    closed spec fn view(&self) -> Seq<T> {
        self.nodes@.map_values(|node: Node<T>| node.value)
    }
}

impl<T> List<T> {
    /// The position of the cell the cursor stands on, if it stands on one.
    pub closed spec fn cursor(&self) -> Option<int> {
        match self.current {
            Some(c) => if c < self.nodes.len() {
                Some(c as int)
            } else {
                None
            },
            None => None,
        }
    }

    /// Where the cursor stands after a jump: on the cell after the one it
    /// stood on, or on the head if it stood on none. Past the last cell it
    /// stands on none again.
    pub open spec fn cursor_after_jump(&self) -> Option<int> {
        let next = match self.cursor() {
            Some(c) => c + 1,
            None => 0,
        };
        if next < self@.len() {
            Some(next)
        } else {
            None
        }
    }

    /// Where the cursor stands after the head was taken off: one position
    /// lower, or on no cell if it stood on the head.
    pub open spec fn cursor_after_pop(&self) -> Option<int> {
        match self.cursor() {
            Some(c) => if c == 0 {
                None
            } else {
                Some(c - 1)
            },
            None => None,
        }
    }

    /// An empty list.
    pub fn new() -> (list: Self)
        ensures
            list@ == Seq::<T>::empty(),
            list.cursor() == None::<int>,
    {
        let list = Self { nodes: Vec::new(), current: None };
        assert(list@ =~= Seq::<T>::empty());
        list
    }

    /// The number of values in the list.
    pub fn length(&self) -> (n: usize)
        ensures
            n == self@.len(),
    {
        self.nodes.len()
    }

    /// A walk over the list that starts at its head.
    pub fn iter(&self) -> (it: ListIter<'_, T>)
        ensures
            it.source() == self@,
            it.index() == 0,
    {
        ListIter { list: self, position: 0 }
    }

    /// Moves the cursor one cell forward and returns the cell it then
    /// stands on. A cursor that stands on no cell moves to the head; one that
    /// stands on the last cell moves off the list, and `None` is returned.
    pub fn jump(&mut self) -> (node: Option<&Node<T>>)
        ensures
            final(self)@ == old(self)@,
            final(self).cursor() == old(self).cursor_after_jump(),
            match node {
                Some(n) => final(self).cursor() is Some
                    && n.value == old(self)@[final(self).cursor().unwrap()],
                None => final(self).cursor() is None,
            },
    {
        let next: usize = match self.current {
            Some(c) => if c < self.nodes.len() {
                c + 1
            } else {
                0
            },
            None => 0,
        };
        if next < self.nodes.len() {
            self.current = Some(next);
            Some(&self.nodes[next])
        } else {
            self.current = None;
            None
        }
    }

    /// Appends `value` at the end of the list.
    pub fn append(&mut self, value: T)
        ensures
            final(self)@ == old(self)@.push(value),
            final(self).cursor() == old(self).cursor(),
    {
        if let Some(c) = self.current {
            if c >= self.nodes.len() {
                self.current = None;
            }
        }
        self.nodes.push(Node::new(value));
        assert(self@ =~= old(self)@.push(value));
    }

    /// Takes the value at the head off the list. An empty list gives an error.
    pub fn pop(&mut self) -> (r: Result<T, String>)
        ensures
            match r {
                Ok(value) => old(self)@.len() > 0 && value == old(self)@[0] && final(self)@
                    == old(self)@.drop_first() && final(self).cursor() == old(self).cursor_after_pop(),
                Err(e) => old(self)@.len() == 0 && final(self)@ == old(self)@ && final(self).cursor()
                    == old(self).cursor() && e@ == "failed"@,
            },
    {
        if self.nodes.len() == 0 {
            return Err("failed".to_owned());
        }
        let node = self.nodes.remove(0);
        self.current = match self.current {
            Some(c) => if c == 0 || c > self.nodes.len() {
                None
            } else {
                Some((c - 1) as usize)
            },
            None => None,
        };
        assert(self@ =~= old(self)@.drop_first());
        Ok(node.value)
    }

    /// Whether the list holds no value.
    pub fn is_empty(&self) -> (empty: bool)
        ensures
            empty == (self@.len() == 0),
    {
        self.nodes.len() == 0
    }
}

impl<T> Default for List<T> {
    fn default() -> (list: Self)
        ensures
            list@ == Seq::<T>::empty(),
            list.cursor() == None::<int>,
    {
        List::new()
    }
}

impl<'a, T> ListIter<'a, T> {
    /// The values of the list that is walked.
    pub closed spec fn source(&self) -> Seq<T> {
        self.list@
    }

    /// The number of values handed out so far, at most the length of the list.
    pub closed spec fn index(&self) -> int {
        if self.position <= self.list@.len() {
            self.position as int
        } else {
            self.list@.len() as int
        }
    }

    /// Hands out the next value of the list, or `None` at its end.
    pub fn next(&mut self) -> (item: Option<&'a T>)
        ensures
            final(self).source() == old(self).source(),
            match item {
                Some(value) => old(self).index() < old(self).source().len()
                    && *value == old(self).source()[old(self).index()]
                    && final(self).index() == old(self).index() + 1,
                None => old(self).index() == old(self).source().len()
                    && final(self).index() == old(self).index(),
            },
    {
        let list: &'a List<T> = self.list;
        if self.position < list.nodes.len() {
            let value = &list.nodes[self.position].value;
            self.position = self.position + 1;
            Some(value)
        } else {
            None
        }
    }
}

/// One key press, as plain values: the code of the key, the window it went
/// to, the modifier keys held as a bit set, whether it is a repeat, and
/// when it happened.
#[derive(Clone, Copy, Debug, PartialEq, Eq, Structural)]
pub struct KeyAction {
    pub keycode: i32,
    pub window_id: u32,
    pub key_mod: u16,
    pub repeat: bool,
    pub timestamp: u32,
}

impl KeyAction {
    /// A key press with the given values.
    pub fn new(window_id: u32, keycode: i32, key_mod: u16, repeat: bool, timestamp: u32) -> (action: Self)
        ensures
            action == (KeyAction { keycode, window_id, key_mod, repeat, timestamp }),
    {
        Self { keycode, window_id, key_mod, repeat, timestamp }
    }
}

/// A mailbox with room for one key press: a new one replaces the one that
/// was not fetched.
pub struct InputAction {
    stack: Option<KeyAction>,
}

impl View for InputAction {
    type V = Option<KeyAction>;

    /// The key press that waits to be fetched, if any.
    closed spec fn view(&self) -> Option<KeyAction> {
        self.stack
    }
}

impl Default for InputAction {
    fn default() -> (input: Self)
        ensures
            input@ == None::<KeyAction>,
    {
        InputAction::new()
    }
}

impl InputAction {
    /// An empty mailbox.
    pub fn new() -> (input: Self)
        ensures
            input@ == None::<KeyAction>,
    {
        Self { stack: None }
    }

    /// Puts `action` into the mailbox, in place of what was there.
    pub fn push(&mut self, action: KeyAction)
        ensures
            final(self)@ == Some(action),
    {
        self.stack = Some(action);
    }

    /// Takes the waiting key press out of the mailbox.
    pub fn pop(&mut self) -> (action: Option<KeyAction>)
        ensures
            action == old(self)@,
            final(self)@ == None::<KeyAction>,
    {
        let action = self.stack;
        self.stack = None;
        action
    }
}

} // verus!
