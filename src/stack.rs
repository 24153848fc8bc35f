//! A last-in first-out stack of values.
use vstd::prelude::*;
use crate::value::{Value, ValueView};

verus! {

/// A stack of values; its view lists them from the bottom to the top.
#[derive(Debug)]
pub struct Stk {
    items: Vec<Value>,
}

impl View for Stk {
    type V = Seq<ValueView>;

    closed spec fn view(&self) -> Seq<ValueView> {
        self.items@.map_values(|v: Value| v@)
    }
}

/// The value at depth `n` (0 is the top), if the stack is that deep.
pub open spec fn peek_spec(s: Seq<ValueView>, n: int) -> Option<ValueView> {
    if 0 <= n < s.len() {
        Some(s[s.len() - 1 - n])
    } else {
        None
    }
}

impl Clone for Stk {
    fn clone(&self) -> (r: Self)
        ensures
            r@ == self@,
    {
        let mut items: Vec<Value> = Vec::new();
        let mut i: usize = 0;
        while i < self.items.len()
            invariant
                i <= self.items.len(),
                items@.len() == i,
                forall|j: int| 0 <= j < i ==> #[trigger] items@[j]@ == self.items@[j]@,
            decreases self.items.len() - i,
        {
            let v = self.items[i].clone();
            items.push(v);
            i = i + 1;
        }
        let r = Stk { items };
        assert(r@ =~= self@);
        r
    }
}

impl Stk {
    /// An empty stack.
    pub fn new() -> (r: Stk)
        ensures
            r@ == Seq::<ValueView>::empty(),
    {
        let r = Stk { items: Vec::new() };
        assert(r@ =~= Seq::<ValueView>::empty());
        r
    }

    /// Puts `v` on top.
    pub fn push(&mut self, v: Value)
        ensures
            final(self)@ == old(self)@.push(v@),
    {
        self.items.push(v);
        assert(self@ =~= old(self)@.push(v@));
    }

    /// Takes the top value off, if there is one.
    pub fn pop(&mut self) -> (r: Option<Value>)
        ensures
            old(self)@.len() == 0 ==> r is None && final(self)@ == old(self)@,
            old(self)@.len() > 0 ==> r is Some && r.unwrap()@ == old(self)@.last()
                && final(self)@ == old(self)@.drop_last(),
    {
        let r = self.items.pop();
        assert(old(self)@.len() > 0 ==> self@ =~= old(self)@.drop_last());
        r
    }

    /// A copy of the top value, if there is one.
    pub fn top(&self) -> (r: Option<Value>)
        ensures
            match r {
                Some(v) => peek_spec(self@, 0) == Some(v@),
                None => peek_spec(self@, 0) is None,
            },
    {
        self.peek(0)
    }

    /// A copy of the value at depth `n` (0 is the top), if the stack is that deep.
    pub fn peek(&self, n: usize) -> (r: Option<Value>)
        ensures
            match r {
                Some(v) => peek_spec(self@, n as int) == Some(v@),
                None => peek_spec(self@, n as int) is None,
            },
    {
        let len = self.items.len();
        if n < len {
            Some(self.items[len - 1 - n].clone())
        } else {
            None
        }
    }

    /// The number of values on the stack.
    pub fn len(&self) -> (r: usize)
        ensures
            r == self@.len(),
    {
        self.items.len()
    }

    /// Whether the stack holds no value.
    pub fn is_empty(&self) -> (r: bool)
        ensures
            r == (self@.len() == 0),
    {
        self.items.len() == 0
    }
}

} // verus!
