//! A write-once optional cell. Option parsing uses it to detect a key that is
//! set twice: the first `set` stores the value, a later `set` is refused and
//! hands back a reference to the stored value so the caller can report where
//! the key was first set.

use vstd::prelude::*;

verus! {

pub struct SetOnce<T> {
    x: Option<T>,
}

impl<T> View for SetOnce<T> {
    type V = Option<T>;

    closed spec fn view(&self) -> Option<T> {
        self.x
    }
}

impl<T> SetOnce<T> {
    /// A fresh, empty cell.
    pub fn new() -> (r: SetOnce<T>)
        ensures
            r@ is None,
    {
        SetOnce { x: None }
    }

    /// Store `x` if the cell is empty; otherwise leave the cell as it is and
    /// return a reference to the value already stored.
    pub fn set(&mut self, x: T) -> (r: Result<(), &T>)
        ensures
            old(self)@ is None ==> r is Ok && final(self)@ == Some(x),
            old(self)@ is Some ==> r is Err && final(self)@ == old(self)@ && *r->Err_0
                == old(self)@->0,
    {
        if self.x.is_none() {
            self.x = Some(x);
            Ok(())
        } else {
            Err(self.x.as_ref().unwrap())
        }
    }

    /// Consume the cell, yielding the stored value if any.
    pub fn get(self) -> (r: Option<T>)
        ensures
            r == self@,
    {
        self.x
    }
}

} // verus!
