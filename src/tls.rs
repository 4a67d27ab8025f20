use vstd::prelude::*;

verus! {

/// A scoped thread-local slot: `set` installs a value for the length of a
/// scope, `reset` puts back what was there before.
#[derive(Debug)]
pub struct Key<T> {
    ptr: Option<T>,
}

impl<T> Key<T> {
    pub closed spec fn value(&self) -> Option<T> {
        self.ptr
    }

    pub fn new() -> (r: Key<T>)
        ensures
            r.value().is_none(),
    {
        Key { ptr: None }
    }

    /// Installs `t`, giving back the value to restore at the end of the
    /// scope.
    pub fn set(&mut self, t: T) -> (prev: Option<T>)
        ensures
            final(self).value() == Some(t),
            prev == old(self).value(),
    {
        let prev = self.ptr.take();
        self.ptr = Some(t);
        prev
    }

    /// Ends the scope: the value from before comes back.
    pub fn reset(&mut self, prev: Option<T>) -> (r: Option<T>)
        ensures
            final(self).value() == prev,
            r == old(self).value(),
    {
        let cur = self.ptr.take();
        self.ptr = prev;
        cur
    }

    pub fn get(&self) -> (r: Option<&T>)
        ensures
            r == (match self.value() {
                Some(v) => Some(&v),
                None => None::<&T>,
            }),
    {
        self.ptr.as_ref()
    }
}

} // verus!
