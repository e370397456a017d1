//! Change-detection wrapper: a value is handed out once per mutation, so
//! callers can skip redundant uploads of unchanged state.

use vstd::prelude::*;

verus! {

use vstd::pervasive::cloned;

/// Wraps a value together with a flag that records whether the current
/// value has already been emitted through [`Cache::cache`].
pub struct Cache<T> where T: Clone {
    pub content: T,
    pub is_cached: bool,
}

impl<T> Cache<T> where T: Clone {
    /// A fresh cache: the first [`Cache::cache`] call will emit the value.
    pub fn new(content: T) -> (r: Self)
        ensures
            r.content == content,
            !r.is_cached,
    {
        Self { content, is_cached: false }
    }

    /// Mutable access to the wrapped value. Taking the handle marks the
    /// value as changed, so the next [`Cache::cache`] call emits it again,
    /// whether or not it was actually rewritten.
    pub fn get(&mut self) -> (r: &mut T)
        ensures
            *r == old(self).content,
            final(self).content == *final(r),
            !final(self).is_cached,
    {
        self.is_cached = false;
        &mut self.content
    }

    /// Emits a clone of the value on the first call after construction or
    /// after [`Cache::get`], and `None` on every later call until the
    /// value is touched again.
    pub fn cache(&mut self) -> (r: Option<T>)
        ensures
            final(self).content == old(self).content,
            final(self).is_cached,
            old(self).is_cached ==> r is None,
            !old(self).is_cached ==> match r {
                Some(v) => cloned(old(self).content, v),
                None => false,
            },
    {
        if !self.is_cached {
            self.is_cached = true;
            Some(self.content.clone())
        } else {
            None
        }
    }
}

} // verus!
