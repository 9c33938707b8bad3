use vstd::prelude::*;
use vstd::std_specs::iter::IteratorSpec;

verus! {

/// A fixed-length row of values, one per floor.
pub struct Array<T: Copy> {
    arr: Vec<T>,
}

impl<T: Copy> View for Array<T> {
    type V = Seq<T>;

    closed spec fn view(&self) -> Seq<T> {
        self.arr@
    }
}

impl<T: Copy> Array<T> {
    /// `len` copies of `val`.
    pub fn from_val(val: T, len: usize) -> (r: Array<T>)
        ensures
            r@ == Seq::new(len as nat, |_i: int| val),
    {
        let mut arr: Vec<T> = Vec::new();
        let mut i: usize = 0;
        while i < len
            invariant
                i <= len,
                arr@ == Seq::new(i as nat, |_i: int| val),
            decreases len - i,
        {
            arr.push(val);
            i = i + 1;
        }
        Array { arr }
    }

    pub fn get(&self, index: usize) -> (r: T)
        requires
            index < self@.len(),
        ensures
            r == self@[index as int],
    {
        self.arr[index]
    }

    pub fn set(&mut self, val: T, index: usize)
        requires
            index < old(self)@.len(),
        ensures
            final(self)@ == old(self)@.update(index as int, val),
        no_unwind
    {
        self.arr[index] = val;
    }

    pub fn iter(&self) -> (r: std::slice::Iter<'_, T>)
        ensures
            r.remaining() == self@.as_ref(),
    {
        self.arr.as_slice().iter()
    }

    pub fn len(&self) -> (r: usize)
        ensures
            r == self@.len(),
    {
        self.arr.len()
    }
}

} // verus!
