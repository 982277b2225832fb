//! Columnar storage: one growable array per record field, plus an
//! explicitly tracked mirror of the contents the GPU-side buffer is
//! expected to hold.

use vstd::prelude::*;

verus! {

/// One column of the store: an append-only array addressed by `u32`
/// indices.
pub struct Column<T> {
    items: Vec<T>,
}

impl<T> View for Column<T> {
    type V = Seq<T>;

    closed spec fn view(&self) -> Seq<T> {
        self.items@
    }
}

impl<T> Column<T> {
    pub fn new() -> (c: Self)
        ensures
            c@ == Seq::<T>::empty(),
    {
        Column { items: Vec::new() }
    }

    /// Appends an item and returns its index. The index space is `u32`;
    /// a column that already holds more items than `u32` can address must
    /// not grow further.
    pub fn insert(&mut self, item: T) -> (index: u32)
        requires
            old(self)@.len() <= u32::MAX,
        ensures
            final(self)@ == old(self)@.push(item),
            index as nat == old(self)@.len(),
    {
        let index = self.items.len();
        self.items.push(item);
        index as u32
    }

    pub fn len(&self) -> (n: usize)
        ensures
            n == self@.len(),
    {
        self.items.len()
    }

    pub fn get(&self, index: usize) -> (item: &T)
        requires
            index < self@.len(),
        ensures
            *item == self@[index as int],
    {
        &self.items[index]
    }

    /// Overwrites the item at an existing index.
    pub fn set(&mut self, index: usize, item: T)
        requires
            index < old(self)@.len(),
        ensures
            final(self)@ == old(self)@.update(index as int, item),
    {
        self.items.set(index, item);
    }
}

impl<T> Default for Column<T> {
    fn default() -> (c: Self)
        ensures
            c@ == Seq::<T>::empty(),
    {
        Column::new()
    }
}

/// A column together with the mirror of what its GPU-side buffer holds.
/// Before `init_buffer` no buffer exists; afterwards the mirror records
/// exactly the contents the last upload pushed, so staleness is visible
/// in the model rather than silent.
pub struct GpuColumn<T> {
    column: Column<T>,
    buffer: Option<Vec<T>>,
}

impl<T: Copy> GpuColumn<T> {
    /// The items currently held on the CPU side.
    pub closed spec fn items(&self) -> Seq<T> {
        self.column@
    }

    /// The contents last pushed to the GPU-side buffer, if one exists.
    pub closed spec fn buffer_view(&self) -> Option<Seq<T>> {
        match self.buffer {
            Option::Some(ref b) => Option::Some(b@),
            Option::None => Option::None,
        }
    }

    /// A buffer exists (it has been initialized).
    pub open spec fn has_buffer(&self) -> bool {
        self.buffer_view() is Some
    }

    /// The GPU-side buffer exists and holds exactly the CPU-side items.
    pub open spec fn synced(&self) -> bool {
        self.buffer_view() == Option::Some(self.items())
    }

    pub fn new() -> (c: Self)
        ensures
            c.items() == Seq::<T>::empty(),
            c.buffer_view() is None,
    {
        GpuColumn { column: Column::new(), buffer: Option::None }
    }

    pub fn insert(&mut self, item: T) -> (index: u32)
        requires
            old(self).items().len() <= u32::MAX,
        ensures
            final(self).items() == old(self).items().push(item),
            index as nat == old(self).items().len(),
            final(self).buffer_view() == old(self).buffer_view(),
    {
        self.column.insert(item)
    }

    pub fn len(&self) -> (n: usize)
        ensures
            n == self.items().len(),
    {
        self.column.len()
    }

    pub fn get(&self, index: usize) -> (item: &T)
        requires
            index < self.items().len(),
        ensures
            *item == self.items()[index as int],
    {
        self.column.get(index)
    }

    pub fn set(&mut self, index: usize, item: T)
        requires
            index < old(self).items().len(),
        ensures
            final(self).items() == old(self).items().update(index as int, item),
            final(self).buffer_view() == old(self).buffer_view(),
    {
        self.column.set(index, item);
    }

    /// Creates the GPU-side buffer from the current contents.
    pub fn init_buffer(&mut self)
        ensures
            final(self).items() == old(self).items(),
            final(self).synced(),
    {
        let copy = self.copy_items();
        self.buffer = Option::Some(copy);
    }

    /// Re-uploads the whole column into the existing buffer, as after a
    /// mutation of one of its items.
    pub fn update_buffer(&mut self)
        requires
            old(self).has_buffer(),
        ensures
            final(self).items() == old(self).items(),
            final(self).synced(),
    {
        let copy = self.copy_items();
        self.buffer = Option::Some(copy);
    }

    /// The mirrored buffer contents, for the GPU side to upload.
    pub fn buffer_contents(&self) -> (contents: &Option<Vec<T>>)
        ensures
            match contents {
                Option::Some(b) => self.buffer_view() == Option::Some(b@),
                Option::None => self.buffer_view() is None,
            },
    {
        &self.buffer
    }

    fn copy_items(&self) -> (copy: Vec<T>)
        ensures
            copy@ == self.items(),
    {
        let mut copy: Vec<T> = Vec::new();
        let n = self.column.len();
        let mut i: usize = 0;
        while i < n
            invariant
                i <= n,
                n == self.items().len(),
                copy@ == self.items().subrange(0, i as int),
            decreases n - i,
        {
            copy.push(*self.column.get(i));
            i = i + 1;
        }
        assert(copy@ =~= self.items());
        copy
    }
}

} // verus!
