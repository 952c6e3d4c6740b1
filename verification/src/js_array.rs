use vstd::prelude::*;

verus! {

/// A JavaScript array as the stages see it: a run of slots, each holding a
/// value or nothing. An empty slot (a hole, or `undefined`) reads as `None`.
pub struct JsArray<T> {
    slots: Vec<Option<T>>,
}

impl<T> View for JsArray<T> {
    type V = Seq<Option<T>>;

    closed spec fn view(&self) -> Seq<Option<T>> {
        self.slots@
    }
}

/// `n` empty slots.
pub open spec fn holes<T>(n: nat) -> Seq<Option<T>> {
    Seq::new(n, |_i: int| None::<T>)
}

/// The slots after `v` is written at index `i`: a write past the end first
/// fills the gap with holes, as a JavaScript array does.
pub open spec fn written<T>(s: Seq<Option<T>>, i: int, v: Option<T>) -> Seq<Option<T>> {
    if i < s.len() {
        s.update(i, v)
    } else {
        s + holes::<T>((i - s.len()) as nat) + seq![v]
    }
}

/// The slots after the array's `length` is set to `n`: cut back, or padded
/// with holes.
pub open spec fn resized<T>(s: Seq<Option<T>>, n: nat) -> Seq<Option<T>> {
    if n <= s.len() {
        s.take(n as int)
    } else {
        s + holes::<T>((n - s.len()) as nat)
    }
}

/// The slots of an array that holds `values`, in order.
pub open spec fn filled<T>(values: Seq<T>) -> Seq<Option<T>> {
    values.map_values(|v: T| Some(v))
}

/// A value written at an index is read back there, and the array then
/// reaches at least past that index.
pub proof fn law_read_after_write<T>(s: Seq<Option<T>>, i: nat, v: Option<T>)
    ensures
        written(s, i as int, v)[i as int] == v,
        written(s, i as int, v).len() == if i < s.len() {
            s.len()
        } else {
            i + 1
        },
        forall|j: int| 0 <= j < s.len() && j != i ==> #[trigger] written(s, i as int, v)[j] == s[j],
{
}

impl<T> JsArray<T> {
    /// An empty array.
    pub fn new() -> (a: Self)
        ensures
            a@ == Seq::<Option<T>>::empty(),
    {
        JsArray { slots: Vec::new() }
    }

    /// An array with the given slots.
    pub fn from_slots(slots: Vec<Option<T>>) -> (a: Self)
        ensures
            a@ == slots@,
    {
        JsArray { slots }
    }

    /// The slots, in order.
    pub fn as_slots(&self) -> (r: &Vec<Option<T>>)
        ensures
            r@ == self@,
    {
        &self.slots
    }

    /// The slots, in order, handed over.
    pub fn into_slots(self) -> (r: Vec<Option<T>>)
        ensures
            r@ == self@,
    {
        self.slots
    }

    /// The array's `length`.
    pub fn length(&self) -> (n: usize)
        ensures
            n == self@.len(),
    {
        self.slots.len()
    }

    /// Pads the array with holes up to `n` slots.
    fn pad_to(&mut self, n: usize)
        requires
            old(self)@.len() <= n,
        ensures
            final(self)@ == old(self)@ + holes::<T>((n - old(self)@.len()) as nat),
    {
        let ghost start = self.slots@;
        while self.slots.len() < n
            invariant
                start.len() <= self.slots@.len() <= n,
                self.slots@ == start + holes::<T>((self.slots@.len() - start.len()) as nat),
            decreases n - self.slots.len(),
        {
            self.slots.push(None);
            assert(self.slots@ == start + holes::<T>((self.slots@.len() - start.len()) as nat));
        }
    }

    /// Writes `v` into slot `i`, growing the array with holes when `i` lies
    /// past its end.
    pub fn put(&mut self, i: usize, v: Option<T>)
        requires
            i < usize::MAX,
        ensures
            final(self)@ == written(old(self)@, i as int, v),
    {
        if i < self.slots.len() {
            self.slots.set(i, v);
        } else {
            self.pad_to(i);
            self.slots.push(v);
        }
    }

    /// `array[i] = v`.
    pub fn set_index(&mut self, i: usize, v: T)
        requires
            i < usize::MAX,
        ensures
            final(self)@ == written(old(self)@, i as int, Some(v)),
    {
        self.put(i, Some(v));
    }

    /// `delete array[i]`: the slot becomes a hole and the length stays.
    pub fn delete_index(&mut self, i: usize)
        ensures
            final(self)@ == (if i < old(self)@.len() {
                old(self)@.update(i as int, None)
            } else {
                old(self)@
            }),
    {
        if i < self.slots.len() {
            self.slots.set(i, None);
        }
    }

    /// Appends the slot `v` (a value, or nothing) at index `length`.
    pub fn push_slot(&mut self, v: Option<T>)
        ensures
            final(self)@ == old(self)@.push(v),
    {
        self.slots.push(v);
    }

    /// Appends `v` at index `length`.
    pub fn push(&mut self, v: T)
        ensures
            final(self)@ == old(self)@.push(Some(v)),
    {
        self.slots.push(Some(v));
    }

    /// Sets the `length` to `n`: the array is cut back, or padded with holes.
    pub fn resize(&mut self, n: usize)
        ensures
            final(self)@ == resized(old(self)@, n as nat),
    {
        if n <= self.slots.len() {
            self.slots.truncate(n);
        } else {
            self.pad_to(n);
        }
    }
}

impl<T: Copy> JsArray<T> {
    /// An array that holds `values`, in order, with no holes.
    pub fn from_values(values: Vec<T>) -> (a: Self)
        ensures
            a@ == filled(values@),
    {
        let mut slots: Vec<Option<T>> = Vec::new();
        let n = values.len();
        let mut i: usize = 0;
        while i < n
            invariant
                n == values@.len(),
                i <= n,
                slots@ == filled(values@.take(i as int)),
            decreases n - i,
        {
            slots.push(Some(values[i]));
            assert(values@.take(i + 1) == values@.take(i as int).push(values@[i as int]));
            assert(filled(values@.take(i + 1)) == filled(values@.take(i as int)).push(Some(values@[i as int])));
            i = i + 1;
        }
        assert(values@.take(n as int) == values@);
        JsArray { slots }
    }

    /// `array[i]`: the value in slot `i`, or `None` for a hole or an index
    /// past the end.
    pub fn get_index(&self, i: usize) -> (r: Option<T>)
        ensures
            r == (if i < self@.len() {
                self@[i as int]
            } else {
                None
            }),
    {
        if i < self.slots.len() {
            self.slots[i]
        } else {
            None
        }
    }
}

/// The array operations that the stages build on.
pub trait LocalArrayExtension<T> {
    /// Empties the array.
    fn clear(&mut self);

    /// Sets `length` from a JavaScript integer.
    fn set_length(&mut self, value: i32);

    /// Appends the documents of a collection, in the order given.
    fn collection_load(&mut self, items: Vec<T>);

    /// Writes each slot of `origin` into the same index of this array.
    fn copy(&mut self, origin: &Self);
}

impl<T: Copy> LocalArrayExtension<T> for JsArray<T> {
    /// Ensures the array holds no slot.
    fn clear(&mut self)
        ensures
            final(self)@ == Seq::<Option<T>>::empty(),
    {
        self.resize(0);
    }

    /// A negative length is refused by JavaScript, and the array is left as
    /// it was; any other length cuts the array back or pads it with holes.
    fn set_length(&mut self, value: i32)
        ensures
            final(self)@ == (if value < 0 {
                old(self)@
            } else {
                resized(old(self)@, value as nat)
            }),
    {
        if value >= 0 {
            self.resize(value as usize);
        }
    }

    /// The documents come after the slots the array already holds.
    fn collection_load(&mut self, items: Vec<T>)
        ensures
            final(self)@ == old(self)@ + filled(items@),
    {
        let ghost start = self.slots@;
        let n = items.len();
        let mut i: usize = 0;
        while i < n
            invariant
                n == items@.len(),
                i <= n,
                self.slots@ == start + filled(items@.take(i as int)),
            decreases n - i,
        {
            self.slots.push(Some(items[i]));
            assert(items@.take(i + 1) == items@.take(i as int).push(items@[i as int]));
            assert(filled(items@.take(i + 1)) == filled(items@.take(i as int)).push(Some(items@[i as int])));
            i = i + 1;
        }
        assert(items@.take(n as int) == items@);
    }

    /// Slot `i` of this array becomes slot `i` of `origin` for each index of
    /// `origin`; slots past the end of `origin` stay.
    fn copy(&mut self, origin: &Self)
        ensures
            final(self)@.len() == (if old(self)@.len() < origin@.len() {
                origin@.len()
            } else {
                old(self)@.len()
            }),
            forall|i: int| 0 <= i < origin@.len() ==> #[trigger] final(self)@[i] == origin@[i],
            forall|i: int|
                origin@.len() <= i < old(self)@.len() ==> #[trigger] final(self)@[i] == old(self)@[i],
    {
        let ghost start = self.slots@;
        let n = origin.slots.len();
        if self.slots.len() < n {
            self.pad_to(n);
        }
        let mut i: usize = 0;
        while i < n
            invariant
                n == origin@.len(),
                i <= n,
                self.slots@.len() == (if start.len() < n {
                    n as int
                } else {
                    start.len() as int
                }),
                forall|j: int| 0 <= j < i ==> #[trigger] self.slots@[j] == origin@[j],
                forall|j: int| i <= j < start.len() ==> #[trigger] self.slots@[j] == start[j],
            decreases n - i,
        {
            self.slots.set(i, origin.slots[i]);
            i = i + 1;
        }
    }
}

} // verus!
