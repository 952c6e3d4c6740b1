use std::collections::VecDeque;
use vstd::prelude::*;

use crate::js_array::{holes, resized, JsArray};

verus! {

/// The slots that a filter keeps: slot `i` of `items` stays exactly when
/// `keep[i]` holds, in the order they had.
pub open spec fn kept<T>(items: Seq<Option<T>>, keep: Seq<bool>) -> Seq<Option<T>>
    decreases keep.len(),
{
    if keep.len() == 0 {
        Seq::<Option<T>>::empty()
    } else {
        let n = keep.len() - 1;
        let before = kept(items, keep.take(n));
        if keep[n] {
            before.push(items[n])
        } else {
            before
        }
    }
}

/// The array while a filter is under way, after it has decided on the first
/// `keep.len()` slots: the kept slots packed at the front, holes where the
/// rest of the decided slots were, and the undecided slots as they were.
pub open spec fn mid_run<T>(items: Seq<Option<T>>, keep: Seq<bool>) -> Seq<Option<T>> {
    let k = kept(items, keep);
    k + holes::<T>((keep.len() - k.len()) as nat) + items.skip(keep.len() as int)
}

/// What a completed filter leaves: the kept slots, unless their number does
/// not fit in a JavaScript integer, in which case the new length is refused
/// and the array stays as the run left it.
pub open spec fn filtered<T>(items: Seq<Option<T>>, keep: Seq<bool>) -> Seq<Option<T>> {
    if kept(items, keep).len() <= i32::MAX {
        kept(items, keep)
    } else {
        mid_run(items, keep)
    }
}

/// Never more slots are kept than were decided on.
pub proof fn lemma_kept_len<T>(items: Seq<Option<T>>, keep: Seq<bool>)
    ensures
        kept(items, keep).len() <= keep.len(),
    decreases keep.len(),
{
    if keep.len() > 0 {
        lemma_kept_len(items, keep.take(keep.len() - 1));
    }
}

/// While a filter runs, the array keeps its length: items move and slots
/// empty, but none is added or cut.
pub proof fn law_run_keeps_length<T>(items: Seq<Option<T>>, keep: Seq<bool>)
    requires
        keep.len() <= items.len(),
    ensures
        mid_run(items, keep).len() == items.len(),
{
    lemma_kept_len(items, keep);
}

/// A filter that keeps every slot gives the array back, holes and all.
pub proof fn law_keep_all<T>(items: Seq<Option<T>>)
    ensures
        kept(items, Seq::new(items.len(), |_i: int| true)) == items,
    decreases items.len(),
{
    let n = items.len();
    if n > 0 {
        let pre = items.take(n - 1);
        law_keep_all(pre);
        let all = Seq::new(n, |_i: int| true);
        assert(all.take(n - 1) =~= Seq::new((n - 1) as nat, |_i: int| true));
        lemma_kept_prefix(items, pre, all.take(n - 1));
        assert(kept(items, all) =~= items);
    } else {
        assert(kept(items, Seq::new(0, |_i: int| true)) =~= items);
    }
}

/// A filter that keeps no slot leaves nothing.
pub proof fn law_keep_none<T>(items: Seq<Option<T>>, keep: Seq<bool>)
    requires
        forall|i: int| 0 <= i < keep.len() ==> !keep[i],
    ensures
        kept(items, keep) == Seq::<Option<T>>::empty(),
    decreases keep.len(),
{
    if keep.len() > 0 {
        law_keep_none(items, keep.take(keep.len() - 1));
    }
}

/// Which slots are kept depends only on the slots decided on.
proof fn lemma_kept_prefix<T>(items: Seq<Option<T>>, short: Seq<Option<T>>, keep: Seq<bool>)
    requires
        keep.len() <= short.len() <= items.len(),
        short == items.take(short.len() as int),
    ensures
        kept(items, keep) == kept(short, keep),
    decreases keep.len(),
{
    if keep.len() > 0 {
        lemma_kept_prefix(items, short, keep.take(keep.len() - 1));
    }
}

/// One more decision extends the kept slots by the decided slot or by nothing.
proof fn lemma_kept_push<T>(items: Seq<Option<T>>, keep: Seq<bool>, b: bool)
    ensures
        kept(items, keep.push(b)) == (if b {
            kept(items, keep).push(items[keep.len() as int])
        } else {
            kept(items, keep)
        }),
{
    assert(keep.push(b).take(keep.len() as int) =~= keep);
}

/// A `$filter` stage under way over a JavaScript array. The predicate is
/// JavaScript, so the caller runs it on `current()` and hands the verdict to
/// `step`; the run moves each kept item forward into the earliest slot that
/// an earlier verdict freed.
pub struct FilterRun<T> {
    array: JsArray<T>,
    queue: VecDeque<usize>,
    index: usize,
    removed: usize,
    items: Ghost<Seq<Option<T>>>,
    decisions: Ghost<Seq<bool>>,
}

impl<T: Copy> FilterRun<T> {
    /// The array the run started from.
    pub closed spec fn items(&self) -> Seq<Option<T>> {
        self.items@
    }

    /// The verdicts handed in so far, one per slot, from the front.
    pub closed spec fn decisions(&self) -> Seq<bool> {
        self.decisions@
    }

    /// The run's own bookkeeping is in order.
    pub closed spec fn wf(&self) -> bool {
        let k = kept(self.items@, self.decisions@).len();
        &&& self.index == self.decisions@.len()
        &&& self.index <= self.items@.len()
        &&& self.items@.len() <= usize::MAX
        &&& self.array@ == mid_run(self.items@, self.decisions@)
        &&& self.removed == self.index - k
        &&& self.queue@ == Seq::new((self.index - k) as nat, |j: int| (k + j) as usize)
    }

    /// Starts a filter over `array`.
    pub fn new(array: JsArray<T>) -> (run: Self)
        ensures
            run.wf(),
            run.items() == array@,
            run.decisions() == Seq::<bool>::empty(),
    {
        let ghost items = array@;
        let len = array.length();
        let run = FilterRun {
            array,
            queue: VecDeque::new(),
            index: 0,
            removed: 0,
            items: Ghost(items),
            decisions: Ghost(Seq::empty()),
        };
        assert(kept(items, Seq::<bool>::empty()) =~= Seq::<Option<T>>::empty());
        assert(holes::<T>(0) =~= Seq::<Option<T>>::empty());
        assert(items.skip(0) =~= items);
        assert(mid_run(items, Seq::<bool>::empty()) =~= items);
        assert(run.queue@ =~= Seq::new(0nat, |j: int| (0 + j) as usize));
        assert(run.array@ == mid_run(items, Seq::<bool>::empty()));
        assert(items.len() == len);
        run
    }

    /// Every slot has had its verdict.
    pub fn is_done(&self) -> (b: bool)
        requires
            self.wf(),
        ensures
            b == (self.decisions().len() == self.items().len()),
    {
        proof { lemma_kept_len(self.items@, self.decisions@); }
        self.index >= self.array.length()
    }

    /// The item that the next verdict is about: the next undecided slot.
    pub fn current(&self) -> (item: Option<T>)
        requires
            self.wf(),
            self.decisions().len() < self.items().len(),
        ensures
            item == self.items()[self.decisions().len() as int],
    {
        proof { lemma_kept_len(self.items@, self.decisions@); }
        self.array.get_index(self.index)
    }

    /// Hands in the verdict on the current item.
    pub fn step(&mut self, keep: bool)
        requires
            old(self).wf(),
            old(self).decisions().len() < old(self).items().len(),
        ensures
            final(self).wf(),
            final(self).items() == old(self).items(),
            final(self).decisions() == old(self).decisions().push(keep),
    {
        let ghost items = self.items@;
        let ghost dec = self.decisions@;
        let ghost k = kept(items, dec).len();
        proof {
            lemma_kept_len(items, dec);
            lemma_kept_push(items, dec, keep);
        }
        let index = self.index;
        let item = self.array.get_index(index);
        assert(item == items[index as int]);
        if keep {
            match self.queue.pop_front() {
                Some(new_index) => {
                    assert(new_index == k);
                    self.array.delete_index(index);
                    self.queue.push_back(index);
                    self.array.put(new_index, item);
                },
                None => {},
            }
        } else {
            self.array.delete_index(index);
            self.queue.push_back(index);
            self.removed = self.removed + 1;
        }
        self.index = index + 1;
        self.decisions = Ghost(dec.push(keep));
        proof {
            let nd = dec.push(keep);
            let nk = kept(items, nd).len();
            assert(self.array@ =~= mid_run(items, nd));
            assert(self.queue@ =~= Seq::new((self.index - nk) as nat, |j: int| (nk + j) as usize));
        }
    }

    /// Gives the array back as it stands, with the run cut short: what the
    /// stage leaves behind when the predicate throws.
    pub fn into_array(self) -> (array: JsArray<T>)
        requires
            self.wf(),
        ensures
            array@ == mid_run(self.items(), self.decisions()),
    {
        self.array
    }

    /// Ends a run that has decided on every slot: the array's length is set
    /// to the number of kept items.
    pub fn finish(self) -> (array: JsArray<T>)
        requires
            self.wf(),
            self.decisions().len() == self.items().len(),
        ensures
            array@ == filtered(self.items(), self.decisions()),
    {
        let ghost items = self.items@;
        let ghost dec = self.decisions@;
        proof { lemma_kept_len(items, dec); }
        let mut array = self.array;
        let count = self.index - self.removed;
        if count <= 0x7fff_ffff {
            array.resize(count);
            assert(items.skip(dec.len() as int) =~= Seq::<Option<T>>::empty());
            assert(resized(mid_run(items, dec), count as nat) =~= kept(items, dec));
        }
        array
    }
}

/// Filters `array` with the verdicts known in advance, one per slot.
pub fn filter_slots<T: Copy>(array: JsArray<T>, verdicts: &Vec<bool>) -> (r: JsArray<T>)
    requires
        verdicts@.len() == array@.len(),
    ensures
        r@ == filtered(array@, verdicts@),
{
    let ghost items = array@;
    let mut run = FilterRun::new(array);
    let n = verdicts.len();
    let mut i: usize = 0;
    while i < n
        invariant
            n == verdicts@.len(),
            n == items.len(),
            i <= n,
            run.wf(),
            run.items() == items,
            run.decisions() == verdicts@.take(i as int),
        decreases n - i,
    {
        run.step(verdicts[i]);
        assert(verdicts@.take(i + 1) =~= verdicts@.take(i as int).push(verdicts@[i as int]));
        i = i + 1;
    }
    assert(verdicts@.take(n as int) =~= verdicts@);
    run.finish()
}

} // verus!
