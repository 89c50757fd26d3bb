//! Ordered diff application: the pure algorithm that applies a batch of
//! structural edits, in arrival order, to an in-memory ordered sequence.

use vstd::prelude::*;

verus! {

/// One edit to an ordered sequence, as a producer reports it.
///
/// `SetItem` is the only in-place edit; every other variant changes the
/// structure (length or order) of the sequence.
pub enum DiffOp<T> {
    Append { values: Vec<T> },
    PushFront { value: T },
    PushBack { value: T },
    PopFront,
    PopBack,
    Insert { index: usize, value: T },
    SetItem { index: usize, value: T },
    Remove { index: usize },
    Truncate { length: usize },
    Reset { values: Vec<T> },
    Clear,
}

/// Whether `op` may be applied to a sequence of length `len`.
///
/// Producers are trusted to send valid indices, so this is a precondition of
/// application, not a recoverable runtime branch. Growth is also bounded so
/// that the resulting length still fits the machine word.
pub open spec fn diff_valid<T>(len: int, op: DiffOp<T>) -> bool {
    match op {
        DiffOp::Append { values } => len + values@.len() <= usize::MAX,
        DiffOp::PushFront { value: _ } => len + 1 <= usize::MAX,
        DiffOp::PushBack { value: _ } => len + 1 <= usize::MAX,
        DiffOp::PopFront => true,
        DiffOp::PopBack => true,
        DiffOp::Insert { index, value: _ } => index <= len && len + 1 <= usize::MAX,
        DiffOp::SetItem { index, value: _ } => index < len,
        DiffOp::Remove { index } => index < len,
        DiffOp::Truncate { length: _ } => true,
        DiffOp::Reset { values: _ } => true,
        DiffOp::Clear => true,
    }
}

/// The sequence that applying `op` to `s` yields.
///
/// A pop on an empty sequence and an over-long truncation leave the sequence
/// unchanged; `Reset` and `Clear` are full replacements.
pub open spec fn diff_apply<T>(s: Seq<T>, op: DiffOp<T>) -> Seq<T> {
    match op {
        DiffOp::Append { values } => s + values@,
        DiffOp::PushFront { value } => seq![value] + s,
        DiffOp::PushBack { value } => s.push(value),
        DiffOp::PopFront => if s.len() == 0 { s } else { s.drop_first() },
        DiffOp::PopBack => if s.len() == 0 { s } else { s.drop_last() },
        DiffOp::Insert { index, value } => s.insert(index as int, value),
        DiffOp::SetItem { index, value } => s.update(index as int, value),
        DiffOp::Remove { index } => s.remove(index as int),
        DiffOp::Truncate { length } => if length >= s.len() { s } else { s.take(length as int) },
        DiffOp::Reset { values } => values@,
        DiffOp::Clear => Seq::empty(),
    }
}

/// Whether a whole batch is valid: each operation must be valid against the
/// sequence produced by the operations before it, since later edits may
/// reference indices created by earlier ones.
pub open spec fn batch_valid<T>(s: Seq<T>, ops: Seq<DiffOp<T>>) -> bool
    decreases ops.len(),
{
    ops.len() == 0 || {
        &&& diff_valid(s.len() as int, ops[0])
        &&& batch_valid(diff_apply(s, ops[0]), ops.drop_first())
    }
}

/// The sequence that applying a whole batch to `s` yields, strictly in
/// arrival order.
pub open spec fn batch_apply<T>(s: Seq<T>, ops: Seq<DiffOp<T>>) -> Seq<T>
    decreases ops.len(),
{
    if ops.len() == 0 {
        s
    } else {
        batch_apply(diff_apply(s, ops[0]), ops.drop_first())
    }
}

/// An in-place overwrite cannot move chunk boundaries; everything else can.
pub open spec fn is_in_place_op<T>(op: DiffOp<T>) -> bool {
    op matches DiffOp::SetItem { index: _, value: _ }
}

/// Whether a batch contains at least one structural (not in-place) edit.
pub open spec fn batch_has_structural<T>(ops: Seq<DiffOp<T>>) -> bool {
    exists|i: int| 0 <= i < ops.len() && !is_in_place_op(ops[i])
}

/// Applying a batch is a pure function of the starting sequence and the batch
/// alone: equal inputs always yield sequences of equal length and equal
/// element order, with no hidden state.
pub proof fn lemma_batch_apply_deterministic<T>(
    s1: Seq<T>,
    ops1: Seq<DiffOp<T>>,
    s2: Seq<T>,
    ops2: Seq<DiffOp<T>>,
)
    requires
        s1 == s2,
        ops1 == ops2,
    ensures
        batch_apply(s1, ops1) == batch_apply(s2, ops2),
{
}

/// Applies one edit to the sequence.
pub fn apply_diff<T>(v: &mut Vec<T>, op: DiffOp<T>)
    requires
        diff_valid(old(v)@.len() as int, op),
    ensures
        final(v)@ == diff_apply(old(v)@, op),
{
    match op {
        DiffOp::Append { values } => {
            let mut values = values;
            v.append(&mut values);
        }
        DiffOp::PushFront { value } => {
            v.insert(0, value);
            assert(v@ =~= seq![value] + old(v)@);
        }
        DiffOp::PushBack { value } => {
            v.push(value);
        }
        DiffOp::PopFront => {
            if v.len() > 0 {
                v.remove(0);
                assert(v@ =~= old(v)@.drop_first());
            }
        }
        DiffOp::PopBack => {
            if v.len() > 0 {
                v.pop();
            }
        }
        DiffOp::Insert { index, value } => {
            v.insert(index, value);
        }
        DiffOp::SetItem { index, value } => {
            v.set(index, value);
        }
        DiffOp::Remove { index } => {
            v.remove(index);
        }
        DiffOp::Truncate { length } => {
            v.truncate(length);
            assert(v@ =~= diff_apply(old(v)@, DiffOp::Truncate::<T> { length }));
        }
        DiffOp::Reset { values } => {
            *v = values;
        }
        DiffOp::Clear => {
            v.clear();
            assert(v@ =~= Seq::<T>::empty());
        }
    }
}

/// Applies a whole batch to the sequence, strictly in arrival order.
pub fn apply_batch<T>(v: &mut Vec<T>, batch: Vec<DiffOp<T>>)
    requires
        batch_valid(old(v)@, batch@),
    ensures
        final(v)@ == batch_apply(old(v)@, batch@),
{
    let ghost s0 = v@;
    let ghost ops0 = batch@;
    let mut batch = batch;
    while batch.len() > 0
        invariant
            batch_valid(v@, batch@),
            batch_apply(s0, ops0) == batch_apply(v@, batch@),
        decreases batch.len(),
    {
        let ghost pre_seq = v@;
        let ghost pre_ops = batch@;
        let op = batch.remove(0);
        proof {
            assert(batch@ =~= pre_ops.drop_first());
            assert(op == pre_ops[0]);
        }
        apply_diff(v, op);
    }
}

/// Whether applying this batch requires the chunk view to be recomputed:
/// true exactly when some edit in it is structural.
pub fn batch_needs_reload<T>(batch: &Vec<DiffOp<T>>) -> (r: bool)
    ensures
        r == batch_has_structural(batch@),
{
    let mut i: usize = 0;
    while i < batch.len()
        invariant
            i <= batch@.len(),
            forall|j: int| 0 <= j < i ==> is_in_place_op(batch@[j]),
        decreases batch@.len() - i,
    {
        let in_place = match &batch[i] {
            DiffOp::SetItem { index: _, value: _ } => true,
            _ => false,
        };
        if !in_place {
            assert(!is_in_place_op(batch@[i as int]));
            return true;
        }
        i = i + 1;
    }
    false
}

} // verus!
