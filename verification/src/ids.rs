//! Lists of operation identifiers.

use vstd::prelude::*;

verus! {

/// `list` followed by those of `operations` that it lacks, each once.
pub open spec fn with_missing(list: Seq<u64>, operations: Seq<u64>) -> Seq<u64>
    decreases operations.len(),
{
    if operations.len() == 0 {
        list
    } else {
        let shorter = with_missing(list, operations.drop_last());
        if shorter.contains(operations.last()) {
            shorter
        } else {
            shorter.push(operations.last())
        }
    }
}

/// Adding the missing operations adds each once and nothing else.
pub proof fn lemma_with_missing(list: Seq<u64>, operations: Seq<u64>)
    requires
        list.no_duplicates(),
    ensures
        with_missing(list, operations).no_duplicates(),
        forall|id: u64|
            with_missing(list, operations).contains(id) <==> list.contains(id)
                || operations.contains(id),
        forall|k: int| 0 <= k < list.len() ==> with_missing(list, operations)[k] == list[k],
        list.len() <= with_missing(list, operations).len(),
    decreases operations.len(),
{
    if operations.len() > 0 {
        let front = operations.drop_last();
        let last = operations.last();
        lemma_with_missing(list, front);
        let shorter = with_missing(list, front);
        let longer = with_missing(list, operations);
        assert forall|id: u64| longer.contains(id) <==> list.contains(id) || operations.contains(
            id,
        ) by {
            if operations.contains(id) {
                let k = choose|k: int| 0 <= k < operations.len() && operations[k] == id;
                if k < front.len() {
                    assert(front[k] == id);
                }
            }
            if front.contains(id) {
                let k = choose|k: int| 0 <= k < front.len() && front[k] == id;
                assert(operations[k] == id);
            }
            assert(operations[operations.len() - 1] == last);
            if shorter.contains(id) {
                let k = choose|k: int| 0 <= k < shorter.len() && shorter[k] == id;
                if !shorter.contains(last) {
                    assert(longer[k] == id);
                }
            }
            if !shorter.contains(last) {
                assert(longer[shorter.len() as int] == last);
                if longer.contains(id) {
                    let k = choose|k: int| 0 <= k < longer.len() && longer[k] == id;
                    if k < shorter.len() {
                        assert(shorter[k] == id);
                    }
                }
            }
        }
    }
}

/// Whether `operation` occurs in `list`.
pub fn holds(list: &Vec<u64>, operation: u64) -> (found: bool)
    ensures
        found == list@.contains(operation),
{
    let mut i: usize = 0;
    while i < list.len()
        invariant
            i <= list@.len(),
            forall|j: int| 0 <= j < i ==> list@[j] != operation,
        decreases list@.len() - i,
    {
        if list[i] == operation {
            return true;
        }
        i += 1;
    }
    false
}

/// Whether every one of `operations` occurs in `included`.
pub fn holds_all(included: &Vec<u64>, operations: &Vec<u64>) -> (all: bool)
    ensures
        all == forall|k: int|
            0 <= k < operations@.len() ==> included@.contains(#[trigger] operations@[k]),
{
    let mut k: usize = 0;
    while k < operations.len()
        invariant
            k <= operations@.len(),
            forall|j: int| 0 <= j < k ==> included@.contains(#[trigger] operations@[j]),
        decreases operations@.len() - k,
    {
        if !holds(included, operations[k]) {
            return false;
        }
        k += 1;
    }
    true
}

/// A copy of a list of identifiers.
pub fn copy_ids(operations: &Vec<u64>) -> (copy: Vec<u64>)
    ensures
        copy@ == operations@,
{
    let mut copy: Vec<u64> = Vec::new();
    let mut i: usize = 0;
    while i < operations.len()
        invariant
            i <= operations@.len(),
            copy@ == operations@.take(i as int),
        decreases operations@.len() - i,
    {
        copy.push(operations[i]);
        assert(copy@ =~= operations@.take(i + 1));
        i += 1;
    }
    assert(operations@.take(i as int) =~= operations@);
    copy
}

/// Appends to `list` those of `operations` that it lacks.
pub fn add_missing(list: &mut Vec<u64>, operations: &Vec<u64>)
    ensures
        final(list)@ == with_missing(old(list)@, operations@),
{
    let ghost before = list@;
    let mut k: usize = 0;
    assert(operations@.take(0) =~= Seq::empty());
    while k < operations.len()
        invariant
            k <= operations@.len(),
            list@ == with_missing(before, operations@.take(k as int)),
        decreases operations@.len() - k,
    {
        assert(operations@.take(k + 1).drop_last() =~= operations@.take(k as int));
        if !holds(list, operations[k]) {
            list.push(operations[k]);
        }
        k += 1;
    }
    assert(operations@.take(k as int) =~= operations@);
}

} // verus!
