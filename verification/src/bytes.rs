use vstd::prelude::*;

verus! {

/// Whether two byte strings hold the same bytes.
pub fn bytes_eq(a: &Vec<u8>, b: &Vec<u8>) -> (same: bool)
    ensures
        same == (a@ == b@),
{
    if a.len() != b.len() {
        return false;
    }
    let mut i: usize = 0;
    while i < a.len()
        invariant
            a.len() == b.len(),
            0 <= i <= a.len(),
            forall|j: int| 0 <= j < i ==> a@[j] == b@[j],
        decreases a.len() - i,
    {
        if a[i] != b[i] {
            return false;
        }
        i = i + 1;
    }
    proof {
        assert(a@ =~= b@);
    }
    true
}

/// Whether `needle` occurs among `haystack`.
pub fn contains_bytes(haystack: &Vec<Vec<u8>>, needle: &Vec<u8>) -> (found: bool)
    ensures
        found == (exists|j: int| 0 <= j < haystack@.len() && #[trigger] haystack@[j]@ == needle@),
{
    let mut i: usize = 0;
    while i < haystack.len()
        invariant
            0 <= i <= haystack.len(),
            forall|j: int| 0 <= j < i ==> #[trigger] haystack@[j]@ != needle@,
        decreases haystack.len() - i,
    {
        if bytes_eq(&haystack[i], needle) {
            return true;
        }
        i = i + 1;
    }
    false
}

/// No two entries hold the same bytes.
pub open spec fn distinct_bytes(entries: Seq<Vec<u8>>) -> bool {
    forall|i: int, j: int|
        0 <= i < j < entries.len() ==> (#[trigger] entries[i])@ != (#[trigger] entries[j])@
}

/// Whether no two entries hold the same bytes.
pub fn all_distinct(entries: &Vec<Vec<u8>>) -> (distinct: bool)
    ensures
        distinct == distinct_bytes(entries@),
{
    let mut j: usize = 0;
    while j < entries.len()
        invariant
            0 <= j <= entries.len(),
            forall|a: int, b: int|
                0 <= a < b < j ==> (#[trigger] entries@[a])@ != (#[trigger] entries@[b])@,
        decreases entries.len() - j,
    {
        let mut i: usize = 0;
        while i < j
            invariant
                0 <= i <= j < entries.len(),
                forall|a: int| 0 <= a < i ==> (#[trigger] entries@[a])@ != entries@[j as int]@,
            decreases j - i,
        {
            if bytes_eq(&entries[i], &entries[j]) {
                return false;
            }
            i = i + 1;
        }
        j = j + 1;
    }
    true
}

} // verus!
