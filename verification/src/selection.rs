use vstd::prelude::*;

verus! {

/// The order key of the largest finite `f32`, where searches for the closest
/// candidate start. Candidates are ranked by the bit patterns of non-negative
/// `f32` distances, which order such numbers as the numbers themselves.
pub const FARTHEST_KEY: u32 = 0x7f7f_ffffu32;

/// `i` is the first candidate whose key is below `bound` and below the key of
/// every earlier candidate, and no later candidate has a smaller key.
pub open spec fn is_first_closest(keys: Seq<u32>, eligible: Seq<bool>, bound: u32, i: int) -> bool {
    &&& 0 <= i < keys.len()
    &&& eligible[i]
    &&& keys[i] < bound
    &&& forall|j: int| 0 <= j < i && #[trigger] eligible[j] ==> keys[j] > keys[i]
    &&& forall|j: int| i < j < keys.len() && #[trigger] eligible[j] ==> keys[j] >= keys[i]
}

/// No candidate has a key below `bound`.
pub open spec fn none_closer(keys: Seq<u32>, eligible: Seq<bool>, bound: u32) -> bool {
    forall|j: int| 0 <= j < keys.len() && #[trigger] eligible[j] ==> keys[j] >= bound
}

/// The first candidate with the smallest key below `bound`, as a scan that
/// replaces its pick only on a strictly smaller key finds it.
pub fn closest_index(keys: &Vec<u32>, eligible: &Vec<bool>, bound: u32) -> (r: Option<usize>)
    requires
        keys.len() == eligible.len(),
    ensures
        match r {
            Some(i) => is_first_closest(keys@, eligible@, bound, i as int),
            None => none_closer(keys@, eligible@, bound),
        },
{
    let mut best: Option<usize> = None;
    let mut best_key: u32 = bound;
    let mut i: usize = 0;
    while i < keys.len()
        invariant
            keys.len() == eligible.len(),
            i <= keys.len(),
            match best {
                Some(b) => {
                    &&& b < i
                    &&& eligible@[b as int]
                    &&& best_key == keys@[b as int]
                    &&& keys@[b as int] < bound
                    &&& forall|j: int| 0 <= j < b && #[trigger] eligible@[j] ==> keys@[j] > keys@[b as int]
                    &&& forall|j: int| b < j < i && #[trigger] eligible@[j] ==> keys@[j] >= keys@[b as int]
                },
                None => best_key == bound && forall|j: int|
                    0 <= j < i && #[trigger] eligible@[j] ==> keys@[j] >= bound,
            },
        decreases keys.len() - i,
    {
        if eligible[i] && keys[i] < best_key {
            best = Some(i);
            best_key = keys[i];
        }
        i = i + 1;
    }
    best
}

/// `i` is the first candidate whose key is above `floor` and above the key of
/// every earlier candidate, and no later candidate has a larger key.
pub open spec fn is_first_best(keys: Seq<u32>, floor: u32, i: int) -> bool {
    &&& 0 <= i < keys.len()
    &&& keys[i] > floor
    &&& forall|j: int| 0 <= j < i ==> #[trigger] keys[j] < keys[i]
    &&& forall|j: int| i < j < keys.len() ==> #[trigger] keys[j] <= keys[i]
}

/// The first candidate with the largest key above `floor`, as a scan that
/// replaces its pick only on a strictly larger key finds it.
pub fn best_index(keys: &Vec<u32>, floor: u32) -> (r: Option<usize>)
    ensures
        match r {
            Some(i) => is_first_best(keys@, floor, i as int),
            None => forall|j: int| 0 <= j < keys.len() ==> #[trigger] keys@[j] <= floor,
        },
{
    let mut best: Option<usize> = None;
    let mut best_key: u32 = floor;
    let mut i: usize = 0;
    while i < keys.len()
        invariant
            i <= keys.len(),
            match best {
                Some(b) => {
                    &&& b < i
                    &&& best_key == keys@[b as int]
                    &&& keys@[b as int] > floor
                    &&& forall|j: int| 0 <= j < b ==> #[trigger] keys@[j] < keys@[b as int]
                    &&& forall|j: int| b < j < i ==> #[trigger] keys@[j] <= keys@[b as int]
                },
                None => best_key == floor && forall|j: int| 0 <= j < i ==> #[trigger] keys@[j] <= floor,
            },
        decreases keys.len() - i,
    {
        if keys[i] > best_key {
            best = Some(i);
            best_key = keys[i];
        }
        i = i + 1;
    }
    best
}

/// The closest candidate is unique: two indices that are both the first
/// closest are the same.
pub proof fn lemma_first_closest_unique(keys: Seq<u32>, eligible: Seq<bool>, bound: u32, i: int, k: int)
    requires
        is_first_closest(keys, eligible, bound, i),
        is_first_closest(keys, eligible, bound, k),
    ensures
        i == k,
{
}

} // verus!
