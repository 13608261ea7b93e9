//! Which of a track's encodings is fetched.
//!
//! Four tiers, in this order: progressive and high quality, segmented
//! stream and high quality, progressive and standard quality, segmented
//! stream and standard quality. The first entry of the best tier that the
//! list holds is taken; an entry of no tier is never taken.

use vstd::prelude::*;
use crate::error::AppError;
use crate::soundcloud::model::Transcoding;
use crate::text::str_eq;

verus! {

/// The number that stands for "no tier".
pub const NO_TIER: u8 = 4;

/// The tier of an encoding, 0 for the best; `NO_TIER` for an encoding whose
/// tags are of no tier.
pub open spec fn tier_of(t: Transcoding) -> u8 {
    let progressive = t.format.protocol@ == "progressive"@;
    let segmented = t.format.protocol@ == "hls"@;
    let high = t.quality@ == "hq"@;
    let standard = t.quality@ == "sq"@;
    if progressive && high {
        0
    } else if segmented && high {
        1
    } else if progressive && standard {
        2
    } else if segmented && standard {
        3
    } else {
        NO_TIER
    }
}

/// `i` is the entry that is taken: it has a tier, no entry has a better one,
/// and no entry before it has the same.
pub open spec fn is_selection(list: Seq<Transcoding>, i: int) -> bool {
    &&& 0 <= i < list.len()
    &&& tier_of(list[i]) < NO_TIER
    &&& forall|j: int| 0 <= j < list.len() ==> tier_of(list[i]) <= tier_of(#[trigger] list[j])
    &&& forall|j: int| 0 <= j < i ==> tier_of(#[trigger] list[j]) != tier_of(list[i])
}

/// No entry of the list has a tier.
pub open spec fn nothing_fits(list: Seq<Transcoding>) -> bool {
    forall|j: int| 0 <= j < list.len() ==> tier_of(#[trigger] list[j]) == NO_TIER
}

/// The tier of an encoding.
pub fn tier(t: &Transcoding) -> (r: u8)
    ensures
        r == tier_of(*t),
{
    let progressive = str_eq(t.format.protocol.as_str(), "progressive");
    let segmented = str_eq(t.format.protocol.as_str(), "hls");
    let high = str_eq(t.quality.as_str(), "hq");
    let standard = str_eq(t.quality.as_str(), "sq");
    if progressive && high {
        0
    } else if segmented && high {
        1
    } else if progressive && standard {
        2
    } else if segmented && standard {
        3
    } else {
        NO_TIER
    }
}

/// The position of the entry that is taken; `None` where no entry has a
/// tier.
pub fn select_index(list: &Vec<Transcoding>) -> (r: Option<usize>)
    ensures
        r is None <==> nothing_fits(list@),
        match r {
            Some(i) => is_selection(list@, i as int),
            None => true,
        },
{
    let mut best: Option<usize> = None;
    let mut best_tier: u8 = NO_TIER;
    let mut i: usize = 0;
    while i < list.len()
        invariant
            i <= list.len(),
            best_tier <= NO_TIER,
            forall|j: int| 0 <= j < i ==> best_tier <= tier_of(#[trigger] list@[j]),
            match best {
                Some(b) => {
                    &&& b < i
                    &&& best_tier < NO_TIER
                    &&& tier_of(list@[b as int]) == best_tier
                    &&& forall|j: int| 0 <= j < b ==> tier_of(#[trigger] list@[j]) != best_tier
                },
                None => best_tier == NO_TIER,
            },
        decreases list.len() - i,
    {
        let t = tier(&list[i]);
        if t < best_tier {
            best_tier = t;
            best = Some(i);
        }
        i += 1;
    }
    best
}

/// The text of the error where no entry has a tier.
pub open spec fn no_transcoding_text() -> Seq<char> {
    "No suitable transcodings found"@
}

/// The entry that is taken, or `NotFound` where no entry has a tier.
pub fn select(list: &Vec<Transcoding>) -> (r: Result<&Transcoding, AppError>)
    ensures
        r is Err <==> nothing_fits(list@),
        match r {
            Ok(t) => exists|i: int| is_selection(list@, i) && *t == list@[i],
            Err(e) => e matches AppError::NotFound(m) && m@ == no_transcoding_text(),
        },
{
    match select_index(list) {
        Some(i) => Ok(&list[i]),
        None => Err(AppError::NotFound("No suitable transcodings found".to_owned())),
    }
}

/// At most one entry is the one that is taken.
pub proof fn lemma_selection_unique(list: Seq<Transcoding>, i: int, j: int)
    requires
        is_selection(list, i),
        is_selection(list, j),
    ensures
        i == j,
{
}

/// Where the list holds a progressive entry of high quality, the entry that
/// is taken is the first such entry, wherever it stands and whatever stands
/// beside it.
pub proof fn lemma_progressive_high_wins(list: Seq<Transcoding>, k: int, i: int)
    requires
        0 <= k < list.len(),
        tier_of(list[k]) == 0,
        is_selection(list, i),
    ensures
        tier_of(list[i]) == 0,
        i <= k,
        forall|j: int| 0 <= j < i ==> tier_of(#[trigger] list[j]) != 0,
{
}

/// A list of nothing but segmented entries of standard quality gives its
/// first entry.
pub proof fn lemma_only_segmented_standard(list: Seq<Transcoding>)
    requires
        list.len() > 0,
        forall|j: int| 0 <= j < list.len() ==> tier_of(#[trigger] list[j]) == 3,
    ensures
        is_selection(list, 0),
{
}

/// An empty list gives nothing.
pub proof fn lemma_empty_list_fits_nothing(list: Seq<Transcoding>)
    requires
        list.len() == 0,
    ensures
        nothing_fits(list),
        forall|i: int| !is_selection(list, i),
{
}

/// The first entry of the tier of entry `k`.
pub proof fn lemma_first_of_tier(list: Seq<Transcoding>, k: int) -> (i: int)
    requires
        0 <= k < list.len(),
    ensures
        0 <= i <= k,
        tier_of(list[i]) == tier_of(list[k]),
        forall|j: int| 0 <= j < i ==> tier_of(#[trigger] list[j]) != tier_of(list[k]),
    decreases k,
{
    if exists|j: int| 0 <= j < k && tier_of(#[trigger] list[j]) == tier_of(list[k]) {
        let j = choose|j: int| 0 <= j < k && tier_of(#[trigger] list[j]) == tier_of(list[k]);
        lemma_first_of_tier(list, j)
    } else {
        k
    }
}

/// A list that holds a progressive entry of high quality has a selection,
/// and it is such an entry.
pub proof fn lemma_progressive_high_is_selected(list: Seq<Transcoding>, k: int) -> (i: int)
    requires
        0 <= k < list.len(),
        tier_of(list[k]) == 0,
    ensures
        is_selection(list, i),
        tier_of(list[i]) == 0,
{
    lemma_first_of_tier(list, k)
}

} // verus!
