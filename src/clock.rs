//! Runs of ticks.
use vstd::prelude::*;

verus! {

/// Total length of a run of ticks, in ms.
pub open spec fn total_ms(dts: Seq<u32>) -> int
    decreases dts.len(),
{
    if dts.len() == 0 {
        0
    } else {
        total_ms(dts.drop_last()) + dts.last()
    }
}

pub proof fn lemma_total_ms_nonneg(dts: Seq<u32>)
    ensures
        total_ms(dts) >= 0,
    decreases dts.len(),
{
    if dts.len() > 0 {
        lemma_total_ms_nonneg(dts.drop_last());
    }
}

} // verus!
