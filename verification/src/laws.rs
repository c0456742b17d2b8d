use vstd::prelude::*;

use crate::date::Date;
use crate::distro_release::DistroRelease;
use crate::queries::{
    spec_latest, spec_pred_fn, spec_released, spec_stable, spec_supported, RecordPred,
};
use crate::Milestone;

verus! {

/// Once released, a record stays released: if it had been released at
/// one date, it is released at every later date.
pub proof fn lemma_released_at_monotonic(rec: DistroRelease, d0: Date, d1: Date)
    requires
        rec.spec_released_at(d0),
        d0.spec_le(d1),
    ensures
        rec.spec_released_at(d1),
{
}

/// Supportedness implies release: every record supported at a date under
/// the default EOL milestone is among the records released at that date.
pub proof fn lemma_supported_subset_released(rels: Seq<DistroRelease>, date: Date)
    ensures
        forall|rec: DistroRelease|
            #[trigger] spec_supported(rels, date, Milestone::Eol).contains(rec)
                ==> spec_released(rels, date).contains(rec),
{
    let sup_pred = spec_pred_fn(RecordPred::ReleasedAndSupportedAt(date, Milestone::Eol));
    let rel_pred = spec_pred_fn(RecordPred::ReleasedAt(date));
    assert forall|rec: DistroRelease|
        #[trigger] spec_supported(rels, date, Milestone::Eol).contains(
            rec,
        ) implies spec_released(rels, date).contains(rec) by {
        let sup = rels.filter(sup_pred);
        let i = choose|i: int| 0 <= i < sup.len() && sup[i] == rec;
        rels.lemma_filter_pred(sup_pred, i);
        rels.lemma_filter_contains_rev(sup_pred, rec);
        let j = choose|j: int| 0 <= j < rels.len() && rels[j] == rec;
        rels.lemma_filter_contains(rel_pred, j);
    }
}

/// The stable release and the latest release are synonyms: they select
/// the same record for every table and every date.
pub proof fn lemma_stable_is_latest(rels: Seq<DistroRelease>, date: Date)
    ensures
        spec_stable(rels, date) == spec_latest(rels, date),
{
}

} // verus!
