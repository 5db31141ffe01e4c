//! What an operation asks its caller to write.
//!
//! The library keeps the cache and the bill in memory and touches no file.
//! Every operation that changes one of them hands back, in order, the writes
//! that bring the files up to date; the caller carries them out before it
//! calls the library again.

use vstd::prelude::*;
use crate::models::bill::BillView;
use crate::models::entries::EntryView;
use crate::models::query::{Query, QueryView};

verus! {

/// One write that the caller owes.
#[derive(Debug, PartialEq)]
pub enum Effect {
    /// Append the query, which was overwritten in the cache, to the graveyard.
    Bury(Query),
    /// Replace the cache's mirror by the entries as they now are.
    RewriteCache,
    /// Replace the bill's mirror by the bill as it now is.
    RewriteBill,
    /// Empty the graveyard. Only the making of an account asks for this.
    ClearGraveyard,
}

pub enum EffectView {
    Bury(QueryView),
    RewriteCache,
    RewriteBill,
    ClearGraveyard,
}

impl View for Effect {
    type V = EffectView;

    open spec fn view(&self) -> EffectView {
        match self {
            Effect::Bury(query) => EffectView::Bury(query@),
            Effect::RewriteCache => EffectView::RewriteCache,
            Effect::RewriteBill => EffectView::RewriteBill,
            Effect::ClearGraveyard => EffectView::ClearGraveyard,
        }
    }
}

/// The views of a sequence of effects, in order.
pub open spec fn effect_views(effects: Seq<Effect>) -> Seq<EffectView> {
    effects.map_values(|e: Effect| e@)
}

/// How often the effects ask for the cache's mirror to be rewritten.
pub open spec fn cache_rewrites(effects: Seq<EffectView>) -> nat
    decreases effects.len(),
{
    if effects.len() == 0 {
        0
    } else {
        cache_rewrites(effects.drop_last()) + if effects.last() is RewriteCache {
            1nat
        } else {
            0nat
        }
    }
}

/// The queries that the effects send to the graveyard, in order.
pub open spec fn buried(effects: Seq<EffectView>) -> Seq<QueryView>
    decreases effects.len(),
{
    if effects.len() == 0 {
        Seq::empty()
    } else {
        match effects.last() {
            EffectView::Bury(query) => buried(effects.drop_last()).push(query),
            _ => buried(effects.drop_last()),
        }
    }
}

/// What the files hold: the cache's mirror, the bill's mirror and the
/// graveyard.
pub struct Disk {
    pub cache: Seq<EntryView>,
    pub bill: BillView,
    pub graveyard: Seq<QueryView>,
}

impl Disk {
    /// The files once one effect is carried out, while the memory holds the
    /// given entries and bill.
    pub open spec fn after(self, effect: EffectView, entries: Seq<EntryView>, bill: BillView) -> Disk {
        match effect {
            EffectView::Bury(query) => Disk { graveyard: self.graveyard.push(query), ..self },
            EffectView::RewriteCache => Disk { cache: entries, ..self },
            EffectView::RewriteBill => Disk { bill, ..self },
            EffectView::ClearGraveyard => Disk { graveyard: Seq::empty(), ..self },
        }
    }

    /// The files once the effects are carried out in order, while the memory
    /// holds the given entries and bill.
    pub open spec fn after_all(
        self,
        effects: Seq<EffectView>,
        entries: Seq<EntryView>,
        bill: BillView,
    ) -> Disk
        decreases effects.len(),
    {
        if effects.len() == 0 {
            self
        } else {
            self.after_all(effects.drop_last(), entries, bill).after(effects.last(), entries, bill)
        }
    }

    /// What carrying out effects comes to, where none of them empties the
    /// graveyard: the graveyard grows by the buried queries and loses
    /// nothing; a mirror is the memory's state where the effects rewrite it,
    /// and untouched where they do not.
    pub proof fn lemma_after_all(
        self,
        effects: Seq<EffectView>,
        entries: Seq<EntryView>,
        bill: BillView,
    )
        requires
            !effects.contains(EffectView::ClearGraveyard),
        ensures
            self.after_all(effects, entries, bill).graveyard == self.graveyard + buried(effects),
            self.after_all(effects, entries, bill).cache == if cache_rewrites(effects) > 0 {
                entries
            } else {
                self.cache
            },
            self.after_all(effects, entries, bill).bill == if effects.contains(
                EffectView::RewriteBill,
            ) {
                bill
            } else {
                self.bill
            },
        decreases effects.len(),
    {
        if effects.len() == 0 {
            assert(self.graveyard + buried(effects) =~= self.graveyard);
        } else {
            let rest = effects.drop_last();
            if rest.contains(EffectView::ClearGraveyard) {
                let i = choose|i: int| 0 <= i < rest.len() && rest[i] == EffectView::ClearGraveyard;
                assert(effects[i] == EffectView::ClearGraveyard);
            }
            assert(effects[effects.len() - 1] == effects.last());
            self.lemma_after_all(rest, entries, bill);
            let before = self.after_all(rest, entries, bill);
            assert(self.after_all(effects, entries, bill).graveyard =~= self.graveyard + buried(
                effects,
            ));
            if rest.contains(EffectView::RewriteBill) {
                let i = choose|i: int| 0 <= i < rest.len() && rest[i] == EffectView::RewriteBill;
                assert(effects[i] == EffectView::RewriteBill);
            }
            if effects.contains(EffectView::RewriteBill) && !(effects.last() is RewriteBill) {
                let i = choose|i: int|
                    0 <= i < effects.len() && effects[i] == EffectView::RewriteBill;
                assert(rest[i] == EffectView::RewriteBill);
            }
            if effects.last() is RewriteBill {
                assert(effects[effects.len() - 1] == EffectView::RewriteBill);
            }
        }
    }
}

} // verus!
