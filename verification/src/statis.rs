//! The figures of the home page.

use vstd::prelude::*;
use crate::data::SaveItem;
use crate::data::SaveItemView;
use crate::data::Status;
use crate::job::StartInfo;
use crate::job::StartInfoView;
use crate::text::views;

verus! {

/// How many items there are, by state, and what the scheduler made of them.
#[derive(Debug, PartialEq, Eq)]
pub struct Statis {
    pub total: usize,
    pub active: usize,
    pub archive: usize,
    pub auto_backup: usize,
    pub jobs: Vec<StartInfo>,
}

/// Mathematical model of a [`Statis`].
#[verifier::ext_equal]
pub struct StatisView {
    pub total: nat,
    pub active: nat,
    pub archive: nat,
    pub auto_backup: nat,
    pub jobs: Seq<StartInfoView>,
}

impl View for Statis {
    type V = StatisView;

    open spec fn view(&self) -> StatisView {
        StatisView {
            total: self.total as nat,
            active: self.active as nat,
            archive: self.archive as nat,
            auto_backup: self.auto_backup as nat,
            jobs: views(self.jobs@),
        }
    }
}

impl Default for Statis {
    fn default() -> (r: Self)
        ensures
            r@ == (StatisView { total: 0, active: 0, archive: 0, auto_backup: 0, jobs: Seq::empty() }),
    {
        let r = Statis { total: 0, active: 0, archive: 0, auto_backup: 0, jobs: Vec::new() };
        assert(r@.jobs =~= Seq::empty());
        r
    }
}

/// The number of items in the given state.
pub open spec fn count_in(items: Seq<SaveItemView>, status: Status) -> nat
    decreases items.len(),
{
    if items.len() == 0 {
        0
    } else {
        count_in(items.drop_last(), status) + if items.last().status == status {
            1nat
        } else {
            0nat
        }
    }
}

/// No more items are in a state than there are items.
pub proof fn lemma_count_bounded(items: Seq<SaveItemView>, status: Status)
    ensures
        count_in(items, status) <= items.len(),
    decreases items.len(),
{
    if items.len() > 0 {
        lemma_count_bounded(items.drop_last(), status);
    }
}

impl Statis {
    /// The figures for the stored items and the reports of the last restart:
    /// all items, the valid ones, the archived ones, and the items that the
    /// scheduler reported on.
    pub fn collect(items: &Vec<SaveItem>, infos: &Vec<StartInfo>) -> (r: Self)
        ensures
            r@ == (StatisView {
                total: items@.len(),
                active: count_in(views(items@), Status::Valid),
                archive: count_in(views(items@), Status::Archive),
                auto_backup: infos@.len(),
                jobs: views(infos@),
            }),
    {
        let ghost all = views(items@);
        let mut active: usize = 0;
        let mut archive: usize = 0;
        let mut i: usize = 0;
        while i < items.len()
            invariant
                i <= items.len(),
                all == views(items@),
                active == count_in(all.take(i as int), Status::Valid),
                archive == count_in(all.take(i as int), Status::Archive),
            decreases items.len() - i,
        {
            proof {
                let seen = all.take(i as int + 1);
                assert(seen.drop_last() =~= all.take(i as int));
                assert(seen.last() == items@[i as int]@);
                lemma_count_bounded(all.take(i as int), Status::Valid);
                lemma_count_bounded(all.take(i as int), Status::Archive);
            }
            match items[i].status {
                Status::Valid => {
                    active += 1;
                },
                Status::Archive => {
                    archive += 1;
                },
                Status::Delete => {},
            }
            i += 1;
        }
        assert(all.take(items.len() as int) =~= all);
        let jobs = infos.clone();
        assert(views(jobs@) =~= views(infos@));
        Statis { total: items.len(), active, archive, auto_backup: infos.len(), jobs }
    }
}

} // verus!
