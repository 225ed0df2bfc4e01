//! The forward-only lifecycle of a wish:
//! `Submitted -> CreationInProgress -> InDelivery -> Delivered`, where
//! `Delivered` is terminal.
use vstd::prelude::*;
use crate::model::{Wish, WishStatus};

verus! {

impl WishStatus {
    /// The stage that follows this one, or `None` at the terminal stage.
    pub open spec fn spec_next(self) -> Option<WishStatus> {
        match self {
            WishStatus::Submitted => Some(WishStatus::CreationInProgress),
            WishStatus::CreationInProgress => Some(WishStatus::InDelivery),
            WishStatus::InDelivery => Some(WishStatus::Delivered),
            WishStatus::Delivered => None,
        }
    }

    /// The position of the stage in the lifecycle, from 0 to 3.
    pub open spec fn rank(self) -> nat {
        match self {
            WishStatus::Submitted => 0,
            WishStatus::CreationInProgress => 1,
            WishStatus::InDelivery => 2,
            WishStatus::Delivered => 3,
        }
    }

    /// Whether no further progress is possible.
    pub open spec fn is_terminal(self) -> bool {
        self == WishStatus::Delivered
    }

    /// The stage that follows this one, or `None` at `Delivered`.
    pub fn next(&self) -> (r: Option<WishStatus>)
        ensures
            r == self.spec_next(),
    {
        match self {
            WishStatus::Submitted => Some(WishStatus::CreationInProgress),
            WishStatus::CreationInProgress => Some(WishStatus::InDelivery),
            WishStatus::InDelivery => Some(WishStatus::Delivered),
            WishStatus::Delivered => None,
        }
    }
}

/// The wish after one step of progress: the same record with its status
/// advanced, or `None` when the wish is at the terminal stage.
pub open spec fn advanced(w: Wish) -> Option<Wish> {
    match w.status.spec_next() {
        Some(s) => Some(Wish { status: s, ..w }),
        None => None,
    }
}

/// One step of progress on the result of reading a wish: `None` if the
/// wish was absent or not visible, `None` if it is delivered, else the
/// wish with the next status, to be written back.
pub open spec fn spec_progress(read: Option<Wish>) -> Option<Wish> {
    match read {
        Some(w) => advanced(w),
        None => None,
    }
}

/// Decides one step of progress on the wish that was read: `None` where
/// nothing is to be written (absent, hidden or delivered), else the
/// updated wish, which differs from the one read in its status alone.
pub fn progress_wish_status(read: Option<Wish>) -> (r: Option<Wish>)
    ensures
        r == spec_progress(read),
{
    match read {
        None => None,
        Some(w) => {
            match w.status.next() {
                Some(s) => Some(Wish { status: s, ..w }),
                None => None,
            }
        },
    }
}

/// Every step of progress moves a wish exactly one stage forward and keeps
/// everything else about it; at `Delivered` there is no step.
pub proof fn lemma_progress_one_stage(w: Wish)
    ensures
        w.status.is_terminal() <==> spec_progress(Some(w)) is None,
        spec_progress(Some(w)) matches Some(u) ==> {
            &&& u.status.rank() == w.status.rank() + 1
            &&& u.id == w.id
            &&& u.content == w.content
            &&& u.created_by == w.created_by
        },
{
}

/// Four steps of progress from `Submitted` pass through
/// `CreationInProgress`, `InDelivery` and `Delivered` in that order, and
/// the fourth step is a no-op.
pub proof fn lemma_progress_from_submitted(w: Wish)
    requires
        w.status == WishStatus::Submitted,
    ensures
        spec_progress(Some(w)) == Some((Wish { status: WishStatus::CreationInProgress, ..w })),
        spec_progress(Some((Wish { status: WishStatus::CreationInProgress, ..w }))) == Some(
            (Wish { status: WishStatus::InDelivery, ..w }),
        ),
        spec_progress(Some((Wish { status: WishStatus::InDelivery, ..w }))) == Some(
            (Wish { status: WishStatus::Delivered, ..w }),
        ),
        spec_progress(Some((Wish { status: WishStatus::Delivered, ..w }))) is None,
{
}

} // verus!
