//! Giving an existing package a slug: its name slugified, or, while that
//! slug is taken, the same slug with a random suffix.

use vstd::prelude::*;
use crate::naming::{slug_of, slug_with_suffix, slugify_result, suffix_of, suffix_chars};

verus! {

#[derive(Clone, Copy, Debug, PartialEq, Eq, Structural)]
pub enum BackfillPhase {
    AwaitCount,
    AwaitSuffix,
    AwaitUpdate,
    Finished,
}

/// The state of giving one package a slug.
pub struct SlugBackfill {
    pub phase: BackfillPhase,
    /// The package's name slugified.
    pub base: String,
    /// The slug being tried.
    pub candidate: String,
}

pub struct SlugBackfillModel {
    pub phase: BackfillPhase,
    pub base: Seq<char>,
    pub candidate: Seq<char>,
}

impl View for SlugBackfill {
    type V = SlugBackfillModel;

    open spec fn view(&self) -> SlugBackfillModel {
        SlugBackfillModel { phase: self.phase, base: self.base@, candidate: self.candidate@ }
    }
}

pub enum BackfillEvent<E> {
    /// How many packages use the candidate slug.
    Count(Result<i64, E>),
    /// A fresh random number, which gives the next suffix.
    Suffix(u64),
    /// The package's slug was set.
    Updated,
}

pub enum BackfillEventView<E> {
    Count(Result<i64, E>),
    Suffix(u64),
    Updated,
}

impl<E> View for BackfillEvent<E> {
    type V = BackfillEventView<E>;

    open spec fn view(&self) -> BackfillEventView<E> {
        match self {
            BackfillEvent::Count(r) => BackfillEventView::Count(*r),
            BackfillEvent::Suffix(n) => BackfillEventView::Suffix(*n),
            BackfillEvent::Updated => BackfillEventView::Updated,
        }
    }
}

pub enum BackfillAction {
    CountSlug { slug: String },
    /// Draw a random number for a suffix.
    DrawSuffix,
    SetSlug { slug: String },
    Done,
    Stay,
}

pub enum BackfillActionView {
    CountSlug { slug: Seq<char> },
    DrawSuffix,
    SetSlug { slug: Seq<char> },
    Done,
    Stay,
}

impl View for BackfillAction {
    type V = BackfillActionView;

    open spec fn view(&self) -> BackfillActionView {
        match self {
            BackfillAction::CountSlug { slug } => BackfillActionView::CountSlug { slug: slug@ },
            BackfillAction::DrawSuffix => BackfillActionView::DrawSuffix,
            BackfillAction::SetSlug { slug } => BackfillActionView::SetSlug { slug: slug@ },
            BackfillAction::Done => BackfillActionView::Done,
            BackfillAction::Stay => BackfillActionView::Stay,
        }
    }
}

/// A count of zero frees the candidate; anything else (a use or a failed
/// count) asks for another suffix, added to the base slug.
pub open spec fn backfill_next<E>(m: SlugBackfillModel, e: BackfillEventView<E>) -> (SlugBackfillModel, BackfillActionView) {
    match (m.phase, e) {
        (BackfillPhase::AwaitCount, BackfillEventView::Count(r)) => if r == Ok::<i64, E>(0) {
            (SlugBackfillModel { phase: BackfillPhase::AwaitUpdate, ..m }, BackfillActionView::SetSlug { slug: m.candidate })
        } else {
            (SlugBackfillModel { phase: BackfillPhase::AwaitSuffix, ..m }, BackfillActionView::DrawSuffix)
        },
        (BackfillPhase::AwaitSuffix, BackfillEventView::Suffix(n)) => {
            let candidate = m.base + seq!['-'] + suffix_chars(n as nat);
            (
                SlugBackfillModel { phase: BackfillPhase::AwaitCount, candidate, ..m },
                BackfillActionView::CountSlug { slug: candidate },
            )
        },
        (BackfillPhase::AwaitUpdate, BackfillEventView::Updated) => (
            SlugBackfillModel { phase: BackfillPhase::Finished, ..m },
            BackfillActionView::Done,
        ),
        _ => (m, BackfillActionView::Stay),
    }
}

impl SlugBackfill {
    /// Starts giving the package named `name` a slug.
    pub fn new(name: &str) -> (r: (SlugBackfill, BackfillAction))
        ensures
            r.0@ == (SlugBackfillModel {
                phase: BackfillPhase::AwaitCount,
                base: slugify_result(name@),
                candidate: slugify_result(name@),
            }),
            r.1@ == (BackfillActionView::CountSlug { slug: slugify_result(name@) }),
    {
        let base = slug_of(name);
        let candidate = base.clone();
        let asked = base.clone();
        (
            SlugBackfill { phase: BackfillPhase::AwaitCount, base, candidate },
            BackfillAction::CountSlug { slug: asked },
        )
    }

    /// The next state and action after `event`.
    pub fn step<E>(self, event: BackfillEvent<E>) -> (r: (SlugBackfill, BackfillAction))
        ensures
            (r.0@, r.1@) == backfill_next(self@, event@),
    {
        match event {
            BackfillEvent::Count(r) => {
                if self.phase != BackfillPhase::AwaitCount {
                    return (self, BackfillAction::Stay);
                }
                let free = match r {
                    Ok(n) => n == 0,
                    Err(_) => false,
                };
                if free {
                    let slug = self.candidate.clone();
                    (SlugBackfill { phase: BackfillPhase::AwaitUpdate, ..self }, BackfillAction::SetSlug { slug })
                } else {
                    (SlugBackfill { phase: BackfillPhase::AwaitSuffix, ..self }, BackfillAction::DrawSuffix)
                }
            },
            BackfillEvent::Suffix(n) => {
                if self.phase != BackfillPhase::AwaitSuffix {
                    return (self, BackfillAction::Stay);
                }
                let s = suffix_of(n);
                let candidate = slug_with_suffix(self.base.as_str(), s.as_str());
                let slug = candidate.clone();
                (
                    SlugBackfill { phase: BackfillPhase::AwaitCount, candidate, ..self },
                    BackfillAction::CountSlug { slug },
                )
            },
            BackfillEvent::Updated => {
                if self.phase != BackfillPhase::AwaitUpdate {
                    return (self, BackfillAction::Stay);
                }
                (SlugBackfill { phase: BackfillPhase::Finished, ..self }, BackfillAction::Done)
            },
        }
    }
}

/// The candidate of a backfill is the base slug, alone or with a
/// suffix.
pub open spec fn backfill_candidate_ok(m: SlugBackfillModel) -> bool {
    m.candidate == m.base || exists|s: Seq<char>| m.candidate == m.base + seq!['-'] + s
}

/// A package only gets a slug that no package uses: the slug set is the
/// candidate just counted free, and every candidate is the package's
/// slugified name, alone or with a suffix.
pub proof fn law_backfill_sets_free_slugs<E>(m: SlugBackfillModel, e: BackfillEventView<E>)
    requires
        backfill_candidate_ok(m),
    ensures
        backfill_candidate_ok(backfill_next(m, e).0),
        backfill_next(m, e).1 matches BackfillActionView::SetSlug { slug } ==> slug == m.candidate
            && m.phase == BackfillPhase::AwaitCount && e == BackfillEventView::<E>::Count(Ok(0)),
{
    if let BackfillEventView::Suffix(n) = e {
        if m.phase == BackfillPhase::AwaitSuffix {
            let c = m.base + seq!['-'] + suffix_chars(n as nat);
            assert(backfill_next(m, e).0.candidate == c);
        }
    }
}

} // verus!
