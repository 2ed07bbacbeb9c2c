//! Acquisition of a global hotkey: the configured combo first, then a fixed
//! list of rarely used fallbacks, stopping at the first one that binds.
//!
//! The engine decides; its caller parses, installs and activates each
//! candidate it is handed and reports how that went.

use vstd::prelude::*;
use vstd::string::StringExecFns;
use crate::config::Config;

verus! {

/// How one candidate fared.
#[derive(Debug, Clone, Copy, PartialEq, Eq, Structural)]
pub enum AttemptOutcome {
    /// The descriptor does not parse as a key combo.
    ParseFailed,
    /// The trigger callback could not be installed.
    InstallFailed,
    /// The combo could not be registered (the callback was removed again).
    ActivateFailed,
    /// The combo is now bound.
    Activated,
}

/// The combo that is bound, and whether it differs from the configured one.
#[derive(Debug)]
pub struct Acquired {
    pub hotkey: String,
    pub was_fallback: bool,
}

/// What the caller is to do next.
#[derive(Debug)]
pub enum AcquireAction {
    /// Parse, install and activate this candidate, then report the outcome.
    Attempt(String),
    /// Acquisition is over: the bound combo, or none.
    Done(Option<Acquired>),
}

/// The state of one acquisition run.
#[derive(Debug)]
pub struct HotkeyAcquisition {
    /// Candidates in priority order, the configured combo first.
    pub candidates: Vec<String>,
    /// The combo the settings ask for.
    pub configured: String,
    /// How many candidates have failed so far.
    pub tried: usize,
    /// The bound combo, once one has been bound.
    pub acquired: Option<Acquired>,
}

/// The candidates for a configured combo, in the order they are tried.
pub open spec fn candidate_list(configured: Seq<char>) -> Seq<Seq<char>> {
    seq![
        configured,
        "F12"@,
        "F11"@,
        "F10"@,
        "F9"@,
        "Pause"@,
        "ScrollLock"@,
        "Insert"@,
        "F8"@,
        "F7"@,
    ]
}

pub open spec fn string_views(v: Seq<String>) -> Seq<Seq<char>> {
    v.map_values(|s: String| s@)
}

impl HotkeyAcquisition {
    /// The count of failed candidates stays within the list, whose length
    /// fits in a `usize`.
    pub open spec fn wf(self) -> bool {
        &&& self.candidates@.len() <= usize::MAX
        &&& self.tried <= self.candidates@.len()
    }

    pub open spec fn finished(self) -> bool {
        self.acquired is Some || self.tried >= self.candidates@.len()
    }

    /// The state after one attempt's outcome is reported; a finished run
    /// ignores further reports.
    pub open spec fn after(self, o: AttemptOutcome) -> HotkeyAcquisition {
        if self.finished() {
            self
        } else if o == AttemptOutcome::Activated {
            let c = self.candidates@[self.tried as int];
            HotkeyAcquisition {
                acquired: Some(Acquired { hotkey: c, was_fallback: c@ != self.configured@ }),
                ..self
            }
        } else {
            HotkeyAcquisition { tried: (self.tried + 1) as usize, ..self }
        }
    }

    /// The state after a sequence of outcomes is reported, in order.
    pub open spec fn after_all(self, os: Seq<AttemptOutcome>) -> HotkeyAcquisition
        decreases os.len(),
    {
        if os.len() == 0 {
            self
        } else {
            self.after(os[0]).after_all(os.drop_first())
        }
    }

    /// What the caller is to do in this state.
    pub open spec fn action(self) -> AcquireAction {
        match self.acquired {
            Some(a) => AcquireAction::Done(Some(a)),
            None => if self.tried < self.candidates@.len() {
                AcquireAction::Attempt(self.candidates@[self.tried as int])
            } else {
                AcquireAction::Done(None)
            },
        }
    }

    /// The settings to persist once the run is over: the configured ones with
    /// the bound combo, where it differs from the configured one.
    pub open spec fn rewrite_of(self, c: Config) -> Option<Config> {
        match self.acquired {
            Some(a) => if a.hotkey@ != c.shortcut@ {
                Some(Config { shortcut: a.hotkey, ..c })
            } else {
                None
            },
            None => None,
        }
    }

    /// A fresh run for the configured combo.
    pub fn new(configured: &String) -> (r: HotkeyAcquisition)
        ensures
            string_views(r.candidates@) == candidate_list(configured@),
            r.candidates@.len() == candidate_list(configured@).len() == 10,
            forall|i: int|
                0 <= i < 10 ==> #[trigger] r.candidates@[i]@ == candidate_list(configured@)[i],
            r.configured == *configured,
            r.tried == 0,
            r.acquired is None,
            r.wf(),
    {
        let candidates = vec![
            configured.clone(),
            String::from_str("F12"),
            String::from_str("F11"),
            String::from_str("F10"),
            String::from_str("F9"),
            String::from_str("Pause"),
            String::from_str("ScrollLock"),
            String::from_str("Insert"),
            String::from_str("F8"),
            String::from_str("F7"),
        ];
        assert(string_views(candidates@) =~= candidate_list(configured@));
        HotkeyAcquisition { candidates, configured: configured.clone(), tried: 0, acquired: None }
    }

    /// What the caller is to do next.
    pub fn next_action(&self) -> (r: AcquireAction)
        ensures
            r == self.action(),
    {
        match &self.acquired {
            Some(a) => AcquireAction::Done(
                Some(Acquired { hotkey: a.hotkey.clone(), was_fallback: a.was_fallback }),
            ),
            None => if self.tried < self.candidates.len() {
                AcquireAction::Attempt(self.candidates[self.tried].clone())
            } else {
                AcquireAction::Done(None)
            },
        }
    }

    /// Takes in the outcome of the attempt last handed out.
    pub fn report(&mut self, o: AttemptOutcome)
        requires
            old(self).wf(),
        ensures
            final(self).wf(),
            *final(self) == old(self).after(o),
    {
        if self.acquired.is_some() || self.tried >= self.candidates.len() {
            return;
        }
        match o {
            AttemptOutcome::Activated => {
                let c = self.candidates[self.tried].clone();
                let was_fallback = !(c == self.configured);
                self.acquired = Some(Acquired { hotkey: c, was_fallback });
            },
            _ => {
                self.tried = self.tried + 1;
            },
        }
    }

    /// The settings to persist after the run: `c` with the bound combo where
    /// one was bound and it differs from `c`'s; none otherwise.
    pub fn rewrite(&self, c: &Config) -> (r: Option<Config>)
        ensures
            r == self.rewrite_of(*c),
    {
        match &self.acquired {
            Some(a) => if a.hotkey == c.shortcut {
                None
            } else {
                Some(c.with_shortcut(a.hotkey.clone()))
            },
            None => None,
        }
    }
}

/// Once a run is over, further reports change nothing.
pub proof fn lemma_finished_stays(s: HotkeyAcquisition, os: Seq<AttemptOutcome>)
    requires
        s.finished(),
    ensures
        s.after_all(os) == s,
    decreases os.len(),
{
    if os.len() > 0 {
        lemma_finished_stays(s.after(os[0]), os.drop_first());
    }
}

/// From a running state, with the first activation reported `k` reports on,
/// the run binds the candidate `k` places further and stops there.
proof fn lemma_binds_first_activated(s: HotkeyAcquisition, os: Seq<AttemptOutcome>, k: int)
    requires
        s.wf(),
        s.acquired is None,
        0 <= k < os.len(),
        s.tried + k < s.candidates@.len(),
        os[k] == AttemptOutcome::Activated,
        forall|j: int| 0 <= j < k ==> os[j] != AttemptOutcome::Activated,
    ensures
        s.after_all(os).tried == s.tried + k,
        s.after_all(os).acquired == Some(
            Acquired {
                hotkey: s.candidates@[s.tried + k],
                was_fallback: s.candidates@[s.tried + k]@ != s.configured@,
            },
        ),
    decreases k,
{
    let rest = os.drop_first();
    if k == 0 {
        lemma_finished_stays(s.after(os[0]), rest);
    } else {
        assert forall|j: int| 0 <= j < k - 1 implies rest[j] != AttemptOutcome::Activated by {
            assert(rest[j] == os[j + 1]);
        }
        lemma_binds_first_activated(s.after(os[0]), rest, k - 1);
    }
}

/// First success short-circuits: where the candidate at `k` is the first to
/// activate, a fresh run ends bound to it, with exactly `k` failures before
/// it and no attempt after it, whatever else is reported.
pub proof fn lemma_first_success_short_circuit(
    s: HotkeyAcquisition,
    os: Seq<AttemptOutcome>,
    k: int,
)
    requires
        s.wf(),
        s.tried == 0,
        s.acquired is None,
        0 <= k < os.len(),
        k < s.candidates@.len(),
        os[k] == AttemptOutcome::Activated,
        forall|j: int| 0 <= j < k ==> os[j] != AttemptOutcome::Activated,
    ensures
        s.after_all(os).tried == k,
        s.after_all(os).action() == AcquireAction::Done(
            Some(
                Acquired {
                    hotkey: s.candidates@[k],
                    was_fallback: s.candidates@[k]@ != s.configured@,
                },
            ),
        ),
{
    lemma_binds_first_activated(s, os, k);
}

/// From a running state, where every remaining candidate fails, the run ends
/// with none bound.
proof fn lemma_all_fail_from(s: HotkeyAcquisition, os: Seq<AttemptOutcome>)
    requires
        s.wf(),
        s.acquired is None,
        s.tried + os.len() >= s.candidates@.len(),
        forall|j: int|
            0 <= j < s.candidates@.len() - s.tried ==> os[j] != AttemptOutcome::Activated,
    ensures
        s.after_all(os).acquired is None,
        s.after_all(os).tried == s.candidates@.len(),
        s.after_all(os).candidates == s.candidates,
    decreases os.len(),
{
    if s.tried == s.candidates@.len() {
        lemma_finished_stays(s, os);
    } else {
        let rest = os.drop_first();
        let t = s.after(os[0]);
        assert forall|j: int|
            0 <= j < t.candidates@.len() - t.tried implies rest[j] != AttemptOutcome::Activated by {
            assert(rest[j] == os[j + 1]);
        }
        lemma_all_fail_from(t, rest);
    }
}

/// Exhaustion: where no candidate activates, a fresh run ends with none
/// bound, after trying every candidate, and asks to persist nothing.
pub proof fn lemma_exhaustion_binds_nothing(
    s: HotkeyAcquisition,
    os: Seq<AttemptOutcome>,
    c: Config,
)
    requires
        s.wf(),
        s.tried == 0,
        s.acquired is None,
        os.len() >= s.candidates@.len(),
        forall|j: int| 0 <= j < s.candidates@.len() ==> os[j] != AttemptOutcome::Activated,
    ensures
        s.after_all(os).action() == AcquireAction::Done(None),
        s.after_all(os).tried == s.candidates@.len(),
        s.after_all(os).rewrite_of(c) is None,
{
    lemma_all_fail_from(s, os);
}

/// The settings are rewritten exactly when the bound combo differs from the
/// configured one, and then hold the bound combo.
pub proof fn lemma_rewrite_iff_differs(s: HotkeyAcquisition, c: Config)
    requires
        s.acquired is Some,
    ensures
        s.rewrite_of(c) is Some <==> s.acquired->Some_0.hotkey@ != c.shortcut@,
        s.rewrite_of(c) is Some ==> s.rewrite_of(c)->Some_0 == (Config {
            shortcut: s.acquired->Some_0.hotkey,
            ..c
        }),
        s.rewrite_of(c) is Some ==> s.rewrite_of(c)->Some_0.shortcut == s.acquired->Some_0.hotkey,
{
}

} // verus!
