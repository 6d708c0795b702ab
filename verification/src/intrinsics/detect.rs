//! Shared machinery behind the per-architecture capability modules: the
//! memoised answer of one capability probe, and the override variables.
use vstd::prelude::*;

verus! {

/// State byte of a cache whose capability has not been probed yet.
pub const UNKNOWN: u8 = 0;

/// State byte of a cache that recorded the capability as unavailable.
pub const DISABLED: u8 = 1;

/// State byte of a cache that recorded the capability as available.
pub const ENABLED: u8 = 2;

/// The answer that a state byte records, if it records one.
pub open spec fn decode(state: u8) -> Option<bool> {
    if state == ENABLED {
        Some(true)
    } else if state == DISABLED {
        Some(false)
    } else {
        None
    }
}

/// The state byte that records an answer (or its absence).
pub open spec fn encode(answer: Option<bool>) -> u8 {
    match answer {
        Some(true) => ENABLED,
        Some(false) => DISABLED,
        None => UNKNOWN,
    }
}

/// One lookup through a cache, from the recorded answer `before` to
/// `after`, returning `answer`: a recorded answer is returned unchanged, and
/// afterwards the cache holds the answer returned.
pub open spec fn lookup_step(before: Option<bool>, answer: bool, after: Option<bool>) -> bool {
    &&& (before matches Some(recorded) ==> answer == recorded)
    &&& after == Some(answer)
}

/// Caches one capability probe.
///
/// The cache is a single state byte (`UNKNOWN`, `DISABLED` or `ENABLED`),
/// so a process can keep it in an atomic and hand it back through
/// [`Cache::from_state`] and [`Cache::state`]. Its view is the recorded
/// answer, `None` while the capability has not been probed.
pub struct Cache {
    state: u8,
}

impl Cache {
    #[verifier::type_invariant]
    spec fn well_formed(self) -> bool {
        self.state <= ENABLED
    }
}

impl View for Cache {
    type V = Option<bool>;

    closed spec fn view(&self) -> Option<bool> {
        decode(self.state)
    }
}

impl Cache {
    /// A cache that has recorded nothing yet.
    pub fn new() -> (cache: Cache)
        ensures
            cache@ == None::<bool>,
    {
        Cache { state: UNKNOWN }
    }

    /// Rebuilds a cache from its state byte; `None` for a byte that is no
    /// state of a cache.
    pub fn from_state(state: u8) -> (cache: Option<Cache>)
        ensures
            cache is Some <==> state <= ENABLED,
            cache matches Some(c) ==> c@ == decode(state),
    {
        if state <= ENABLED {
            Some(Cache { state })
        } else {
            None
        }
    }

    /// The state byte that holds this cache's answer.
    pub fn state(&self) -> (state: u8)
        ensures
            state == encode(self@),
            state <= ENABLED,
    {
        proof {
            use_type_invariant(self);
        }
        self.state
    }

    /// The recorded answer, `None` while nothing is recorded.
    pub fn recorded(&self) -> (answer: Option<bool>)
        ensures
            answer == self@,
    {
        proof {
            use_type_invariant(self);
        }
        if self.state == ENABLED {
            Some(true)
        } else if self.state == DISABLED {
            Some(false)
        } else {
            None
        }
    }

    /// Records `answer`.
    pub(crate) fn record(&mut self, answer: bool)
        ensures
            final(self)@ == Some(answer),
    {
        self.state = if answer {
            ENABLED
        } else {
            DISABLED
        };
    }

    /// Returns the cached answer, running `detect` on the first call.
    ///
    /// Once an answer is recorded it is returned unchanged, and `detect` is
    /// not run again.
    pub fn get_or_init<F: FnOnce() -> bool>(&mut self, detect: F) -> (enabled: bool)
        requires
            old(self)@ is None ==> detect.requires(()),
        ensures
            lookup_step(old(self)@, enabled, final(self)@),
            old(self)@ is None ==> detect.ensures((), enabled),
    {
        match self.recorded() {
            Some(answer) => answer,
            None => {
                let enabled = detect();
                self.record(enabled);
                enabled
            },
        }
    }
}

/// Whether an override variable disables its capability: its presence does,
/// whatever its value. `value` is what the process environment holds under
/// the variable's name, `None` where it holds nothing.
pub fn disabled_by_env(value: Option<&str>) -> (disabled: bool)
    ensures
        disabled == value.is_some(),
{
    value.is_some()
}

/// Encoding an answer as a state byte and decoding it gives the answer
/// back, and every state byte of a cache is the encoding of what it decodes
/// to.
pub proof fn lemma_state_round_trip(answer: Option<bool>, state: u8)
    ensures
        decode(encode(answer)) == answer,
        state <= ENABLED ==> encode(decode(state)) == state,
{
}

/// Lookups through one cache that starts with nothing recorded, as
/// [`Cache::get_or_init`] and the capabilities' `is_enabled` and `detect`
/// make them: `states[i]` is what the cache records before lookup `i`, and
/// `answers[i]` what that lookup returns. Every lookup returns the first
/// lookup's answer, and from the second lookup on the cache already holds
/// it, so no later lookup needs its probe: only the first probe is run.
pub proof fn lemma_lookups_keep_the_first_answer(states: Seq<Option<bool>>, answers: Seq<bool>)
    requires
        answers.len() >= 1,
        states.len() == answers.len() + 1,
        states[0] is None,
        forall|i: int|
            0 <= i < answers.len() ==> #[trigger] lookup_step(states[i], answers[i], states[i + 1]),
    ensures
        forall|i: int| 0 <= i < answers.len() ==> #[trigger] answers[i] == answers[0],
        forall|i: int| 1 <= i < states.len() ==> #[trigger] states[i] == Some(answers[0]),
{
    assert forall|k: int| 1 <= k < states.len() implies #[trigger] states[k] == Some(answers[0]) by {
        lemma_lookup_prefix(states, answers, k);
    }
    assert forall|i: int| 0 <= i < answers.len() implies #[trigger] answers[i] == answers[0] by {
        lemma_lookup_prefix(states, answers, i + 1);
    }
}

proof fn lemma_lookup_prefix(states: Seq<Option<bool>>, answers: Seq<bool>, k: int)
    requires
        answers.len() >= 1,
        states.len() == answers.len() + 1,
        1 <= k < states.len(),
        forall|i: int|
            0 <= i < answers.len() ==> #[trigger] lookup_step(states[i], answers[i], states[i + 1]),
    ensures
        states[k] == Some(answers[0]),
        answers[k - 1] == answers[0],
    decreases k,
{
    let j = k - 1;
    assert(lookup_step(states[j], answers[j], states[j + 1]));
    if k > 1 {
        lemma_lookup_prefix(states, answers, j);
    }
}

} // verus!
