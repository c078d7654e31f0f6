//! Spotting an agent that keeps repeating the same pair of actions.
use vstd::prelude::*;
use std::collections::VecDeque;
use crate::strings::str_eq;

verus! {

/// The actions remembered after `a` is recorded in a window of at most `max`
/// actions: the newest ones are kept.
pub open spec fn spec_record(acts: Seq<Seq<char>>, max: nat, a: Seq<char>) -> Seq<Seq<char>> {
    let t = acts.push(a);
    if t.len() > max {
        t.skip(t.len() - max)
    } else {
        t
    }
}

/// The last six actions alternate between two actions (which may be the same one).
pub open spec fn spec_has_loop(acts: Seq<Seq<char>>) -> bool {
    let n = acts.len();
    &&& n >= 6
    &&& acts[n - 1] == acts[n - 3]
    &&& acts[n - 3] == acts[n - 5]
    &&& acts[n - 2] == acts[n - 4]
    &&& acts[n - 4] == acts[n - 6]
}

/// Remembers the most recent actions of an agent.
pub struct LoopDetector {
    last_actions: VecDeque<String>,
    max_actions: usize,
}

impl LoopDetector {
    /// The remembered actions, oldest first.
    pub closed spec fn spec_actions(&self) -> Seq<Seq<char>> {
        self.last_actions@.map_values(|s: String| s@)
    }

    /// How many actions are remembered at most.
    pub closed spec fn spec_max(&self) -> nat {
        self.max_actions as nat
    }

    /// A detector that remembers the last 20 actions.
    pub fn new() -> (r: Self)
        ensures
            r.spec_actions() == Seq::<Seq<char>>::empty(),
            r.spec_max() == 20,
    {
        let r = LoopDetector { last_actions: VecDeque::new(), max_actions: 20 };
        assert(r.spec_actions() =~= Seq::<Seq<char>>::empty());
        r
    }

    /// Records an action, forgetting the oldest ones beyond the window.
    pub fn record_action(&mut self, action: String)
        ensures
            final(self).spec_max() == old(self).spec_max(),
            final(self).spec_actions() == spec_record(old(self).spec_actions(), old(self).spec_max(), action@),
    {
        let ghost a = action@;
        let ghost t = self.spec_actions().push(a);
        self.last_actions.push_back(action);
        assert(self.spec_actions() =~= t);
        while self.last_actions.len() > self.max_actions
            invariant
                self.max_actions == old(self).max_actions,
                t.len() >= self.spec_actions().len(),
                self.spec_actions() == t.skip(t.len() - self.spec_actions().len()),
                self.spec_actions().len() == self.last_actions@.len(),
                t.len() <= self.max_actions ==> self.spec_actions().len() == t.len(),
                t.len() > self.max_actions ==> self.spec_actions().len() >= self.max_actions,
            decreases self.last_actions@.len(),
        {
            let ghost before = self.spec_actions();
            let _ = self.last_actions.pop_front();
            assert(self.spec_actions() =~= before.skip(1));
            assert(t.skip(t.len() - before.len()).skip(1) =~= t.skip(t.len() - self.spec_actions().len()));
        }
        proof {
            if t.len() <= self.max_actions {
                assert(t.skip(0) == t);
            }
            assert(old(self).spec_actions().push(action@) == t);
        }
    }

    /// Forgets all recorded actions.
    pub fn clear(&mut self)
        ensures
            final(self).spec_max() == old(self).spec_max(),
            final(self).spec_actions() == Seq::<Seq<char>>::empty(),
    {
        self.last_actions.clear();
        assert(self.spec_actions() =~= Seq::<Seq<char>>::empty());
    }

    /// Whether the last six recorded actions alternate between two actions.
    pub fn has_loop(&self) -> (r: bool)
        ensures
            r == spec_has_loop(self.spec_actions()),
    {
        let n = self.last_actions.len();
        if n < 6 {
            return false;
        }
        let a0 = &self.last_actions[n - 1];
        let a1 = &self.last_actions[n - 2];
        let a2 = &self.last_actions[n - 3];
        let a3 = &self.last_actions[n - 4];
        let a4 = &self.last_actions[n - 5];
        let a5 = &self.last_actions[n - 6];
        str_eq(a0.as_str(), a2.as_str()) && str_eq(a2.as_str(), a4.as_str())
            && str_eq(a1.as_str(), a3.as_str()) && str_eq(a3.as_str(), a5.as_str())
    }
}

impl Default for LoopDetector {
    /// A detector with a window of no actions.
    fn default() -> (r: Self)
        ensures
            r.spec_actions() == Seq::<Seq<char>>::empty(),
            r.spec_max() == 0,
    {
        let r = LoopDetector { last_actions: VecDeque::new(), max_actions: 0 };
        assert(r.spec_actions() =~= Seq::<Seq<char>>::empty());
        r
    }
}

/// The window never holds more actions than its size, and the newest action is
/// always the one just recorded (when the window has room for any).
pub proof fn law_record_keeps_newest(acts: Seq<Seq<char>>, max: nat, a: Seq<char>)
    ensures
        spec_record(acts, max, a).len() <= max || spec_record(acts, max, a).len() == acts.len() + 1,
        spec_record(acts, max, a).len() <= acts.len() + 1,
        acts.len() < max ==> spec_record(acts, max, a) == acts.push(a),
        max > 0 ==> spec_record(acts, max, a).last() == a,
{
}

/// Recording two actions alternately three times is seen as a loop, whatever
/// came before, in a window of at least six.
pub proof fn law_alternation_detected(acts: Seq<Seq<char>>, max: nat, a: Seq<char>, b: Seq<char>)
    requires
        max >= 6,
    ensures
        spec_has_loop(
            spec_record(
                spec_record(
                    spec_record(
                        spec_record(spec_record(spec_record(acts, max, a), max, b), max, a),
                        max,
                        b,
                    ),
                    max,
                    a,
                ),
                max,
                b,
            ),
        ),
{
    let s1 = spec_record(acts, max, a);
    let s2 = spec_record(s1, max, b);
    let s3 = spec_record(s2, max, a);
    let s4 = spec_record(s3, max, b);
    let s5 = spec_record(s4, max, a);
    let s6 = spec_record(s5, max, b);
    assert(s1.len() >= 1 && s1.last() == a);
    assert(s2.len() >= 2 && s2.last() == b && s2[s2.len() - 2] == a);
    assert(s3.len() >= 3 && s3.last() == a && s3[s3.len() - 2] == b && s3[s3.len() - 3] == a);
    assert(s4.len() >= 4 && s4.last() == b && s4[s4.len() - 2] == a && s4[s4.len() - 3] == b
        && s4[s4.len() - 4] == a);
    assert(s5.len() >= 5 && s5.last() == a && s5[s5.len() - 2] == b && s5[s5.len() - 3] == a
        && s5[s5.len() - 4] == b && s5[s5.len() - 5] == a);
    assert(s6.len() >= 6 && s6.last() == b && s6[s6.len() - 2] == a && s6[s6.len() - 3] == b
        && s6[s6.len() - 4] == a && s6[s6.len() - 5] == b && s6[s6.len() - 6] == a);
}

/// A cleared detector sees no loop.
pub proof fn law_cleared_has_no_loop()
    ensures
        !spec_has_loop(Seq::<Seq<char>>::empty()),
{
}

} // verus!
