//! A snapshot of environment variables, taken once and read many times.

use crate::text::same_text;
use vstd::prelude::*;

verus! {

/// The variables that a list of assignments leaves in force: each name with
/// the value assigned to it last.
pub open spec fn assignments(pairs: Seq<(String, String)>) -> Map<Seq<char>, Seq<char>>
    decreases pairs.len(),
{
    if pairs.len() == 0 {
        Map::empty()
    } else {
        assignments(pairs.drop_last()).insert(pairs.last().0@, pairs.last().1@)
    }
}

/// The assignment at `i` is in force when no later one names the same variable.
pub proof fn lemma_last_assignment_wins(pairs: Seq<(String, String)>, i: int)
    requires
        0 <= i < pairs.len(),
        forall|j: int| i < j < pairs.len() ==> (#[trigger] pairs[j]).0@ != pairs[i].0@,
    ensures
        assignments(pairs).contains_key(pairs[i].0@),
        assignments(pairs)[pairs[i].0@] == pairs[i].1@,
    decreases pairs.len(),
{
    if i < pairs.len() - 1 {
        let front = pairs.drop_last();
        assert(front[i] == pairs[i]);
        assert forall|j: int| i < j < front.len() implies (#[trigger] front[j]).0@ != front[i].0@ by {
            assert(front[j] == pairs[j]);
        }
        lemma_last_assignment_wins(front, i);
    }
}

/// A name that no assignment mentions is not in force.
pub proof fn lemma_unassigned_is_absent(pairs: Seq<(String, String)>, name: Seq<char>)
    requires
        forall|j: int| 0 <= j < pairs.len() ==> (#[trigger] pairs[j]).0@ != name,
    ensures
        !assignments(pairs).contains_key(name),
    decreases pairs.len(),
{
    if pairs.len() > 0 {
        let front = pairs.drop_last();
        assert forall|j: int| 0 <= j < front.len() implies (#[trigger] front[j]).0@ != name by {
            assert(front[j] == pairs[j]);
        }
        lemma_unassigned_is_absent(front, name);
        assert(pairs.last() == pairs[pairs.len() - 1]);
    }
}

/// Environment variables by name. Its view is the map from each variable that
/// is set to its value.
pub struct Env {
    vars: Vec<(String, String)>,
}

impl View for Env {
    type V = Map<Seq<char>, Seq<char>>;

    closed spec fn view(&self) -> Map<Seq<char>, Seq<char>> {
        assignments(self.vars@)
    }
}

impl Env {
    /// An environment in which no variable is set.
    pub fn new() -> (env: Env)
        ensures
            env@ == Map::<Seq<char>, Seq<char>>::empty(),
    {
        Env { vars: Vec::new() }
    }

    /// The environment that results from making the assignments of `pairs`,
    /// each a name and a value, in their order.
    pub fn from_pairs(pairs: Vec<(String, String)>) -> (env: Env)
        ensures
            env@ == assignments(pairs@),
    {
        Env { vars: pairs }
    }

    /// Sets the variable `name` to `value`, whether or not it was set before.
    pub fn set(&mut self, name: &str, value: &str)
        ensures
            final(self)@ == old(self)@.insert(name@, value@),
    {
        self.vars.push((String::from_str(name), String::from_str(value)));
        assert(self.vars@.drop_last() =~= old(self).vars@);
    }

    /// Unsets the variable `name`, whether or not it was set before.
    pub fn unset(&mut self, name: &str)
        ensures
            final(self)@ == old(self)@.remove(name@),
    {
        let mut kept: Vec<(String, String)> = Vec::new();
        let mut i: usize = 0;
        while i < self.vars.len()
            invariant
                i <= self.vars.len(),
                assignments(kept@) == assignments(self.vars@.subrange(0, i as int)).remove(name@),
            decreases self.vars.len() - i,
        {
            let ghost before = self.vars@.subrange(0, i as int);
            let ghost after = self.vars@.subrange(0, i + 1);
            assert(after.drop_last() =~= before);
            if !same_text(self.vars[i].0.as_str(), name) {
                let ghost rest = kept@;
                kept.push((self.vars[i].0.clone(), self.vars[i].1.clone()));
                assert(kept@.drop_last() =~= rest);
            }
            i = i + 1;
            assert(assignments(kept@) =~= assignments(after).remove(name@));
        }
        assert(self.vars@.subrange(0, i as int) =~= self.vars@);
        self.vars = kept;
    }

    /// The value of the variable `name`, if it is set.
    pub fn get(&self, name: &str) -> (value: Option<&String>)
        ensures
            match value {
                Some(v) => self@.contains_key(name@) && self@[name@] == v@,
                None => !self@.contains_key(name@),
            },
    {
        let mut i: usize = self.vars.len();
        while i > 0
            invariant
                i <= self.vars.len(),
                forall|j: int| i <= j < self.vars.len() ==> (#[trigger] self.vars@[j]).0@ != name@,
            decreases i,
        {
            i = i - 1;
            if same_text(self.vars[i].0.as_str(), name) {
                proof {
                    lemma_last_assignment_wins(self.vars@, i as int);
                }
                return Some(&self.vars[i].1);
            }
        }
        proof {
            lemma_unassigned_is_absent(self.vars@, name@);
        }
        None
    }
}

} // verus!
