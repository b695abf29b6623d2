use vstd::prelude::*;

verus! {

/// The state that follows `cur` when a piece with `num_states` rotation states
/// is turned once: the next state, or the first one after the last.
pub open spec fn next_state(cur: nat, num_states: nat) -> nat {
    if cur + 1 < num_states {
        (cur + 1) as nat
    } else {
        0
    }
}

/// The state reached from `cur` after `turns` rotations.
pub open spec fn rotated(cur: nat, num_states: nat, turns: nat) -> nat
    decreases turns,
{
    if turns == 0 {
        cur
    } else {
        next_state(rotated(cur, num_states, (turns - 1) as nat), num_states)
    }
}

/// The rotation state of a piece: one of `num_states` states, counted from zero.
#[derive(Clone, Copy, Debug, PartialEq, Eq, Structural)]
pub struct Orientation {
    num_states: usize,
    cur_state: usize,
}

impl Orientation {
    /// The current state is the first one, or lies below the number of states.
    #[verifier::type_invariant]
    spec fn inv(self) -> bool {
        self.cur_state == 0 || self.cur_state < self.num_states
    }

    /// How many rotation states there are.
    pub closed spec fn num_states_spec(self) -> nat {
        self.num_states as nat
    }

    /// The current rotation state.
    pub closed spec fn cur_state_spec(self) -> nat {
        self.cur_state as nat
    }

    /// A piece with `num_states` rotation states, in its first state.
    pub fn new(num_states: usize) -> (res: Self)
        ensures
            res.num_states_spec() == num_states,
            res.cur_state_spec() == 0,
    {
        Orientation { num_states, cur_state: 0 }
    }

    /// Turns once: to the next state, or back to the first after the last.
    pub fn rotate(&mut self)
        ensures
            final(self).num_states_spec() == old(self).num_states_spec(),
            final(self).cur_state_spec() == next_state(
                old(self).cur_state_spec(),
                old(self).num_states_spec(),
            ),
        no_unwind
    {
        proof {
            use_type_invariant(&*self);
        }
        if self.cur_state < self.num_states && self.cur_state + 1 < self.num_states {
            self.cur_state = self.cur_state + 1;
        } else {
            self.cur_state = 0;
        }
    }

    /// The current rotation state.
    pub fn cur_state(&self) -> (res: usize)
        ensures
            res == self.cur_state_spec(),
            res == 0 || res < self.num_states_spec(),
    {
        proof {
            use_type_invariant(self);
        }
        self.cur_state
    }

    /// How many rotation states there are.
    pub fn num_states(&self) -> (res: usize)
        ensures
            res == self.num_states_spec(),
    {
        self.num_states
    }
}

/// Rotating a piece `turns` times from a state below `num_states` advances it
/// by `turns` states, counted modulo the number of states.
pub proof fn lemma_rotated_is_modular(cur: nat, num_states: nat, turns: nat)
    requires
        cur < num_states,
    ensures
        rotated(cur, num_states, turns) == (cur + turns) % num_states,
    decreases turns,
{
    if turns == 0 {
        vstd::arithmetic::div_mod::lemma_small_mod(cur, num_states);
    } else {
        lemma_rotated_is_modular(cur, num_states, (turns - 1) as nat);
        let prev = rotated(cur, num_states, (turns - 1) as nat);
        let n = num_states as int;
        vstd::arithmetic::div_mod::lemma_mod_bound((cur + turns - 1) as int, n);
        vstd::arithmetic::div_mod::lemma_add_mod_noop((cur + turns - 1) as int, 1, n);
        vstd::arithmetic::div_mod::lemma_mod_bound((cur + turns) as int, n);
        if num_states > 1 {
            vstd::arithmetic::div_mod::lemma_small_mod(1nat, num_states);
        }
        if prev + 1 < num_states {
            vstd::arithmetic::div_mod::lemma_small_mod((prev + 1) as nat, num_states);
        } else {
            vstd::arithmetic::div_mod::lemma_mod_self_0(n);
        }
    }
}

/// Rotating a piece as many times as it has states brings it back to the
/// state it started in.
pub proof fn lemma_full_turn_returns(cur: nat, num_states: nat)
    requires
        cur < num_states,
    ensures
        rotated(cur, num_states, num_states) == cur,
{
    lemma_rotated_is_modular(cur, num_states, num_states);
    vstd::arithmetic::div_mod::lemma_mod_add_multiples_vanish(cur as int, num_states as int);
    vstd::arithmetic::div_mod::lemma_small_mod(cur, num_states);
}

} // verus!
