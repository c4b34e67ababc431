//! Round-robin load balancing over a set of client agents.

use vstd::prelude::*;
use vstd::string::*;
use std::sync::atomic::AtomicUsize;

verus! {

/// Why a balancer cannot be built.
#[derive(Clone, Copy, Debug, PartialEq, Eq, Structural)]
pub enum BalanceBuildError {
    /// The builder holds no agent.
    EmptyAgents,
}

impl BalanceBuildError {
    /// The message this error displays.
    pub fn message(&self) -> (text: String)
        ensures
            text@ == "balance requires at least one agent"@,
    {
        String::from_str("balance requires at least one agent")
    }
}

/// Collects the agents of a balancer, in the order they are pushed.
pub struct BalanceBuilder<A> {
    agents: Vec<A>,
}

/// Hands out its agents in turn: the call with ticket `t` goes to agent
/// `t % n`, where tickets are drawn from a counter shared by all callers.
pub struct Balance<A> {
    agents: Vec<A>,
    index: AtomicUsize,
}

/// The agent that serves the call with ticket `ticket` among `n` agents.
pub open spec fn round_robin_slot(ticket: int, n: int) -> int {
    ticket % n
}

impl<A> BalanceBuilder<A> {
    /// The agents pushed so far, in order.
    pub closed spec fn agents(&self) -> Seq<A> {
        self.agents@
    }

    /// Appends an agent.
    pub fn push(self, agent: A) -> (next: Self)
        ensures
            next.agents() == self.agents().push(agent),
    {
        let mut agents = self.agents;
        agents.push(agent);
        BalanceBuilder { agents }
    }

    /// Builds the balancer; refused when no agent was pushed.
    pub fn build(self) -> (balance: Result<Balance<A>, BalanceBuildError>)
        ensures
            balance is Err <==> self.agents().len() == 0,
            balance matches Err(e) ==> e == BalanceBuildError::EmptyAgents,
            balance matches Ok(b) ==> b.agents() == self.agents(),
    {
        if self.agents.len() == 0 {
            return Err(BalanceBuildError::EmptyAgents);
        }
        Ok(Balance { agents: self.agents, index: AtomicUsize::new(0) })
    }
}

impl<A> Balance<A> {
    #[verifier::type_invariant]
    spec fn has_agents(self) -> bool {
        self.agents@.len() > 0
    }

    /// The agents, in the order they were pushed.
    pub closed spec fn agents(&self) -> Seq<A> {
        self.agents@
    }

    /// A builder with no agent.
    pub fn builder() -> (builder: BalanceBuilder<A>)
        ensures
            builder.agents() == Seq::<A>::empty(),
    {
        BalanceBuilder { agents: Vec::new() }
    }

    /// The number of agents; never zero.
    pub fn len(&self) -> (n: usize)
        ensures
            n == self.agents().len(),
            n > 0,
    {
        proof {
            use_type_invariant(self);
        }
        self.agents.len()
    }

    /// The index of the agent that serves the call with ticket `ticket`.
    pub fn slot(&self, ticket: usize) -> (i: usize)
        ensures
            i == round_robin_slot(ticket as int, self.agents().len() as int),
            i < self.agents().len(),
    {
        let n: usize = self.len();
        ticket % n
    }

    /// The agent that serves the call with ticket `ticket`.
    pub fn agent_for(&self, ticket: usize) -> (agent: &A)
        ensures
            *agent == self.agents()[round_robin_slot(ticket as int, self.agents().len() as int)],
    {
        let i: usize = self.slot(ticket);
        &self.agents[i]
    }

    /// Draws the next ticket from the shared counter and returns the agent
    /// that serves it. The counter is shared by concurrent callers, so the
    /// ticket drawn is not known here: the agent is the one of some ticket.
    pub fn next_agent(&self) -> (agent: &A)
        ensures
            exists|t: usize| *agent == self.agents()[round_robin_slot(t as int, self.agents().len() as int)],
    {
        self.draw_agent().1
    }

    /// Draws the next ticket from the shared counter and returns it with the
    /// agent that serves it: exactly the agent at the ticket modulo the
    /// number of agents.
    pub fn draw_agent(&self) -> (drawn: (usize, &A))
        ensures
            *drawn.1 == self.agents()[round_robin_slot(drawn.0 as int, self.agents().len() as int)],
    {
        let ticket: usize = self.draw_ticket();
        (ticket, self.agent_for(ticket))
    }

    /// Takes the shared counter's value and advances it by one, wrapping
    /// around on overflow. Nothing is known of the value taken.
    fn draw_ticket(&self) -> usize {
        self.index.fetch_add(1, std::sync::atomic::Ordering::SeqCst)
    }
}

/// Successive tickets go to successive agents, wrapping around after the last.
pub proof fn lemma_round_robin_successor(t: int, n: int)
    requires
        n > 0,
    ensures
        round_robin_slot(t + 1, n) == (round_robin_slot(t, n) + 1) % n,
{
    vstd::arithmetic::div_mod::lemma_add_mod_noop_right(1, t, n);
    assert(1 + t == t + 1);
    assert(1 + t % n == t % n + 1);
}

/// Among any `n` consecutive tickets `t, ..., t + n - 1`, each of the `n`
/// agents serves exactly one.
pub proof fn lemma_round_robin_fair(t: int, n: int, s: int)
    requires
        n > 0,
        0 <= s < n,
    ensures
        exists|u: int| t <= u < t + n && #[trigger] round_robin_slot(u, n) == s,
        forall|u1: int, u2: int|
            t <= u1 < t + n && t <= u2 < t + n && #[trigger] round_robin_slot(u1, n) == s
                && #[trigger] round_robin_slot(u2, n) == s ==> u1 == u2,
{
    let k: int = (s - t) % n;
    vstd::arithmetic::div_mod::lemma_mod_division_less_than_divisor(s - t, n);
    vstd::arithmetic::div_mod::lemma_add_mod_noop_right(t, s - t, n);
    vstd::arithmetic::div_mod::lemma_small_mod(s as nat, n as nat);
    assert(t + (s - t) == s);
    assert(round_robin_slot(t + k, n) == s);
    assert forall|u1: int, u2: int|
        t <= u1 < t + n && t <= u2 < t + n && #[trigger] round_robin_slot(u1, n) == s
            && #[trigger] round_robin_slot(u2, n) == s implies u1 == u2 by {
        if u1 < u2 {
            vstd::arithmetic::div_mod::lemma_mod_equivalence(u2, u1, n);
            vstd::arithmetic::div_mod::lemma_small_mod((u2 - u1) as nat, n as nat);
        } else if u2 < u1 {
            vstd::arithmetic::div_mod::lemma_mod_equivalence(u1, u2, n);
            vstd::arithmetic::div_mod::lemma_small_mod((u1 - u2) as nat, n as nat);
        }
    }
}

/// Ticket `t + i` goes to the agent `i` places after ticket `t`'s, counted
/// round the agents, and every ticket goes to one of the `n` agents.
pub proof fn lemma_round_robin_consecutive(t: int, n: int, i: int)
    requires
        n > 0,
        0 <= i,
    ensures
        round_robin_slot(t + i, n) == (round_robin_slot(t, n) + i) % n,
        0 <= round_robin_slot(t, n) < n,
{
    vstd::arithmetic::div_mod::lemma_add_mod_noop_right(i, t, n);
    vstd::arithmetic::div_mod::lemma_mod_division_less_than_divisor(t, n);
    assert(i + t == t + i);
    assert(i + t % n == t % n + i);
}

/// On a balancer with `n` agents, ticket `k` (the `k`-th draw from a counter
/// that starts at zero) goes to agent `k % n`: the first `n` tickets reach
/// every agent once, in the order they were pushed.
pub proof fn lemma_round_robin_from_zero(k: int, n: int)
    requires
        n > 0,
        0 <= k < n,
    ensures
        round_robin_slot(k, n) == k,
{
    vstd::arithmetic::div_mod::lemma_small_mod(k as nat, n as nat);
}

} // verus!
