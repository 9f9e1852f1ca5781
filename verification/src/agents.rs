//! The agents of the simulation and their mirror on the device.
//!
//! The agents are laid out once, one on every point of an integer lattice.
//! After that only the device moves them, so the host's sequence is uploaded
//! again only when it has changed.

use crate::image::next_generation;
use vstd::arithmetic::div_mod::lemma_fundamental_div_mod_converse;
use vstd::prelude::*;

verus! {

/// The lattice point that an agent starts from. The way it faces is a number
/// for the shader alone, which the host keeps beside it.
#[derive(Clone, Copy, Debug, PartialEq, Eq, Structural)]
pub struct Agent {
    pub x: u32,
    pub y: u32,
}

/// The agent at index `i` of a lattice of `y_size` points per column.
pub open spec fn agent_at(i: int, y_size: u32) -> Agent {
    Agent { x: (i / y_size as int) as u32, y: (i % y_size as int) as u32 }
}

/// The agents of an `x_size` by `y_size` lattice, column by column: the
/// agent at index `x * y_size + y` stands on `(x, y)`.
pub open spec fn lattice(x_size: u32, y_size: u32) -> Seq<Agent> {
    Seq::new((x_size * y_size) as nat, |i: int| agent_at(i, y_size))
}

/// The agents of the host, with the mark that says whether they have changed
/// since they were last uploaded.
#[derive(Debug, PartialEq, Eq)]
pub struct Agents {
    pub agents: Vec<Agent>,
    pub changed: bool,
}

impl Agents {
    /// No agents, and nothing to upload.
    pub fn new() -> (data: Agents)
        ensures
            data.agents@ == Seq::<Agent>::empty(),
            !data.changed,
    {
        Agents { agents: Vec::new(), changed: false }
    }
}

/// Replaces the agents by those of an `x_size` by `y_size` lattice and marks
/// them as changed.
pub fn setup(data: &mut Agents, x_size: u32, y_size: u32)
    requires
        x_size * y_size <= usize::MAX,
    ensures
        final(data).agents@ == lattice(x_size, y_size),
        final(data).changed,
{
    let mut agents: Vec<Agent> = Vec::new();
    let mut x: u32 = 0;
    while x < x_size
        invariant
            x <= x_size,
            x_size * y_size <= usize::MAX,
            agents@ == lattice(x, y_size),
        decreases x_size - x,
    {
        let mut y: u32 = 0;
        while y < y_size
            invariant
                x < x_size,
                y <= y_size,
                x_size * y_size <= usize::MAX,
                agents@.len() == x * y_size + y,
                forall|i: int| 0 <= i < agents@.len() ==> agents@[i] == agent_at(i, y_size),
            decreases y_size - y,
        {
            proof {
                lemma_fundamental_div_mod_converse(
                    x * y_size + y,
                    y_size as int,
                    x as int,
                    y as int,
                );
            }
            agents.push(Agent { x, y });
            y += 1;
        }
        assert((x + 1) * y_size == x * y_size + y_size) by (nonlinear_arith);
        x += 1;
    }
    data.agents = agents;
    data.changed = true;
}

/// The index at which the agent of the point `(x, y)` stands.
pub open spec fn index_of(x: u32, y: u32, y_size: u32) -> int {
    x * y_size + y
}

/// A lattice of `x_size` by `y_size` points holds `x_size * y_size` agents,
/// every agent stands on a point of the lattice, every point of the lattice
/// has its agent, and no two agents share a point.
pub proof fn lemma_lattice_covers_each_point_once(x_size: u32, y_size: u32)
    ensures
        lattice(x_size, y_size).len() == x_size * y_size,
        forall|i: int|
            0 <= i < lattice(x_size, y_size).len() ==> {
                &&& (#[trigger] lattice(x_size, y_size)[i]).x < x_size
                &&& lattice(x_size, y_size)[i].y < y_size
            },
        forall|x: u32, y: u32|
            x < x_size && y < y_size ==> {
                &&& 0 <= #[trigger] index_of(x, y, y_size) < lattice(x_size, y_size).len()
                &&& lattice(x_size, y_size)[index_of(x, y, y_size)] == (Agent { x, y })
            },
        forall|i: int, j: int|
            0 <= i < lattice(x_size, y_size).len() && 0 <= j < lattice(x_size, y_size).len() && i
                != j ==> #[trigger] lattice(x_size, y_size)[i] != #[trigger] lattice(
                x_size,
                y_size,
            )[j],
{
    let agents = lattice(x_size, y_size);
    assert forall|i: int| 0 <= i < agents.len() implies {
        &&& (#[trigger] agents[i]).x < x_size
        &&& agents[i].y < y_size
        &&& i == index_of(agents[i].x, agents[i].y, y_size)
    } by {
        lemma_index_splits(i, x_size, y_size);
    }
    assert forall|x: u32, y: u32| x < x_size && y < y_size implies {
        &&& 0 <= #[trigger] index_of(x, y, y_size) < agents.len()
        &&& agents[index_of(x, y, y_size)] == (Agent { x, y })
    } by {
        lemma_fundamental_div_mod_converse(x * y_size + y, y_size as int, x as int, y as int);
        assert(x * y_size + y < x_size * y_size) by (nonlinear_arith)
            requires
                x < x_size,
                y < y_size,
        ;
    }
    assert forall|i: int, j: int| 0 <= i < agents.len() && 0 <= j < agents.len() && i != j implies
        #[trigger] agents[i] != #[trigger] agents[j] by {
        assert(i == index_of(agents[i].x, agents[i].y, y_size));
        assert(j == index_of(agents[j].x, agents[j].y, y_size));
    }
}

/// An index into the lattice splits into the column and the row of its
/// point.
proof fn lemma_index_splits(i: int, x_size: u32, y_size: u32)
    requires
        0 <= i < x_size * y_size,
    ensures
        0 <= i / (y_size as int) < x_size,
        0 <= i % (y_size as int) < y_size,
        i == (i / (y_size as int)) * y_size + i % (y_size as int),
{
    assert(y_size > 0) by (nonlinear_arith)
        requires
            0 <= i < x_size * y_size,
    ;
    let q = i / (y_size as int);
    let r = i % (y_size as int);
    assert(i == q * y_size + r && 0 <= r < y_size) by (nonlinear_arith)
        requires
            y_size > 0,
            q == i / (y_size as int),
            r == i % (y_size as int),
    ;
    assert(0 <= q < x_size) by (nonlinear_arith)
        requires
            0 <= i < x_size * y_size,
            i == q * y_size + r,
            0 <= r < y_size,
    ;
}

/// Names the device buffer that mirrors the agents as it was written: a
/// buffer that is written again gets a handle of the next generation.
#[derive(Clone, Copy, Debug, PartialEq, Eq, Structural)]
pub struct BufferHandle {
    pub generation: u64,
    /// The number of agents that the buffer holds.
    pub len: usize,
}

/// The device buffer that mirrors the agents, once there is one.
#[derive(Clone, Copy, Debug, PartialEq, Eq)]
pub struct AgentsBuffer(pub Option<BufferHandle>);

impl AgentsBuffer {
    /// The buffer that a write of `len` agents leaves in place of this one.
    pub open spec fn rewritten(self, len: usize) -> AgentsBuffer {
        AgentsBuffer(
            Some(
                BufferHandle {
                    generation: match self.0 {
                        Some(handle) => next_generation(handle.generation),
                        None => 0,
                    },
                    len,
                },
            ),
        )
    }
}

/// Decides whether the agents are written to the device before this frame:
/// they are if and only if they have changed since they were last written.
/// A write replaces the buffer, and the agents then count as unchanged.
pub fn prepare_agents(agents: &mut Agents, agents_buffer: &mut AgentsBuffer) -> (written: bool)
    ensures
        written == old(agents).changed,
        final(agents).agents == old(agents).agents,
        !final(agents).changed,
        *final(agents_buffer) == if old(agents).changed {
            old(agents_buffer).rewritten(old(agents).agents.len())
        } else {
            *old(agents_buffer)
        },
{
    if agents.changed {
        let generation = match agents_buffer.0 {
            Some(handle) => if handle.generation == u64::MAX {
                0
            } else {
                handle.generation + 1
            },
            None => 0,
        };
        agents_buffer.0 = Some(BufferHandle { generation, len: agents.agents.len() });
        agents.changed = false;
        true
    } else {
        false
    }
}

} // verus!
