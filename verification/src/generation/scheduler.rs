//! The regeneration scheduler: decides, on each trigger, which chunks
//! re-enter the pipeline, and which results are still wanted when they
//! arrive.
//!
//! The scheduler does no work itself. A driver hands it the triggers, does
//! what it answers, and reports each chunk whose mesh is ready. Two kinds of
//! token, both only ever growing, order the events: a generation token for
//! the inputs that drive the meshing (the configuration and the density
//! function), and a pass token for the passes that were started.

use vstd::prelude::*;

verus! {

/// What asks for a pass.
#[derive(Clone, Copy, Debug, PartialEq, Eq, Structural)]
pub enum Trigger {
    /// Discard every chunk, lay out the lattice anew, sample and mesh every
    /// chunk.
    GenerateAll,
    /// Keep the chunks and their lattices; sample and mesh the chunks whose
    /// inputs have changed since their last completed pass.
    Regenerate,
}

/// What the scheduler is doing.
#[derive(Clone, Copy, Debug, PartialEq, Eq, Structural)]
pub enum SchedulerState {
    /// No pass is in flight.
    Idle,
    /// A pass that was started by `GenerateAll` is in flight.
    FullRebuild,
    /// A pass that was started by `Regenerate` is in flight.
    PerChunkRemesh,
}

/// The token of a chunk that has never been meshed.
pub const NEVER: u64 = 0;

/// Whether every chunk has the token `token`.
pub open spec fn settled(meshed: Seq<u64>, token: u64) -> bool {
    forall|chunk: int| 0 <= chunk < meshed.len() ==> #[trigger] meshed[chunk] == token
}

/// What the scheduler knows.
pub struct SchedulerView {
    pub state: SchedulerState,
    /// The token of the current inputs: it grows whenever they change.
    pub generation: u64,
    /// The token of the pass that was started last.
    pub pass: u64,
    /// The token of the inputs that the pass started last runs with.
    pub pass_generation: u64,
    /// For each chunk the token of the inputs of its last completed pass.
    pub meshed: Seq<u64>,
}

impl SchedulerView {
    /// Whether a chunk needs remeshing: its inputs have changed since its
    /// last completed pass, or it has never been meshed.
    pub open spec fn needs_remesh(self, chunk: int) -> bool {
        0 <= chunk < self.meshed.len() && self.meshed[chunk] != self.generation
    }

    /// Whether the pass in flight still owes a chunk its mesh.
    pub open spec fn pending(self, chunk: int) -> bool {
        0 <= chunk < self.meshed.len() && self.meshed[chunk] != self.pass_generation
    }

    /// Whether the result for a chunk, of the pass with the token `pass`, is
    /// still wanted: a pass is in flight, it is that pass, and it still owes
    /// the chunk its mesh.
    pub open spec fn accepts(self, chunk: int, pass: u64) -> bool {
        self.state != SchedulerState::Idle && pass == self.pass && self.pending(chunk)
    }

    /// Tokens are in order, and a pass is in flight exactly while it owes
    /// some chunk its mesh.
    pub open spec fn wf(self) -> bool {
        &&& 1 <= self.pass_generation <= self.generation
        &&& forall|chunk: int|
            0 <= chunk < self.meshed.len() ==> #[trigger] self.meshed[chunk] <= self.pass_generation
        &&& self.state == SchedulerState::Idle <==> settled(self.meshed, self.pass_generation)
    }

    /// The scheduler before anything has happened.
    pub open spec fn initial() -> SchedulerView {
        SchedulerView {
            state: SchedulerState::Idle,
            generation: 1,
            pass: 0,
            pass_generation: 1,
            meshed: Seq::empty(),
        }
    }

    /// The scheduler after the inputs have changed.
    pub open spec fn after_inputs_changed(self) -> SchedulerView {
        SchedulerView { generation: (self.generation + 1) as u64, ..self }
    }

    /// The scheduler after a trigger; `chunk_count` is the number of chunks
    /// of the lattice that `GenerateAll` lays out.
    pub open spec fn after_trigger(self, trigger: Trigger, chunk_count: nat) -> SchedulerView {
        let meshed = match trigger {
            Trigger::GenerateAll => Seq::new(chunk_count, |chunk: int| NEVER),
            Trigger::Regenerate => self.meshed,
        };
        let busy = match trigger {
            Trigger::GenerateAll => SchedulerState::FullRebuild,
            Trigger::Regenerate => SchedulerState::PerChunkRemesh,
        };
        SchedulerView {
            state: if settled(meshed, self.generation) {
                SchedulerState::Idle
            } else {
                busy
            },
            generation: self.generation,
            pass: (self.pass + 1) as u64,
            pass_generation: self.generation,
            meshed,
        }
    }

    /// The scheduler after the result for a chunk was accepted.
    pub open spec fn after_completion(self, chunk: int) -> SchedulerView {
        let meshed = self.meshed.update(chunk, self.pass_generation);
        SchedulerView {
            state: if settled(meshed, self.pass_generation) {
                SchedulerState::Idle
            } else {
                self.state
            },
            meshed,
            ..self
        }
    }
}

/// Number of chunks among the first `n` whose token differs from `token`.
pub open spec fn count_owed(meshed: Seq<u64>, token: u64, n: int) -> int
    decreases n,
{
    if n <= 0 {
        0
    } else {
        count_owed(meshed, token, n - 1) + if meshed[n - 1] != token {
            1int
        } else {
            0int
        }
    }
}

proof fn lemma_count_owed_bounds(meshed: Seq<u64>, token: u64, n: int)
    requires
        0 <= n <= meshed.len(),
    ensures
        0 <= count_owed(meshed, token, n) <= n,
        count_owed(meshed, token, n) == 0 <==> forall|chunk: int|
            0 <= chunk < n ==> #[trigger] meshed[chunk] == token,
    decreases n,
{
    if n > 0 {
        lemma_count_owed_bounds(meshed, token, n - 1);
    }
}

proof fn lemma_count_owed_update(meshed: Seq<u64>, token: u64, chunk: int, n: int)
    requires
        0 <= n <= meshed.len(),
        0 <= chunk < meshed.len(),
        meshed[chunk] != token,
    ensures
        count_owed(meshed.update(chunk, token), token, n) == count_owed(meshed, token, n) - if chunk
            < n {
            1int
        } else {
            0int
        },
    decreases n,
{
    if n > 0 {
        lemma_count_owed_update(meshed, token, chunk, n - 1);
    }
}

/// The regeneration scheduler.
#[derive(Debug)]
pub struct RegenerationScheduler {
    state: SchedulerState,
    generation: u64,
    pass: u64,
    pass_generation: u64,
    meshed: Vec<u64>,
    /// Number of chunks that the pass in flight still owes their mesh.
    owed: usize,
}

impl View for RegenerationScheduler {
    type V = SchedulerView;

    closed spec fn view(&self) -> SchedulerView {
        SchedulerView {
            state: self.state,
            generation: self.generation,
            pass: self.pass,
            pass_generation: self.pass_generation,
            meshed: self.meshed@,
        }
    }
}

impl RegenerationScheduler {
    #[verifier::type_invariant]
    closed spec fn inv(self) -> bool {
        &&& self@.wf()
        &&& self.owed == count_owed(self.meshed@, self.pass_generation, self.meshed@.len() as int)
    }

    /// A scheduler with no chunk and no pass in flight.
    pub fn new() -> (scheduler: RegenerationScheduler)
        ensures
            scheduler@ == SchedulerView::initial(),
            scheduler@.wf(),
    {
        let scheduler = RegenerationScheduler {
            state: SchedulerState::Idle,
            generation: 1,
            pass: 0,
            pass_generation: 1,
            meshed: Vec::new(),
            owed: 0,
        };
        assert(scheduler@.meshed =~= SchedulerView::initial().meshed);
        scheduler
    }

    /// What the scheduler is doing.
    pub fn state(&self) -> (state: SchedulerState)
        ensures
            state == self@.state,
            self@.wf(),
    {
        proof {
            use_type_invariant(self);
        }
        self.state
    }

    /// The token of the current inputs.
    pub fn generation(&self) -> (generation: u64)
        ensures
            generation == self@.generation,
    {
        self.generation
    }

    /// The token of the pass that was started last.
    pub fn pass(&self) -> (pass: u64)
        ensures
            pass == self@.pass,
    {
        self.pass
    }

    /// Number of chunks.
    pub fn chunk_count(&self) -> (count: usize)
        ensures
            count == self@.meshed.len(),
    {
        self.meshed.len()
    }

    /// Records that the inputs have changed: that the configuration or the
    /// density function is no longer what it was. Every chunk then needs
    /// remeshing. Returns whether there was a token left to record it with;
    /// if not, nothing changes.
    pub fn inputs_changed(&mut self) -> (recorded: bool)
        ensures
            recorded <==> old(self)@.generation < u64::MAX,
            recorded ==> final(self)@ == old(self)@.after_inputs_changed(),
            recorded ==> forall|chunk: int|
                0 <= chunk < final(self)@.meshed.len() ==> final(self)@.needs_remesh(chunk),
            !recorded ==> final(self)@ == old(self)@,
            final(self)@.wf(),
    {
        proof {
            use_type_invariant(&*self);
        }
        if self.generation == u64::MAX {
            return false;
        }
        self.generation = self.generation + 1;
        true
    }

    /// Whether a chunk needs remeshing: its inputs have changed since its
    /// last completed pass, or it has never been meshed.
    pub fn needs_remesh(&self, chunk: usize) -> (needed: bool)
        ensures
            needed == self@.needs_remesh(chunk as int),
    {
        chunk < self.meshed.len() && self.meshed[chunk] != self.generation
    }

    /// Takes a trigger and starts a pass. `chunk_count` is the number of
    /// chunks of the lattice that `GenerateAll` lays out; `Regenerate` does
    /// not look at it. A pass that was in flight is superseded: its results
    /// are stale from now on. Returns the token of the new pass, or `None`,
    /// and changes nothing, if there is no token left.
    ///
    /// After `GenerateAll` every chunk is new and owed its mesh; after
    /// `Regenerate` exactly the chunks that need remeshing are. Where no
    /// chunk is owed anything, the pass is complete at once.
    pub fn trigger(&mut self, trigger: Trigger, chunk_count: usize) -> (pass: Option<u64>)
        ensures
            pass.is_some() <==> old(self)@.pass < u64::MAX,
            pass.is_some() ==> final(self)@ == old(self)@.after_trigger(trigger, chunk_count as nat)
                && pass == Some(final(self)@.pass),
            pass.is_none() ==> final(self)@ == old(self)@,
            final(self)@.wf(),
    {
        proof {
            use_type_invariant(&*self);
        }
        if self.pass == u64::MAX {
            return None;
        }
        let generation = self.generation;
        let mut meshed: Vec<u64> = Vec::new();
        let mut owed: usize = 0;
        match trigger {
            Trigger::GenerateAll => {
                let mut chunk: usize = 0;
                while chunk < chunk_count
                    invariant
                        chunk <= chunk_count,
                        generation >= 1,
                        meshed@.len() == chunk,
                        forall|done: int| 0 <= done < chunk ==> #[trigger] meshed@[done] == NEVER,
                        owed == count_owed(meshed@, generation, chunk as int),
                        owed == chunk,
                    decreases chunk_count - chunk,
                {
                    proof {
                        lemma_count_owed_push(meshed@, generation, NEVER);
                    }
                    meshed.push(NEVER);
                    owed = owed + 1;
                    chunk = chunk + 1;
                }
                proof {
                    assert(meshed@ =~= Seq::new(chunk_count as nat, |chunk: int| NEVER));
                }
            },
            Trigger::Regenerate => {
                let mut chunk: usize = 0;
                while chunk < self.meshed.len()
                    invariant
                        chunk <= self.meshed@.len(),
                        meshed@ == self.meshed@.take(chunk as int),
                        owed == count_owed(meshed@, generation, chunk as int),
                        owed <= chunk,
                    decreases self.meshed@.len() - chunk,
                {
                    let token = self.meshed[chunk];
                    proof {
                        lemma_count_owed_push(meshed@, generation, token);
                        assert(meshed@.push(token) =~= self.meshed@.take(chunk + 1));
                    }
                    meshed.push(token);
                    if token != generation {
                        owed = owed + 1;
                    }
                    chunk = chunk + 1;
                }
                proof {
                    assert(self.meshed@.take(chunk as int) =~= self.meshed@);
                }
            },
        }
        proof {
            lemma_count_owed_bounds(meshed@, generation, meshed@.len() as int);
        }
        let state = if owed == 0 {
            SchedulerState::Idle
        } else {
            match trigger {
                Trigger::GenerateAll => SchedulerState::FullRebuild,
                Trigger::Regenerate => SchedulerState::PerChunkRemesh,
            }
        };
        let ghost before = self@;
        let pass = self.pass + 1;
        *self = RegenerationScheduler {
            state,
            generation,
            pass,
            pass_generation: generation,
            meshed,
            owed,
        };
        proof {
            assert(self@.meshed =~= before.after_trigger(trigger, chunk_count as nat).meshed);
        }
        Some(pass)
    }

    /// Takes the report that the mesh of a chunk is ready, from the pass with
    /// the token `pass`. Returns whether the result is still wanted: the
    /// driver hands an accepted mesh to the consumer, in place of the one the
    /// chunk had, and drops a refused one. A result is refused when no pass
    /// is in flight, when it comes from a pass that was superseded, and when
    /// the pass in flight does not owe the chunk a mesh, be it that the chunk
    /// got one already or that it did not need remeshing. With the last mesh
    /// that it owes, the pass is complete.
    pub fn complete_chunk(&mut self, chunk: usize, pass: u64) -> (accepted: bool)
        ensures
            accepted == old(self)@.accepts(chunk as int, pass),
            accepted ==> final(self)@ == old(self)@.after_completion(chunk as int),
            accepted ==> !final(self)@.accepts(chunk as int, pass),
            !accepted ==> final(self)@ == old(self)@,
            final(self)@.wf(),
    {
        proof {
            use_type_invariant(&*self);
        }
        let idle = match self.state {
            SchedulerState::Idle => true,
            _ => false,
        };
        if idle || pass != self.pass || chunk >= self.meshed.len() || self.meshed[chunk]
            == self.pass_generation {
            return false;
        }
        let token = self.pass_generation;
        let mut meshed: Vec<u64> = Vec::new();
        let mut i: usize = 0;
        while i < self.meshed.len()
            invariant
                i <= self.meshed@.len(),
                chunk < self.meshed@.len(),
                meshed@.len() == i,
                forall|k: int|
                    0 <= k < i ==> #[trigger] meshed@[k] == self.meshed@.update(
                        chunk as int,
                        token,
                    )[k],
            decreases self.meshed@.len() - i,
        {
            if i == chunk {
                meshed.push(token);
            } else {
                meshed.push(self.meshed[i]);
            }
            i = i + 1;
        }
        proof {
            assert(meshed@ =~= self.meshed@.update(chunk as int, token));
            lemma_count_owed_update(self.meshed@, token, chunk as int, self.meshed@.len() as int);
            lemma_count_owed_bounds(meshed@, token, meshed@.len() as int);
            lemma_count_owed_bounds(self.meshed@, token, self.meshed@.len() as int);
        }
        let owed = self.owed - 1;
        let state = if owed == 0 {
            SchedulerState::Idle
        } else {
            self.state
        };
        *self = RegenerationScheduler {
            state,
            generation: self.generation,
            pass: self.pass,
            pass_generation: token,
            meshed,
            owed,
        };
        true
    }
}

/// Regenerating is idempotent: once a pass is complete and the inputs have
/// not changed since it started, no chunk needs remeshing, and a
/// `Regenerate` trigger starts a pass that owes nothing, is complete at
/// once and leaves every chunk as it is.
pub proof fn lemma_regenerate_unchanged_is_idle(scheduler: SchedulerView, chunk_count: nat)
    requires
        scheduler.wf(),
        scheduler.state == SchedulerState::Idle,
        scheduler.generation == scheduler.pass_generation,
    ensures
        forall|chunk: int| !scheduler.needs_remesh(chunk),
        scheduler.after_trigger(Trigger::Regenerate, chunk_count).state == SchedulerState::Idle,
        scheduler.after_trigger(Trigger::Regenerate, chunk_count).meshed == scheduler.meshed,
        forall|chunk: int, pass: u64|
            !scheduler.after_trigger(Trigger::Regenerate, chunk_count).accepts(chunk, pass),
{
}

/// A trigger supersedes the pass in flight: no result of an earlier pass is
/// accepted after it. After `GenerateAll` the new pass owes every chunk of
/// the new lattice its mesh; after `Regenerate` it owes exactly the chunks
/// that needed remeshing.
pub proof fn lemma_trigger_supersedes(
    scheduler: SchedulerView,
    trigger: Trigger,
    chunk_count: nat,
    chunk: int,
    pass: u64,
)
    requires
        scheduler.wf(),
        scheduler.pass < u64::MAX,
    ensures
        scheduler.after_trigger(trigger, chunk_count).wf(),
        scheduler.after_trigger(trigger, chunk_count).pass > scheduler.pass,
        pass <= scheduler.pass ==> !scheduler.after_trigger(trigger, chunk_count).accepts(
            chunk,
            pass,
        ),
        trigger == Trigger::GenerateAll ==> (scheduler.after_trigger(trigger, chunk_count).pending(
            chunk,
        ) <==> 0 <= chunk < chunk_count),
        trigger == Trigger::Regenerate ==> (scheduler.after_trigger(trigger, chunk_count).pending(
            chunk,
        ) <==> scheduler.needs_remesh(chunk)),
{
}

/// The consumer gets the mesh of a chunk at most once in a pass: once the
/// result for a chunk was accepted, the pass accepts no other for it; and
/// the chunk needs no remeshing until the inputs change.
pub proof fn lemma_completion_is_final(scheduler: SchedulerView, chunk: int, pass: u64)
    requires
        scheduler.wf(),
        scheduler.accepts(chunk, pass),
    ensures
        scheduler.after_completion(chunk).wf(),
        !scheduler.after_completion(chunk).accepts(chunk, pass),
        scheduler.generation == scheduler.pass_generation ==> !scheduler.after_completion(
            chunk,
        ).needs_remesh(chunk),
        scheduler.after_completion(chunk).generation == scheduler.generation,
        scheduler.after_completion(chunk).pass == scheduler.pass,
{
    let after = scheduler.after_completion(chunk);
    assert(after.meshed[chunk] == scheduler.pass_generation);
    if after.state == SchedulerState::Idle {
        if !settled(after.meshed, after.pass_generation) {
            assert(scheduler.state == SchedulerState::Idle);
        }
    }
}

proof fn lemma_count_owed_push(meshed: Seq<u64>, token: u64, last: u64)
    ensures
        count_owed(meshed.push(last), token, meshed.len() as int + 1) == count_owed(
            meshed,
            token,
            meshed.len() as int,
        ) + if last != token {
            1int
        } else {
            0int
        },
{
    lemma_count_owed_prefix(meshed.push(last), meshed, token, meshed.len() as int);
}

proof fn lemma_count_owed_prefix(a: Seq<u64>, b: Seq<u64>, token: u64, n: int)
    requires
        0 <= n <= a.len(),
        n <= b.len(),
        forall|k: int| 0 <= k < n ==> a[k] == b[k],
    ensures
        count_owed(a, token, n) == count_owed(b, token, n),
    decreases n,
{
    if n > 0 {
        lemma_count_owed_prefix(a, b, token, n - 1);
    }
}

} // verus!
