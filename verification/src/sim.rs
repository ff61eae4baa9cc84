//! The double-buffered simulation state and its frame protocol.
//!
//! The state owns three equal-length particle buffers — `init`, the
//! write-once snapshot of the generator's output; `old`, the state a tick
//! reads; `current`, the state a tick writes — plus the uniform record.
//! The buffers themselves live on the device; what is decided here, and
//! what the external executor follows command by command, is the exact
//! ordered protocol of a frame: write the uniform record once, then for
//! each of `ticks_per_frame` ticks copy `current` into `old` and dispatch
//! the compute kernel over ⌈N / 256⌉ work groups, then issue exactly one
//! draw covering all N particles. A tick never reads what it writes, since
//! the copy runs before the dispatch in the same ordered stream.

use vstd::prelude::*;

use crate::globals::{globals_bytes, Globals};
use crate::particle::{encode_particles, particles_bytes, Particle};

verus! {

/// The number of particles one compute work group covers, agreed with the
/// external kernel.
pub const GROUP_SIZE: usize = 256;

/// How many integration ticks a rendered frame sub-steps by default.
pub const DEFAULT_TICKS_PER_FRAME: u32 = 3;

/// One step of the frame protocol, executed in order by the external
/// device queue.
#[derive(Clone, Copy, Debug, PartialEq, Eq)]
pub enum Command {
    /// Upload the current uniform record into its device slot.
    WriteGlobals,
    /// Copy the `init` snapshot into `current` (issued once, after the
    /// upload of `init`).
    CopyInitToCurrent,
    /// Copy `current` into `old`, opening one tick.
    CopyCurrentToOld,
    /// Run the compute kernel: read all of `old`, write all of `current`.
    Dispatch { work_groups: usize },
    /// Draw `instances` points from `current`.
    Draw { instances: usize },
}

/// The failure of `initialize`: the particle count the uniform record (and
/// with it the resource layout) was built for does not match the array.
#[derive(Clone, Copy, Debug, PartialEq, Eq)]
pub enum InitError {
    CountMismatch,
}

/// The host side of the simulation: the immutable snapshot the buffers
/// were filled from, the uniform record, and the sub-step count.
#[derive(Debug)]
pub struct SimulationState {
    /// The generator's output, uploaded once and kept for reset; never
    /// mutated afterwards.
    pub init: Vec<Particle>,
    /// The uniform record, rewritten between frames.
    pub globals: Globals,
    /// How many ticks each frame issues before its draw.
    pub ticks_per_frame: u32,
}

/// How many work groups cover `n` particles: ⌈n / 256⌉.
pub open spec fn spec_work_groups(n: nat) -> nat {
    (n + 255) / 256
}

/// The two commands of one tick.
pub open spec fn spec_tick_commands(n: nat) -> Seq<Command> {
    seq![
        Command::CopyCurrentToOld,
        Command::Dispatch { work_groups: spec_work_groups(n) as usize },
    ]
}

/// The commands of `k` ticks in a row.
pub open spec fn spec_ticks(n: nat, k: nat) -> Seq<Command>
    decreases k,
{
    if k == 0 {
        Seq::empty()
    } else {
        spec_ticks(n, (k - 1) as nat) + spec_tick_commands(n)
    }
}

/// The one command of presenting: a single draw covering all particles.
pub open spec fn spec_present_commands(n: nat) -> Seq<Command> {
    seq![Command::Draw { instances: n as usize }]
}

/// The full protocol of one frame: the uniform upload, `k` ticks, one
/// draw.
pub open spec fn spec_frame_commands(n: nat, k: nat) -> Seq<Command> {
    seq![Command::WriteGlobals] + spec_ticks(n, k) + spec_present_commands(n)
}

/// Computes ⌈n / 256⌉ work groups: enough to cover every particle, and no
/// group beyond the last one holding any.
pub fn work_group_count(n: usize) -> (r: usize)
    ensures
        r == spec_work_groups(n as nat),
        r * GROUP_SIZE >= n,
        n > 0 ==> (r - 1) * GROUP_SIZE < n,
{
    if n == 0 {
        0
    } else {
        (n - 1) / GROUP_SIZE + 1
    }
}

/// The commands of `k` ticks, spelled out: the copy then the dispatch of
/// tick `i` sit at positions `2i` and `2i + 1`, and nothing else is
/// there.
pub proof fn lemma_ticks_shape(n: nat, k: nat)
    ensures
        spec_ticks(n, k).len() == 2 * k,
        forall|j: int|
            0 <= j < 2 * k ==> spec_ticks(n, k)[j] == (if j % 2 == 0 {
                Command::CopyCurrentToOld
            } else {
                Command::Dispatch { work_groups: spec_work_groups(n) as usize }
            }),
    decreases k,
{
    if k > 0 {
        lemma_ticks_shape(n, (k - 1) as nat);
    }
}

/// One frame issues exactly `k` buffer rotations and `k` dispatches of
/// ⌈n / 256⌉ work groups, in alternation, then exactly one draw covering
/// all `n` particles — and the uniform record is written exactly once, at
/// the head, before the first dispatch.
pub proof fn lemma_frame_protocol(n: nat, k: nat)
    ensures
        spec_frame_commands(n, k).len() == 2 * k + 2,
        spec_frame_commands(n, k)[0] == Command::WriteGlobals,
        forall|i: int|
            0 <= i < k ==> #[trigger] spec_frame_commands(n, k)[2 * i + 1]
                == Command::CopyCurrentToOld,
        forall|i: int|
            0 <= i < k ==> #[trigger] spec_frame_commands(n, k)[2 * i + 2] == (Command::Dispatch {
                work_groups: spec_work_groups(n) as usize,
            }),
        spec_frame_commands(n, k)[2 * (k as int) + 1] == (Command::Draw { instances: n as usize }),
        forall|j: int|
            1 <= j < 2 * k + 2 ==> #[trigger] spec_frame_commands(n, k)[j]
                != Command::WriteGlobals,
        forall|j: int| 0 <= j < 2 * k + 1 ==> !(#[trigger] spec_frame_commands(n, k)[j] is Draw),
{
    lemma_ticks_shape(n, k);
    assert forall|i: int| 0 <= i < k implies #[trigger] spec_frame_commands(n, k)[2 * i + 1]
        == Command::CopyCurrentToOld by {
        assert(spec_ticks(n, k)[2 * i] == Command::CopyCurrentToOld);
    }
    assert forall|i: int| 0 <= i < k implies #[trigger] spec_frame_commands(n, k)[2 * i + 2]
        == (Command::Dispatch { work_groups: spec_work_groups(n) as usize }) by {
        assert(spec_ticks(n, k)[2 * i + 1] == (Command::Dispatch {
            work_groups: spec_work_groups(n) as usize,
        }));
    }
}

impl SimulationState {
    /// The invariant of a ready state: the uniform record counts exactly
    /// the particles the buffers were sized for.
    pub open spec fn wf(self) -> bool {
        self.globals.particles as int == self.init@.len()
    }

    /// Builds a ready state from the generated array and its uniform
    /// record, handing back the commands that fill the device buffers:
    /// the caller uploads `init_bytes` into the `init` buffer and then
    /// executes the copy of `init` into `current`. Fails when the record
    /// was built for a different particle count than the array holds.
    pub fn initialize(particles: Vec<Particle>, globals: Globals, ticks_per_frame: u32) -> (r:
        Result<(SimulationState, Vec<Command>), InitError>)
        ensures
            globals.particles as int == particles@.len() ==> (r matches Ok(sc)
                && sc.0 == (SimulationState { init: particles, globals, ticks_per_frame })
                && sc.0.wf() && sc.1@ == seq![Command::CopyInitToCurrent]),
            globals.particles as int != particles@.len() ==> (r matches Err(e) && e
                == InitError::CountMismatch),
    {
        if particles.len() == globals.particles as usize {
            let mut commands: Vec<Command> = Vec::new();
            commands.push(Command::CopyInitToCurrent);
            assert(commands@ =~= seq![Command::CopyInitToCurrent]);
            Ok((SimulationState { init: particles, globals, ticks_per_frame }, commands))
        } else {
            Err(InitError::CountMismatch)
        }
    }

    /// The byte image of the snapshot, uploaded once into the `init`
    /// buffer.
    pub fn init_bytes(&self) -> (bytes: Vec<u8>)
        ensures
            bytes@ == particles_bytes(self.init@),
    {
        encode_particles(&self.init)
    }

    /// The byte image of the uniform record, uploaded by each
    /// `WriteGlobals` command.
    pub fn uniform_bytes(&self) -> (bytes: Vec<u8>)
        ensures
            bytes@ == globals_bytes(self.globals),
    {
        self.globals.to_bytes()
    }

    /// Replaces the camera transform of the uniform record, leaving every
    /// other field — and the buffers — untouched. Takes effect with the
    /// next frame's `WriteGlobals`.
    pub fn update_globals(&mut self, matrix: [[u32; 4]; 4])
        ensures
            final(self).globals == (Globals {
                matrix,
                particles: old(self).globals.particles,
                safety: old(self).globals.safety,
                delta: old(self).globals.delta,
            }),
            final(self).init == old(self).init,
            final(self).ticks_per_frame == old(self).ticks_per_frame,
    {
        self.globals.matrix = matrix;
    }

    /// The two commands of one integration tick: rotate `current` into
    /// `old`, then dispatch the kernel over every particle.
    pub fn tick(&self) -> (commands: Vec<Command>)
        ensures
            commands@ == spec_tick_commands(self.init@.len()),
    {
        let mut commands: Vec<Command> = Vec::new();
        commands.push(Command::CopyCurrentToOld);
        commands.push(Command::Dispatch { work_groups: work_group_count(self.init.len()) });
        assert(commands@ =~= spec_tick_commands(self.init@.len()));
        commands
    }

    /// The one command of presenting: a single draw covering all
    /// particles, mutating nothing.
    pub fn present(&self) -> (commands: Vec<Command>)
        ensures
            commands@ == spec_present_commands(self.init@.len()),
    {
        let mut commands: Vec<Command> = Vec::new();
        commands.push(Command::Draw { instances: self.init.len() });
        assert(commands@ =~= spec_present_commands(self.init@.len()));
        commands
    }

    /// The full command list of one frame: the uniform upload first, then
    /// `ticks_per_frame` ticks, then exactly one draw.
    pub fn frame(&self) -> (commands: Vec<Command>)
        ensures
            commands@ == spec_frame_commands(self.init@.len(), self.ticks_per_frame as nat),
    {
        let mut commands: Vec<Command> = Vec::new();
        commands.push(Command::WriteGlobals);
        proof {
            assert(commands@ =~= seq![Command::WriteGlobals] + spec_ticks(self.init@.len(), 0));
        }
        let mut t: u32 = 0;
        while t < self.ticks_per_frame
            invariant
                t <= self.ticks_per_frame,
                commands@ == seq![Command::WriteGlobals] + spec_ticks(
                    self.init@.len(),
                    t as nat,
                ),
            decreases self.ticks_per_frame - t,
        {
            let mut step = self.tick();
            commands.append(&mut step);
            proof {
                assert(commands@ =~= seq![Command::WriteGlobals] + spec_ticks(
                    self.init@.len(),
                    (t + 1) as nat,
                ));
            }
            t = t + 1;
        }
        let mut draw = self.present();
        commands.append(&mut draw);
        assert(commands@ =~= spec_frame_commands(
            self.init@.len(),
            self.ticks_per_frame as nat,
        ));
        commands
    }
}

} // verus!
