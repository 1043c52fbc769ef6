//! The animation interpreter's handle, as the frame loop sees it.
//!
//! The opcode interpreter itself is an external collaborator: it owns the
//! script's execution state (program counter, timers, interpolation
//! targets) and mutates the bound sprite one tick at a time. The loop's
//! obligations toward it are what is modeled here: a runner may only be
//! created for a script id that the loaded container actually holds, and
//! it is advanced by exactly one tick per presented frame. The sprite is a
//! single-owner value passed by reference between the tick and the vertex
//! synthesis, never aliased.

use vstd::prelude::*;

verus! {

/// A fatal startup condition: nothing is rendered after one of these.
#[derive(Clone, Copy, Debug, PartialEq, Eq, Structural)]
pub enum StartupError {
    /// The requested script id is absent from the loaded container.
    ScriptNotFound,
}

/// The script ids held by a loaded animation container.
pub struct ScriptTable {
    pub ids: Vec<u8>,
}

impl ScriptTable {
    /// Build the table of script ids found in a container.
    pub fn from_ids(ids: Vec<u8>) -> (r: ScriptTable)
        ensures
            r.ids@ == ids@,
    {
        ScriptTable { ids }
    }

    /// Whether the container holds a script with this id.
    pub open spec fn spec_contains(self, id: u8) -> bool {
        self.ids@.contains(id)
    }

    /// Look the script id up in the table.
    pub fn contains_script(&self, id: u8) -> (r: bool)
        ensures
            r == self.spec_contains(id),
    {
        let mut i: usize = 0;
        while i < self.ids.len()
            invariant
                i <= self.ids@.len(),
                forall|j: int| 0 <= j < i ==> self.ids@[j] != id,
            decreases self.ids@.len() - i,
        {
            if self.ids[i] == id {
                return true;
            }
            i += 1;
        }
        false
    }
}

/// A running animation script: the loop-facing face of the interpreter.
#[derive(Clone, Copy, Debug, PartialEq, Eq, Structural)]
pub struct AnmRunner {
    /// The script this runner was bound to at startup.
    pub script: u8,
    /// How many ticks have been executed, counted from `start_tick`.
    pub ticks: u64,
}

impl AnmRunner {
    /// Bind a runner to a script of the container. Succeeds exactly when
    /// the container holds `script`; an absent id is a fatal startup
    /// error, and no rendering follows it.
    pub fn initialize(table: &ScriptTable, script: u8, start_tick: u64) -> (r: Result<
        AnmRunner,
        StartupError,
    >)
        ensures
            r is Ok <==> table.spec_contains(script),
            r matches Ok(runner) ==> runner.script == script && runner.ticks == start_tick,
            !table.spec_contains(script) ==> r == Err::<AnmRunner, StartupError>(
                StartupError::ScriptNotFound,
            ),
    {
        if table.contains_script(script) {
            Ok(AnmRunner { script, ticks: start_tick })
        } else {
            Err(StartupError::ScriptNotFound)
        }
    }

    /// Execute the interpreter forward by exactly one logical tick. Called
    /// at most once per presented frame: the tick cadence is coupled 1:1
    /// to presentation.
    pub fn advance_one_tick(&mut self)
        requires
            old(self).ticks < u64::MAX,
        ensures
            final(self).ticks == old(self).ticks + 1,
            final(self).script == old(self).script,
    {
        self.ticks = self.ticks + 1;
    }
}

} // verus!
