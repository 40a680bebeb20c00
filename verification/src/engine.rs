//! The bridge runtime: the module-slot state machine that coordinates the
//! embedded script interpreter with the host's per-frame loop.
//!
//! The interpreter itself runs outside this crate.  The host asks it to load
//! and evaluate a module, or to call the loaded module's exported entry
//! point, and hands the bridge the outcome as a plain event
//! ([`ModuleOutcome`], [`EntryOutcome`]).  The bridge decides what the event
//! means for its state — which module is loaded, which commands land on the
//! drawing surface, which error the host sees — and those decisions are what
//! this module verifies.

use vstd::prelude::*;
use vstd::string::StringExecFns;

use crate::surface::{DrawCmd, RectCall, Surface, rect_batch, rect_cmd};

verus! {

/// The fixed, fabricated location under which `compile` addresses the one
/// synthetic module.  The bridge needs no real file path, only a location
/// that is deterministic across calls, so that module caching and
/// diagnostics stay reproducible.
pub fn module_location() -> (location: String)
    ensures
        location@ == "file:///main.js"@,
{
    String::from_str("file:///main.js")
}

/// The name of the exported binding that each frame's `run` calls.
pub fn entry_point_name() -> (name: String)
    ensures
        name@ == "main"@,
{
    String::from_str("main")
}

/// Why a `compile` call failed.  Each variant carries the script-level
/// message, preserved verbatim from the interpreter.
#[derive(Clone, Debug, PartialEq, Eq)]
pub enum CompileError {
    /// The source text does not parse as a module.
    ParseFailed { message: String },
    /// The module references an import that the loader cannot resolve.
    ImportUnresolved { message: String },
    /// The module's top-level code threw or rejected during evaluation.
    EvalThrew { message: String },
}

/// Why a `run` call failed.
#[derive(Clone, Debug, PartialEq, Eq)]
pub enum RunError {
    /// `run` was called before any successful `compile`.
    NoModuleLoaded,
    /// The loaded module has no callable exported binding named `main`.
    MissingEntryPoint,
    /// The entry point threw synchronously, or its deferred result rejected.
    ScriptThrew { message: String },
}

/// Why a host operation failed.  The rectangle operation never fails — its
/// contract says so — so this exists only to reserve the slot for future
/// fallible operations.
#[derive(Clone, Debug, PartialEq, Eq)]
pub enum OperationError {
    /// An operation rejected its numeric arguments.
    InvalidArguments { message: String },
}

/// What the interpreter reported when asked to load and evaluate a module.
pub enum ModuleOutcome {
    /// The module parsed, instantiated and evaluated; the interpreter now
    /// knows it under this identifier.
    Loaded { id: usize },
    /// The source text failed to parse.
    ParseFailed { message: String },
    /// An import could not be resolved.
    ImportUnresolved { message: String },
    /// Top-level evaluation threw or rejected.
    EvalThrew { message: String },
}

/// What the interpreter reported when asked to call the loaded module's
/// entry point for one frame.
pub enum EntryOutcome {
    /// The module exports no callable binding named `main`.
    Missing,
    /// The entry point ran to completion, issuing these rectangle calls in
    /// this order.
    Completed { calls: Vec<RectCall> },
    /// The entry point threw, or its deferred result rejected, after issuing
    /// these rectangle calls.
    Threw { message: String, calls: Vec<RectCall> },
}

/// The bridge runtime: at most one loaded module, plus the drawing surface
/// it may reach through the one registered host operation.
pub struct Engine {
    /// The identifier of the currently loaded module, if a `compile` has
    /// succeeded.
    pub module_id: Option<usize>,
    /// The capability state: the injected drawing surface.
    pub surface: Surface,
}

impl Engine {
    /// A ready bridge with the given surface injected and no module loaded.
    pub fn new(surface: Surface) -> (e: Engine)
        ensures
            e.module_id is None,
            e.surface == surface,
    {
        Engine { module_id: None, surface }
    }

    /// Whether a module is currently loaded, i.e. whether some `compile` has
    /// succeeded.
    pub fn loaded(&self) -> (b: bool)
        ensures
            b == (self.module_id is Some),
    {
        self.module_id.is_some()
    }

    /// Records the outcome of loading and evaluating a module.
    ///
    /// On success the new module's identifier replaces any previous one; on
    /// any failure the previous module (if any) stays loaded, the error
    /// carries the interpreter's message unchanged, and nothing is drawn.
    pub fn compile(&mut self, outcome: ModuleOutcome) -> (r: Result<(), CompileError>)
        ensures
            final(self).surface == old(self).surface,
            match outcome {
                ModuleOutcome::Loaded { id } => {
                    &&& r == Ok::<(), CompileError>(())
                    &&& final(self).module_id == Some(id)
                },
                ModuleOutcome::ParseFailed { message } => {
                    &&& r == Err::<(), CompileError>(CompileError::ParseFailed { message })
                    &&& final(self).module_id == old(self).module_id
                },
                ModuleOutcome::ImportUnresolved { message } => {
                    &&& r == Err::<(), CompileError>(CompileError::ImportUnresolved { message })
                    &&& final(self).module_id == old(self).module_id
                },
                ModuleOutcome::EvalThrew { message } => {
                    &&& r == Err::<(), CompileError>(CompileError::EvalThrew { message })
                    &&& final(self).module_id == old(self).module_id
                },
            },
    {
        match outcome {
            ModuleOutcome::Loaded { id } => {
                self.module_id = Some(id);
                Ok(())
            },
            ModuleOutcome::ParseFailed { message } => Err(CompileError::ParseFailed { message }),
            ModuleOutcome::ImportUnresolved { message } => {
                Err(CompileError::ImportUnresolved { message })
            },
            ModuleOutcome::EvalThrew { message } => Err(CompileError::EvalThrew { message }),
        }
    }

    /// The registered rectangle host operation: appends exactly one command
    /// at the given position, with the fixed size and colour.  It never
    /// fails and never changes which module is loaded.
    pub fn draw_rect(&mut self, x_bits: u32, y_bits: u32) -> (r: Result<(), OperationError>)
        ensures
            r == Ok::<(), OperationError>(()),
            final(self).module_id == old(self).module_id,
            final(self).surface.cmds@
                == old(self).surface.cmds@.push(rect_cmd(RectCall { x_bits, y_bits })),
    {
        self.surface.rect(x_bits, y_bits);
        Ok(())
    }

    /// Records the outcome of one per-frame entry-point call.
    ///
    /// Without a loaded module the call fails at once with `NoModuleLoaded`
    /// and draws nothing, whatever the event says.  With one, the module
    /// stays loaded whatever happens; a missing entry point draws nothing;
    /// otherwise the calls the entry point issued land on the surface, one
    /// command each, in order, even when the script threw afterwards.
    pub fn run(&mut self, outcome: EntryOutcome) -> (r: Result<(), RunError>)
        ensures
            final(self).module_id == old(self).module_id,
            old(self).module_id is None ==> {
                &&& r == Err::<(), RunError>(RunError::NoModuleLoaded)
                &&& final(self).surface == old(self).surface
            },
            old(self).module_id is Some ==> match outcome {
                EntryOutcome::Missing => {
                    &&& r == Err::<(), RunError>(RunError::MissingEntryPoint)
                    &&& final(self).surface == old(self).surface
                },
                EntryOutcome::Completed { calls } => {
                    &&& r == Ok::<(), RunError>(())
                    &&& final(self).surface.cmds@ == old(self).surface.cmds@ + rect_batch(calls@)
                },
                EntryOutcome::Threw { message, calls } => {
                    &&& r == Err::<(), RunError>(RunError::ScriptThrew { message })
                    &&& final(self).surface.cmds@ == old(self).surface.cmds@ + rect_batch(calls@)
                },
            },
    {
        if self.module_id.is_none() {
            return Err(RunError::NoModuleLoaded);
        }
        match outcome {
            EntryOutcome::Missing => Err(RunError::MissingEntryPoint),
            EntryOutcome::Completed { calls } => {
                self.apply_calls(&calls);
                Ok(())
            },
            EntryOutcome::Threw { message, calls } => {
                self.apply_calls(&calls);
                Err(RunError::ScriptThrew { message })
            },
        }
    }

    /// Replays the entry point's rectangle calls onto the surface, one
    /// command per call, in call order.
    fn apply_calls(&mut self, calls: &Vec<RectCall>)
        ensures
            final(self).module_id == old(self).module_id,
            final(self).surface.cmds@ == old(self).surface.cmds@ + rect_batch(calls@),
    {
        let mut i: usize = 0;
        while i < calls.len()
            invariant
                i <= calls.len(),
                self.module_id == old(self).module_id,
                self.surface.cmds@ == old(self).surface.cmds@ + rect_batch(calls@.take(i as int)),
            decreases calls.len() - i,
        {
            let call = calls[i];
            let _ = self.draw_rect(call.x_bits, call.y_bits);
            i = i + 1;
            proof {
                assert(self.surface.cmds@
                    =~= old(self).surface.cmds@ + rect_batch(calls@.take(i as int)));
            }
        }
        proof {
            assert(calls@.take(calls@.len() as int) =~= calls@);
        }
    }

    /// Hands the host the pending commands for flushing and leaves the
    /// surface empty; the loaded module is untouched.
    pub fn take_commands(&mut self) -> (cmds: Vec<DrawCmd>)
        ensures
            cmds@ == old(self).surface.cmds@,
            final(self).surface.cmds@ == Seq::<DrawCmd>::empty(),
            final(self).module_id == old(self).module_id,
    {
        let mut taken = Vec::new();
        std::mem::swap(&mut taken, &mut self.surface.cmds);
        taken
    }

    /// How many commands are pending on the surface.
    pub fn pending(&self) -> (n: usize)
        ensures
            n == self.surface.cmds@.len(),
    {
        self.surface.len()
    }
}

/// A frame draws one command per call, in call order: a run whose entry
/// point issues `k` rectangle calls appends a batch of exactly `k` commands,
/// the `i`-th at the `i`-th call's position, all with the fixed size and
/// colour.
pub proof fn lemma_one_command_per_call(calls: Seq<RectCall>)
    ensures
        rect_batch(calls).len() == calls.len(),
        forall|i: int| 0 <= i < calls.len() ==> rect_batch(calls)[i] == rect_cmd(calls[i]),
{
}

/// Frames are independent: two consecutive runs that issue the same calls
/// append two identical batches, side by side, not merged — the surface ends
/// as the old log, then the batch, then the batch again.
pub proof fn lemma_same_calls_same_batch(pre: Seq<DrawCmd>, calls: Seq<RectCall>)
    ensures
        ({
            let once = pre + rect_batch(calls);
            let twice = once + rect_batch(calls);
            &&& twice.subrange(pre.len() as int, once.len() as int) == rect_batch(calls)
            &&& twice.subrange(once.len() as int, twice.len() as int) == rect_batch(calls)
        }),
{
    let once = pre + rect_batch(calls);
    let twice = once + rect_batch(calls);
    assert(twice.subrange(pre.len() as int, once.len() as int) =~= rect_batch(calls));
    assert(twice.subrange(once.len() as int, twice.len() as int) =~= rect_batch(calls));
}

/// Frames never interleave: after one run and then another, the surface is
/// the old log, then the first run's batch whole, then the second run's
/// batch whole — no command of the second stands among the first's.
pub proof fn lemma_runs_stay_ordered(pre: Seq<DrawCmd>, first: Seq<RectCall>, second: Seq<RectCall>)
    ensures
        ({
            let after_first = pre + rect_batch(first);
            let after_second = after_first + rect_batch(second);
            &&& after_second.subrange(0, pre.len() as int) == pre
            &&& after_second.subrange(pre.len() as int, after_first.len() as int)
                == rect_batch(first)
            &&& after_second.subrange(after_first.len() as int, after_second.len() as int)
                == rect_batch(second)
        }),
{
    let after_first = pre + rect_batch(first);
    let after_second = after_first + rect_batch(second);
    assert(after_second.subrange(0, pre.len() as int) =~= pre);
    assert(after_second.subrange(pre.len() as int, after_first.len() as int) =~= rect_batch(first));
    assert(after_second.subrange(after_first.len() as int, after_second.len() as int)
        =~= rect_batch(second));
}

} // verus!
