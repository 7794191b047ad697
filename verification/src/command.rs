//! The command abstraction and the dispatch protocol.
//!
//! A command renders as ANSI escape bytes into a byte sink, and — where the
//! current terminal does not honor ANSI sequences — performs its effect
//! through a direct native console call instead. The dispatch operations
//! `queue`, `execute` and `sync_update` decide per command which control
//! surface to use and keep the two in program order: before any direct
//! native call, every byte already queued is flushed.
//!
//! A command whose rendering routine misbehaves cannot arise here: rendering
//! into memory is infallible and every implementation is verified against
//! its own byte specification, so a failing sink is the only way delivery
//! can fail.

use vstd::prelude::*;

use crate::console::Console;
use crate::console::ConsoleState;
use crate::error::Error;
use crate::sink::Sink;
use crate::terminal::BeginSynchronizedUpdate;
use crate::terminal::EndSynchronizedUpdate;

verus! {

/// The cached result of the platform capability probe: whether the current
/// terminal honors ANSI escape sequences for commands that have a native
/// alternative. The probe is expensive and its result cannot change
/// mid-process, so a caller computes it once and passes this value around.
#[derive(Clone, Copy, Debug, PartialEq, Eq, Structural)]
pub struct Capabilities {
    /// Whether ANSI escape sequences reach the terminal.
    pub ansi_supported: bool,
}

impl Capabilities {
    /// Capabilities recording the given probe result.
    pub fn new(ansi_supported: bool) -> (r: Capabilities)
        ensures
            r.ansi_supported == ansi_supported,
    {
        Capabilities { ansi_supported }
    }
}

/// An interface for a command that performs an action on the terminal,
/// either as ANSI escape bytes or as a direct native console call.
pub trait Command: Sized {
    /// The ANSI byte representation of this command.
    spec fn ansi(&self) -> Seq<u8>;

    /// Whether the ANSI representation achieves this command's effect, given
    /// the capability probe's result for the current terminal.
    spec fn ansi_viable(&self, ansi_supported: bool) -> bool;

    /// What the direct native call needs of the console.
    spec fn native_req(&self, pre: ConsoleState) -> bool;

    /// What a successful direct native call does to the console.
    spec fn native_ok(&self, pre: ConsoleState, post: ConsoleState) -> bool;

    /// What a failed direct native call may leave behind on the console.
    spec fn native_err(&self, pre: ConsoleState, post: ConsoleState) -> bool;

    /// Write the ANSI representation of this command into the given text
    /// buffer. Rendering into memory cannot fail.
    fn write_ansi(&self, f: &mut Vec<u8>)
        ensures
            final(f)@ == old(f)@ + self.ansi(),
    ;

    /// Perform this command through a direct native console call, for
    /// terminals that do not honor its ANSI representation.
    fn execute_winapi<C: Console>(&self, console: &mut C) -> (r: Result<(), Error>)
        requires
            self.native_req(old(console).state()),
        ensures
            r is Ok ==> self.native_ok(old(console).state(), final(console).state()),
            r is Err ==> self.native_err(old(console).state(), final(console).state()),
    ;

    /// Whether the ANSI representation of this command is honored by the
    /// current terminal.
    fn is_ansi_code_supported(&self, caps: &Capabilities) -> (r: bool)
        ensures
            r == self.ansi_viable(caps.ansi_supported),
    ;
}

impl<T: Command> Command for &T {
    open spec fn ansi(&self) -> Seq<u8> {
        (**self).ansi()
    }

    open spec fn ansi_viable(&self, ansi_supported: bool) -> bool {
        (**self).ansi_viable(ansi_supported)
    }

    open spec fn native_req(&self, pre: ConsoleState) -> bool {
        (**self).native_req(pre)
    }

    open spec fn native_ok(&self, pre: ConsoleState, post: ConsoleState) -> bool {
        (**self).native_ok(pre, post)
    }

    open spec fn native_err(&self, pre: ConsoleState, post: ConsoleState) -> bool {
        (**self).native_err(pre, post)
    }

    fn write_ansi(&self, f: &mut Vec<u8>) {
        T::write_ansi(*self, f)
    }

    fn execute_winapi<C: Console>(&self, console: &mut C) -> (r: Result<(), Error>) {
        T::execute_winapi(*self, console)
    }

    fn is_ansi_code_supported(&self, caps: &Capabilities) -> (r: bool) {
        T::is_ansi_code_supported(*self, caps)
    }
}

/// What a successful `queue` leaves behind: the command's ANSI bytes
/// appended without a flush — or, where ANSI is not viable, the pending
/// bytes flushed first and the command's native effect applied.
pub open spec fn queue_ok<S: Sink, M: Command>(
    command: M,
    ansi_supported: bool,
    s0: S,
    s1: S,
    c0: ConsoleState,
    c1: ConsoleState,
) -> bool {
    if command.ansi_viable(ansi_supported) {
        &&& s1.bytes() == s0.bytes() + command.ansi()
        &&& s1.flushes() == s0.flushes()
        &&& c1 == c0
    } else {
        &&& s1.bytes() == s0.bytes()
        &&& s1.flushes() == s0.flushes() + 1
        &&& command.native_ok(c0, c1)
    }
}

/// What a failed `queue` leaves behind: nothing appended; on the native
/// path, either the order-preserving flush failed with nothing else done, or
/// the flush happened and the native call itself failed.
pub open spec fn queue_err<S: Sink, M: Command>(
    command: M,
    ansi_supported: bool,
    s0: S,
    s1: S,
    c0: ConsoleState,
    c1: ConsoleState,
) -> bool {
    if command.ansi_viable(ansi_supported) {
        &&& s1.bytes() == s0.bytes()
        &&& s1.flushes() == s0.flushes()
        &&& c1 == c0
    } else {
        &&& s1.bytes() == s0.bytes()
        &&& ((s1.flushes() == s0.flushes() && c1 == c0) || (s1.flushes() == s0.flushes() + 1
            && command.native_err(c0, c1)))
    }
}

/// What a successful `execute` leaves behind: the command's effect and then
/// exactly one flush more than the number of direct native fallbacks taken —
/// one flush on the ANSI path, two on the native path.
pub open spec fn execute_ok<S: Sink, M: Command>(
    command: M,
    ansi_supported: bool,
    s0: S,
    s1: S,
    c0: ConsoleState,
    c1: ConsoleState,
) -> bool {
    if command.ansi_viable(ansi_supported) {
        &&& s1.bytes() == s0.bytes() + command.ansi()
        &&& s1.flushes() == s0.flushes() + 1
        &&& c1 == c0
    } else {
        &&& s1.bytes() == s0.bytes()
        &&& s1.flushes() == s0.flushes() + 2
        &&& command.native_ok(c0, c1)
    }
}

/// What a failed `execute` leaves behind: a failed queue step, or the
/// command's effect delivered but the final flush refused.
pub open spec fn execute_err<S: Sink, M: Command>(
    command: M,
    ansi_supported: bool,
    s0: S,
    s1: S,
    c0: ConsoleState,
    c1: ConsoleState,
) -> bool {
    if command.ansi_viable(ansi_supported) {
        &&& (s1.bytes() == s0.bytes() || s1.bytes() == s0.bytes() + command.ansi())
        &&& s1.flushes() == s0.flushes()
        &&& c1 == c0
    } else {
        &&& s1.bytes() == s0.bytes()
        &&& ((s1.flushes() == s0.flushes() && c1 == c0) || (s1.flushes() == s0.flushes() + 1
            && (command.native_err(c0, c1) || command.native_ok(c0, c1))))
    }
}

/// An interface for types that can queue commands for further execution.
pub trait QueueableCommand: Sink {
    /// Queue the given command for further execution: append its effect to
    /// this sink without forcing delivery. Where the terminal does not honor
    /// the command's ANSI representation, every byte already queued is
    /// flushed first — preserving program order — and the command is
    /// performed at once through its direct native call.
    fn queue<M: Command, C: Console>(
        &mut self,
        console: &mut C,
        caps: &Capabilities,
        command: M,
    ) -> (r: Result<(), Error>)
        requires
            !command.ansi_viable(caps.ansi_supported) ==> command.native_req(
                old(console).state(),
            ),
        ensures
            r is Ok ==> queue_ok(
                command,
                caps.ansi_supported,
                *old(self),
                *final(self),
                old(console).state(),
                final(console).state(),
            ),
            r is Err ==> queue_err(
                command,
                caps.ansi_supported,
                *old(self),
                *final(self),
                old(console).state(),
                final(console).state(),
            ),
    ;
}

/// An interface for types that can directly execute commands.
pub trait ExecutableCommand: Sink {
    /// Execute the given command directly: queue it and immediately flush,
    /// so the command's effect — ANSI or native — is delivered before this
    /// call returns.
    fn execute<M: Command, C: Console>(
        &mut self,
        console: &mut C,
        caps: &Capabilities,
        command: M,
    ) -> (r: Result<(), Error>)
        requires
            !command.ansi_viable(caps.ansi_supported) ==> command.native_req(
                old(console).state(),
            ),
        ensures
            r is Ok ==> execute_ok(
                command,
                caps.ansi_supported,
                *old(self),
                *final(self),
                old(console).state(),
                final(console).state(),
            ),
            r is Err ==> execute_err(
                command,
                caps.ansi_supported,
                *old(self),
                *final(self),
                old(console).state(),
                final(console).state(),
            ),
    ;
}

/// An interface for types that support synchronized updates.
pub trait SynchronizedUpdate: Sink {
    /// Perform a unit of work inside a synchronized-update window: the begin
    /// marker is queued before the work can write a byte, and after the work
    /// completes — whatever it returns — the end marker is executed, forcing
    /// a flush. The work's return value is passed through.
    ///
    /// On a failure the marker protocol still holds: either the begin marker
    /// could not be delivered and the work never ran, or the work ran and
    /// the end marker was attempted anyway, and what that attempt's failure
    /// left behind is returned.
    fn sync_update<T, C: Console, F: FnOnce(Self) -> (Self, T)>(
        self,
        console: &mut C,
        caps: &Capabilities,
        operations: F,
    ) -> (r: (Self, Result<T, Error>))
        requires
            forall|s: Self| #[trigger] call_requires(operations, (s,)),
        ensures
            final(console).state() == old(console).state(),
            r.1 is Ok ==> exists|s1: Self, s2: Self, t: T|
                {
                    &&& r.1 == Ok::<T, Error>(t)
                    &&& queue_ok(
                        BeginSynchronizedUpdate,
                        caps.ansi_supported,
                        self,
                        s1,
                        old(console).state(),
                        old(console).state(),
                    )
                    &&& #[trigger] call_ensures(operations, (s1,), (s2, t))
                    &&& execute_ok(
                        EndSynchronizedUpdate,
                        caps.ansi_supported,
                        s2,
                        r.0,
                        old(console).state(),
                        old(console).state(),
                    )
                },
            r.1 is Err ==> queue_err(
                BeginSynchronizedUpdate,
                caps.ansi_supported,
                self,
                r.0,
                old(console).state(),
                old(console).state(),
            ) || exists|s1: Self, s2: Self, t: T|
                {
                    &&& queue_ok(
                        BeginSynchronizedUpdate,
                        caps.ansi_supported,
                        self,
                        s1,
                        old(console).state(),
                        old(console).state(),
                    )
                    &&& #[trigger] call_ensures(operations, (s1,), (s2, t))
                    &&& execute_err(
                        EndSynchronizedUpdate,
                        caps.ansi_supported,
                        s2,
                        r.0,
                        old(console).state(),
                        old(console).state(),
                    )
                },
    ;
}

/// Writes the ANSI representation of a command to the given sink, without
/// flushing.
pub fn write_command_ansi<S: Sink, M: Command>(io: &mut S, command: M) -> (r: Result<(), Error>)
    ensures
        r is Ok ==> final(io).bytes() == old(io).bytes() + command.ansi(),
        r is Err ==> final(io).bytes() == old(io).bytes(),
        final(io).flushes() == old(io).flushes(),
{
    let mut rendered: Vec<u8> = Vec::new();
    command.write_ansi(&mut rendered);
    io.write_all(rendered.as_slice())
}

/// Executes the ANSI representation of a command into the given text buffer;
/// where the terminal does not honor it, the direct native call is made at
/// once instead, bypassing the buffer.
pub fn execute_fmt<C: Console, M: Command>(
    f: &mut Vec<u8>,
    console: &mut C,
    caps: &Capabilities,
    command: M,
) -> (r: Result<(), Error>)
    requires
        !command.ansi_viable(caps.ansi_supported) ==> command.native_req(old(console).state()),
    ensures
        command.ansi_viable(caps.ansi_supported) ==> r is Ok && final(f)@ == old(f)@
            + command.ansi() && final(console).state() == old(console).state(),
        !command.ansi_viable(caps.ansi_supported) ==> final(f)@ == old(f)@ && (r is Ok
            ==> command.native_ok(old(console).state(), final(console).state())) && (r is Err
            ==> command.native_err(old(console).state(), final(console).state())),
{
    if !command.is_ansi_code_supported(caps) {
        return command.execute_winapi(console);
    }
    command.write_ansi(f);
    Ok(())
}

impl<S: Sink> QueueableCommand for S {
    fn queue<M: Command, C: Console>(
        &mut self,
        console: &mut C,
        caps: &Capabilities,
        command: M,
    ) -> (r: Result<(), Error>) {
        if !command.is_ansi_code_supported(caps) {
            // There may be queued bytes in this sink, but the native call
            // takes effect immediately. To prevent commands being executed
            // out of order we flush the sink now.
            match self.flush() {
                Ok(()) => {},
                Err(e) => {
                    return Err(e);
                },
            }
            return command.execute_winapi(console);
        }
        write_command_ansi(self, command)
    }
}

impl<S: Sink> ExecutableCommand for S {
    fn execute<M: Command, C: Console>(
        &mut self,
        console: &mut C,
        caps: &Capabilities,
        command: M,
    ) -> (r: Result<(), Error>) {
        match self.queue(console, caps, command) {
            Ok(()) => {},
            Err(e) => {
                return Err(e);
            },
        }
        self.flush()
    }
}

impl<S: Sink> SynchronizedUpdate for S {
    fn sync_update<T, C: Console, F: FnOnce(Self) -> (Self, T)>(
        self,
        console: &mut C,
        caps: &Capabilities,
        operations: F,
    ) -> (r: (Self, Result<T, Error>)) {
        let mut sink = self;
        match sink.queue(console, caps, BeginSynchronizedUpdate) {
            Ok(()) => {},
            Err(e) => {
                return (sink, Err(e));
            },
        }
        let (sink_after_work, value) = operations(sink);
        let mut sink = sink_after_work;
        match sink.execute(console, caps, EndSynchronizedUpdate) {
            Ok(()) => {},
            Err(e) => {
                return (sink, Err(e));
            },
        }
        (sink, Ok(value))
    }
}

} // verus!
