//! The console: the capabilities a serial driver offers for text I/O, and
//! the registry that holds the one console in use.
//!
//! Before any driver registers itself the registry answers with a null
//! console, so printing is always possible, even before hardware bring-up.
use vstd::prelude::*;

verus! {

/// Console write functions.
pub trait Write {
    /// Writes a single character.
    fn write_char(&self, c: char);

    /// Writes a string.
    fn write_str(&self, s: &str);

    /// Blocks until everything written has left the transmit queue.
    fn flush(&self);
}

/// Console read functions.
pub trait Read {
    /// Reads one character, blocking until one arrives.
    fn read_char(&self) -> (r: char)
        default_ensures
            r == ' ',
    {
        ' '
    }

    /// Discards received characters that were not read yet.
    fn clear_rx(&self);
}

/// Console statistics.
pub trait Statistics {
    /// Number of characters written so far.
    fn chars_written(&self) -> (r: usize)
        default_ensures
            r == 0,
    {
        0
    }

    /// Number of characters read so far.
    fn chars_read(&self) -> (r: usize)
        default_ensures
            r == 0,
    {
        0
    }
}

/// Everything a fully functional console offers.
pub trait All: Read + Write + Statistics {

}

/// The console in use before any other is registered: writes are
/// discarded, reads give a space, counters stay at zero.
#[derive(Debug, Clone, Copy, PartialEq, Eq, Structural)]
pub struct NullConsole;

impl Write for NullConsole {
    fn write_char(&self, c: char) {
    }

    fn write_str(&self, s: &str) {
    }

    fn flush(&self) {
    }
}

impl Read for NullConsole {
    fn clear_rx(&self) {
    }
}

impl Statistics for NullConsole {

}

impl All for NullConsole {

}

/// The console that is current: the null console, or a registered one.
#[derive(Debug)]
pub enum ActiveConsole<C> {
    /// Nothing was registered yet.
    Null(NullConsole),
    /// The console registered last.
    Registered(C),
}

impl<C: All> Write for ActiveConsole<C> {
    fn write_char(&self, c: char) {
        match self {
            ActiveConsole::Null(n) => n.write_char(c),
            ActiveConsole::Registered(con) => con.write_char(c),
        }
    }

    fn write_str(&self, s: &str) {
        match self {
            ActiveConsole::Null(n) => n.write_str(s),
            ActiveConsole::Registered(con) => con.write_str(s),
        }
    }

    fn flush(&self) {
        match self {
            ActiveConsole::Null(n) => n.flush(),
            ActiveConsole::Registered(con) => con.flush(),
        }
    }
}

impl<C: All> Read for ActiveConsole<C> {
    fn read_char(&self) -> char {
        match self {
            ActiveConsole::Null(n) => n.read_char(),
            ActiveConsole::Registered(con) => con.read_char(),
        }
    }

    fn clear_rx(&self) {
        match self {
            ActiveConsole::Null(n) => n.clear_rx(),
            ActiveConsole::Registered(con) => con.clear_rx(),
        }
    }
}

impl<C: All> Statistics for ActiveConsole<C> {
    fn chars_written(&self) -> usize {
        match self {
            ActiveConsole::Null(n) => n.chars_written(),
            ActiveConsole::Registered(con) => con.chars_written(),
        }
    }

    fn chars_read(&self) -> usize {
        match self {
            ActiveConsole::Null(n) => n.chars_read(),
            ActiveConsole::Registered(con) => con.chars_read(),
        }
    }
}

impl<C: All> All for ActiveConsole<C> {

}

/// Holds the one console in use.
pub struct ConsoleRegistry<C> {
    current: ActiveConsole<C>,
}

impl<C> ConsoleRegistry<C> {
    /// The console currently in use.
    pub closed spec fn active(&self) -> ActiveConsole<C> {
        self.current
    }

    /// A registry whose current console is the null console.
    pub fn new() -> (r: ConsoleRegistry<C>)
        ensures
            r.active() == ActiveConsole::<C>::Null(NullConsole),
    {
        ConsoleRegistry { current: ActiveConsole::Null(NullConsole) }
    }
}

/// Makes `new_console` the current console, replacing the previous one.
pub fn register_console<C>(registry: &mut ConsoleRegistry<C>, new_console: C)
    ensures
        final(registry).active() == ActiveConsole::Registered(new_console),
{
    registry.current = ActiveConsole::Registered(new_console);
}

/// The current console: the one registered last, or the null console.
pub fn console<C>(registry: &ConsoleRegistry<C>) -> (r: &ActiveConsole<C>)
    ensures
        *r == registry.active(),
{
    &registry.current
}

} // verus!
