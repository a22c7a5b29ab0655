//! Application state and the key-event state machine.
//!
//! The application holds a bounded counter and an exit flag. Key presses
//! drive it: `k` increments, `j` decrements, `q` asks to exit. Going past
//! either counter bound is refused with a recoverable error and leaves the
//! state unchanged.

use vstd::prelude::*;

verus! {

/// Largest value the counter may take; an increment past it is refused.
pub const COUNTER_MAX: u8 = 2;

/// Identity of a pressed key: a character key, or any other key
/// (arrows, function keys, ...), which the application ignores.
#[derive(Debug, Clone, Copy, PartialEq, Eq, Structural)]
pub enum KeyCode {
    Char(char),
    Other,
}

/// How a key event was produced. Only `Press` drives the state machine.
#[derive(Debug, Clone, Copy, PartialEq, Eq, Structural)]
pub enum KeyEventKind {
    Press,
    Repeat,
    Release,
}

/// A key event: which key, and whether it was pressed, repeated or released.
#[derive(Debug, Clone, Copy, PartialEq, Eq, Structural)]
pub struct KeyEvent {
    pub code: KeyCode,
    pub kind: KeyEventKind,
}

/// An event from the input source.
#[derive(Debug, Clone, Copy, PartialEq, Eq, Structural)]
pub enum Event {
    Key(KeyEvent),
    Resize,
    Other,
}

/// A recoverable domain error of the key handler. Neither terminates the
/// application loop.
#[derive(Debug, Clone, Copy, PartialEq, Eq, Structural)]
pub enum AppError {
    CounterOverflow,
    CounterUnderflow,
}

impl AppError {
    /// The message that describes this error.
    pub open spec fn spec_message(self) -> Seq<char> {
        match self {
            AppError::CounterOverflow => "counter overflow"@,
            AppError::CounterUnderflow => "counter underflow"@,
        }
    }

    /// A human-readable description of the error.
    pub fn message(&self) -> (r: &'static str)
        ensures
            r@ == self.spec_message(),
    {
        match self {
            AppError::CounterOverflow => "counter overflow",
            AppError::CounterUnderflow => "counter underflow",
        }
    }
}

/// The application state: a bounded counter and an exit flag.
#[derive(Debug, Clone, Copy, PartialEq, Eq, Structural)]
pub struct App {
    pub counter: u8,
    pub exit: bool,
}

/// The state the application starts in.
pub open spec fn initial() -> App {
    App { counter: 0, exit: false }
}

/// The state after one key is dispatched to the handler: `q` sets the exit
/// flag, `j` and `k` move the counter within its bounds, anything else is a
/// no-op. A refused move leaves the state unchanged.
pub open spec fn spec_key_step(s: App, code: KeyCode) -> App {
    match code {
        KeyCode::Char(c) => if c == 'q' {
            App { exit: true, ..s }
        } else if c == 'j' {
            if s.counter > 0 {
                App { counter: (s.counter - 1) as u8, ..s }
            } else {
                s
            }
        } else if c == 'k' {
            if s.counter < COUNTER_MAX {
                App { counter: (s.counter + 1) as u8, ..s }
            } else {
                s
            }
        } else {
            s
        },
        KeyCode::Other => s,
    }
}

/// What the key handler reports: `CounterUnderflow` exactly for `j` at zero,
/// `CounterOverflow` exactly for `k` at the upper bound, success otherwise.
pub open spec fn spec_key_result(s: App, code: KeyCode) -> Result<(), AppError> {
    match code {
        KeyCode::Char(c) => if c == 'j' && s.counter == 0 {
            Err(AppError::CounterUnderflow)
        } else if c == 'k' && s.counter >= COUNTER_MAX {
            Err(AppError::CounterOverflow)
        } else {
            Ok(())
        },
        KeyCode::Other => Ok(()),
    }
}

/// The state after a whole input event: only a key event of kind `Press`
/// reaches the key handler; everything else leaves the state unchanged.
pub open spec fn spec_event_step(s: App, ev: Event) -> App {
    match ev {
        Event::Key(k) => if k.kind == KeyEventKind::Press {
            spec_key_step(s, k.code)
        } else {
            s
        },
        _ => s,
    }
}

/// What handling a whole input event reports.
pub open spec fn spec_event_result(s: App, ev: Event) -> Result<(), AppError> {
    match ev {
        Event::Key(k) => if k.kind == KeyEventKind::Press {
            spec_key_result(s, k.code)
        } else {
            Ok(())
        },
        _ => Ok(()),
    }
}

/// The state after a sequence of keys is dispatched in order.
pub open spec fn spec_key_steps(s: App, codes: Seq<KeyCode>) -> App
    decreases codes.len(),
{
    if codes.len() == 0 {
        s
    } else {
        spec_key_steps(spec_key_step(s, codes[0]), codes.drop_first())
    }
}

/// The same key, `n` times over.
pub open spec fn repeated(code: KeyCode, n: nat) -> Seq<KeyCode> {
    Seq::new(n, |i: int| code)
}

impl App {
    /// Every state the application can reach keeps the counter within bounds.
    pub open spec fn inv(self) -> bool {
        self.counter <= COUNTER_MAX
    }

    /// Marks the application as finished; the main loop stops at its next turn.
    pub fn exit(&mut self)
        ensures
            final(self).exit == true,
            final(self).counter == old(self).counter,
    {
        self.exit = true;
    }

    /// Decrements the counter; refuses to go below zero and reports
    /// `CounterUnderflow` instead, leaving the counter unchanged.
    pub fn decrement_counter(&mut self) -> (r: Result<(), AppError>)
        ensures
            final(self).exit == old(self).exit,
            old(self).counter > 0 ==> final(self).counter == old(self).counter - 1 && r == Ok::<
                (),
                AppError,
            >(()),
            old(self).counter == 0 ==> final(self).counter == old(self).counter && r == Err::<
                (),
                AppError,
            >(AppError::CounterUnderflow),
    {
        if self.counter > 0 {
            self.counter = self.counter - 1;
            Ok(())
        } else {
            Err(AppError::CounterUnderflow)
        }
    }

    /// Increments the counter; refuses to go past `COUNTER_MAX` and reports
    /// `CounterOverflow` instead, leaving the counter unchanged.
    pub fn increment_counter(&mut self) -> (r: Result<(), AppError>)
        ensures
            final(self).exit == old(self).exit,
            old(self).counter < COUNTER_MAX ==> final(self).counter == old(self).counter + 1 && r
                == Ok::<(), AppError>(()),
            old(self).counter >= COUNTER_MAX ==> final(self).counter == old(self).counter && r
                == Err::<(), AppError>(AppError::CounterOverflow),
    {
        if self.counter < COUNTER_MAX {
            self.counter = self.counter + 1;
            Ok(())
        } else {
            Err(AppError::CounterOverflow)
        }
    }

    /// Dispatches one key to the handler for its identity: `q` exits, `j`
    /// decrements, `k` increments, anything else is a no-op.
    pub fn handle_key_event(&mut self, key_event: KeyEvent) -> (r: Result<(), AppError>)
        ensures
            *final(self) == spec_key_step(*old(self), key_event.code),
            r == spec_key_result(*old(self), key_event.code),
    {
        match key_event.code {
            KeyCode::Char(c) => {
                if c == 'q' {
                    self.exit();
                    Ok(())
                } else if c == 'j' {
                    self.decrement_counter()
                } else if c == 'k' {
                    self.increment_counter()
                } else {
                    Ok(())
                }
            },
            KeyCode::Other => Ok(()),
        }
    }

    /// Handles one input event: only a key event of kind `Press` is
    /// dispatched; repeats, releases, resizes and the rest are ignored.
    pub fn handle_event(&mut self, ev: Event) -> (r: Result<(), AppError>)
        ensures
            *final(self) == spec_event_step(*old(self), ev),
            r == spec_event_result(*old(self), ev),
    {
        match ev {
            Event::Key(key_event) => {
                if matches!(key_event.kind, KeyEventKind::Press) {
                    self.handle_key_event(key_event)
                } else {
                    Ok(())
                }
            },
            _ => Ok(()),
        }
    }
}

impl Default for App {
    /// The initial state: counter at zero, not exiting.
    fn default() -> (s: App)
        ensures
            s == initial(),
            s.inv(),
    {
        App { counter: 0, exit: false }
    }
}

/// Law: any run of `k` presses moves the counter to the smaller of
/// `counter + presses` and `COUNTER_MAX`, and never touches the exit flag.
pub proof fn lemma_increment_presses(s: App, n: nat)
    requires
        s.inv(),
    ensures
        spec_key_steps(s, repeated(KeyCode::Char('k'), n)).counter == (if s.counter + n
            <= COUNTER_MAX {
            s.counter + n
        } else {
            COUNTER_MAX as int
        }),
        spec_key_steps(s, repeated(KeyCode::Char('k'), n)).exit == s.exit,
    decreases n,
{
    if n > 0 {
        let s1 = spec_key_step(s, KeyCode::Char('k'));
        assert(repeated(KeyCode::Char('k'), n).drop_first() =~= repeated(
            KeyCode::Char('k'),
            (n - 1) as nat,
        ));
        lemma_increment_presses(s1, (n - 1) as nat);
    }
}

/// Law: from the initial state, `n` presses of `k` leave the counter at the
/// smaller of `n` and `COUNTER_MAX`.
pub proof fn lemma_counter_is_capped_press_count(n: nat)
    ensures
        spec_key_steps(initial(), repeated(KeyCode::Char('k'), n)).counter == (if n <= COUNTER_MAX {
            n as int
        } else {
            COUNTER_MAX as int
        }),
{
    lemma_increment_presses(initial(), n);
}

/// Law: a `k` press at the upper bound reports `CounterOverflow` and leaves
/// the state, counter included, at its pre-press value.
pub proof fn lemma_increment_overflow(s: App)
    requires
        s.counter == COUNTER_MAX,
    ensures
        spec_key_result(s, KeyCode::Char('k')) == Err::<(), AppError>(AppError::CounterOverflow),
        spec_key_step(s, KeyCode::Char('k')) == s,
{
}

/// Law: any run of `j` presses that stays within the counter's range takes
/// exactly one off per press, and never touches the exit flag.
pub proof fn lemma_decrement_presses(s: App, n: nat)
    requires
        n <= s.counter,
    ensures
        spec_key_steps(s, repeated(KeyCode::Char('j'), n)).counter == s.counter - n,
        spec_key_steps(s, repeated(KeyCode::Char('j'), n)).exit == s.exit,
    decreases n,
{
    if n > 0 {
        let s1 = spec_key_step(s, KeyCode::Char('j'));
        assert(repeated(KeyCode::Char('j'), n).drop_first() =~= repeated(
            KeyCode::Char('j'),
            (n - 1) as nat,
        ));
        lemma_decrement_presses(s1, (n - 1) as nat);
    }
}

/// Law: a `j` press at zero reports `CounterUnderflow` and leaves the state
/// unchanged; the handler never goes below zero.
pub proof fn lemma_decrement_underflow(s: App)
    requires
        s.counter == 0,
    ensures
        spec_key_result(s, KeyCode::Char('j')) == Err::<(), AppError>(AppError::CounterUnderflow),
        spec_key_step(s, KeyCode::Char('j')) == s,
{
}

/// Law: pressing `q` from any state sets the exit flag, leaves the counter
/// unchanged, and succeeds.
pub proof fn lemma_quit_sets_exit(s: App)
    ensures
        spec_key_step(s, KeyCode::Char('q')).exit == true,
        spec_key_step(s, KeyCode::Char('q')).counter == s.counter,
        spec_key_result(s, KeyCode::Char('q')) == Ok::<(), AppError>(()),
{
}

/// Law: the exit flag is monotonic — once set, no event clears it.
pub proof fn lemma_exit_monotonic(s: App, ev: Event)
    ensures
        s.exit ==> spec_event_step(s, ev).exit,
{
}

/// Law: every event preserves the counter bound, so every reachable state
/// satisfies the invariant.
pub proof fn lemma_event_preserves_inv(s: App, ev: Event)
    requires
        s.inv(),
    ensures
        spec_event_step(s, ev).inv(),
{
}

} // verus!
