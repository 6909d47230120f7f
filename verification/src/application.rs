//! The Qt GUI application object, as its event loop decides the exit code.

use vstd::prelude::*;

verus! {

/// What the main event loop of an application is told while it runs: to
/// exit with a return code, to quit, or anything else (which it handles and
/// then keeps waiting).
#[derive(Clone, Copy, Debug, PartialEq, Eq, Structural)]
pub enum EventLoopEvent {
    Exit(i32),
    Quit,
    Other,
}

/// Whether an event ends the main event loop.
pub open spec fn ends_loop(e: EventLoopEvent) -> bool {
    !(e is Other)
}

/// The return code of an event that ends the main event loop: the code given
/// to `exit`, or 0 for `quit`.
pub open spec fn return_code(e: EventLoopEvent) -> i32 {
    match e {
        EventLoopEvent::Exit(code) => code,
        _ => 0,
    }
}

/// The loop ends at `exit(code)` and at `quit()` and at nothing else; it
/// returns the code given to `exit`, whatever it is (negative codes
/// included), and 0 for `quit`.
pub proof fn lemma_exit_code_returned(code: i32)
    ensures
        ends_loop(EventLoopEvent::Exit(code)),
        return_code(EventLoopEvent::Exit(code)) == code,
        ends_loop(EventLoopEvent::Quit),
        return_code(EventLoopEvent::Quit) == 0,
        !ends_loop(EventLoopEvent::Other),
{
}

/// A Qt GUI application, created with the command line arguments it is given.
#[derive(Debug)]
pub struct QGuiApplication {
    args: Vec<String>,
}

impl QGuiApplication {
    /// The command line arguments of the application.
    pub closed spec fn arguments(&self) -> Seq<Seq<char>> {
        self.args.deep_view()
    }

    /// The application for the command line arguments `args`.
    pub fn new(args: Vec<String>) -> (res: QGuiApplication)
        ensures
            res.arguments() == args.deep_view(),
    {
        QGuiApplication { args }
    }

    /// What the main event loop returns, given the events it receives in
    /// order: it runs until `exit()` is called and returns the value given to
    /// `exit()` (0 if the loop ended through `quit()`). This is the decision
    /// that Qt's event loop makes; the events themselves come from Qt and
    /// the windowing system, and are handed in here as a list.
    pub fn exec(&self, events: &Vec<EventLoopEvent>) -> (res: i32)
        requires
            exists|i: int| 0 <= i < events.len() && ends_loop(#[trigger] events@[i]),
        ensures
            exists|i: int|
                0 <= i < events.len() && ends_loop(#[trigger] events@[i]) && res == return_code(events@[i])
                    && forall|j: int| 0 <= j < i ==> !ends_loop(#[trigger] events@[j]),
            exists|i: int|
                0 <= i < events.len() && (forall|j: int| 0 <= j < i ==> #[trigger] events@[j] == EventLoopEvent::Other)
                    && match #[trigger] events@[i] {
                    EventLoopEvent::Exit(code) => res == code,
                    EventLoopEvent::Quit => res == 0,
                    EventLoopEvent::Other => false,
                },
    {
        let mut i: usize = 0;
        while i < events.len()
            invariant
                i <= events.len(),
                exists|k: int| 0 <= k < events.len() && ends_loop(#[trigger] events@[k]),
                forall|j: int| 0 <= j < i ==> !ends_loop(#[trigger] events@[j]),
            decreases events.len() - i,
        {
            match events[i] {
                EventLoopEvent::Exit(code) => {
                    return code;
                },
                EventLoopEvent::Quit => {
                    return 0;
                },
                EventLoopEvent::Other => {},
            }
            i = i + 1;
        }
        0
    }
}

} // verus!
