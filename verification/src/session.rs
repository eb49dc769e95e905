//! One run of a program, from its text to its last report, as steps between
//! which the host does its part: it turns the text of each number into its
//! value, computes and prints for the running program, and prints what the
//! run reports at the end.
use vstd::prelude::*;
use crate::interpreter::interpret;
use crate::lexer::Scanner;
use crate::machine::{Action, ActionView, FrameView, Interpreter, MachineView, Reply, ReplyView};
use crate::parser::{parsed, AST, TreeView};
use crate::scanning;
use crate::scanning::ScanView;
use crate::semantics;
use crate::types::{append_errors, err_text, errors_view, lemma_errors_index, Error, ErrorView};

verus! {

/// Where a run stands.
#[derive(Debug)]
pub enum Stage {
    /// Reading the text.
    Scanning(Scanner),
    /// Running the program; the errors of scanning and parsing wait.
    Running(Interpreter, Vec<Error>),
    /// Reporting the errors of scanning and parsing, from the given index on.
    Reporting(Vec<Error>, usize),
    /// Nothing is left to do.
    Finished,
}

/// Mathematical model of [`Stage`].
pub enum StageView {
    Scanning(Seq<char>, ScanView),
    Running(MachineView, Seq<ErrorView>),
    Reporting(Seq<ErrorView>, nat),
    Finished,
}

/// One run of a program.
#[derive(Debug)]
pub struct Session {
    stage: Stage,
    print_ast: bool,
}

/// Mathematical model of [`Session`].
pub struct SessionView {
    pub stage: StageView,
    pub print_ast: bool,
}

/// What a step of a run asks of the host.
#[derive(Debug)]
pub enum Request {
    /// Reply with the number that the text denotes.
    Convert { text: String },
    /// Print the syntax tree; reply with nothing.
    Tree { tree: AST },
    /// Do what the running program asks.
    Run { action: Action },
    /// Print the message and end the process with a failure.
    Fatal { message: String },
    /// Print the message; reply with nothing.
    Report { message: String },
    /// The run is over.
    Finished,
}

/// Mathematical model of [`Request`].
pub enum RequestView {
    Convert { text: Seq<char> },
    Tree { tree: TreeView },
    Run { action: ActionView },
    Fatal { message: Seq<char> },
    Report { message: Seq<char> },
    Finished,
}

impl View for Request {
    type V = RequestView;

    open spec fn view(&self) -> RequestView {
        match self {
            Request::Convert { text } => RequestView::Convert { text: text@ },
            Request::Tree { tree } => RequestView::Tree { tree: tree@ },
            Request::Run { action } => RequestView::Run { action: action@ },
            Request::Fatal { message } => RequestView::Fatal { message: message@ },
            Request::Report { message } => RequestView::Report { message: message@ },
            Request::Finished => RequestView::Finished,
        }
    }
}

/// A run after a step and what the step asks of the host.
pub struct TurnView {
    pub session: SessionView,
    pub request: RequestView,
}

/// The scan after the host's reply: a number is the value of the pending
/// text; any other reply changes nothing.
pub open spec fn answered(chars: Seq<char>, scan: ScanView, reply: ReplyView) -> ScanView {
    match reply {
        ReplyView::Number(bits) => scanning::scan_all(chars, scanning::supply(scan, bits)),
        _ => scan,
    }
}

/// The machine that runs the program parsed from `tokens`.
pub open spec fn loaded(tree: TreeView) -> MachineView {
    crate::interpreter::fresh().push(FrameView::Sequence { statements: tree.root, next: 0, env: 0 })
}

/// A step while the text is read: asks for the value of the pending number,
/// or parses the tokens and gets ready to run.
#[verifier::opaque]
pub open spec fn scanning_turn(chars: Seq<char>, scan: ScanView, reply: ReplyView, print_ast: bool)
    -> TurnView {
    let scan = answered(chars, scan, reply);
    match scan.pending {
        Some(text) => TurnView {
            session: SessionView { stage: StageView::Scanning(chars, scan), print_ast },
            request: RequestView::Convert { text },
        },
        None => {
            let tree = parsed(scan.tokens);
            TurnView {
                session: SessionView {
                    stage: StageView::Running(loaded(tree), scan.errors + tree.errors),
                    print_ast,
                },
                request: if print_ast {
                    RequestView::Tree { tree }
                } else {
                    RequestView::Run { action: ActionView::Continue }
                },
            }
        },
    }
}

/// A step while the program runs: one step of the machine. When the program
/// ends well the errors of scanning and parsing are reported next; when it
/// fails its error is fatal.
#[verifier::opaque]
pub open spec fn running_turn(
    machine: MachineView,
    errors: Seq<ErrorView>,
    reply: ReplyView,
    print_ast: bool,
) -> TurnView {
    let step = semantics::step(machine, reply);
    match step.action {
        ActionView::Finished { outcome: Ok(_) } => TurnView {
            session: SessionView { stage: StageView::Reporting(errors, 0), print_ast },
            request: RequestView::Run { action: ActionView::Continue },
        },
        ActionView::Finished { outcome: Err(e) } => TurnView {
            session: SessionView { stage: StageView::Finished, print_ast },
            request: RequestView::Fatal { message: err_text(e.error) },
        },
        action => TurnView {
            session: SessionView { stage: StageView::Running(step.machine, errors), print_ast },
            request: RequestView::Run { action },
        },
    }
}

/// One step of a run, given the host's reply to the step before.
#[verifier::opaque]
pub open spec fn turn(s: SessionView, reply: ReplyView) -> TurnView {
    match s.stage {
        StageView::Scanning(chars, scan) => scanning_turn(chars, scan, reply, s.print_ast),
        StageView::Running(machine, errors) => running_turn(machine, errors, reply, s.print_ast),
        StageView::Reporting(errors, next) => if next < errors.len() {
            TurnView {
                session: SessionView {
                    stage: StageView::Reporting(errors, next + 1),
                    print_ast: s.print_ast,
                },
                request: RequestView::Report { message: err_text(errors[next as int]) },
            }
        } else {
            TurnView {
                session: SessionView { stage: StageView::Finished, print_ast: s.print_ast },
                request: RequestView::Finished,
            }
        },
        StageView::Finished => TurnView { session: s, request: RequestView::Finished },
    }
}

/// The model of what a step of a run returned.
pub open spec fn turn_view(r: (Session, Request)) -> TurnView {
    TurnView { session: r.0@, request: r.1@ }
}

impl View for Session {
    type V = SessionView;

    closed spec fn view(&self) -> SessionView {
        SessionView {
            stage: match self.stage {
                Stage::Scanning(scanner) => StageView::Scanning(scanner.chars(), scanner@),
                Stage::Running(machine, errors) => StageView::Running(
                    machine@,
                    errors_view(errors@),
                ),
                Stage::Reporting(errors, next) => StageView::Reporting(
                    errors_view(errors@),
                    next as nat,
                ),
                Stage::Finished => StageView::Finished,
            },
            print_ast: self.print_ast,
        }
    }
}

impl Session {
    /// The session's own bookkeeping is sound.
    pub closed spec fn wf(&self) -> bool {
        match self.stage {
            Stage::Scanning(scanner) => scanner.wf(),
            _ => true,
        }
    }

    /// A run that starts with the scan `scanner`.
    pub fn new(scanner: Scanner, print_ast: bool) -> (s: Session)
        requires
            scanner.wf(),
        ensures
            s.wf(),
            s@ == (SessionView { stage: StageView::Scanning(scanner.chars(), scanner@), print_ast }),
    {
        Session { stage: Stage::Scanning(scanner), print_ast }
    }

    fn scanning_turn(scanner: Scanner, reply: Reply, print_ast: bool) -> (r: (Session, Request))
        requires
            scanner.wf(),
        ensures
            r.0.wf(),
            turn_view(r) == scanning_turn(scanner.chars(), scanner@, reply@, print_ast),
    {
        reveal(scanning_turn);
        let mut scanner = scanner;
        match reply {
            Reply::Number(bits) => {
                scanner.supply_number(bits);
            },
            _ => {},
        }
        match scanner.pending_number() {
            Some(text) => (
                Session { stage: Stage::Scanning(scanner), print_ast },
                Request::Convert { text },
            ),
            None => {
                proof {
                    scanner.lemma_at_rest();
                }
                let (tokens, errors) = scanner.results();
                let tree = AST::new(tokens);
                let errors = append_errors(errors, &tree.errors);
                let request = if print_ast {
                    Request::Tree { tree: tree.duplicate() }
                } else {
                    Request::Run { action: Action::Continue }
                };
                let machine = interpret(tree.root);
                (Session { stage: Stage::Running(machine, errors), print_ast }, request)
            },
        }
    }

    fn running_turn(machine: Interpreter, errors: Vec<Error>, reply: Reply, print_ast: bool) -> (r: (
        Session,
        Request,
    ))
        ensures
            r.0.wf(),
            turn_view(r) == running_turn(machine@, errors_view(errors@), reply@, print_ast),
    {
        reveal(running_turn);
        let (machine, action) = machine.step(reply);
        match action {
            Action::Finished { outcome: Ok(_) } => (
                Session { stage: Stage::Reporting(errors, 0), print_ast },
                Request::Run { action: Action::Continue },
            ),
            Action::Finished { outcome: Err(e) } => (
                Session { stage: Stage::Finished, print_ast },
                Request::Fatal { message: e.error.to_string() },
            ),
            action => (
                Session { stage: Stage::Running(machine, errors), print_ast },
                Request::Run { action },
            ),
        }
    }

    /// Takes one step of the run, given the host's reply to the request of
    /// the step before (`Reply::Nothing` where it asked for none).
    pub fn step(self, reply: Reply) -> (r: (Session, Request))
        requires
            self.wf(),
        ensures
            r.0.wf(),
            turn_view(r) == turn(self@, reply@),
    {
        reveal(turn);
        let Session { stage, print_ast } = self;
        match stage {
            Stage::Scanning(scanner) => Session::scanning_turn(scanner, reply, print_ast),
            Stage::Running(machine, errors) => Session::running_turn(
                machine,
                errors,
                reply,
                print_ast,
            ),
            Stage::Reporting(errors, next) => {
                proof {
                    lemma_errors_index(errors@, next as int);
                }
                if next < errors.len() {
                    let message = errors[next].to_string();
                    (
                        Session { stage: Stage::Reporting(errors, next + 1), print_ast },
                        Request::Report { message },
                    )
                } else {
                    (Session { stage: Stage::Finished, print_ast }, Request::Finished)
                }
            },
            Stage::Finished => (Session { stage: Stage::Finished, print_ast }, Request::Finished),
        }
    }
}

} // verus!
