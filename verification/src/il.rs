//! An interpreter for the TinyBASIC Interpretive Language (IL)
//!
//! TinyBASIC is implemented as an interpreter in a virtual machine. This
//! module provides the virtual machine for that language, called the
//! Interpretive Language in the Tiny BASIC documentation.
//!
//! An IL program is an array of bytes written in the IL bytecode or
//! virtual machine language.
//!
//! A null (value of zero) instruction marks the end of the IL bytecode
//! stream; so does the end of the array.
//!
//! The machine works on a stack that holds its values and has a queue
//! for its input.
//!
//! The functions whose names begin with `basino_` are the primitives: they
//! work on an interpreter that may be absent and answer with a result code.
//! The methods of `Interpreter` call them for an interpreter that is there
//! and turn the code into a `Result`.
//!
//! In the contracts of the primitives, the interpreter `i` that is taken out
//! of the `Option` stands for the interpreter as it was when the call was
//! made, and `final(i)` for the interpreter as the call leaves it. Each
//! contract also says that the stack, the queue and their regions stay the
//! ones that the interpreter was bound to: what the caller finds in them
//! when the interpreter is done with them.
use vstd::prelude::*;

use crate::queue::QueueState;
use crate::stack::{basino_stack_push, lemma_push, StackState};
use crate::{Queue, QueueObj, Stack, RESULT_FAILURE, RESULT_NULL_POINTER, RESULT_OK};

verus! {

/// The byte that ends a program
pub const IL_END: u8 = 0x00;

/// The opcode of NO: no operation
pub const IL_NO: u8 = 0x08;

/// The opcode of LB: push the literal byte that follows onto the stack
pub const IL_LB: u8 = 0x09;

/// Result code of `basino_il_get_next_bytecode`: the program has ended.
pub const IL_FETCH_END_OF_PROGRAM: u8 = 3;

/// Result code of `basino_il_exec`: the opcode is no instruction.
pub const IL_EXEC_INSTRUCTION_NOT_FOUND: u8 = 3;

/// Result code of `basino_il_exec`: the interpreter is stopped.
pub const IL_EXEC_STOPPED: u8 = 4;

/// Result code of `basino_il_exec`: the stack had no room for the value.
pub const IL_EXEC_STACK_OVERFLOW: u8 = 5;

/// Result code of `basino_il_exec`: an unknown error.
pub const IL_EXEC_UNKNOWN: u8 = 6;

/// Result code of `basino_il_exec`: the program ended where the operand of
/// the instruction was due.
pub const IL_EXEC_END_OF_PROGRAM: u8 = 7;

/// Result code of `basino_il_run`: an opcode was no instruction.
pub const IL_RUN_INSTRUCTION_NOT_FOUND: u8 = 3;

/// Result code of `basino_il_run`: the program has ended.
pub const IL_RUN_END_OF_PROGRAM: u8 = 4;

/// Result code of `basino_il_run`: the interpreter is stopped.
pub const IL_RUN_STOPPED: u8 = 5;

/// Result code of `basino_il_run`: an unknown error.
pub const IL_RUN_UNKNOWN: u8 = 6;

/// Result code of `basino_il_run`: the stack had no room for a value.
pub const IL_RUN_STACK_OVERFLOW: u8 = 7;

/// The kinds of errors that can occur working with the IL
#[derive(Clone, Copy, Debug, PartialEq, Eq, Structural)]
pub enum ErrorKind {
    /// A stack overflow occurred
    StackOverflow,
    /// An absent interpreter was passed in as a parameter
    NullPointer,
    /// Invalid arguments were passed into a function.
    /// Example includes trying to initialize a virtual machine with
    /// an empty program.
    InvalidArguments,
    /// The IL bytecode did not correspond to a valid instruction
    InstructionNotFound,
    /// A zero byte, or the end of the array, was found while loading the
    /// next bytecode
    EndOfProgram,
    /// An attempt was made to run the program while it was stopped
    Stopped,
    /// An unknown error type
    Unknown,
}

impl ErrorKind {
    /// The text that describes this kind of error, as a sequence of characters.
    pub open spec fn message_text(self) -> Seq<char> {
        match self {
            ErrorKind::StackOverflow => "A stack overflow occurred"@,
            ErrorKind::NullPointer => "A null pointer was passed in as a parameter"@,
            ErrorKind::InvalidArguments => "Invalid arguments were passed in"@,
            ErrorKind::InstructionNotFound => "The instruction was not found"@,
            ErrorKind::EndOfProgram => {
                "A zero byte was found while loading the next instruction bytecode"@
            },
            ErrorKind::Stopped => {
                "An attempt was made to run the program while it was stopped"@
            },
            ErrorKind::Unknown => "An unknown error occurred"@,
        }
    }

    /// The text that describes this kind of error.
    pub fn message(&self) -> (text: &'static str)
        ensures
            text@ == self.message_text(),
    {
        match self {
            ErrorKind::StackOverflow => "A stack overflow occurred",
            ErrorKind::NullPointer => "A null pointer was passed in as a parameter",
            ErrorKind::InvalidArguments => "Invalid arguments were passed in",
            ErrorKind::InstructionNotFound => "The instruction was not found",
            ErrorKind::EndOfProgram => {
                "A zero byte was found while loading the next instruction bytecode"
            },
            ErrorKind::Stopped => {
                "An attempt was made to run the program while it was stopped"
            },
            ErrorKind::Unknown => "An unknown error occurred",
        }
    }
}

/// An error that can occur when working with an IL system
#[derive(Clone, Copy, Debug, PartialEq, Eq, Structural)]
pub struct Error {
    /// The kind of the error that occurs, e.g. a stack overflow
    pub kind: ErrorKind,
}

impl Error {
    /// Create a new Error with a given ErrorKind variant
    pub fn new(kind: ErrorKind) -> (error: Error)
        ensures
            error.kind == kind,
    {
        Error { kind }
    }

    /// The text that describes this error: that of its kind.
    pub fn message(&self) -> (text: &'static str)
        ensures
            text@ == self.kind.message_text(),
    {
        self.kind.message()
    }
}

/// The state of the interpreter
#[derive(Clone, Copy, Debug, PartialEq, Eq, Structural)]
pub enum InterpreterState {
    /// The interpreter is running, not currently executing any
    /// instructions.
    Running,
    /// The interpreter is stopped.
    Stopped,
    /// The interpreter is currently executing an instruction.
    /// This means that an instruction bytecode has been read and the
    /// initial one-byte instruction opcode was correctly decoded.
    ExecutingInstruction,
}

impl InterpreterState {
    /// The number that stands for this state: 1 for running, 2 for stopped,
    /// 4 for executing an instruction.
    pub open spec fn number_of(self) -> u8 {
        match self {
            InterpreterState::Running => 1,
            InterpreterState::Stopped => 2,
            InterpreterState::ExecutingInstruction => 4,
        }
    }

    /// The name of this state, as a sequence of characters.
    pub open spec fn name_text(self) -> Seq<char> {
        match self {
            InterpreterState::Running => "Running"@,
            InterpreterState::Stopped => "Stopped"@,
            InterpreterState::ExecutingInstruction => "ExecutingInstruction"@,
        }
    }

    /// The number that stands for this state.
    pub fn number(&self) -> (number: u8)
        ensures
            number == self.number_of(),
    {
        match self {
            InterpreterState::Running => 1,
            InterpreterState::Stopped => 2,
            InterpreterState::ExecutingInstruction => 4,
        }
    }

    /// The name of this state.
    pub fn name(&self) -> (name: &'static str)
        ensures
            name@ == self.name_text(),
    {
        match self {
            InterpreterState::Running => "Running",
            InterpreterState::Stopped => "Stopped",
            InterpreterState::ExecutingInstruction => "ExecutingInstruction",
        }
    }
}

/// The Interpretive Language structure.
/// Holds state about the interpreter and provides access to the input
/// stream and byte code.
///
/// The cursors are indices into `byte_code`.
pub struct Interpreter<'a> {
    /// The Interpetive Language byte code
    pub byte_code: &'a [u8],
    /// The end of the byte code: one past its last byte.
    /// If the byte code is of length one, this is 1
    pub byte_code_end: usize,
    /// Index to the current location in the byte_code
    pub byte_code_ptr: usize,
    /// The state of the interpreter
    pub state: InterpreterState,
    /// The input buffer
    pub queue: &'a mut QueueObj<'a>,
    /// The stack
    pub stack: &'a mut Stack<'a>,
}

/// What an interpreter is, as mathematics: its program, its cursors, its
/// state, and what its queue and its stack are.
pub struct Machine {
    /// The bytes of the program
    pub byte_code: Seq<u8>,
    /// One past the last byte of the program
    pub byte_code_end: int,
    /// The index of the next byte to fetch
    pub byte_code_ptr: int,
    /// The state of the interpreter
    pub state: InterpreterState,
    /// The input queue
    pub queue: QueueState,
    /// The stack
    pub stack: StackState,
}

impl<'a> View for Interpreter<'a> {
    type V = Machine;

    open spec fn view(&self) -> Machine {
        Machine {
            byte_code: self.byte_code@,
            byte_code_end: self.byte_code_end as int,
            byte_code_ptr: self.byte_code_ptr as int,
            state: self.state,
            queue: self.queue@,
            stack: self.stack@,
        }
    }
}

impl Machine {
    /// The program is not empty and lies inside its array, the cursor lies
    /// inside the program or at its end, and the queue and the stack are
    /// well formed.
    pub open spec fn wf(self) -> bool {
        &&& 0 < self.byte_code_end <= self.byte_code.len()
        &&& 0 <= self.byte_code_ptr <= self.byte_code_end
        &&& self.queue.wf()
        &&& self.stack.wf()
    }

    /// The machine after it was bound to the first `byte_code_len` bytes of
    /// its array: running, with the cursor on the first byte. A length of
    /// zero changes nothing.
    pub open spec fn init(self, byte_code_len: int) -> Machine {
        if byte_code_len == 0 {
            self
        } else {
            Machine {
                byte_code_end: byte_code_len,
                byte_code_ptr: 0,
                state: InterpreterState::Running,
                ..self
            }
        }
    }

    /// The program has ended: the cursor has reached the end of the program
    /// or stands on a zero byte.
    pub open spec fn at_end(self) -> bool {
        self.byte_code_ptr >= self.byte_code_end || self.byte_code[self.byte_code_ptr] == IL_END
    }

    /// The byte that a fetch hands out: the one under the cursor.
    pub open spec fn fetched(self) -> u8 {
        self.byte_code[self.byte_code_ptr]
    }

    /// The machine after a fetch: stopped, with the cursor where it was,
    /// where the program has ended; else with the cursor one byte on and the
    /// state as it was.
    pub open spec fn fetch(self) -> Machine {
        if self.at_end() {
            Machine { state: InterpreterState::Stopped, ..self }
        } else {
            Machine { byte_code_ptr: self.byte_code_ptr + 1, ..self }
        }
    }

    /// The machine with another state.
    pub open spec fn with_state(self, state: InterpreterState) -> Machine {
        Machine { state: state, ..self }
    }

    /// The result code of the execution of `opcode`.
    pub open spec fn exec_code(self, opcode: u8) -> u8 {
        if self.state == InterpreterState::Stopped {
            IL_EXEC_STOPPED
        } else if opcode == IL_NO {
            RESULT_OK
        } else if opcode == IL_LB {
            if self.at_end() {
                IL_EXEC_END_OF_PROGRAM
            } else if self.stack.is_full() {
                IL_EXEC_STACK_OVERFLOW
            } else {
                RESULT_OK
            }
        } else {
            IL_EXEC_INSTRUCTION_NOT_FOUND
        }
    }

    /// The machine after the execution of `opcode`.
    ///
    /// A stopped machine stays as it is. Any other goes to the state
    /// `ExecutingInstruction` and back to `Running` once the instruction is
    /// done: NO does nothing more; LB fetches the byte that follows and
    /// pushes it onto the stack. Where the instruction fails the machine
    /// stays as the failure found it: the fetch of a missing operand has
    /// stopped it, and a full stack leaves the cursor behind the operand.
    pub open spec fn exec(self, opcode: u8) -> Machine {
        let executing = self.with_state(InterpreterState::ExecutingInstruction);
        if self.state == InterpreterState::Stopped {
            self
        } else if opcode == IL_NO {
            executing.with_state(InterpreterState::Running)
        } else if opcode == IL_LB {
            if executing.at_end() || executing.stack.is_full() {
                executing.fetch()
            } else {
                Machine {
                    stack: executing.stack.push(executing.fetched()),
                    state: InterpreterState::Running,
                    ..executing.fetch()
                }
            }
        } else {
            executing
        }
    }

    /// The result code of a run of the program from the cursor on, for a
    /// machine that is not stopped.
    pub open spec fn run_on_code(self) -> u8
        decreases self.byte_code_end - self.byte_code_ptr,
    {
        if self.at_end() {
            RESULT_OK
        } else {
            let code = self.fetch().exec_code(self.fetched());
            if code == RESULT_OK {
                self.fetch().exec(self.fetched()).run_on_code()
            } else {
                run_code_of_exec_code(code)
            }
        }
    }

    /// The machine after a run of the program from the cursor on, for a
    /// machine that is not stopped: every instruction is fetched and
    /// executed in turn, up to the end of the program or to the first that
    /// fails.
    pub open spec fn run_on(self) -> Machine
        decreases self.byte_code_end - self.byte_code_ptr,
    {
        if self.at_end() {
            self.fetch()
        } else {
            let code = self.fetch().exec_code(self.fetched());
            if code == RESULT_OK {
                self.fetch().exec(self.fetched()).run_on()
            } else {
                self.fetch().exec(self.fetched())
            }
        }
    }

    /// The result code of a run: a stopped machine does not run.
    pub open spec fn run_code(self) -> u8 {
        if self.state == InterpreterState::Stopped {
            IL_RUN_STOPPED
        } else {
            self.run_on_code()
        }
    }

    /// The machine after a run: a stopped machine stays as it is.
    pub open spec fn run(self) -> Machine {
        if self.state == InterpreterState::Stopped {
            self
        } else {
            self.run_on()
        }
    }
}

/// The result code with which a run ends when the execution of an
/// instruction has ended with `code`. A program that ends where an operand
/// was due has ended: the run succeeds.
pub open spec fn run_code_of_exec_code(code: u8) -> u8 {
    if code == RESULT_OK {
        RESULT_OK
    } else if code == RESULT_NULL_POINTER {
        RESULT_NULL_POINTER
    } else if code == RESULT_FAILURE {
        RESULT_FAILURE
    } else if code == IL_EXEC_INSTRUCTION_NOT_FOUND {
        IL_RUN_INSTRUCTION_NOT_FOUND
    } else if code == IL_EXEC_STOPPED {
        IL_RUN_STOPPED
    } else if code == IL_EXEC_STACK_OVERFLOW {
        IL_RUN_STACK_OVERFLOW
    } else if code == IL_EXEC_END_OF_PROGRAM {
        RESULT_OK
    } else {
        IL_RUN_UNKNOWN
    }
}

/// What a run does to a machine that is not stopped. It ends in one of three
/// ways: with success and the machine stopped, at an opcode that is no
/// instruction, or at a push that the stack has no room for. It moves the
/// cursor forward only, and leaves the program and the queue as they were and
/// the stack with the slots that it had.
pub proof fn lemma_run_on(machine: Machine)
    requires
        machine.wf(),
        machine.state != InterpreterState::Stopped,
    ensures
        machine.run_on().wf(),
        machine.run_on_code() == RESULT_OK || machine.run_on_code() == IL_RUN_INSTRUCTION_NOT_FOUND
            || machine.run_on_code() == IL_RUN_STACK_OVERFLOW,
        machine.run_on_code() == RESULT_OK <==> machine.run_on().state == InterpreterState::Stopped,
        machine.run_on_code() == RESULT_OK ==> machine.run_on().at_end(),
        machine.run_on_code() == IL_RUN_STACK_OVERFLOW ==> machine.run_on().stack.is_full(),
        machine.run_on().byte_code == machine.byte_code,
        machine.run_on().byte_code_end == machine.byte_code_end,
        machine.run_on().byte_code_ptr >= machine.byte_code_ptr,
        machine.run_on().queue == machine.queue,
        machine.run_on().stack.bottom == machine.stack.bottom,
        machine.run_on().stack.top_sentinel == machine.stack.top_sentinel,
    decreases machine.byte_code_end - machine.byte_code_ptr,
{
    if !machine.at_end() {
        let code = machine.fetch().exec_code(machine.fetched());
        if code == RESULT_OK {
            lemma_run_on(machine.fetch().exec(machine.fetched()));
        }
    }
}

/// A second run after one that succeeded: the first has left the machine
/// stopped, so the second is refused as stopped and changes nothing; the
/// machine is stopped after both.
pub proof fn lemma_run_twice(machine: Machine)
    requires
        machine.wf(),
        machine.run_code() == RESULT_OK,
    ensures
        machine.run().state == InterpreterState::Stopped,
        machine.run().run_code() == IL_RUN_STOPPED,
        machine.run().run() == machine.run(),
        machine.run().run().state == InterpreterState::Stopped,
{
    lemma_run_on(machine);
}

/// Initialize the interpreter
///
/// This binds the interpreter to the first `byte_code_len` bytes of its
/// array, puts the cursor on the first of them and sets the state to
/// `Running`. Returns `RESULT_NULL_POINTER` for an absent interpreter and
/// `RESULT_FAILURE` for a length of zero; the interpreter is then left as it
/// was.
///
/// `byte_code_len` must not be greater than the length of the array.
pub fn basino_il_init<'a>(interpreter: Option<&mut Interpreter<'a>>, byte_code_len: usize) -> (code:
    u8)
    requires
        interpreter matches Some(i) ==> byte_code_len <= i@.byte_code.len(),
    ensures
        interpreter is None ==> code == RESULT_NULL_POINTER,
        interpreter matches Some(i) ==> code == (if byte_code_len == 0 {
            RESULT_FAILURE
        } else {
            RESULT_OK
        }),
        interpreter matches Some(i) ==> final(i)@ == i@.init(byte_code_len as int),
        interpreter matches Some(i) ==> final(i).stack == i.stack,
        interpreter matches Some(i) ==> final(i).queue == i.queue,
{
    match interpreter {
        None => RESULT_NULL_POINTER,
        Some(i) => {
            if byte_code_len == 0 {
                RESULT_FAILURE
            } else {
                i.byte_code_end = byte_code_len;
                i.byte_code_ptr = 0;
                i.state = InterpreterState::Running;
                RESULT_OK
            }
        },
    }
}

/// Get the next bytecode
///
/// Returns the byte under the cursor and moves the cursor on by one; the
/// state stays as it is. Where the cursor stands at the end of the program
/// or on a zero byte, the program has ended: the cursor stays, the state
/// becomes `Stopped`, and 0 is returned. The result code goes to `result`:
/// `RESULT_NULL_POINTER` for an absent interpreter,
/// `IL_FETCH_END_OF_PROGRAM` where the program has ended.
///
/// The interpreter must be initialized.
pub fn basino_il_get_next_bytecode<'a>(
    interpreter: Option<&mut Interpreter<'a>>,
    result: &mut u8,
) -> (bytecode: u8)
    requires
        interpreter matches Some(i) ==> i@.wf(),
    ensures
        interpreter is None ==> *final(result) == RESULT_NULL_POINTER && bytecode == 0,
        interpreter matches Some(i) ==> *final(result) == (if i@.at_end() {
            IL_FETCH_END_OF_PROGRAM
        } else {
            RESULT_OK
        }),
        interpreter matches Some(i) ==> bytecode == (if i@.at_end() { 0u8 } else { i@.fetched() }),
        interpreter matches Some(i) ==> final(i)@ == i@.fetch() && final(i)@.wf(),
        interpreter matches Some(i) ==> *final(final(i).stack) == *final(i.stack),
        interpreter matches Some(i) ==> *final(final(i).queue) == *final(i.queue),
        interpreter matches Some(i) ==> final(final(i).stack.data)@ == final(i.stack.data)@,
        interpreter matches Some(i) ==> final(final(i).queue.queue)@ == final(i.queue.queue)@,
{
    match interpreter {
        None => {
            *result = RESULT_NULL_POINTER;
            0
        },
        Some(i) => {
            if i.byte_code_ptr == i.byte_code_end {
                i.state = InterpreterState::Stopped;
                *result = IL_FETCH_END_OF_PROGRAM;
                return 0;
            }
            let bytecode: u8 = i.byte_code[i.byte_code_ptr];
            if bytecode == IL_END {
                i.state = InterpreterState::Stopped;
                *result = IL_FETCH_END_OF_PROGRAM;
                0
            } else {
                i.byte_code_ptr = i.byte_code_ptr + 1;
                *result = RESULT_OK;
                bytecode
            }
        },
    }
}

/// Turn the result code with which the execution of an instruction has
/// ended into the result code with which the run ends.
pub fn basino_il_run_code(code: u8) -> (run_code: u8)
    ensures
        run_code == run_code_of_exec_code(code),
{
    match code {
        0 => RESULT_OK,
        1 => RESULT_NULL_POINTER,
        2 => RESULT_FAILURE,
        3 => IL_RUN_INSTRUCTION_NOT_FOUND,
        4 => IL_RUN_STOPPED,
        5 => IL_RUN_STACK_OVERFLOW,
        7 => RESULT_OK,
        _ => IL_RUN_UNKNOWN,
    }
}

/// Execute a single command
///
/// A stopped interpreter executes nothing: `IL_EXEC_STOPPED`. Any other
/// goes to the state `ExecutingInstruction`, executes the instruction with
/// the opcode `opcode`, and goes back to `Running`:
/// - `IL_NO` does nothing;
/// - `IL_LB` fetches the byte that follows and pushes it onto the stack:
///   `IL_EXEC_END_OF_PROGRAM` where the program has ended instead,
///   `IL_EXEC_STACK_OVERFLOW` where the stack is full;
/// - any other opcode is no instruction: `IL_EXEC_INSTRUCTION_NOT_FOUND`.
/// An instruction that fails leaves the state as the failure found it.
/// Returns `RESULT_NULL_POINTER` for an absent interpreter.
///
/// An interpreter that is not stopped must be initialized.
pub fn basino_il_exec<'a>(interpreter: Option<&mut Interpreter<'a>>, opcode: u8) -> (code: u8)
    requires
        interpreter matches Some(i) ==> i@.state == InterpreterState::Stopped || i@.wf(),
    ensures
        interpreter is None ==> code == RESULT_NULL_POINTER,
        interpreter matches Some(i) ==> code == i@.exec_code(opcode),
        interpreter matches Some(i) ==> final(i)@ == i@.exec(opcode),
        interpreter matches Some(i) ==> (i@.wf() ==> final(i)@.wf()),
        interpreter matches Some(i) ==> *final(final(i).stack) == *final(i.stack),
        interpreter matches Some(i) ==> *final(final(i).queue) == *final(i.queue),
        interpreter matches Some(i) ==> final(final(i).stack.data)@ == final(i.stack.data)@,
        interpreter matches Some(i) ==> final(final(i).queue.queue)@ == final(i.queue.queue)@,
        interpreter matches Some(i) ==> (i@.state == InterpreterState::Stopped ==> final(i)@
            == i@),
        interpreter matches Some(i) ==> final(i)@.queue == i@.queue,
        interpreter matches Some(i) ==> (code == RESULT_OK ==> final(i)@.state
            == InterpreterState::Running),
{
    match interpreter {
        None => RESULT_NULL_POINTER,
        Some(i) => {
            if i.state == InterpreterState::Stopped {
                return IL_EXEC_STOPPED;
            }
            i.state = InterpreterState::ExecutingInstruction;
            if opcode == IL_NO {
                i.state = InterpreterState::Running;
                RESULT_OK
            } else if opcode == IL_LB {
                let mut result: u8 = 0;
                let operand: u8 = basino_il_get_next_bytecode(Some(&mut *i), &mut result);
                if result != RESULT_OK {
                    return IL_EXEC_END_OF_PROGRAM;
                }
                let pushed: u8 = basino_stack_push(Some(&mut *i.stack), operand);
                if pushed != RESULT_OK {
                    return IL_EXEC_STACK_OVERFLOW;
                }
                i.state = InterpreterState::Running;
                RESULT_OK
            } else {
                IL_EXEC_INSTRUCTION_NOT_FOUND
            }
        },
    }
}

/// Run the program
///
/// A stopped interpreter does not run: `IL_RUN_STOPPED`. Any other fetches
/// the next bytecode and executes it, again and again. The run ends with
/// `RESULT_OK`, and the interpreter stopped, where the program ends. It ends
/// at the first instruction that fails, with the code that
/// `basino_il_run_code` gives for the failure. Returns
/// `RESULT_NULL_POINTER` for an absent interpreter.
///
/// An interpreter that is not stopped must be initialized.
#[verifier::loop_isolation(false)]
pub fn basino_il_run<'a>(interpreter: Option<&mut Interpreter<'a>>) -> (code: u8)
    requires
        interpreter matches Some(i) ==> i@.state == InterpreterState::Stopped || i@.wf(),
    ensures
        interpreter is None ==> code == RESULT_NULL_POINTER,
        interpreter matches Some(i) ==> code == i@.run_code(),
        interpreter matches Some(i) ==> final(i)@ == i@.run(),
        interpreter matches Some(i) ==> (i@.wf() ==> final(i)@.wf()),
        interpreter matches Some(i) ==> *final(final(i).stack) == *final(i.stack),
        interpreter matches Some(i) ==> *final(final(i).queue) == *final(i.queue),
        interpreter matches Some(i) ==> final(final(i).stack.data)@ == final(i.stack.data)@,
        interpreter matches Some(i) ==> final(final(i).queue.queue)@ == final(i.queue.queue)@,
{
    match interpreter {
        None => RESULT_NULL_POINTER,
        Some(i) => {
            if i.state == InterpreterState::Stopped {
                return IL_RUN_STOPPED;
            }
            let ghost start = i@;
            let ghost stack_at_end = *final(i.stack);
            let ghost queue_at_end = *final(i.queue);
            let ghost stack_region_at_end = final(i.stack.data)@;
            let ghost queue_region_at_end = final(i.queue.queue)@;
            loop
                invariant
                    i@.wf(),
                    *final(i.stack) == stack_at_end,
                    *final(i.queue) == queue_at_end,
                    final(i.stack.data)@ == stack_region_at_end,
                    final(i.queue.queue)@ == queue_region_at_end,
                    i@.state != InterpreterState::Stopped,
                    i@.run_on() == start.run_on(),
                    i@.run_on_code() == start.run_on_code(),
                decreases i@.byte_code_end - i@.byte_code_ptr,
            {
                let mut result: u8 = 0;
                let opcode: u8 = basino_il_get_next_bytecode(Some(&mut *i), &mut result);
                if result != RESULT_OK {
                    return RESULT_OK;
                }
                let executed: u8 = basino_il_exec(Some(&mut *i), opcode);
                if executed != RESULT_OK {
                    return basino_il_run_code(executed);
                }
            }
        },
    }
}

/// What the result code of `basino_il_init` means.
pub open spec fn init_outcome_of(code: u8) -> Result<(), Error> {
    if code == RESULT_OK {
        Ok(())
    } else if code == RESULT_NULL_POINTER {
        Err(Error { kind: ErrorKind::NullPointer })
    } else if code == RESULT_FAILURE {
        Err(Error { kind: ErrorKind::InvalidArguments })
    } else {
        Err(Error { kind: ErrorKind::Unknown })
    }
}

/// What the result code of `basino_il_get_next_bytecode` means, for the
/// bytecode that came with it.
pub open spec fn fetch_outcome_of(code: u8, bytecode: u8) -> Result<u8, Error> {
    if code == RESULT_OK {
        Ok(bytecode)
    } else if code == RESULT_NULL_POINTER {
        Err(Error { kind: ErrorKind::NullPointer })
    } else if code == IL_FETCH_END_OF_PROGRAM {
        Err(Error { kind: ErrorKind::EndOfProgram })
    } else {
        Err(Error { kind: ErrorKind::Unknown })
    }
}

/// What the result code of `basino_il_run` means.
pub open spec fn run_outcome_of(code: u8) -> Result<(), Error> {
    if code == RESULT_OK {
        Ok(())
    } else if code == RESULT_NULL_POINTER {
        Err(Error { kind: ErrorKind::NullPointer })
    } else if code == RESULT_FAILURE {
        Err(Error { kind: ErrorKind::InvalidArguments })
    } else if code == IL_RUN_INSTRUCTION_NOT_FOUND {
        Err(Error { kind: ErrorKind::InstructionNotFound })
    } else if code == IL_RUN_END_OF_PROGRAM {
        Err(Error { kind: ErrorKind::EndOfProgram })
    } else if code == IL_RUN_STOPPED {
        Err(Error { kind: ErrorKind::Stopped })
    } else if code == IL_RUN_STACK_OVERFLOW {
        Err(Error { kind: ErrorKind::StackOverflow })
    } else {
        Err(Error { kind: ErrorKind::Unknown })
    }
}

/// What the result code of `basino_il_exec` means.
pub open spec fn exec_outcome_of(code: u8) -> Result<(), Error> {
    if code == RESULT_OK {
        Ok(())
    } else if code == RESULT_NULL_POINTER {
        Err(Error { kind: ErrorKind::NullPointer })
    } else if code == RESULT_FAILURE {
        Err(Error { kind: ErrorKind::InvalidArguments })
    } else if code == IL_EXEC_INSTRUCTION_NOT_FOUND {
        Err(Error { kind: ErrorKind::InstructionNotFound })
    } else if code == IL_EXEC_STOPPED {
        Err(Error { kind: ErrorKind::Stopped })
    } else if code == IL_EXEC_STACK_OVERFLOW {
        Err(Error { kind: ErrorKind::StackOverflow })
    } else if code == IL_EXEC_END_OF_PROGRAM {
        Err(Error { kind: ErrorKind::EndOfProgram })
    } else {
        Err(Error { kind: ErrorKind::Unknown })
    }
}

/// Turn the result code of `basino_il_init` into a result: 0 is success,
/// 1 an absent interpreter, 2 invalid arguments, anything else unknown.
pub fn init_outcome(code: u8) -> (outcome: Result<(), Error>)
    ensures
        outcome == init_outcome_of(code),
{
    match code {
        0 => Ok(()),
        1 => Err(Error::new(ErrorKind::NullPointer)),
        2 => Err(Error::new(ErrorKind::InvalidArguments)),
        _ => Err(Error::new(ErrorKind::Unknown)),
    }
}

/// Turn the result code of `basino_il_get_next_bytecode` into a result that
/// holds the bytecode: 0 is success, 1 an absent interpreter, 3 the end of
/// the program, anything else unknown.
pub fn fetch_outcome(code: u8, bytecode: u8) -> (outcome: Result<u8, Error>)
    ensures
        outcome == fetch_outcome_of(code, bytecode),
{
    match code {
        0 => Ok(bytecode),
        1 => Err(Error::new(ErrorKind::NullPointer)),
        3 => Err(Error::new(ErrorKind::EndOfProgram)),
        _ => Err(Error::new(ErrorKind::Unknown)),
    }
}

/// Turn the result code of `basino_il_run` into a result: 0 is success,
/// 1 an absent interpreter, 2 invalid arguments, 3 an opcode that is no
/// instruction, 4 the end of the program, 5 a stopped interpreter, 7 a stack
/// overflow, 6 and anything else unknown.
pub fn run_outcome(code: u8) -> (outcome: Result<(), Error>)
    ensures
        outcome == run_outcome_of(code),
{
    match code {
        0 => Ok(()),
        1 => Err(Error::new(ErrorKind::NullPointer)),
        2 => Err(Error::new(ErrorKind::InvalidArguments)),
        3 => Err(Error::new(ErrorKind::InstructionNotFound)),
        4 => Err(Error::new(ErrorKind::EndOfProgram)),
        5 => Err(Error::new(ErrorKind::Stopped)),
        6 => Err(Error::new(ErrorKind::Unknown)),
        7 => Err(Error::new(ErrorKind::StackOverflow)),
        _ => Err(Error::new(ErrorKind::Unknown)),
    }
}

/// Turn the result code of `basino_il_exec` into a result: 0 is success,
/// 1 an absent interpreter, 2 invalid arguments, 3 an opcode that is no
/// instruction, 4 a stopped interpreter, 5 a stack overflow, 7 the end of the
/// program, 6 and anything else unknown.
pub fn exec_outcome(code: u8) -> (outcome: Result<(), Error>)
    ensures
        outcome == exec_outcome_of(code),
{
    match code {
        0 => Ok(()),
        1 => Err(Error::new(ErrorKind::NullPointer)),
        2 => Err(Error::new(ErrorKind::InvalidArguments)),
        3 => Err(Error::new(ErrorKind::InstructionNotFound)),
        4 => Err(Error::new(ErrorKind::Stopped)),
        5 => Err(Error::new(ErrorKind::StackOverflow)),
        6 => Err(Error::new(ErrorKind::Unknown)),
        7 => Err(Error::new(ErrorKind::EndOfProgram)),
        _ => Err(Error::new(ErrorKind::Unknown)),
    }
}

impl<'a> Interpreter<'a> {
    /// Is the interpreter initialized: is its program not empty and inside
    /// its array, does its cursor lie inside the program or at its end, and
    /// are its queue and its stack initialized? The functions that work on an
    /// interpreter ask for this.
    pub fn is_initialized(&self) -> (initialized: bool)
        ensures
            initialized == self@.wf(),
    {
        0 < self.byte_code_end && self.byte_code_end <= self.byte_code.len() && self.byte_code_ptr
            <= self.byte_code_end && self.queue.is_initialized() && self.stack.is_initialized()
    }

    /// Create a new interpreter
    ///
    /// # Arguments
    ///
    /// - `byte_code` - An array of u8 values that contains the byte code to
    /// run
    /// - `byte_code_len` - The length of the program: the number of bytes of
    /// `byte_code` that belong to it
    /// - `queue` - The input queue containing keyboard input
    /// - `stack` - The computational stack
    ///
    /// `byte_code_len` must not be greater than the length of `byte_code`,
    /// and the queue and the stack must be initialized.
    ///
    /// # Returns
    ///
    /// A Result containing the new Interpreter: running, with the cursor on
    /// the first byte of the program. A program of length zero is refused
    /// with `InvalidArguments`.
    pub fn new(
        byte_code: &'a [u8],
        byte_code_len: usize,
        queue: &'a mut Queue<'a>,
        stack: &'a mut Stack<'a>,
    ) -> (interpreter: Result<Interpreter<'a>, Error>)
        requires
            byte_code_len <= byte_code@.len(),
            old(queue)@.wf(),
            old(stack)@.wf(),
        ensures
            interpreter is Ok <==> byte_code_len > 0,
            interpreter matches Ok(i) ==> i@ == (Machine {
                byte_code: byte_code@,
                byte_code_end: byte_code_len as int,
                byte_code_ptr: 0,
                state: InterpreterState::Running,
                queue: old(queue)@,
                stack: old(stack)@,
            }) && i@.wf(),
            interpreter matches Ok(i) ==> *i.stack == *old(stack) && *i.queue == old(queue).queue,
            interpreter matches Ok(i) ==> *final(stack) == *final(i.stack),
            interpreter matches Ok(i) ==> final(queue).queue == *final(i.queue),
            interpreter matches Err(e) ==> e.kind == ErrorKind::InvalidArguments,
            interpreter is Err ==> *final(stack) == *old(stack),
            interpreter is Err ==> final(queue).queue == old(queue).queue,
            final(queue).queue_len == old(queue).queue_len,
    {
        let mut interpreter = Interpreter {
            byte_code,
            byte_code_end: 0,
            byte_code_ptr: 0,
            state: InterpreterState::Stopped,
            queue: &mut queue.queue,
            stack,
        };
        let res: u8 = basino_il_init(Some(&mut interpreter), byte_code_len);
        match init_outcome(res) {
            Ok(()) => Ok(interpreter),
            Err(e) => Err(e),
        }
    }

    /// Get the next byte code
    ///
    /// # Returns
    ///
    /// A Result containing the next byte code. The cursor moves on by one
    /// and the state stays as it is. Where the cursor stands at the end of
    /// the program or on a zero byte, the result is `EndOfProgram`: the
    /// cursor stays and the state becomes `Stopped`.
    ///
    /// The interpreter must be initialized.
    pub fn get_next_bytecode(&mut self) -> (bytecode: Result<u8, Error>)
        requires
            old(self)@.wf(),
        ensures
            bytecode is Ok <==> !old(self)@.at_end(),
            bytecode matches Ok(b) ==> b == old(self)@.fetched(),
            bytecode matches Err(e) ==> e.kind == ErrorKind::EndOfProgram,
            final(self)@ == old(self)@.fetch(),
            final(self)@.wf(),
            *final(final(self).stack) == *final(old(self).stack),
            *final(final(self).queue) == *final(old(self).queue),
            final(final(self).stack.data)@ == final(old(self).stack.data)@,
            final(final(self).queue.queue)@ == final(old(self).queue.queue)@,
    {
        let mut result: u8 = 0;
        let res: u8 = basino_il_get_next_bytecode(Some(self), &mut result);
        fetch_outcome(result, res)
    }

    /// Run the program
    ///
    /// # Returns
    ///
    /// A Result indicating the result of the program run. A stopped
    /// interpreter does not run: `Stopped`, and nothing changes. Any other
    /// fetches and executes one instruction after the other. Where the
    /// program ends, the run has succeeded and the interpreter is stopped.
    /// The first instruction that fails ends the run with its error:
    /// `InstructionNotFound` or `StackOverflow`.
    ///
    /// An interpreter that is not stopped must be initialized.
    pub fn run(&mut self) -> (ran: Result<(), Error>)
        requires
            old(self)@.state == InterpreterState::Stopped || old(self)@.wf(),
        ensures
            ran == run_outcome_of(old(self)@.run_code()),
            final(self)@ == old(self)@.run(),
            old(self)@.wf() ==> final(self)@.wf(),
            old(self)@.state == InterpreterState::Stopped ==> final(self)@ == old(self)@ && ran
                == Err::<(), Error>(Error { kind: ErrorKind::Stopped }),
            ran is Ok ==> final(self)@.state == InterpreterState::Stopped && final(self)@.at_end(),
            ran matches Err(e) ==> e.kind == ErrorKind::Stopped || e.kind
                == ErrorKind::InstructionNotFound || e.kind == ErrorKind::StackOverflow,
            final(self)@.queue == old(self)@.queue,
            *final(final(self).stack) == *final(old(self).stack),
            *final(final(self).queue) == *final(old(self).queue),
            final(final(self).stack.data)@ == final(old(self).stack.data)@,
            final(final(self).queue.queue)@ == final(old(self).queue.queue)@,
    {
        proof {
            if self@.state != InterpreterState::Stopped {
                lemma_run_on(self@);
            }
        }
        let res: u8 = basino_il_run(Some(self));
        run_outcome(res)
    }

    /// Execute an instruction
    ///
    /// # Arguments
    ///
    /// - `opcode` - The opcode of the instruction
    ///
    /// # Returns
    ///
    /// A Result indicating the result of the instruction. A stopped
    /// interpreter executes nothing: `Stopped`, and nothing changes. `IL_NO`
    /// does nothing. `IL_LB` fetches the byte that follows and pushes it
    /// onto the stack: `EndOfProgram` where the program has ended instead,
    /// `StackOverflow` where the stack is full. Any other opcode gives
    /// `InstructionNotFound`.
    ///
    /// An interpreter that is not stopped must be initialized.
    pub fn exec(&mut self, opcode: u8) -> (executed: Result<(), Error>)
        requires
            old(self)@.state == InterpreterState::Stopped || old(self)@.wf(),
        ensures
            executed == exec_outcome_of(old(self)@.exec_code(opcode)),
            final(self)@ == old(self)@.exec(opcode),
            old(self)@.wf() ==> final(self)@.wf(),
            old(self)@.state == InterpreterState::Stopped ==> final(self)@ == old(self)@
                && executed == Err::<(), Error>(Error { kind: ErrorKind::Stopped }),
            executed is Ok ==> final(self)@.state == InterpreterState::Running,
            executed is Ok && opcode == IL_NO ==> final(self)@
                == old(self)@.with_state(InterpreterState::Running),
            executed is Ok && opcode == IL_LB ==> final(self)@.byte_code_ptr
                == old(self)@.byte_code_ptr + 1,
            executed is Ok && opcode == IL_LB ==> final(self)@.stack.contents()
                == old(self)@.stack.contents().push(old(self)@.fetched()),
            final(self)@.queue == old(self)@.queue,
            *final(final(self).stack) == *final(old(self).stack),
            *final(final(self).queue) == *final(old(self).queue),
            final(final(self).stack.data)@ == final(old(self).stack.data)@,
            final(final(self).queue.queue)@ == final(old(self).queue.queue)@,
    {
        proof {
            if self@.state != InterpreterState::Stopped {
                lemma_push(self@.stack, self@.fetched());
            }
        }
        let res: u8 = basino_il_exec(Some(self), opcode);
        exec_outcome(res)
    }
}

} // verus!
