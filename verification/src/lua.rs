//! The runtime instance and the host-side protocol over it.
//!
//! [`LuaState`] models one interpreter instance: its evaluation stack, its
//! global bindings, and the libraries enabled so far. The instance's
//! primitives mirror the native ones the protocol is built from: loading a
//! chunk, reading a global onto the stack, binding the top slot to a name,
//! running a protected call, and opening a library.
//!
//! Compiling and executing script text belongs to the native interpreter,
//! which this library treats as opaque. Its verdicts therefore enter as
//! values: a load takes a [`LoadOutcome`], a protected call a
//! [`CallOutcome`], each carrying the result code, the message or the values
//! the runtime left behind — and the contracts state what holds of the stack
//! and the result for *every* such verdict. A driver performs the native
//! call, reads the verdict back, and hands it to these functions; everything
//! around the opaque step — marshalling, stack discipline, result ordering,
//! error translation — is verified here.
//!
//! What a chunk does to the global table while it runs is equally the
//! interpreter's business: after a run the contracts promise nothing about
//! the globals, and the bindings this module tracks are those made through
//! the host's own global writes.

use vstd::prelude::*;

verus! {

use crate::Error;
use crate::data::Data;
use crate::data::DataErr;
use crate::data::collect_results;
use crate::data::decode_spec;
use crate::data::encode_spec;
use crate::library::Library;
use crate::library::LibraryErr;
use crate::stack::Slot;
use crate::stack::Stack;

/// The native result code for success; every other code is a failure.
pub const LUA_OK: i32 = 0;

/// The native result code for a suspended coroutine.
pub const LUA_YIELD: i32 = 1;

/// The native result code for a runtime error.
pub const LUA_ERRRUN: i32 = 2;

/// The native result code for a syntax error.
pub const LUA_ERRSYNTAX: i32 = 3;

/// The native result code for an allocation failure.
pub const LUA_ERRMEM: i32 = 4;

/// The native result code for an error inside an error handler.
pub const LUA_ERRERR: i32 = 5;

/// Looks a name up among the global bindings, the most recent binding
/// winning.
pub open spec fn lookup_spec(globals: Seq<(String, Slot)>, name: Seq<char>) -> Option<Slot>
    decreases globals.len(),
{
    if globals.len() == 0 {
        None
    } else if globals.last().0@ == name {
        Some(globals.last().1)
    } else {
        lookup_spec(globals.drop_last(), name)
    }
}

/// The slot a global read observes: the bound slot, or nil for a name never
/// bound.
pub open spec fn global_or_nil(globals: Seq<(String, Slot)>, name: Seq<char>) -> Slot {
    match lookup_spec(globals, name) {
        Some(slot) => slot,
        None => Slot::Nil,
    }
}

/// What the native compiler reported for one chunk load.
#[derive(Debug)]
pub enum LoadOutcome {
    /// The chunk compiled; the runtime left it on the stack.
    Loaded,
    /// The load failed with this result code, leaving this message on the
    /// stack.
    Rejected(i32, String),
}

impl LoadOutcome {
    /// The native convention: only the success code reports success, so a
    /// failure verdict never carries it.
    pub open spec fn wf(self) -> bool {
        match self {
            LoadOutcome::Loaded => true,
            LoadOutcome::Rejected(code, _) => code != LUA_OK,
        }
    }
}

/// What the native runtime reported for one protected call.
#[derive(Debug)]
pub enum CallOutcome {
    /// The callee ran to completion and left these values, in the order it
    /// pushed them: first declared first.
    Returned(Vec<Slot>),
    /// The call failed with this result code, leaving this message on the
    /// stack.
    Failed(i32, String),
}

impl CallOutcome {
    /// The native convention: only the success code reports success, so a
    /// failure verdict never carries it.
    pub open spec fn wf(self) -> bool {
        match self {
            CallOutcome::Returned(_) => true,
            CallOutcome::Failed(code, _) => code != LUA_OK,
        }
    }
}

/// The native adjustment of a callee's results to the declared count: a
/// short row is padded with nils, a long one has the last-pushed extras
/// dropped.
pub open spec fn adjust_results(values: Seq<Slot>, nresults: nat) -> Seq<Slot> {
    if values.len() >= nresults {
        values.take(nresults as int)
    } else {
        values + Seq::new((nresults - values.len()) as nat, |i: int| Slot::Nil)
    }
}

/// A name bound after other bindings reads back as the new slot, and every
/// other name as before.
proof fn lemma_lookup_push(globals: Seq<(String, Slot)>, pair: (String, Slot), name: Seq<char>)
    ensures
        lookup_spec(globals.push(pair), name) == if name == pair.0@ {
            Some(pair.1)
        } else {
            lookup_spec(globals, name)
        },
{
    assert(globals.push(pair).drop_last() =~= globals);
}

/// A lookup ignores bindings above position `i` whose names all differ from
/// the name looked up.
proof fn lemma_lookup_take(globals: Seq<(String, Slot)>, name: Seq<char>, i: int)
    requires
        0 <= i <= globals.len(),
        forall|j: int| i <= j < globals.len() ==> (#[trigger] globals[j]).0@ != name,
    ensures
        lookup_spec(globals, name) == lookup_spec(globals.take(i), name),
    decreases globals.len(),
{
    if i < globals.len() {
        assert(globals[globals.len() - 1].0@ != name);
        lemma_lookup_take(globals.drop_last(), name, i);
        assert(globals.drop_last().take(i) =~= globals.take(i));
    } else {
        assert(globals.take(i) =~= globals);
    }
}

/// The state of one interpreter instance, as the protocol observes it.
#[derive(Debug)]
pub struct LuaState {
    /// The evaluation stack.
    pub stack: Stack,
    /// The global bindings, in binding order; the most recent binding of a
    /// name wins.
    pub globals: Vec<(String, Slot)>,
    /// The libraries enabled so far, in the order they were enabled.
    pub libraries: Vec<Library>,
}

impl LuaState {
    /// Creates a fresh instance: empty stack, no globals, no libraries.
    pub fn new() -> (r: LuaState)
        ensures
            r.stack@ == Seq::<Slot>::empty(),
            r.globals@ == Seq::<(String, Slot)>::empty(),
            r.libraries@ == Seq::<Library>::empty(),
    {
        LuaState { stack: Stack::new(), globals: Vec::new(), libraries: Vec::new() }
    }

    /// Finds the position of the winning binding of a name, scanning from
    /// the most recent.
    fn find_global(&self, name: &String) -> (r: Option<usize>)
        ensures
            match r {
                Some(i) => i < self.globals@.len() && lookup_spec(self.globals@, name@) == Some(
                    self.globals@[i as int].1,
                ),
                None => lookup_spec(self.globals@, name@) is None,
            },
    {
        let mut i = self.globals.len();
        while i > 0
            invariant
                i <= self.globals@.len(),
                forall|j: int|
                    i <= j < self.globals@.len() ==> (#[trigger] self.globals@[j]).0@ != name@,
            decreases i,
        {
            i = i - 1;
            if self.globals[i].0 == *name {
                proof {
                    lemma_lookup_take(self.globals@, name@, i + 1);
                    assert(self.globals@.take(i + 1).last() == self.globals@[i as int]);
                }
                return Some(i);
            }
        }
        proof {
            lemma_lookup_take(self.globals@, name@, 0);
        }
        None
    }

    /// Loads a chunk of source text, the native compiler's verdict given as
    /// the outcome: on success the compiled chunk lands on top of the stack,
    /// on failure the compiler's message does, and the result code is
    /// reported either way.
    ///
    /// Compiling is the runtime's business; whichever way it went, nothing
    /// ran, so the globals stay as they were. The text crosses the boundary
    /// as a NUL-terminated native string, which the precondition states.
    pub fn load_chunk(&mut self, code: &str, outcome: LoadOutcome) -> (r: i32)
        requires
            !code@.contains('\0'),
            outcome.wf(),
        ensures
            final(self).globals@ == old(self).globals@,
            final(self).libraries@ == old(self).libraries@,
            (match outcome {
                LoadOutcome::Loaded => r == LUA_OK && final(self).stack@.len() == old(self).stack@.len() + 1 && final(self).stack@.drop_last() == old(self).stack@ && (final(self).stack@.last() matches Slot::Chunk(c) && c@ == code@),
                LoadOutcome::Rejected(code_r, message) => r == code_r && final(self).stack@ == old(self).stack@.push(Slot::Text(message)),
            }),
    {
        match outcome {
            LoadOutcome::Loaded => {
                let owned: String = code.to_owned();
                self.stack.push_slot(Slot::Chunk(owned));
                proof {
                    assert(self.stack@.drop_last() =~= old(self).stack@);
                }
                LUA_OK
            },
            LoadOutcome::Rejected(code_r, message) => {
                self.stack.push_slot(Slot::Text(message));
                code_r
            },
        }
    }

    /// Reads the named global onto the top of the stack, nil for a name
    /// never bound, and reports the type code of what was pushed.
    pub fn push_global(&mut self, name: &str) -> (r: i32)
        requires
            !name@.contains('\0'),
        ensures
            final(self).stack@ == old(self).stack@.push(global_or_nil(old(self).globals@, name@)),
            r == global_or_nil(old(self).globals@, name@).type_code(),
            final(self).globals@ == old(self).globals@,
            final(self).libraries@ == old(self).libraries@,
    {
        let owned: String = name.to_owned();
        let slot = match self.find_global(&owned) {
            Some(i) => self.globals[i].1.duplicate(),
            None => Slot::Nil,
        };
        self.stack.push_slot(slot);
        self.stack.type_code_at(-1)
    }

    /// Takes the top slot off the stack and binds it to the given name,
    /// consuming the slot.
    pub fn set_global_from_stack(&mut self, name: &str)
        requires
            !name@.contains('\0'),
            old(self).stack@.len() > 0,
        ensures
            final(self).stack@ == old(self).stack@.drop_last(),
            final(self).libraries@ == old(self).libraries@,
            forall|n: Seq<char>|
                #[trigger] lookup_spec(final(self).globals@, n) == if n == name@ {
                    Some(old(self).stack@.last())
                } else {
                    lookup_spec(old(self).globals@, n)
                },
    {
        let slot = self.stack.pop_slot();
        let owned: String = name.to_owned();
        let ghost pair = (owned, slot);
        self.globals.push((owned, slot));
        proof {
            assert forall|n: Seq<char>|
                #[trigger] lookup_spec(self.globals@, n) == if n == name@ {
                    Some(old(self).stack@.last())
                } else {
                    lookup_spec(old(self).globals@, n)
                } by {
                lemma_lookup_push(old(self).globals@, pair, n);
                assert(self.globals@ =~= old(self).globals@.push(pair));
            }
        }
    }

    /// Runs a protected call: the callee sits below its `nargs` arguments on
    /// the stack, `nresults` results are expected back, and the runtime's
    /// verdict is given as the outcome. Callee and arguments are consumed
    /// either way.
    ///
    /// On success the values the callee left are adjusted to exactly the
    /// declared count, as the native call adjusts them; on failure the
    /// message lands on top and the failure code is reported. What the
    /// callee did to the globals while it ran is the runtime's business:
    /// nothing is promised of them.
    pub fn protected_call(&mut self, nargs: usize, nresults: usize, outcome: CallOutcome) -> (r:
        i32)
        requires
            old(self).stack@.len() >= nargs + 1,
            outcome.wf(),
        ensures
            final(self).libraries@ == old(self).libraries@,
            ({
                let base = old(self).stack@.len() - nargs - 1;
                match outcome {
                    CallOutcome::Returned(values) => r == LUA_OK && final(self).stack@ == old(self).stack@.take(base) + adjust_results(values@, nresults as nat),
                    CallOutcome::Failed(code_r, message) => r == code_r && final(self).stack@
                        == old(self).stack@.take(base).push(Slot::Text(message)),
                }
            }),
    {
        let depth = self.stack.depth();
        let base = depth - nargs - 1;
        self.stack.set_top(base);
        match outcome {
            CallOutcome::Returned(values) => {
                let mut k: usize = 0;
                while k < nresults
                    invariant
                        k <= nresults,
                        base <= old(self).stack@.len(),
                        self.stack@ == old(self).stack@.take(base as int) + adjust_results(
                            values@,
                            nresults as nat,
                        ).take(k as int),
                        self.libraries@ == old(self).libraries@,
                    decreases nresults - k,
                {
                    if k < values.len() {
                        let slot = values[k].duplicate();
                        self.stack.push_slot(slot);
                    } else {
                        self.stack.push_slot(Slot::Nil);
                    }
                    k = k + 1;
                    proof {
                        assert(self.stack@ =~= old(self).stack@.take(base as int)
                            + adjust_results(values@, nresults as nat).take(k as int));
                    }
                }
                proof {
                    assert(adjust_results(values@, nresults as nat).take(nresults as int)
                        =~= adjust_results(values@, nresults as nat));
                }
                LUA_OK
            },
            CallOutcome::Failed(code_r, message) => {
                self.stack.push_slot(Slot::Text(message));
                code_r
            },
        }
    }

    /// Opens the given library against this instance: the library is
    /// recorded as enabled, its module table lands on the stack as every
    /// native loader leaves it, and the loader reports that one value.
    ///
    /// The module's contents are script-world values outside the model.
    pub fn open(&mut self, library: Library) -> (r: i32)
        ensures
            r == 1,
            final(self).libraries@ == old(self).libraries@.push(library),
            final(self).stack@ == old(self).stack@.push(Slot::Table),
            final(self).globals@ == old(self).globals@,
    {
        self.libraries.push(library);
        self.stack.push_slot(Slot::Table);
        1
    }
}

/// Abstraction for one runtime instance and the high-level protocol over it.
#[derive(Debug)]
pub struct Lua {
    /// The owned instance.
    pub state: LuaState,
}

impl Lua {
    /// Creates a new instance with no libraries enabled.
    pub fn new() -> (r: Lua)
        ensures
            r.state.stack@ == Seq::<Slot>::empty(),
            r.state.globals@ == Seq::<(String, Slot)>::empty(),
            r.state.libraries@ == Seq::<Library>::empty(),
    {
        Lua { state: LuaState::new() }
    }

    /// Returns a handle to the stack, for fetching arguments and pushing
    /// results inside a host-defined function.
    pub fn stack(&self) -> (r: &Stack)
        ensures
            r@ == self.state.stack@,
    {
        &self.state.stack
    }

    /// Activates the given libraries, in the given order.
    ///
    /// Enabling cannot fail today — the library error type is uninhabited —
    /// so the whole activation succeeds for every list.
    pub fn activate(&mut self, libraries: Vec<Library>) -> (r: Result<(), LibraryErr>)
        ensures
            r == Ok::<(), LibraryErr>(()),
            final(self).state.libraries@ == old(self).state.libraries@ + libraries@,
            final(self).state.stack@ == old(self).state.stack@ + Seq::new(
                libraries@.len(),
                |i: int| Slot::Table,
            ),
            final(self).state.globals@ == old(self).state.globals@,
    {
        let n = libraries.len();
        let mut k: usize = 0;
        while k < n
            invariant
                k <= n,
                n == libraries@.len(),
                self.state.libraries@ == old(self).state.libraries@ + libraries@.take(k as int),
                self.state.stack@ == old(self).state.stack@ + Seq::new(
                    k as nat,
                    |i: int| Slot::Table,
                ),
                self.state.globals@ == old(self).state.globals@,
            decreases n - k,
        {
            let lib = libraries[k];
            match lib.enable(&mut self.state) {
                Ok(()) => {},
                Err(e) => {
                    return Err(e);
                },
            }
            k = k + 1;
            proof {
                assert(self.state.libraries@ =~= old(self).state.libraries@ + libraries@.take(
                    k as int,
                ));
                assert(self.state.stack@ =~= old(self).state.stack@ + Seq::new(
                    k as nat,
                    |i: int| Slot::Table,
                ));
            }
        }
        proof {
            assert(libraries@.take(n as int) =~= libraries@);
        }
        Ok(())
    }

    /// Reads the error the runtime left on top of the stack.
    pub fn get_error(&self) -> (r: Error)
        requires
            self.state.stack@.len() > 0,
            self.state.stack@.last() is Text,
        ensures
            r matches Error::Runtime(m) && self.state.stack@.last() == Slot::Text(m),
    {
        let text = self.state.stack.to_text(-1);
        Error::Runtime(text)
    }

    /// Translates a native result code: success passes through, and any
    /// failure code carries the message off the top of the stack.
    ///
    /// A failing load or call always leaves its message on top, which the
    /// precondition states for the failure codes.
    pub fn map_code(&self, result_code: i32) -> (r: Result<(), Error>)
        requires
            result_code != LUA_OK ==> self.state.stack@.len() > 0 && self.state.stack@.last()
                is Text,
        ensures
            result_code == LUA_OK ==> r == Ok::<(), Error>(()),
            result_code != LUA_OK ==> (r matches Err(Error::Runtime(m))
                && self.state.stack@.last() == Slot::Text(m)),
    {
        if result_code == LUA_OK {
            Ok(())
        } else {
            Err(self.get_error())
        }
    }

    /// Interprets the given code as one standalone chunk: load it, run it as
    /// a protected call with no arguments and no declared results, and on
    /// success discard whatever the run left on the stack, so interpreting
    /// cannot leak stack growth across invocations.
    ///
    /// The compiler's and the run's verdicts are given as the outcomes, and
    /// each possible pair is accounted for: both successful means `Ok` with
    /// an emptied stack; either failure means the runtime error with the
    /// message that verdict carried, left on the stack as the native failure
    /// leaves it. A chunk that ran may have bound anything, so nothing is
    /// promised of the globals then; a rejected load ran nothing and leaves
    /// them untouched.
    pub fn interpret(&mut self, code: &str, load: LoadOutcome, run: CallOutcome) -> (r: Result<
        (),
        Error,
    >)
        requires
            !code@.contains('\0'),
            load.wf(),
            run.wf(),
        ensures
            final(self).state.libraries@ == old(self).state.libraries@,
            (match load {
                LoadOutcome::Rejected(_, message) => (r matches Err(Error::Runtime(m)) && m@
                    == message@) && final(self).state.stack@ == old(self).state.stack@.push(
                    Slot::Text(message),
                ) && final(self).state.globals@ == old(self).state.globals@,
                LoadOutcome::Loaded => match run {
                    CallOutcome::Failed(_, message) => (r matches Err(Error::Runtime(m)) && m@
                        == message@) && final(self).state.stack@ == old(self).state.stack@.push(
                        Slot::Text(message),
                    ),
                    CallOutcome::Returned(_) => r == Ok::<(), Error>(()) && final(self).state.stack@ == Seq::<Slot>::empty(),
                },
            }),
    {
        let load_result = self.state.load_chunk(code, load);
        match self.map_code(load_result) {
            Ok(()) => {},
            Err(e) => {
                return Err(e);
            },
        }
        proof {
            assert(self.state.stack@.take(old(self).state.stack@.len() as int) =~= old(self).state.stack@);
        }
        let run_result = self.state.protected_call(0, 0, run);
        match self.map_code(run_result) {
            Ok(()) => {},
            Err(e) => {
                return Err(e);
            },
        }
        // The run succeeded: remove anything left over from the stack.
        self.state.stack.set_top(0);
        proof {
            assert(self.state.stack@ =~= Seq::<Slot>::empty());
        }
        Ok(())
    }

    /// Attempts to retrieve the given global.
    ///
    /// The named global is read onto the stack and that one slot is decoded
    /// and consumed. A name never bound reads as nil, indistinguishable from
    /// a name bound to nil — an ambiguity inherent to the runtime. A slot
    /// whose kind has no decoding yet is reported unsupported and stays on
    /// the stack, nothing having been consumed.
    pub fn get_global(&mut self, global_name: &str) -> (r: Result<Data, Error>)
        requires
            !global_name@.contains('\0'),
        ensures
            final(self).state.globals@ == old(self).state.globals@,
            final(self).state.libraries@ == old(self).state.libraries@,
            ({
                let slot = global_or_nil(old(self).state.globals@, global_name@);
                match decode_spec(slot) {
                    Ok(d) => r == Ok::<Data, Error>(d) && final(self).state.stack@ == old(self).state.stack@,
                    Err(e) => r == Err::<Data, Error>(Error::Data(e)) && final(self).state.stack@
                        == old(self).state.stack@.push(slot),
                }
            }),
    {
        self.state.push_global(global_name);
        proof {
            assert(self.state.stack@.drop_last() =~= old(self).state.stack@);
        }
        match Data::pop(&mut self.state.stack) {
            Ok(d) => Ok(d),
            Err(e) => Err(Error::Data(e)),
        }
    }

    /// Sets the given global variable: the value is pushed in its slot
    /// encoding and the pushed slot is bound to the name, consuming it. A
    /// value with no encoding is refused before anything reaches the stack.
    pub fn set_global(&mut self, global_name: &str, data: Data) -> (r: Result<(), Error>)
        requires
            !global_name@.contains('\0'),
            data.text_is_encodable(),
        ensures
            final(self).state.libraries@ == old(self).state.libraries@,
            ({
                match encode_spec(data) {
                    Some(slot) => r == Ok::<(), Error>(()) && final(self).state.stack@ == old(self).state.stack@ && forall|n: Seq<char>|
                        #[trigger] lookup_spec(final(self).state.globals@, n) == if n
                            == global_name@ {
                            Some(slot)
                        } else {
                            lookup_spec(old(self).state.globals@, n)
                        },
                    None => r == Err::<(), Error>(Error::Data(DataErr::NotYetSupported)) && final(self).state.stack@ == old(self).state.stack@ && final(self).state.globals@ == old(self).state.globals@,
                }
            }),
    {
        match data.push(&mut self.state.stack) {
            Ok(()) => {},
            Err(e) => {
                return Err(Error::Data(e));
            },
        }
        self.state.set_global_from_stack(global_name);
        proof {
            assert(self.state.stack@ =~= old(self).state.stack@);
        }
        Ok(())
    }

    /// Attempts to call the given global as a function: the callee is read
    /// onto the stack, the arguments follow in order, a protected call runs
    /// with the runtime's verdict given as the outcome, and on success the
    /// declared number of results is decoded so that the first declared
    /// result comes first, after which the stack is cleared.
    ///
    /// The contract covers every verdict. A completed callee's values are
    /// adjusted to the declared count and decoded in declaration order;
    /// should one of them have no decoding yet, that failure is reported and
    /// the stack keeps what was not yet consumed. A failed call reports the
    /// runtime error with the message the verdict carried, the message slot
    /// staying behind as the native failure leaves it. The callee may have
    /// changed the global table while it ran, so nothing is promised of the
    /// globals.
    pub fn call(
        &mut self,
        function_name: &str,
        args: Vec<Data>,
        nresults: usize,
        outcome: CallOutcome,
    ) -> (r: Result<Vec<Data>, Error>)
        requires
            !function_name@.contains('\0'),
            forall|i: int|
                0 <= i < args@.len() ==> (#[trigger] args@[i]).is_marshallable()
                    && args@[i].text_is_encodable(),
            outcome.wf(),
        ensures
            final(self).state.libraries@ == old(self).state.libraries@,
            (match outcome {
                CallOutcome::Returned(values) => ({
                    let cr = crate::data::collect_spec(
                        old(self).state.stack@ + adjust_results(values@, nresults as nat),
                        nresults as nat,
                    );
                    match cr.0 {
                        Ok(ds) => (r matches Ok(results) && results@ == ds) && final(self).state.stack@ == Seq::<Slot>::empty(),
                        Err(e) => r == Err::<Vec<Data>, Error>(Error::Data(e)) && final(self).state.stack@ == cr.1,
                    }
                }),
                CallOutcome::Failed(_, message) => (r matches Err(Error::Runtime(m)) && m@
                    == message@) && final(self).state.stack@ == old(self).state.stack@.push(
                    Slot::Text(message),
                ),
            }),
    {
        let ghost old_stack = self.state.stack@;
        let ghost callee = global_or_nil(self.state.globals@, function_name@);
        self.state.push_global(function_name);
        let nargs = args.len();
        let mut k: usize = 0;
        while k < nargs
            invariant
                k <= nargs,
                nargs == args@.len(),
                forall|i: int|
                    0 <= i < args@.len() ==> (#[trigger] args@[i]).is_marshallable()
                        && args@[i].text_is_encodable(),
                self.state.stack@ == old_stack.push(callee) + Seq::new(
                    k as nat,
                    |i: int| encoded_arg(args@[i]),
                ),
                self.state.globals@ == old(self).state.globals@,
                self.state.libraries@ == old(self).state.libraries@,
            decreases nargs - k,
        {
            let pushed = args[k].push(&mut self.state.stack);
            match pushed {
                Ok(()) => {},
                Err(_) => {},
            }
            k = k + 1;
            proof {
                assert(self.state.stack@ =~= old_stack.push(callee) + Seq::new(
                    k as nat,
                    |i: int| encoded_arg(args@[i]),
                ));
            }
        }
        proof {
            assert(self.state.stack@.len() == old_stack.len() + 1 + nargs);
            assert(self.state.stack@.take(old_stack.len() as int) =~= old_stack);
        }
        let code = self.state.protected_call(nargs, nresults, outcome);
        if code == LUA_OK {
            let results = match collect_results(&mut self.state.stack, nresults) {
                Ok(v) => v,
                Err(e) => {
                    return Err(Error::Data(e));
                },
            };
            // A successful call leaves nothing behind: clear the callee slot
            // and anything else off the stack.
            self.state.stack.set_top(0);
            proof {
                assert(self.state.stack@ =~= Seq::<Slot>::empty());
            }
            Ok(results)
        } else {
            Err(self.get_error())
        }
    }
}

/// The slot an argument crosses the boundary as; meaningful for
/// marshallable arguments only.
spec fn encoded_arg(data: Data) -> Slot {
    match encode_spec(data) {
        Some(slot) => slot,
        None => Slot::Nil,
    }
}

} // verus!
