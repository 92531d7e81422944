use lua_bridge::data::{Data, DataErr};
use lua_bridge::library::Library;
use lua_bridge::lua::{CallOutcome, LoadOutcome, Lua, LuaState, LUA_ERRRUN, LUA_ERRSYNTAX, LUA_OK};
use lua_bridge::mtype::LUA_TNIL;
use lua_bridge::stack::Slot;
use lua_bridge::Error;

#[test]
fn lua_close_closes() {
    let l = Lua::new();
    drop(l);
    assert_eq!(true, true);
}

#[test]
#[allow(non_snake_case)]
fn luaL_loadstring_returns_ok() {
    let mut state = LuaState::new();

    let result = state.load_chunk("print('Hello')", LoadOutcome::Loaded);
    let expected = LUA_OK;
    assert_eq!(expected, result);
}

#[test]
fn load_chunk_rejection_reports_code_and_message() {
    let mut state = LuaState::new();

    let result = state.load_chunk(
        "print(",
        LoadOutcome::Rejected(LUA_ERRSYNTAX, "unexpected symbol near '<eof>'".into()),
    );

    assert_eq!(LUA_ERRSYNTAX, result);
    assert_eq!(
        Ok(Data::String("unexpected symbol near '<eof>'".into())),
        Data::pop(&mut state.stack)
    );
}

#[test]
fn activate_all_libs_no_errors() {
    let mut m = Lua::new();
    let result = m.activate(Library::all());
    assert_eq!(true, result.is_ok());
}

#[test]
fn interpret_print() {
    let mut m = Lua::new();
    m.activate(Library::all()).unwrap();
    let result = m.interpret(
        "print('Hello, World')",
        LoadOutcome::Loaded,
        CallOutcome::Returned(vec![]),
    );

    assert_eq!(Ok(()), result);
}

#[test]
fn interpret_clears_the_stack() {
    let mut m = Lua::new();
    m.activate(Library::all()).unwrap();
    // Each enabled library left its module table on the stack.
    assert_eq!(10, m.stack().depth());

    m.interpret(
        "print('Hello, World')",
        LoadOutcome::Loaded,
        CallOutcome::Returned(vec![]),
    )
    .unwrap();

    assert_eq!(0, m.stack().depth());
}

#[test]
fn interpret_reports_load_failure() {
    let mut m = Lua::new();

    let result = m.interpret(
        "function",
        LoadOutcome::Rejected(LUA_ERRSYNTAX, "'(' expected near '<eof>'".into()),
        CallOutcome::Returned(vec![]),
    );

    assert_eq!(
        Err(Error::Runtime("'(' expected near '<eof>'".into())),
        result
    );
}

#[test]
fn interpret_reports_run_failure() {
    let mut m = Lua::new();

    let result = m.interpret(
        "error('boom')",
        LoadOutcome::Loaded,
        CallOutcome::Failed(LUA_ERRRUN, "boom".into()),
    );

    assert_eq!(Err(Error::Runtime("boom".into())), result);
}

#[test]
fn get_global_returns_nil() {
    let mut m = Lua::new();
    m.activate(Library::all()).unwrap();
    m.interpret(
        "myGlobal = nil",
        LoadOutcome::Loaded,
        CallOutcome::Returned(vec![]),
    )
    .unwrap();
    let result = m.get_global("myGlobal");
    let expected = Ok(Data::Nil);
    assert_eq!(expected, result);
}

#[test]
fn get_global_unset_matches_explicit_nil() {
    let mut m = Lua::new();
    let unset = m.get_global("neverBound");

    m.set_global("boundToNil", Data::Nil).unwrap();
    let explicit = m.get_global("boundToNil");

    assert_eq!(Ok(Data::Nil), unset);
    assert_eq!(unset, explicit);
}

#[test]
fn set_global_then_get_global_returns_number() {
    let mut m = Lua::new();
    m.set_global("x", Data::Number(42.0_f64.to_bits())).unwrap();

    let result = m.get_global("x");

    assert_eq!(Ok(Data::Number(42.0_f64.to_bits())), result);
}

#[test]
fn set_global_then_get_global_returns_string() {
    let mut m = Lua::new();
    m.set_global("greeting", Data::String("Hello from Rust!".into()))
        .unwrap();

    let result = m.get_global("greeting");

    assert_eq!(Ok(Data::String("Hello from Rust!".into())), result);
}

#[test]
fn set_global_survives_interpret() {
    let mut m = Lua::new();
    m.set_global("x", Data::Number(42.0_f64.to_bits())).unwrap();

    m.interpret("print(x)", LoadOutcome::Loaded, CallOutcome::Returned(vec![]))
        .unwrap();

    assert_eq!(Ok(Data::Number(42.0_f64.to_bits())), m.get_global("x"));
}

#[test]
fn set_global_overwrites_previous_binding() {
    let mut m = Lua::new();
    m.set_global("x", Data::Bool(false)).unwrap();
    m.set_global("x", Data::Bool(true)).unwrap();

    let result = m.get_global("x");

    assert_eq!(Ok(Data::Bool(true)), result);
}

#[test]
fn set_global_leaves_stack_depth_unchanged() {
    let mut m = Lua::new();
    let before = m.stack().depth();

    m.set_global("x", Data::Number(1.0_f64.to_bits())).unwrap();

    assert_eq!(before, m.stack().depth());
}

#[test]
fn set_global_refuses_unsupported_value() {
    let mut m = Lua::new();

    let result = m.set_global("t", Data::Table);

    assert_eq!(Err(Error::Data(DataErr::NotYetSupported)), result);
    assert_eq!(Ok(Data::Nil), m.get_global("t"));
}

#[test]
fn get_global_function_is_not_yet_supported() {
    let mut m = Lua::new();
    m.set_global("f", Data::Function(3)).unwrap();

    let result = m.get_global("f");

    assert_eq!(Err(Error::Data(DataErr::NotYetSupported)), result);
}

#[test]
fn call_with_single_return_value_two_args() {
    const CODE: &'static str = "
function my_func(a,b)
    return a * b
end
";

    let mut m = Lua::new();
    m.activate(Library::all()).unwrap();
    m.interpret(CODE, LoadOutcome::Loaded, CallOutcome::Returned(vec![]))
        .unwrap();

    // The callee computed 3 * 4 and left the one product value.
    let result = m
        .call(
            "my_func",
            vec![
                Data::Number(3.0_f64.to_bits()),
                Data::Number(4.0_f64.to_bits()),
            ],
            1,
            CallOutcome::Returned(vec![Slot::Number(12.0_f64.to_bits())]),
        )
        .unwrap();

    assert_eq!(vec![Data::Number(12.0_f64.to_bits())], result);
}

#[test]
fn call_with_multiple_return_values_two_args() {
    const CODE: &'static str = "
function swapper(a,b)
    return b,a
end
";

    let mut m = Lua::new();
    m.activate(Library::all()).unwrap();
    m.interpret(CODE, LoadOutcome::Loaded, CallOutcome::Returned(vec![]))
        .unwrap();

    // The callee pushed its declared results left to right: first 4.0, then
    // 3.0. Decoding must hand back the first declared result first, not raw
    // pop order.
    let result = m
        .call(
            "swapper",
            vec![
                Data::Number(3.0_f64.to_bits()),
                Data::Number(4.0_f64.to_bits()),
            ],
            2,
            CallOutcome::Returned(vec![
                Slot::Number(4.0_f64.to_bits()),
                Slot::Number(3.0_f64.to_bits()),
            ]),
        )
        .unwrap();

    assert_eq!(
        vec![
            Data::Number(4.0_f64.to_bits()),
            Data::Number(3.0_f64.to_bits())
        ],
        result
    );
}

#[test]
fn call_div_zero() {
    const CODE: &'static str = "
function div(a,b)
    return a / b
end
";

    let mut m = Lua::new();
    m.activate(Library::all()).unwrap();
    m.interpret(CODE, LoadOutcome::Loaded, CallOutcome::Returned(vec![]))
        .unwrap();

    // 3 / 0 is a non-finite number, not an error: it round-trips through the
    // call as positive infinity.
    let result = m
        .call(
            "div",
            vec![
                Data::Number(3.0_f64.to_bits()),
                Data::Number(0.0_f64.to_bits()),
            ],
            1,
            CallOutcome::Returned(vec![Slot::Number(f64::INFINITY.to_bits())]),
        )
        .unwrap();

    assert_eq!(vec![Data::Number(f64::INFINITY.to_bits())], result);
}

#[test]
fn call_calls_code_correctly() {
    let code = "
function my_function()
    print(\"Hello from Function in Lua\")
end
";

    let mut m = Lua::new();
    m.activate(Library::all()).unwrap();
    m.interpret(code, LoadOutcome::Loaded, CallOutcome::Returned(vec![]))
        .unwrap();
    let result = m.call("my_function", vec![], 0, CallOutcome::Returned(vec![]));
    let expected = Ok(vec![]);
    assert_eq!(expected, result);
}

#[test]
fn call_failure_reports_runtime_message() {
    // Calling an unbound name fails in the runtime; the message it left
    // comes back as the runtime error, verbatim.
    let mut m = Lua::new();

    let result = m.call(
        "missing",
        Vec::new(),
        1,
        CallOutcome::Failed(LUA_ERRRUN, "attempt to call a nil value".into()),
    );

    assert_eq!(
        Err(Error::Runtime("attempt to call a nil value".into())),
        result
    );
}

#[test]
fn call_pads_missing_results_with_nil() {
    let mut m = Lua::new();

    let result = m.call(
        "short",
        Vec::new(),
        2,
        CallOutcome::Returned(vec![Slot::Number(1.5_f64.to_bits())]),
    );

    assert_eq!(
        Ok(vec![Data::Number(1.5_f64.to_bits()), Data::Nil]),
        result
    );
}

#[test]
fn call_drops_extra_results() {
    let mut m = Lua::new();

    let result = m.call(
        "chatty",
        Vec::new(),
        1,
        CallOutcome::Returned(vec![
            Slot::Number(1.0_f64.to_bits()),
            Slot::Number(2.0_f64.to_bits()),
        ]),
    );

    assert_eq!(Ok(vec![Data::Number(1.0_f64.to_bits())]), result);
}

#[test]
fn call_unsupported_result_reports_decode_failure() {
    let mut m = Lua::new();

    let result = m.call(
        "maker",
        Vec::new(),
        1,
        CallOutcome::Returned(vec![Slot::Table]),
    );

    assert_eq!(Err(Error::Data(DataErr::NotYetSupported)), result);
}

#[test]
fn push_global_missing_name_pushes_nil() {
    let mut state = LuaState::new();

    let code = state.push_global("nothingHere");

    assert_eq!(LUA_TNIL, code);
    assert_eq!(Ok(Data::Nil), Data::pop(&mut state.stack));
}

#[test]
fn map_code_passes_success_through() {
    let m = Lua::new();

    assert_eq!(Ok(()), m.map_code(LUA_OK));
}

#[test]
fn map_code_reads_error_message_from_stack() {
    // A failing load or call leaves its message on top of the stack; the
    // translation must carry exactly that text.
    let mut m = Lua::new();
    m.state
        .stack
        .push(Data::String("boom near line 1".into()))
        .unwrap();

    let result = m.map_code(LUA_ERRRUN);

    assert_eq!(Err(Error::Runtime("boom near line 1".into())), result);
}

#[test]
fn error_from_data_err() {
    let e = Error::from(DataErr::StackUnderflow);
    assert_eq!(Error::Data(DataErr::StackUnderflow), e);
}
