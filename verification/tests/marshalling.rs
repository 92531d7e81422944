use lua_bridge::data::{collect_results, Data, DataErr};
use lua_bridge::mtype::Type;
use lua_bridge::stack::Stack;

#[test]
fn default_returns_nil() {
    assert_eq!(Data::Nil, Data::default())
}

#[test]
fn from_str_returns_string() {
    let n = "hello";
    let d: Data = n.into();
    assert_eq!(Data::String(n.into()), d)
}

#[test]
fn pop_nil_value_returns_underflow() {
    let mut stack = Stack::new();

    let result = Data::pop(&mut stack);
    let expected = Err(DataErr::StackUnderflow);
    assert_eq!(expected, result)
}

#[test]
fn pop_empty_stack_leaves_it_unchanged() {
    let mut stack = Stack::new();

    let result = Data::pop(&mut stack);

    assert_eq!(Err(DataErr::StackUnderflow), result);
    assert_eq!(0, stack.depth());
}

#[test]
fn push_pop_string() {
    let data = Data::String("Hello from Rust!".into());
    let mut stack = Stack::new();
    data.clone().push(&mut stack).unwrap();

    let result = Data::pop(&mut stack);
    let expected = Ok(data.clone());
    assert_eq!(expected, result)
}

#[test]
fn push_pop_num_positive() {
    let data = Data::Number(123.44_f64.to_bits());
    let mut stack = Stack::new();
    data.clone().push(&mut stack).unwrap();

    let result = Data::pop(&mut stack);
    let expected = Ok(data.clone());
    assert_eq!(expected, result)
}

#[test]
fn push_pop_num_negative() {
    let data = Data::Number((-234568.93_f64).to_bits());
    let mut stack = Stack::new();
    data.clone().push(&mut stack).unwrap();

    let result = Data::pop(&mut stack);
    let expected = Ok(data.clone());
    assert_eq!(expected, result)
}

#[test]
fn push_pop_num_infinity() {
    let data = Data::Number(f64::INFINITY.to_bits());
    let mut stack = Stack::new();
    data.clone().push(&mut stack).unwrap();

    let result = Data::pop(&mut stack);
    let expected = Ok(data.clone());
    assert_eq!(expected, result)
}

#[test]
fn push_pop_bool_true() {
    let data = Data::Bool(true);
    let mut stack = Stack::new();
    data.push(&mut stack).unwrap();

    let result = Data::pop(&mut stack);
    let expected = Ok(Data::Bool(true));
    assert_eq!(expected, result)
}

#[test]
fn push_pop_bool_false() {
    let data = Data::Bool(false);
    let mut stack = Stack::new();
    data.push(&mut stack).unwrap();

    let result = Data::pop(&mut stack);
    let expected = Ok(Data::Bool(false));
    assert_eq!(expected, result)
}

#[test]
fn push_pop_nil() {
    let data = Data::Nil;
    let mut stack = Stack::new();
    data.push(&mut stack).unwrap();

    let result = Data::pop(&mut stack);
    let expected = Ok(Data::Nil);
    assert_eq!(expected, result)
}

#[test]
fn push_restores_depth_after_pop() {
    let mut stack = Stack::new();
    Data::Bool(true).push(&mut stack).unwrap();
    assert_eq!(1, stack.depth());

    Data::pop(&mut stack).unwrap();
    assert_eq!(0, stack.depth());
}

#[test]
fn push_table_is_not_yet_supported() {
    let mut stack = Stack::new();

    let result = Data::Table.push(&mut stack);

    assert_eq!(Err(DataErr::NotYetSupported), result);
    assert_eq!(0, stack.depth());
}

#[test]
fn pop_function_is_not_yet_supported() {
    let mut stack = Stack::new();
    Data::Function(7).push(&mut stack).unwrap();

    let result = Data::pop(&mut stack);

    assert_eq!(Err(DataErr::NotYetSupported), result);
    assert_eq!(1, stack.depth());
}

#[test]
fn stack_push_method_encodes_like_data_push() {
    let mut stack = Stack::new();
    stack.push(Data::Number(9.25_f64.to_bits())).unwrap();

    let result = Data::pop(&mut stack);
    assert_eq!(Ok(Data::Number(9.25_f64.to_bits())), result);
}

#[test]
fn collect_results_declaration_order() {
    // A callee that declared its results as (4.0, 3.0) pushed 4.0 first;
    // collecting must hand the first declared result back first.
    let mut stack = Stack::new();
    Data::Number(4.0_f64.to_bits()).push(&mut stack).unwrap();
    Data::Number(3.0_f64.to_bits()).push(&mut stack).unwrap();

    let results = collect_results(&mut stack, 2).unwrap();

    assert_eq!(
        vec![
            Data::Number(4.0_f64.to_bits()),
            Data::Number(3.0_f64.to_bits())
        ],
        results
    );
    assert_eq!(0, stack.depth());
}

#[test]
fn collect_results_consumes_only_declared_count() {
    let mut stack = Stack::new();
    Data::Bool(true).push(&mut stack).unwrap();
    Data::Number(1.5_f64.to_bits()).push(&mut stack).unwrap();

    let results = collect_results(&mut stack, 1).unwrap();

    assert_eq!(vec![Data::Number(1.5_f64.to_bits())], results);
    assert_eq!(1, stack.depth());
}

#[test]
fn collect_results_underflows_on_short_stack() {
    let mut stack = Stack::new();
    Data::Nil.push(&mut stack).unwrap();

    let result = collect_results(&mut stack, 2);

    assert_eq!(Err(DataErr::StackUnderflow), result);
}

#[test]
fn check_num_reads_positional_argument() {
    let mut stack = Stack::new();
    Data::Number(7.0_f64.to_bits()).push(&mut stack).unwrap();
    Data::Number(8.0_f64.to_bits()).push(&mut stack).unwrap();

    assert_eq!(Some(7.0_f64.to_bits()), stack.check_num(1));
    assert_eq!(Some(8.0_f64.to_bits()), stack.check_num(2));
    assert_eq!(None, stack.check_num(3));
}

#[test]
fn check_num_refuses_non_number() {
    let mut stack = Stack::new();
    Data::Bool(true).push(&mut stack).unwrap();

    assert_eq!(None, stack.check_num(1));
}

#[test]
fn host_function_multiplies_stack_arguments() {
    // The body of a host-defined multiplication function, written against
    // the stack handle: fetch two numeric arguments, push their product.
    let mut stack = Stack::new();
    Data::Number(7.0_f64.to_bits()).push(&mut stack).unwrap();
    Data::Number(8.0_f64.to_bits()).push(&mut stack).unwrap();

    let a = f64::from_bits(stack.check_num(1).unwrap());
    let b = f64::from_bits(stack.check_num(2).unwrap());
    Data::Number((a * b).to_bits()).push(&mut stack).unwrap();

    let result = Data::pop(&mut stack);
    assert_eq!(Ok(Data::Number(56.0_f64.to_bits())), result);
}

#[test]
fn data_mtype_nil() {
    let data = Data::Nil;
    let expected = Type::Nil;
    assert_eq!(expected, data.m_type());
}

#[test]
fn data_mtype_bool() {
    let data = Data::Bool(true);
    let expected = Type::Bool;
    assert_eq!(expected, data.m_type());
}

#[test]
fn data_mtype_lightuserdata() {
    let data = Data::LightUserData;
    let expected = Type::LightUserData;
    assert_eq!(expected, data.m_type());
}

#[test]
fn data_mtype_number() {
    let data = Data::Number(0.0_f64.to_bits());
    let expected = Type::Number;
    assert_eq!(expected, data.m_type());
}

#[test]
fn data_mtype_string() {
    let data = Data::String("Hello".into());
    let expected = Type::String;
    assert_eq!(expected, data.m_type());
}

#[test]
fn data_mtype_table() {
    let data = Data::Table;
    let expected = Type::Table;
    assert_eq!(expected, data.m_type());
}

#[test]
fn data_mtype_function() {
    let data = Data::Function(1);
    let expected = Type::Function;
    assert_eq!(expected, data.m_type());
}

#[test]
fn data_mtype_userdata() {
    let data = Data::UserData;
    let expected = Type::UserData;
    assert_eq!(expected, data.m_type());
}

#[test]
fn data_mtype_thread() {
    let data = Data::Thread;
    let expected = Type::Thread;
    assert_eq!(expected, data.m_type());
}
