use executer::error::{Error, Found};
use executer::eval::evaluate;
use executer::expr::{Expr, IOp, Literal, Op};
use executer::number::Operation;
use executer::text::Text;
use executer::value::{Ident, Type, Value};
use executer::vm::Vm;

fn arithmetic(q: Operation) -> u64 {
    let r = match q {
        Operation::Add(a, b) => f64::from_bits(a) + f64::from_bits(b),
        Operation::Sub(a, b) => f64::from_bits(a) - f64::from_bits(b),
        Operation::Mul(a, b) => f64::from_bits(a) * f64::from_bits(b),
        Operation::Div(a, b) => f64::from_bits(a) / f64::from_bits(b),
        Operation::Rem(a, b) => f64::from_bits(a) % f64::from_bits(b),
        Operation::FromInteger(i) => i as f64,
    };
    if r.is_nan() {
        f64::NAN.to_bits()
    } else {
        r.to_bits()
    }
}

const FUEL: u64 = 1000;

fn num(x: f64) -> Value {
    Value::Number(x.to_bits())
}

fn text(s: &str) -> Value {
    Value::String(s.to_string())
}

fn id(s: &str) -> Ident {
    Ident(s.to_string())
}

fn number(x: f64) -> Expr {
    Expr::Literal { value: Literal::Number(x.to_bits()) }
}

fn string(s: &str) -> Expr {
    Expr::Literal { value: Literal::String(s.to_string()) }
}

fn truth(b: bool) -> Expr {
    Expr::Literal { value: Literal::Bool(b) }
}

fn var(s: &str) -> Expr {
    Expr::Ident { ident: s.to_string() }
}

fn binary(op: Op, left: Expr, right: Expr) -> Expr {
    Expr::BinOp { op, left: Box::new(left), right: Box::new(right) }
}

fn assign(name: &str, value: Expr) -> Expr {
    Expr::Assign { name: name.to_string(), value: Box::new(value) }
}

fn set(name: &str, value: Expr) -> Expr {
    Expr::SetVar { name: name.to_string(), value: Box::new(value) }
}

fn update(op: IOp, name: &str, value: Expr) -> Expr {
    Expr::IOp { op, name: name.to_string(), value: Box::new(value) }
}

fn call(name: &str, args: Vec<Expr>) -> Expr {
    Expr::Call { name: name.to_string(), args }
}

fn block(body: Vec<Expr>) -> Expr {
    Expr::Block { body }
}

fn range(start: Expr, end: Expr) -> Expr {
    Expr::Range { start: Box::new(start), end: Box::new(end) }
}

fn index(name: Expr, index: Expr) -> Expr {
    Expr::Index { name: Box::new(name), index: Box::new(index) }
}

fn fun(name: &str, params: &[&str], body: Expr) -> Expr {
    Expr::FunDef {
        name: name.to_string(),
        args: params.iter().map(|p| var(p)).collect(),
        body: Box::new(body),
    }
}

fn digits(bits: u64) -> String {
    format!("{}", f64::from_bits(bits))
}

fn shown(text: &Text) -> String {
    text.flatten(&digits)
}

fn run(vm: &mut Vm, e: Expr) -> Result<Value, Error> {
    vm.eval_expr(e, FUEL, &arithmetic)
}

fn expect_mismatch(r: Result<Value, Error>, expected: &str, found: Found) {
    match r {
        Err(Error::TypeMismatch(e)) => {
            assert_eq!(e.expected, expected);
            assert_eq!(e.found, found);
        }
        other => panic!("{:?}", other),
    }
}

fn word(s: &str) -> Found {
    Found::Word(s.to_string())
}

#[test]
fn the_empty_expression_gives_the_value_for_no_value() {
    let mut vm = Vm::new();
    assert_eq!(run(&mut vm, Expr::Empty), Ok(Value::Nil));
}

#[test]
fn literals_give_their_values() {
    let mut vm = Vm::new();
    assert_eq!(run(&mut vm, number(1.5)), Ok(num(1.5)));
    assert_eq!(run(&mut vm, string("a")), Ok(text("a")));
    assert_eq!(run(&mut vm, truth(true)), Ok(Value::Bool(true)));
}

#[test]
fn a_block_gives_its_last_value_and_binds_as_it_goes() {
    let mut vm = Vm::new();
    assert_eq!(run(&mut vm, block(vec![])), Ok(Value::Nil));
    let b = block(vec![assign("x", number(1.0)), assign("y", number(2.0)), var("x")]);
    assert_eq!(run(&mut vm, b), Ok(num(1.0)));
    assert_eq!(vm.get_ident(id("y")), Some(&num(2.0)));
}

#[test]
fn a_block_stops_at_the_first_error_and_keeps_what_was_bound() {
    let mut vm = Vm::new();
    let b = block(vec![assign("x", number(1.0)), var("missing"), assign("y", number(2.0))]);
    match run(&mut vm, b) {
        Err(Error::VarNotFound(e)) => assert_eq!(e.var_name, "missing"),
        other => panic!("{:?}", other),
    }
    assert!(vm.is_bound(id("x")));
    assert!(!vm.is_bound(id("y")));
}

#[test]
fn reading_a_variable() {
    let mut vm = Vm::new();
    vm.set_ident(id("x"), text("v"));
    assert_eq!(run(&mut vm, var("x")), Ok(text("v")));
    match run(&mut vm, var("y")) {
        Err(Error::VarNotFound(e)) => assert_eq!(e.var_name, "y"),
        other => panic!("{:?}", other),
    }
}

#[test]
fn both_sides_of_a_connective_are_evaluated() {
    let mut vm = Vm::new();
    let e = binary(
        Op::Or,
        truth(true),
        block(vec![call("print", vec![string("right")]), truth(false)]),
    );
    assert_eq!(run(&mut vm, e), Ok(Value::Bool(true)));
    assert_eq!(shown(vm.output()), "right");
    let e = binary(Op::And, truth(false), var("missing"));
    assert!(matches!(run(&mut vm, e), Err(Error::VarNotFound(_))));
}

#[test]
fn the_left_side_is_evaluated_before_the_right() {
    let mut vm = Vm::new();
    let e = binary(Op::Add, var("a"), var("b"));
    match run(&mut vm, e) {
        Err(Error::VarNotFound(e)) => assert_eq!(e.var_name, "a"),
        other => panic!("{:?}", other),
    }
    let e = binary(
        Op::Sub,
        block(vec![assign("p", number(9.0)), var("p")]),
        block(vec![set("p", number(4.0)), var("p")]),
    );
    assert_eq!(run(&mut vm, e), Ok(num(5.0)));
}

#[test]
fn every_binary_operator_in_an_expression() {
    let mut vm = Vm::new();
    let cases = vec![
        (Op::Add, num(8.0)),
        (Op::Sub, num(4.0)),
        (Op::Mul, num(12.0)),
        (Op::Div, num(3.0)),
        (Op::Mod, num(0.0)),
        (Op::Eq, Value::Bool(false)),
        (Op::Neq, Value::Bool(true)),
        (Op::Gt, Value::Bool(true)),
        (Op::Lt, Value::Bool(false)),
        (Op::Ge, Value::Bool(true)),
        (Op::Le, Value::Bool(false)),
    ];
    for (op, expected) in cases {
        assert_eq!(run(&mut vm, binary(op, number(6.0), number(2.0))), Ok(expected));
    }
    assert_eq!(run(&mut vm, binary(Op::And, truth(true), truth(true))), Ok(Value::Bool(true)));
    assert_eq!(run(&mut vm, binary(Op::Or, truth(false), truth(false))), Ok(Value::Bool(false)));
    assert!(matches!(
        run(&mut vm, binary(Op::Lt, string("a"), number(1.0))),
        Err(Error::CannotCompare(_))
    ));
}

#[test]
fn a_conditional_without_an_else() {
    let mut vm = Vm::new();
    let e = |c: Expr| Expr::IfThen { cond: Box::new(c), then_: Box::new(number(1.0)) };
    assert_eq!(run(&mut vm, e(truth(true))), Ok(num(1.0)));
    assert_eq!(run(&mut vm, e(truth(false))), Ok(Value::Nil));
    expect_mismatch(run(&mut vm, e(number(1.0))), "bool", Found::Type(Type::Int));
    expect_mismatch(run(&mut vm, e(Expr::Empty)), "bool", Found::Type(Type::Nil));
}

#[test]
fn a_conditional_with_an_else() {
    let mut vm = Vm::new();
    let e = |c: Expr| Expr::IfThenElse {
        cond: Box::new(c),
        then_: Box::new(number(1.0)),
        else_: Box::new(number(2.0)),
    };
    assert_eq!(run(&mut vm, e(truth(true))), Ok(num(1.0)));
    assert_eq!(run(&mut vm, e(truth(false))), Ok(num(2.0)));
    expect_mismatch(run(&mut vm, e(string("yes"))), "bool", Found::Type(Type::String));
}

#[test]
fn a_definition_gives_no_value_and_evaluates_its_value_first() {
    let mut vm = Vm::new();
    assert_eq!(run(&mut vm, assign("x", number(1.0))), Ok(Value::Nil));
    match run(&mut vm, assign("y", var("missing"))) {
        Err(Error::VarNotFound(e)) => assert_eq!(e.var_name, "missing"),
        other => panic!("{:?}", other),
    }
    assert!(!vm.is_bound(id("y")));
    match run(&mut vm, assign("x", var("missing"))) {
        Err(Error::VarNotFound(e)) => assert_eq!(e.var_name, "missing"),
        other => panic!("{:?}", other),
    }
}

#[test]
fn an_assignment_writes_over_a_bound_variable() {
    let mut vm = Vm::new();
    vm.set_ident(id("x"), num(1.0));
    assert_eq!(run(&mut vm, set("x", string("now a string"))), Ok(Value::Nil));
    assert_eq!(vm.get_ident(id("x")), Some(&text("now a string")));
    match run(&mut vm, set("x", var("missing"))) {
        Err(Error::VarNotFound(e)) => assert_eq!(e.var_name, "missing"),
        other => panic!("{:?}", other),
    }
}

#[test]
fn updating_operators_change_a_number_in_place() {
    let mut vm = Vm::new();
    vm.set_ident(id("x"), num(10.0));
    assert_eq!(run(&mut vm, update(IOp::IAdd, "x", number(5.0))), Ok(Value::Nil));
    assert_eq!(vm.get_ident(id("x")), Some(&num(15.0)));
    assert_eq!(run(&mut vm, update(IOp::ISub, "x", number(3.0))), Ok(Value::Nil));
    assert_eq!(vm.get_ident(id("x")), Some(&num(12.0)));
    assert_eq!(run(&mut vm, update(IOp::IMul, "x", number(0.5))), Ok(Value::Nil));
    assert_eq!(vm.get_ident(id("x")), Some(&num(6.0)));
    assert_eq!(run(&mut vm, update(IOp::IDiv, "x", number(4.0))), Ok(Value::Nil));
    assert_eq!(vm.get_ident(id("x")), Some(&num(1.5)));
}

#[test]
fn updating_operators_need_numbers_on_both_sides() {
    let mut vm = Vm::new();
    vm.set_ident(id("s"), text("a"));
    vm.set_ident(id("x"), num(1.0));
    expect_mismatch(
        run(&mut vm, update(IOp::IAdd, "s", number(1.0))),
        "number",
        Found::Type(Type::String),
    );
    expect_mismatch(
        run(&mut vm, update(IOp::IAdd, "x", string("1"))),
        "int or float",
        word("unknown"),
    );
    match run(&mut vm, update(IOp::IMul, "missing", number(1.0))) {
        Err(Error::VarNotFound(e)) => assert_eq!(e.var_name, "missing"),
        other => panic!("{:?}", other),
    }
    expect_mismatch(
        run(&mut vm, update(IOp::IDiv, "missing", truth(true))),
        "int or float",
        word("unknown"),
    );
    assert_eq!(vm.get_ident(id("x")), Some(&num(1.0)));
}

#[test]
fn the_machine_updates_a_variable_directly() {
    let mut vm = Vm::new();
    vm.set_ident(id("x"), num(8.0));
    assert_eq!(vm.iadd("x".to_string(), num(2.0), &arithmetic), Ok(Value::Nil));
    assert_eq!(vm.get_ident(id("x")), Some(&num(10.0)));
    assert_eq!(vm.isub("x".to_string(), num(4.0), &arithmetic), Ok(Value::Nil));
    assert_eq!(vm.get_ident(id("x")), Some(&num(6.0)));
    assert_eq!(vm.imul("x".to_string(), num(3.0), &arithmetic), Ok(Value::Nil));
    assert_eq!(vm.get_ident(id("x")), Some(&num(18.0)));
    assert_eq!(vm.idiv("x".to_string(), num(4.0), &arithmetic), Ok(Value::Nil));
    assert_eq!(vm.get_ident(id("x")), Some(&num(4.5)));
    assert!(matches!(
        vm.iadd("y".to_string(), num(1.0), &arithmetic),
        Err(Error::VarNotFound(_))
    ));
    assert!(matches!(
        vm.isub("x".to_string(), Value::Nil, &arithmetic),
        Err(Error::TypeMismatch(_))
    ));
}

#[test]
fn a_while_loop_runs_while_its_condition_is_true() {
    let mut vm = Vm::new();
    vm.set_ident(id("i"), num(0.0));
    let lp = Expr::While {
        cond: Box::new(binary(Op::Lt, var("i"), number(5.0))),
        body: Box::new(block(vec![
            call("print", vec![var("i")]),
            update(IOp::IAdd, "i", number(1.0)),
            assign_or_set("last", var("i")),
        ])),
    };
    assert_eq!(run(&mut vm, lp), Ok(Value::Nil));
    assert_eq!(vm.get_ident(id("i")), Some(&num(5.0)));
    assert_eq!(vm.get_ident(id("last")), Some(&num(5.0)));
    assert_eq!(shown(vm.output()), "01234");
}

fn assign_or_set(name: &str, value: Expr) -> Expr {
    // defines the variable in the first round and assigns to it in the others
    Expr::IfThenElse {
        cond: Box::new(binary(Op::Eq, var("i"), number(1.0))),
        then_: Box::new(assign(name, value.clone())),
        else_: Box::new(set(name, value)),
    }
}

#[test]
fn a_while_loop_ends_silently_on_a_condition_that_is_no_truth_value() {
    let mut vm = Vm::new();
    let lp = |c: Expr| Expr::While {
        cond: Box::new(c),
        body: Box::new(call("print", vec![string("x")])),
    };
    assert_eq!(run(&mut vm, lp(number(1.0))), Ok(Value::Nil));
    assert_eq!(run(&mut vm, lp(string("true"))), Ok(Value::Nil));
    assert_eq!(run(&mut vm, lp(Expr::Empty)), Ok(Value::Nil));
    assert_eq!(run(&mut vm, lp(truth(false))), Ok(Value::Nil));
    assert_eq!(shown(vm.output()), "");
    assert!(matches!(run(&mut vm, lp(var("missing"))), Err(Error::VarNotFound(_))));
}

#[test]
fn a_loop_that_does_not_end_runs_out_of_fuel() {
    let mut vm = Vm::new();
    let lp = Expr::While { cond: Box::new(truth(true)), body: Box::new(Expr::Empty) };
    assert_eq!(vm.eval_expr(lp, 50, &arithmetic), Err(Error::OutOfFuel));
    let forever = fun("forever", &[], call("forever", vec![]));
    assert!(run(&mut vm, forever).is_ok());
    assert_eq!(vm.eval_expr(call("forever", vec![]), 200, &arithmetic), Err(Error::OutOfFuel));
}

#[test]
fn no_fuel_no_evaluation() {
    let mut vm = Vm::new();
    assert_eq!(vm.eval_expr(Expr::Empty, 0, &arithmetic), Err(Error::OutOfFuel));
    assert_eq!(vm.eval_expr(Expr::Empty, 1, &arithmetic), Ok(Value::Nil));
    assert_eq!(
        vm.eval_expr(binary(Op::Add, number(1.0), number(2.0)), 1, &arithmetic),
        Err(Error::OutOfFuel)
    );
    assert_eq!(
        vm.eval_expr(binary(Op::Add, number(1.0), number(2.0)), 2, &arithmetic),
        Ok(num(3.0))
    );
}

#[test]
fn a_loop_over_a_list_binds_each_item() {
    let mut vm = Vm::new();
    let lp = Expr::For {
        name: Box::new(var("item")),
        iter: Box::new(Expr::List { elems: vec![string("a"), string("b"), string("c")] }),
        body: Box::new(block(vec![call("print", vec![var("item")]), var("item")])),
    };
    assert_eq!(run(&mut vm, lp), Ok(text("c")));
    assert_eq!(vm.get_ident(id("item")), Some(&text("c")));
    assert_eq!(shown(vm.output()), "abc");
    let empty = Expr::For {
        name: Box::new(var("other")),
        iter: Box::new(Expr::List { elems: vec![] }),
        body: Box::new(number(1.0)),
    };
    assert_eq!(run(&mut vm, empty), Ok(Value::Nil));
    assert!(!vm.is_bound(id("other")));
}

#[test]
fn a_loop_needs_a_name_and_something_to_loop_over() {
    let mut vm = Vm::new();
    let bad_name = Expr::For {
        name: Box::new(number(1.0)),
        iter: Box::new(var("missing")),
        body: Box::new(Expr::Empty),
    };
    expect_mismatch(run(&mut vm, bad_name), "string", word("ident"));
    let bad_iter = Expr::For {
        name: Box::new(var("i")),
        iter: Box::new(number(3.0)),
        body: Box::new(Expr::Empty),
    };
    expect_mismatch(run(&mut vm, bad_iter), "list", Found::Type(Type::Int));
}

#[test]
fn a_loop_variable_writes_over_a_bound_name() {
    let mut vm = Vm::new();
    vm.set_ident(id("i"), text("before"));
    let lp = Expr::For {
        name: Box::new(var("i")),
        iter: Box::new(range(number(7.0), number(9.0))),
        body: Box::new(Expr::Empty),
    };
    assert_eq!(run(&mut vm, lp), Ok(Value::Nil));
    assert_eq!(vm.get_ident(id("i")), Some(&num(8.0)));
}

#[test]
fn defining_a_function_binds_and_gives_it() {
    let mut vm = Vm::new();
    let expected = Value::Function {
        name: "f".to_string(),
        args: vec![id("a"), id("b")],
        body: binary(Op::Add, var("a"), var("b")),
    };
    assert_eq!(
        run(&mut vm, fun("f", &["a", "b"], binary(Op::Add, var("a"), var("b")))),
        Ok(expected.clone())
    );
    assert_eq!(vm.get_ident(id("f")), Some(&expected));
    assert_eq!(run(&mut vm, call("f", vec![number(1.0), number(2.0)])), Ok(num(3.0)));
}

#[test]
fn a_function_cannot_take_the_name_of_a_builtin() {
    let mut vm = Vm::new();
    for name in ["print", "println"] {
        match run(&mut vm, fun(name, &[], Expr::Empty)) {
            Err(Error::IsBuiltin(e)) => assert_eq!(e.name, name),
            other => panic!("{:?}", other),
        }
        assert!(!vm.is_bound(id(name)));
    }
}

#[test]
fn the_parameters_of_a_function_must_be_names() {
    let mut vm = Vm::new();
    let def = Expr::FunDef {
        name: "f".to_string(),
        args: vec![var("a"), number(1.0)],
        body: Box::new(Expr::Empty),
    };
    expect_mismatch(run(&mut vm, def), "ident", word("unknown"));
    assert!(!vm.is_bound(id("f")));
}

#[test]
fn calling_what_is_no_function() {
    let mut vm = Vm::new();
    match run(&mut vm, call("missing", vec![])) {
        Err(Error::FunctionNotFound(e)) => assert_eq!(e.name, "missing"),
        other => panic!("{:?}", other),
    }
    vm.set_ident(id("x"), num(1.0));
    expect_mismatch(run(&mut vm, call("x", vec![])), "function", Found::Type(Type::Int));
}

#[test]
fn arguments_are_bound_by_position_and_surplus_ones_are_not_evaluated() {
    let mut vm = Vm::new();
    assert!(run(&mut vm, fun("first", &["a", "b"], var("a"))).is_ok());
    assert_eq!(
        run(&mut vm, call("first", vec![number(1.0), number(2.0), var("missing")])),
        Ok(num(1.0))
    );
    assert!(run(&mut vm, fun("second", &["a", "b"], var("b"))).is_ok());
    assert_eq!(run(&mut vm, call("second", vec![number(1.0), number(2.0)])), Ok(num(2.0)));
}

#[test]
fn too_few_arguments_are_an_error() {
    let mut vm = Vm::new();
    assert!(run(&mut vm, fun("f", &["a", "b"], var("a"))).is_ok());
    match run(&mut vm, call("f", vec![call("print", vec![string("evaluated")])])) {
        Err(Error::Arity(e)) => {
            assert_eq!(e.name, "f");
            assert_eq!(e.expected, 2);
            assert_eq!(e.found, 1);
        }
        other => panic!("{:?}", other),
    }
    assert_eq!(shown(vm.output()), "");
}

#[test]
fn arguments_are_evaluated_in_the_bindings_of_the_caller() {
    let mut vm = Vm::new();
    assert!(run(&mut vm, fun("f", &["a"], var("a"))).is_ok());
    let c = call("f", vec![block(vec![assign("made", number(1.0)), var("made")])]);
    assert_eq!(run(&mut vm, c), Ok(num(1.0)));
    assert_eq!(vm.get_ident(id("made")), Some(&num(1.0)));
    match run(&mut vm, call("f", vec![var("missing")])) {
        Err(Error::VarNotFound(e)) => assert_eq!(e.var_name, "missing"),
        other => panic!("{:?}", other),
    }
}

#[test]
fn a_function_is_bound_under_its_own_name_in_its_body() {
    let mut vm = Vm::new();
    assert!(run(&mut vm, fun("f", &[], var("f"))).is_ok());
    let f = vm.get_ident(id("f")).cloned();
    vm.set_ident(id("g"), f.clone().unwrap());
    assert_eq!(run(&mut vm, call("g", vec![])).ok(), f);
    assert!(run(&mut vm, fun("h", &[], var("g"))).is_ok());
    assert!(matches!(run(&mut vm, call("h", vec![])), Err(Error::VarNotFound(_))));
}

#[test]
fn print_writes_its_arguments_with_nothing_between_them() {
    let mut vm = Vm::new();
    let c = call("print", vec![string("a"), number(1.5), truth(true), Expr::Empty]);
    assert_eq!(run(&mut vm, c), Ok(Value::Nil));
    assert_eq!(shown(vm.output()), "a1.5trueNone");
    assert_eq!(run(&mut vm, call("print", vec![])), Ok(Value::Nil));
    assert_eq!(shown(vm.output()), "a1.5trueNone");
}

#[test]
fn println_ends_the_line() {
    let mut vm = Vm::new();
    let list = Expr::List { elems: vec![number(1.0), number(2.0)] };
    assert_eq!(run(&mut vm, call("println", vec![string("xs = "), list])), Ok(Value::Nil));
    assert_eq!(run(&mut vm, call("println", vec![])), Ok(Value::Nil));
    assert_eq!(shown(vm.output()), "xs = [1, 2]\n\n");
}

#[test]
fn a_failing_argument_of_a_builtin_counts_as_no_value() {
    let mut vm = Vm::new();
    let c = call(
        "print",
        vec![
            string("<"),
            var("missing"),
            binary(Op::Add, string("x"), number(1.0)),
            string(">"),
        ],
    );
    assert_eq!(run(&mut vm, c), Ok(Value::Nil));
    assert_eq!(shown(vm.output()), "<NoneNone>");
}

#[test]
fn a_builtin_cannot_write_what_has_no_rendering() {
    let mut vm = Vm::new();
    assert!(run(&mut vm, Expr::StructDef { name: "S".to_string(), fields: vec![] }).is_ok());
    match run(&mut vm, call("print", vec![string("a"), var("S"), string("b")])) {
        Err(Error::CannotDisplay(e)) => assert_eq!(e.found, Type::Struct("S".to_string())),
        other => panic!("{:?}", other),
    }
    assert_eq!(shown(vm.output()), "a");
}

#[test]
fn the_machine_prints_directly() {
    let mut vm = Vm::new();
    assert_eq!(vm.print(vec![text("a"), num(2.0)]), Value::Nil);
    assert_eq!(shown(vm.output()), "a2");
    assert_eq!(vm.println(vec![Value::Bool(false)]), Value::Nil);
    assert_eq!(shown(vm.output()), "a2false\n");
    let taken = vm.take_output();
    assert_eq!(shown(&taken), "a2false\n");
    assert_eq!(shown(vm.output()), "");
}

#[test]
fn a_list_evaluates_its_items_in_order() {
    let mut vm = Vm::new();
    let l = Expr::List {
        elems: vec![
            block(vec![assign("x", number(1.0)), var("x")]),
            binary(Op::Add, var("x"), number(1.0)),
            string("s"),
        ],
    };
    assert_eq!(run(&mut vm, l), Ok(Value::List(vec![num(1.0), num(2.0), text("s")])));
    let failing = Expr::List { elems: vec![number(1.0), var("missing"), assign("y", Expr::Empty)] };
    assert!(matches!(run(&mut vm, failing), Err(Error::VarNotFound(_))));
    assert!(!vm.is_bound(id("y")));
}

#[test]
fn indexing_needs_a_name_bound_to_a_list() {
    let mut vm = Vm::new();
    vm.set_ident(id("n"), num(1.0));
    expect_mismatch(
        run(&mut vm, index(Expr::List { elems: vec![number(1.0)] }, number(0.0))),
        "ident",
        word("unknown"),
    );
    expect_mismatch(run(&mut vm, index(var("n"), number(0.0))), "list", Found::Type(Type::Int));
    match run(&mut vm, index(var("missing"), number(0.0))) {
        Err(Error::VarNotFound(e)) => assert_eq!(e.var_name, "missing"),
        other => panic!("{:?}", other),
    }
}

#[test]
fn indexing_needs_a_number_or_a_range() {
    let mut vm = Vm::new();
    vm.set_ident(id("xs"), Value::List(vec![num(1.0)]));
    expect_mismatch(
        run(&mut vm, index(var("xs"), string("0"))),
        "number",
        Found::Type(Type::String),
    );
    expect_mismatch(run(&mut vm, index(var("xs"), truth(true))), "number", Found::Type(Type::Bool));
}

#[test]
fn indexes_at_the_edges() {
    let mut vm = Vm::new();
    vm.set_ident(id("xs"), Value::List(vec![num(10.0), num(20.0), num(30.0)]));
    vm.set_ident(id("none"), Value::List(vec![]));
    let report = |vm: &mut Vm, name: &str, i: Expr| match run(vm, index(var(name), i)) {
        Err(Error::IndexOutOfBounds(e)) => {
            assert_eq!(e.name, name);
            e.index
        }
        other => panic!("{:?}", other),
    };
    assert_eq!(report(&mut vm, "xs", number(-0.5)), 0);
    assert_eq!(report(&mut vm, "xs", number(1e12)), i32::MAX);
    assert_eq!(report(&mut vm, "xs", number(-1e12)), i32::MIN);
    assert_eq!(report(&mut vm, "xs", number(f64::INFINITY)), i32::MAX);
    assert_eq!(report(&mut vm, "none", number(0.0)), 0);
    assert_eq!(report(&mut vm, "none", number(f64::NAN)), 0);
    assert_eq!(run(&mut vm, index(var("xs"), number(-0.0))), Ok(num(10.0)));
    assert_eq!(run(&mut vm, index(var("xs"), number(f64::NAN))), Ok(num(10.0)));
    assert_eq!(run(&mut vm, index(var("xs"), number(0.99))), Ok(num(10.0)));
}

#[test]
fn slices_at_the_edges() {
    let mut vm = Vm::new();
    vm.set_ident(id("xs"), Value::List(vec![num(10.0), num(20.0), num(30.0)]));
    let slice =
        |vm: &mut Vm, a: f64, b: f64| run(vm, index(var("xs"), range(number(a), number(b))));
    let report = |r: Result<Value, Error>| match r {
        Err(Error::IndexOutOfBounds(e)) => {
            assert_eq!(e.name, "xs");
            e.index
        }
        other => panic!("{:?}", other),
    };
    assert_eq!(slice(&mut vm, 0.0, 3.0), Ok(Value::List(vec![num(10.0), num(20.0), num(30.0)])));
    assert_eq!(slice(&mut vm, 0.0, 0.0), Ok(Value::List(vec![])));
    assert_eq!(slice(&mut vm, 2.0, 2.0), Ok(Value::List(vec![])));
    assert_eq!(slice(&mut vm, 2.0, 3.0), Ok(Value::List(vec![num(30.0)])));
    assert_eq!(report(slice(&mut vm, 3.0, 3.0)), 3);
    assert_eq!(report(slice(&mut vm, 5.0, 1.0)), 5);
    assert_eq!(report(slice(&mut vm, 1.0, 4.0)), 4);
    assert_eq!(report(slice(&mut vm, -1.0, 2.0)), -1);
    assert_eq!(report(slice(&mut vm, 2.0, 1.0)), 1);
    assert_eq!(report(slice(&mut vm, 0.0, -2.0)), -2);
}

#[test]
fn a_range_truncates_its_ends() {
    let mut vm = Vm::new();
    assert_eq!(
        run(&mut vm, range(number(1.9), number(-2.9))),
        Ok(Value::Range(1..-2))
    );
    assert_eq!(
        run(&mut vm, range(number(1e30), number(f64::NAN))),
        Ok(Value::Range(i64::MAX..0))
    );
    expect_mismatch(
        run(&mut vm, range(string("a"), number(1.0))),
        "number",
        Found::Type(Type::String),
    );
    expect_mismatch(
        run(&mut vm, range(number(1.0), truth(true))),
        "number",
        Found::Type(Type::Bool),
    );
    expect_mismatch(
        run(&mut vm, range(Expr::Empty, truth(true))),
        "number",
        Found::Type(Type::Nil),
    );
    assert!(matches!(
        run(&mut vm, range(string("a"), var("missing"))),
        Err(Error::VarNotFound(_))
    ));
}

fn point() -> Expr {
    Expr::StructDef { name: "Point".to_string(), fields: vec![var("x"), var("y")] }
}

fn make_point(pairs: Vec<(&str, Expr)>) -> Expr {
    Expr::CallStruct {
        name: "Point".to_string(),
        args: pairs.into_iter().map(|(n, e)| (var(n), e)).collect(),
    }
}

#[test]
fn defining_a_struct_binds_its_definition() {
    let mut vm = Vm::new();
    assert_eq!(run(&mut vm, point()), Ok(Value::Nil));
    assert_eq!(
        vm.get_ident(id("Point")),
        Some(&Value::DefStruct {
            name: "Point".to_string(),
            fields: vec![id("x"), id("y")],
            function: vec![],
        })
    );
    let bad = Expr::StructDef { name: "Bad".to_string(), fields: vec![var("x"), string("y")] };
    expect_mismatch(run(&mut vm, bad), "ident", word("unknown"));
    assert!(!vm.is_bound(id("Bad")));
}

#[test]
fn making_an_instance() {
    let mut vm = Vm::new();
    assert!(run(&mut vm, point()).is_ok());
    assert_eq!(
        run(&mut vm, make_point(vec![("y", number(2.0)), ("x", number(1.0))])),
        Ok(Value::CallStruct {
            name: "Point".to_string(),
            fields: vec![(id("y"), num(2.0)), (id("x"), num(1.0))],
        })
    );
    assert_eq!(
        run(&mut vm, make_point(vec![("x", number(1.0)), ("x", number(5.0))])),
        Ok(Value::CallStruct { name: "Point".to_string(), fields: vec![(id("x"), num(5.0))] })
    );
    assert_eq!(
        run(&mut vm, make_point(vec![])),
        Ok(Value::CallStruct { name: "Point".to_string(), fields: vec![] })
    );
}

#[test]
fn making_an_instance_evaluates_each_value_once() {
    let mut vm = Vm::new();
    assert!(run(&mut vm, point()).is_ok());
    let e = make_point(vec![
        ("x", block(vec![call("print", vec![string("x")]), number(1.0)])),
        ("z", block(vec![call("print", vec![string("z")]), number(9.0)])),
    ]);
    assert!(run(&mut vm, e).is_ok());
    assert_eq!(shown(vm.output()), "xz");
}

#[test]
fn making_an_instance_of_what_is_no_struct() {
    let mut vm = Vm::new();
    match run(&mut vm, make_point(vec![])) {
        Err(Error::StructNotFound(e)) => assert_eq!(e.name, "Point"),
        other => panic!("{:?}", other),
    }
    vm.set_ident(id("Point"), num(1.0));
    expect_mismatch(run(&mut vm, make_point(vec![])), "struct", Found::Type(Type::Int));
    let mut vm = Vm::new();
    assert!(run(&mut vm, point()).is_ok());
    let bad = Expr::CallStruct {
        name: "Point".to_string(),
        args: vec![(var("x"), number(1.0)), (number(2.0), number(3.0))],
    };
    expect_mismatch(run(&mut vm, bad), "ident", word("unknown"));
}

#[test]
fn reading_a_field() {
    let mut vm = Vm::new();
    assert!(run(&mut vm, point()).is_ok());
    assert!(run(&mut vm, assign("p", make_point(vec![("x", number(1.0))]))).is_ok());
    let attr = |n: &str, a: &str| Expr::GetAttr { name: n.to_string(), attr: a.to_string() };
    assert_eq!(run(&mut vm, attr("p", "x")), Ok(num(1.0)));
    match run(&mut vm, attr("p", "y")) {
        Err(Error::AttrNotFound(e)) => assert_eq!(e.attr_name, "y"),
        other => panic!("{:?}", other),
    }
    expect_mismatch(run(&mut vm, attr("missing", "x")), "struct", word("unknown"));
    expect_mismatch(run(&mut vm, attr("Point", "x")), "struct", word("unknown"));
}

fn method(of: &str, name: &str, params: &[&str], body: Expr) -> Expr {
    Expr::Impl {
        name_struct: of.to_string(),
        name_method: name.to_string(),
        args: params.iter().map(|p| var(p)).collect(),
        body: Box::new(body),
    }
}

fn invoke(instance: &str, name: &str, args: Vec<Expr>) -> Expr {
    Expr::GetFunc { name: instance.to_string(), func: name.to_string(), args }
}

#[test]
fn giving_a_struct_a_method() {
    let mut vm = Vm::new();
    assert!(run(&mut vm, point()).is_ok());
    assert_eq!(run(&mut vm, method("Point", "get", &["a"], number(1.0))), Ok(Value::Nil));
    assert_eq!(run(&mut vm, method("Point", "get", &[], number(2.0))), Ok(Value::Nil));
    assert_eq!(
        vm.get_ident(id("Point")),
        Some(&Value::DefStruct {
            name: "Point".to_string(),
            fields: vec![id("x"), id("y")],
            function: vec![(
                id("get"),
                Value::Function { name: "get".to_string(), args: vec![], body: number(2.0) }
            )],
        })
    );
    match run(&mut vm, method("Missing", "get", &[], Expr::Empty)) {
        Err(Error::StructNotFound(e)) => assert_eq!(e.name, "Missing"),
        other => panic!("{:?}", other),
    }
    vm.set_ident(id("n"), num(1.0));
    expect_mismatch(run(&mut vm, method("n", "get", &[], Expr::Empty)), "struct", word("unknown"));
    let bad = Expr::Impl {
        name_struct: "Point".to_string(),
        name_method: "bad".to_string(),
        args: vec![number(1.0)],
        body: Box::new(Expr::Empty),
    };
    expect_mismatch(run(&mut vm, bad), "ident", word("unknown"));
}

#[test]
fn a_method_sees_the_instance_as_self() {
    let mut vm = Vm::new();
    assert!(run(&mut vm, point()).is_ok());
    assert!(run(&mut vm, method("Point", "me", &[], var("self"))).is_ok());
    assert!(run(&mut vm, assign("p", make_point(vec![("x", number(1.0))]))).is_ok());
    assert_eq!(
        run(&mut vm, invoke("p", "me", vec![])),
        Ok(Value::CallStruct { name: "Point".to_string(), fields: vec![(id("x"), num(1.0))] })
    );
}

#[test]
fn the_arguments_of_a_method_are_bound_to_the_declared_fields() {
    let mut vm = Vm::new();
    assert!(run(&mut vm, point()).is_ok());
    assert!(run(&mut vm, method("Point", "sum", &["a", "b"], binary(Op::Add, var("x"), var("y"))))
        .is_ok());
    assert!(run(&mut vm, method("Point", "first", &["a"], var("a"))).is_ok());
    assert!(run(&mut vm, method("Point", "second", &[], var("y"))).is_ok());
    assert!(run(&mut vm, assign("p", make_point(vec![]))).is_ok());
    assert_eq!(run(&mut vm, invoke("p", "sum", vec![number(3.0), number(4.0)])), Ok(num(7.0)));
    match run(&mut vm, invoke("p", "first", vec![number(3.0)])) {
        Err(Error::VarNotFound(e)) => assert_eq!(e.var_name, "a"),
        other => panic!("{:?}", other),
    }
    match run(&mut vm, invoke("p", "second", vec![number(3.0)])) {
        Err(Error::VarNotFound(e)) => assert_eq!(e.var_name, "y"),
        other => panic!("{:?}", other),
    }
    assert_eq!(
        run(&mut vm, invoke("p", "second", vec![number(3.0), number(4.0), number(5.0)])),
        Ok(num(4.0))
    );
}

#[test]
fn what_the_arguments_of_a_method_bind_is_dropped() {
    let mut vm = Vm::new();
    assert!(run(&mut vm, point()).is_ok());
    assert!(run(&mut vm, method("Point", "x", &[], var("x"))).is_ok());
    assert!(run(&mut vm, assign("p", make_point(vec![]))).is_ok());
    let arg = block(vec![
        assign("made", number(1.0)),
        call("print", vec![string("evaluated")]),
        var("made"),
    ]);
    assert_eq!(run(&mut vm, invoke("p", "x", vec![arg])), Ok(num(1.0)));
    assert!(!vm.is_bound(id("made")));
    assert_eq!(shown(vm.output()), "evaluated");
}

#[test]
fn calling_a_method_that_cannot_be_called() {
    let mut vm = Vm::new();
    assert!(run(&mut vm, point()).is_ok());
    assert!(run(&mut vm, assign("p", make_point(vec![]))).is_ok());
    match run(&mut vm, invoke("p", "missing", vec![var("not evaluated")])) {
        Err(Error::FunctionNotFound(e)) => assert_eq!(e.name, "missing"),
        other => panic!("{:?}", other),
    }
    expect_mismatch(run(&mut vm, invoke("missing", "m", vec![])), "struct", word("unknown"));
    expect_mismatch(run(&mut vm, invoke("Point", "m", vec![])), "struct", word("unknown"));
    vm.set_ident(
        id("orphan"),
        Value::CallStruct { name: "Gone".to_string(), fields: vec![] },
    );
    expect_mismatch(run(&mut vm, invoke("orphan", "m", vec![])), "struct", word("unknown"));
    vm.set_ident(
        id("Odd"),
        Value::DefStruct {
            name: "Odd".to_string(),
            fields: vec![],
            function: vec![(id("m"), num(1.0))],
        },
    );
    vm.set_ident(id("odd"), Value::CallStruct { name: "Odd".to_string(), fields: vec![] });
    expect_mismatch(run(&mut vm, invoke("odd", "m", vec![])), "function", word("unknown"));
    assert!(matches!(
        run(&mut vm, invoke("odd", "m", vec![var("missing")])),
        Err(Error::VarNotFound(_))
    ));
}

#[test]
fn a_match_evaluates_what_is_matched_once_for_each_case() {
    let mut vm = Vm::new();
    let m = Expr::Match {
        value: Box::new(call("print", vec![string("v")])),
        cases: vec![
            (call("print", vec![string("1")]), call("print", vec![string("a")])),
            (call("print", vec![string("2")]), call("print", vec![string("b")])),
        ],
    };
    assert_eq!(run(&mut vm, m), Ok(Value::Nil));
    assert_eq!(shown(vm.output()), "1va2vb");
}

#[test]
fn a_match_overlooks_a_failing_pattern_but_not_a_failing_value_or_body() {
    let mut vm = Vm::new();
    let m = Expr::Match {
        value: Box::new(number(1.0)),
        cases: vec![(var("missing"), string("reached"))],
    };
    assert_eq!(run(&mut vm, m), Ok(text("reached")));
    let m = Expr::Match {
        value: Box::new(var("missing")),
        cases: vec![(number(1.0), string("not reached"))],
    };
    match run(&mut vm, m) {
        Err(Error::VarNotFound(e)) => assert_eq!(e.var_name, "missing"),
        other => panic!("{:?}", other),
    }
    let m = Expr::Match {
        value: Box::new(number(1.0)),
        cases: vec![(number(1.0), var("gone")), (number(2.0), string("not reached"))],
    };
    match run(&mut vm, m) {
        Err(Error::VarNotFound(e)) => assert_eq!(e.var_name, "gone"),
        other => panic!("{:?}", other),
    }
}

#[test]
fn what_a_pattern_or_the_matched_expression_binds_stays() {
    let mut vm = Vm::new();
    let m = Expr::Match {
        value: Box::new(Expr::Empty),
        cases: vec![(assign("from_pattern", number(1.0)), Expr::Empty)],
    };
    assert_eq!(run(&mut vm, m), Ok(Value::Nil));
    assert!(vm.is_bound(id("from_pattern")));
}

#[test]
fn evaluation_on_bare_bindings() {
    let mut env: Vec<(Ident, Value)> = vec![(id("x"), num(2.0))];
    let mut out = Text::new();
    let e = block(vec![call("println", vec![var("x")]), assign("y", var("x")), var("y")]);
    assert_eq!(evaluate(&e, &mut env, &mut out, 10, &arithmetic), Ok(num(2.0)));
    assert_eq!(env, vec![(id("x"), num(2.0)), (id("y"), num(2.0))]);
    assert_eq!(shown(&out), "2\n");
}

#[test]
fn the_machine_binds_and_looks_up() {
    let mut vm = Vm::new();
    assert!(!vm.is_bound(id("x")));
    assert_eq!(vm.get_ident(id("x")), None);
    vm.set_ident(id("x"), num(1.0));
    assert!(vm.is_bound(id("x")));
    assert_eq!(vm.get_ident(id("x")), Some(&num(1.0)));
    vm.set_ident(id("x"), text("again"));
    assert_eq!(vm.get_ident(id("x")), Some(&text("again")));
    vm.set_ident(id("print"), num(1.0));
    assert_eq!(run(&mut vm, call("print", vec![string("still the builtin")])), Ok(Value::Nil));
    assert_eq!(shown(vm.output()), "still the builtin");
    let copy = vm.clone();
    assert_eq!(copy.get_ident(id("x")), Some(&text("again")));
    assert_eq!(shown(copy.output()), "still the builtin");
}
