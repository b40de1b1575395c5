use executer::error::{Error, Found};
use executer::expr::{Expr, Op};
use executer::number::Operation;
use executer::operators::{binary_op, is_defined_on};
use executer::table::{contains_key, find, get, put};
use executer::text::{Piece, Text};
use executer::value::{Ident, Type, Value, Var};

fn arithmetic(q: Operation) -> u64 {
    let r = match q {
        Operation::Add(a, b) => f64::from_bits(a) + f64::from_bits(b),
        Operation::Sub(a, b) => f64::from_bits(a) - f64::from_bits(b),
        Operation::Mul(a, b) => f64::from_bits(a) * f64::from_bits(b),
        Operation::Div(a, b) => f64::from_bits(a) / f64::from_bits(b),
        Operation::Rem(a, b) => f64::from_bits(a) % f64::from_bits(b),
        Operation::FromInteger(i) => i as f64,
    };
    if r.is_nan() {
        f64::NAN.to_bits()
    } else {
        r.to_bits()
    }
}

fn num(x: f64) -> Value {
    Value::Number(x.to_bits())
}

fn text(s: &str) -> Value {
    Value::String(s.to_string())
}

fn id(s: &str) -> Ident {
    Ident(s.to_string())
}

fn shown(text: &Text) -> String {
    let mut s = String::new();
    for piece in &text.pieces {
        match piece {
            Piece::Chars(c) => s.push_str(c),
            Piece::Number(n) => s.push_str(&format!("{}", f64::from_bits(*n))),
        }
    }
    s
}

fn function() -> Value {
    Value::Function { name: "f".to_string(), args: vec![id("a")], body: Expr::Empty }
}

fn definition() -> Value {
    Value::DefStruct { name: "Point".to_string(), fields: vec![id("x"), id("y")], function: vec![] }
}

fn instance() -> Value {
    Value::CallStruct { name: "Point".to_string(), fields: vec![(id("x"), num(1.0))] }
}

#[test]
fn arithmetic_on_two_numbers() {
    assert_eq!(num(1.5).add(&num(2.25), &arithmetic), Ok(num(3.75)));
    assert_eq!(num(1.5).sub(&num(2.25), &arithmetic), Ok(num(-0.75)));
    assert_eq!(num(1.5).mul(&num(2.0), &arithmetic), Ok(num(3.0)));
    assert_eq!(num(1.0).div(&num(4.0), &arithmetic), Ok(num(0.25)));
    assert_eq!(num(7.5).modulo(&num(2.0), &arithmetic), Ok(num(1.5)));
    assert_eq!(num(-7.0).modulo(&num(2.0), &arithmetic), Ok(num(-1.0)));
    assert_eq!(num(1.0).div(&num(0.0), &arithmetic), Ok(num(f64::INFINITY)));
    assert_eq!(num(0.1).add(&num(0.2), &arithmetic), Ok(num(0.1 + 0.2)));
}

#[test]
fn arithmetic_refuses_what_is_no_pair_of_numbers() {
    match num(1.0).add(&text("x"), &arithmetic) {
        Err(Error::CannotAdd(e)) => {
            assert_eq!(shown(&e.left), "1");
            assert_eq!(shown(&e.right), "x");
        }
        other => panic!("{:?}", other),
    }
    match text("a").sub(&Value::Bool(true), &arithmetic) {
        Err(Error::CannotSub(e)) => {
            assert_eq!(shown(&e.left), "a");
            assert_eq!(shown(&e.right), "true");
        }
        other => panic!("{:?}", other),
    }
    match Value::Nil.mul(&num(2.5), &arithmetic) {
        Err(Error::CannotMul(e)) => {
            assert_eq!(shown(&e.left), "None");
            assert_eq!(shown(&e.right), "2.5");
        }
        other => panic!("{:?}", other),
    }
    match Value::List(vec![num(1.0), num(2.0)]).div(&function(), &arithmetic) {
        Err(Error::CannotDiv(e)) => {
            assert_eq!(shown(&e.left), "[1, 2]");
            assert_eq!(shown(&e.right), "function");
        }
        other => panic!("{:?}", other),
    }
    match (Value::Range(0..3)).modulo(&Value::Bool(false), &arithmetic) {
        Err(Error::CannotMod(e)) => {
            assert_eq!(shown(&e.left), "range");
            assert_eq!(shown(&e.right), "false");
        }
        other => panic!("{:?}", other),
    }
}

#[test]
fn equality_on_numbers_strings_and_truth_values() {
    assert_eq!(num(1.0).eq(&num(1.0)), Ok(Value::Bool(true)));
    assert_eq!(num(1.0).eq(&num(2.0)), Ok(Value::Bool(false)));
    assert_eq!(num(0.0).eq(&num(-0.0)), Ok(Value::Bool(true)));
    assert_eq!(num(f64::NAN).eq(&num(f64::NAN)), Ok(Value::Bool(false)));
    assert_eq!(num(f64::NAN).neq(&num(f64::NAN)), Ok(Value::Bool(true)));
    assert_eq!(num(1.0).neq(&num(2.0)), Ok(Value::Bool(true)));
    assert_eq!(num(2.0).neq(&num(2.0)), Ok(Value::Bool(false)));
    assert_eq!(text("a").eq(&text("a")), Ok(Value::Bool(true)));
    assert_eq!(text("a").eq(&text("b")), Ok(Value::Bool(false)));
    assert_eq!(text("a").neq(&text("b")), Ok(Value::Bool(true)));
    assert_eq!(text("a").neq(&text("a")), Ok(Value::Bool(false)));
    assert_eq!(Value::Bool(true).eq(&Value::Bool(true)), Ok(Value::Bool(true)));
    assert_eq!(Value::Bool(true).eq(&Value::Bool(false)), Ok(Value::Bool(false)));
    assert_eq!(Value::Bool(true).neq(&Value::Bool(false)), Ok(Value::Bool(true)));
    assert_eq!(Value::Bool(false).neq(&Value::Bool(false)), Ok(Value::Bool(false)));
}

#[test]
fn equality_refuses_mixed_kinds() {
    match num(1.0).eq(&text("1")) {
        Err(Error::CannotCompare(e)) => {
            assert_eq!(shown(&e.left), "1");
            assert_eq!(shown(&e.right), "1");
        }
        other => panic!("{:?}", other),
    }
    assert!(matches!(text("a").neq(&Value::Bool(true)), Err(Error::CannotCompare(_))));
    assert!(matches!(Value::Nil.eq(&Value::Nil), Err(Error::CannotCompare(_))));
    assert!(matches!(
        Value::List(vec![]).eq(&Value::List(vec![])),
        Err(Error::CannotCompare(_))
    ));
}

#[test]
fn ordering_on_numbers_only() {
    assert_eq!(num(2.0).gt(&num(1.0)), Ok(Value::Bool(true)));
    assert_eq!(num(1.0).gt(&num(1.0)), Ok(Value::Bool(false)));
    assert_eq!(num(1.0).lt(&num(2.0)), Ok(Value::Bool(true)));
    assert_eq!(num(2.0).lt(&num(1.0)), Ok(Value::Bool(false)));
    assert_eq!(num(1.0).ge(&num(1.0)), Ok(Value::Bool(true)));
    assert_eq!(num(0.5).ge(&num(1.0)), Ok(Value::Bool(false)));
    assert_eq!(num(1.0).le(&num(1.0)), Ok(Value::Bool(true)));
    assert_eq!(num(1.5).le(&num(1.0)), Ok(Value::Bool(false)));
    assert_eq!(num(-1.0).lt(&num(-0.5)), Ok(Value::Bool(true)));
    assert_eq!(num(f64::NAN).ge(&num(1.0)), Ok(Value::Bool(false)));
    assert_eq!(num(f64::NAN).le(&num(1.0)), Ok(Value::Bool(false)));
    match text("a").lt(&text("b")) {
        Err(Error::CannotCompare(e)) => {
            assert_eq!(shown(&e.left), "a");
            assert_eq!(shown(&e.right), "b");
        }
        other => panic!("{:?}", other),
    }
    assert!(matches!(num(1.0).gt(&Value::Bool(true)), Err(Error::CannotCompare(_))));
    assert!(matches!(Value::Bool(true).ge(&Value::Bool(true)), Err(Error::CannotCompare(_))));
    assert!(matches!(Value::Nil.le(&num(1.0)), Err(Error::CannotCompare(_))));
}

#[test]
fn connectives_on_truth_values_only() {
    for a in [false, true] {
        for b in [false, true] {
            assert_eq!(Value::Bool(a).and(&Value::Bool(b)), Ok(Value::Bool(a && b)));
            assert_eq!(Value::Bool(a).or(&Value::Bool(b)), Ok(Value::Bool(a || b)));
        }
    }
    match num(1.0).and(&Value::Bool(true)) {
        Err(Error::CannotCompare(e)) => {
            assert_eq!(shown(&e.left), "1");
            assert_eq!(shown(&e.right), "true");
        }
        other => panic!("{:?}", other),
    }
    assert!(matches!(Value::Bool(true).or(&num(0.0)), Err(Error::CannotCompare(_))));
}

#[test]
fn any_operator_on_any_values() {
    assert_eq!(binary_op(Op::Add, &num(2.0), &num(3.0), &arithmetic), Ok(num(5.0)));
    assert_eq!(binary_op(Op::Sub, &num(2.0), &num(3.0), &arithmetic), Ok(num(-1.0)));
    assert_eq!(binary_op(Op::Mul, &num(2.0), &num(3.0), &arithmetic), Ok(num(6.0)));
    assert_eq!(binary_op(Op::Div, &num(3.0), &num(2.0), &arithmetic), Ok(num(1.5)));
    assert_eq!(binary_op(Op::Mod, &num(3.0), &num(2.0), &arithmetic), Ok(num(1.0)));
    assert_eq!(binary_op(Op::Eq, &text("a"), &text("a"), &arithmetic), Ok(Value::Bool(true)));
    assert_eq!(binary_op(Op::Neq, &text("a"), &text("a"), &arithmetic), Ok(Value::Bool(false)));
    assert_eq!(binary_op(Op::Gt, &num(3.0), &num(2.0), &arithmetic), Ok(Value::Bool(true)));
    assert_eq!(binary_op(Op::Lt, &num(3.0), &num(2.0), &arithmetic), Ok(Value::Bool(false)));
    assert_eq!(binary_op(Op::Ge, &num(2.0), &num(2.0), &arithmetic), Ok(Value::Bool(true)));
    assert_eq!(binary_op(Op::Le, &num(3.0), &num(2.0), &arithmetic), Ok(Value::Bool(false)));
    assert_eq!(
        binary_op(Op::And, &Value::Bool(true), &Value::Bool(false), &arithmetic),
        Ok(Value::Bool(false))
    );
    assert_eq!(
        binary_op(Op::Or, &Value::Bool(true), &Value::Bool(false), &arithmetic),
        Ok(Value::Bool(true))
    );
    assert!(matches!(
        binary_op(Op::Add, &text("x"), &num(1.0), &arithmetic),
        Err(Error::CannotAdd(_))
    ));
}

#[test]
fn an_operand_without_rendering_is_reported() {
    match binary_op(Op::Add, &instance(), &num(1.0), &arithmetic) {
        Err(Error::CannotDisplay(e)) => assert_eq!(e.found, Type::FieldStruct("Point".to_string())),
        other => panic!("{:?}", other),
    }
    match binary_op(Op::Eq, &num(1.0), &definition(), &arithmetic) {
        Err(Error::CannotDisplay(e)) => assert_eq!(e.found, Type::Struct("Point".to_string())),
        other => panic!("{:?}", other),
    }
    match binary_op(Op::And, &definition(), &instance(), &arithmetic) {
        Err(Error::CannotDisplay(e)) => assert_eq!(e.found, Type::Struct("Point".to_string())),
        other => panic!("{:?}", other),
    }
}

#[test]
fn where_an_operator_is_defined() {
    assert!(is_defined_on(Op::Add, &num(1.0), &num(2.0)));
    assert!(!is_defined_on(Op::Add, &text("a"), &text("b")));
    assert!(is_defined_on(Op::Eq, &text("a"), &text("b")));
    assert!(is_defined_on(Op::Neq, &Value::Bool(true), &Value::Bool(true)));
    assert!(!is_defined_on(Op::Eq, &num(1.0), &text("b")));
    assert!(!is_defined_on(Op::Lt, &text("a"), &text("b")));
    assert!(is_defined_on(Op::Or, &Value::Bool(true), &Value::Bool(true)));
    assert!(!is_defined_on(Op::And, &num(1.0), &num(1.0)));
}

#[test]
fn rendering_of_each_kind_of_value() {
    assert_eq!(shown(&num(1.0).display_value()), "1");
    assert_eq!(shown(&num(-2.5).display_value()), "-2.5");
    assert_eq!(shown(&num(0.1).display_value()), "0.1");
    assert_eq!(shown(&text("hello, world").display_value()), "hello, world");
    assert_eq!(shown(&text("").display_value()), "");
    assert_eq!(shown(&Value::Bool(true).display_value()), "true");
    assert_eq!(shown(&Value::Bool(false).display_value()), "false");
    assert_eq!(shown(&function().display_value()), "function");
    assert_eq!(shown(&(Value::Range(1..5)).display_value()), "range");
    assert_eq!(shown(&Value::Nil.display_value()), "None");
}

#[test]
fn rendering_of_lists() {
    assert_eq!(shown(&Value::List(vec![]).display_value()), "[]");
    assert_eq!(shown(&Value::List(vec![num(1.0)]).display_value()), "[1]");
    assert_eq!(
        shown(&Value::List(vec![num(1.0), text("a"), Value::Bool(true)]).display_value()),
        "[1, a, true]"
    );
    let nested = Value::List(vec![
        Value::List(vec![num(1.0), num(2.0)]),
        Value::List(vec![]),
        Value::Nil,
    ]);
    assert_eq!(shown(&nested.display_value()), "[[1, 2], [], None]");
}

#[test]
fn rendering_keeps_a_number_as_a_piece_of_its_own() {
    let text = Value::List(vec![num(1.5), num(2.0)]).display_value();
    assert_eq!(
        text.pieces,
        vec![
            Piece::Chars("[".to_string()),
            Piece::Number(1.5f64.to_bits()),
            Piece::Chars(", ".to_string()),
            Piece::Number(2.0f64.to_bits()),
            Piece::Chars("]".to_string()),
        ]
    );
}

#[test]
fn structs_and_enums_have_no_rendering() {
    assert!(definition().rendered().is_none());
    assert!(instance().rendered().is_none());
    assert!((Value::Enum { variants: vec!["A".to_string()] }).rendered().is_none());
    assert!((Value::EnumCall { name: "E".to_string(), field: "A".to_string() })
        .rendered()
        .is_none());
    assert!(Value::List(vec![num(1.0), instance()]).rendered().is_none());
    assert!(Value::List(vec![Value::List(vec![definition()])]).rendered().is_none());
    assert_eq!(num(1.0).rendered().map(|t| shown(&t)), Some("1".to_string()));
}

#[test]
fn type_of_each_kind_of_value() {
    assert_eq!(num(1.0).get_type(), Type::Int);
    assert_eq!(text("a").get_type(), Type::String);
    assert_eq!(Value::Bool(true).get_type(), Type::Bool);
    assert_eq!(function().get_type(), Type::Func);
    assert_eq!(Value::List(vec![]).get_type(), Type::List);
    assert_eq!((Value::Range(0..1)).get_type(), Type::Range);
    assert_eq!(instance().get_type(), Type::FieldStruct("Point".to_string()));
    assert_eq!(definition().get_type(), Type::Struct("Point".to_string()));
    assert_eq!(Value::Nil.get_type(), Type::Nil);
    assert_eq!((Value::Enum { variants: vec![] }).get_type(), Type::Enum);
    assert_eq!(
        (Value::EnumCall { name: "Color".to_string(), field: "Red".to_string() }).get_type(),
        Type::FieldEnum("Color".to_string())
    );
}

#[test]
fn copies_are_equal_to_what_they_copy() {
    let values = vec![
        num(1.0),
        text("a"),
        Value::Bool(true),
        function(),
        definition(),
        instance(),
        Value::List(vec![num(1.0), Value::List(vec![text("b")])]),
        Value::Range(-1..4),
        Value::Enum { variants: vec!["A".to_string(), "B".to_string()] },
        Value::EnumCall { name: "E".to_string(), field: "A".to_string() },
        Value::Nil,
    ];
    for v in &values {
        assert_eq!(&v.clone(), v);
    }
    assert_eq!(id("x").clone(), id("x"));
    assert_eq!(Type::Struct("S".to_string()).clone(), Type::Struct("S".to_string()));
}

#[test]
fn a_variable_record_holds_what_it_is_given() {
    let v = Var { value: num(1.0), mutable: true, type_: Type::Int };
    assert_eq!(v.value, num(1.0));
    assert!(v.mutable);
    assert_eq!(v.type_, Type::Int);
    assert_eq!(v.clone(), v);
}

#[test]
fn a_table_answers_as_a_mapping() {
    let mut t: Vec<(Ident, Value)> = Vec::new();
    assert_eq!(find(&t, &"x".to_string()), None);
    assert!(!contains_key(&t, &"x".to_string()));
    put(&mut t, id("x"), num(1.0));
    put(&mut t, id("y"), num(2.0));
    assert_eq!(get(&t, &"x".to_string()), Some(&num(1.0)));
    assert_eq!(get(&t, &"y".to_string()), Some(&num(2.0)));
    assert_eq!(get(&t, &"z".to_string()), None);
    put(&mut t, id("x"), num(3.0));
    assert_eq!(get(&t, &"x".to_string()), Some(&num(3.0)));
    assert_eq!(get(&t, &"y".to_string()), Some(&num(2.0)));
    assert_eq!(t.len(), 2);
    assert_eq!(find(&t, &"x".to_string()), Some(0));
    assert_eq!(find(&t, &"y".to_string()), Some(1));
    assert!(contains_key(&t, &"y".to_string()));
}

#[test]
fn of_two_entries_with_one_name_the_first_counts() {
    let t = vec![(id("x"), num(1.0)), (id("x"), num(2.0))];
    assert_eq!(get(&t, &"x".to_string()), Some(&num(1.0)));
    assert_eq!(find(&t, &"x".to_string()), Some(0));
}

#[test]
fn texts_are_built_piece_by_piece() {
    let mut t = Text::new();
    assert!(t.pieces.is_empty());
    t.push_chars("a");
    t.append(&Text::of_number(2.0f64.to_bits()));
    t.append(&Text::of_chars("b"));
    assert_eq!(
        t.pieces,
        vec![
            Piece::Chars("a".to_string()),
            Piece::Number(2.0f64.to_bits()),
            Piece::Chars("b".to_string()),
        ]
    );
    assert_eq!(t.clone(), t);
    assert_eq!(shown(&t), "a2b");
}

#[test]
fn mismatch_errors_hold_what_was_found() {
    match Error::mismatch("bool", Type::Int) {
        Error::TypeMismatch(e) => {
            assert_eq!(e.expected, "bool");
            assert_eq!(e.found, Found::Type(Type::Int));
        }
        other => panic!("{:?}", other),
    }
    let e = Error::mismatch("list", Type::Struct("S".to_string()));
    assert_eq!(e.clone(), e);
    match Error::misplaced("ident", "unknown") {
        Error::TypeMismatch(e) => {
            assert_eq!(e.expected, "ident");
            assert_eq!(e.found, Found::Word("unknown".to_string()));
        }
        other => panic!("{:?}", other),
    }
}

#[test]
fn a_text_is_flattened_piece_by_piece() {
    let digits = |bits: u64| format!("{}", f64::from_bits(bits));
    let mut t = Text::new();
    assert_eq!(t.flatten(&digits), "");
    t.push_chars("x = ");
    t.append(&Text::of_number(0.1f64.to_bits()));
    t.push_chars("");
    t.append(&Text::of_number((-2.0f64).to_bits()));
    t.push_chars("!");
    assert_eq!(t.flatten(&digits), "x = 0.1-2!");
    assert_eq!(
        t.flatten(&|bits: u64| format!("<{:x}>", bits)),
        "x = <3fb999999999999a><c000000000000000>!"
    );
    assert_eq!(shown(&t), t.flatten(&digits));
}
