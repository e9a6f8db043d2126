//! The type of the value an expression evaluates to, where its form gives it away.

use vstd::prelude::*;
use crate::ast::{AssignOp, BinaryOp, Expr, Lit, UnaryOp};
use crate::model::{ExprV, LitV};
use crate::text::str_eq;
use crate::value::{and, can_be_str, may_be_str, unified, Type, Value};
use crate::view::lemma_expr_view;

verus! {

/// The type of what a binary operator other than `+`, `&&` and `||` gives.
pub open spec fn binary_type(op: BinaryOp) -> Type {
    match op {
        BinaryOp::EqEq | BinaryOp::NotEq | BinaryOp::EqEqEq | BinaryOp::NotEqEq | BinaryOp::Lt
        | BinaryOp::LtEq | BinaryOp::Gt | BinaryOp::GtEq | BinaryOp::In | BinaryOp::InstanceOf => {
            Type::Bool
        },
        _ => Type::Num,
    }
}

/// The type of what a unary operator gives.
pub open spec fn unary_type(op: UnaryOp) -> Type {
    match op {
        UnaryOp::Tilde | UnaryOp::Plus | UnaryOp::Minus => Type::Num,
        UnaryOp::Bang | UnaryOp::Delete => Type::Bool,
        UnaryOp::TypeOf => Type::Str,
        UnaryOp::Void => Type::Undefined,
    }
}

/// The type of the sum of two operands of the given types: a string where one
/// of them is one, unknown where an object takes part or one of them may be a
/// string, and a number otherwise.
pub open spec fn sum_type(lt: Value<Type>, rt: Value<Type>) -> Value<Type> {
    if rt == Value::Known(Type::Str) || lt == Value::Known(Type::Str) {
        Value::Known(Type::Str)
    } else if lt == Value::Known(Type::Obj) || rt == Value::Known(Type::Obj) {
        Value::Unknown
    } else if !can_be_str(lt) && !can_be_str(rt) {
        Value::Known(Type::Num)
    } else {
        Value::Unknown
    }
}

/// The type of the value `e` evaluates to.
pub open spec fn type_of(e: ExprV) -> Value<Type>
    decreases e,
{
    match e {
        ExprV::Assign { op: AssignOp::Assign, right, .. } => type_of(*right),
        ExprV::Assign { op: AssignOp::AddAssign, right, .. } => if type_of(*right) == Value::Known(
            Type::Str,
        ) {
            Value::Known(Type::Str)
        } else {
            Value::Unknown
        },
        ExprV::Assign { .. } => Value::Known(Type::Num),
        ExprV::Sequence { last, .. } => type_of(*last),
        ExprV::Bin { op: BinaryOp::LogicalAnd, left, right } => unified(
            type_of(*left),
            type_of(*right),
        ),
        ExprV::Bin { op: BinaryOp::LogicalOr, left, right } => unified(
            type_of(*left),
            type_of(*right),
        ),
        ExprV::Cond { cons, alt, .. } => unified(type_of(*cons), type_of(*alt)),
        ExprV::Bin { op: BinaryOp::Add, left, right } => sum_type(type_of(*left), type_of(*right)),
        ExprV::Bin { op, .. } => Value::Known(binary_type(op)),
        ExprV::Ident(i) => if i.sym == "undefined"@ {
            Value::Known(Type::Undefined)
        } else if i.sym == "NaN"@ || i.sym == "Infinity"@ {
            Value::Known(Type::Num)
        } else {
            Value::Unknown
        },
        ExprV::Lit(LitV::Num(_)) => Value::Known(Type::Num),
        ExprV::Lit(LitV::Bool(_)) => Value::Known(Type::Bool),
        ExprV::Lit(LitV::Str(_)) => Value::Known(Type::Str),
        ExprV::Lit(LitV::Null) => Value::Known(Type::Null),
        ExprV::Lit(LitV::Regex(_)) => Value::Known(Type::Obj),
        ExprV::Lit(LitV::BigInt(_)) => Value::Unknown,
        ExprV::Update { .. } => Value::Known(Type::Num),
        ExprV::Unary { op, .. } => Value::Known(unary_type(op)),
        ExprV::Tpl(_) => Value::Known(Type::Str),
        ExprV::Fn { .. } | ExprV::New { .. } | ExprV::Array(_) | ExprV::Object(_) => Value::Known(
            Type::Obj,
        ),
        _ => Value::Unknown,
    }
}

/// Computes [`binary_type`].
fn binary_type_impl(op: BinaryOp) -> (r: Type)
    ensures
        r == binary_type(op),
{
    match op {
        BinaryOp::EqEq | BinaryOp::NotEq | BinaryOp::EqEqEq | BinaryOp::NotEqEq | BinaryOp::Lt
        | BinaryOp::LtEq | BinaryOp::Gt | BinaryOp::GtEq | BinaryOp::In | BinaryOp::InstanceOf => {
            Type::Bool
        },
        _ => Type::Num,
    }
}

/// Computes [`unary_type`].
fn unary_type_impl(op: UnaryOp) -> (r: Type)
    ensures
        r == unary_type(op),
{
    match op {
        UnaryOp::Tilde | UnaryOp::Plus | UnaryOp::Minus => Type::Num,
        UnaryOp::Bang | UnaryOp::Delete => Type::Bool,
        UnaryOp::TypeOf => Type::Str,
        UnaryOp::Void => Type::Undefined,
    }
}

/// Whether the type is known to be `ty`.
fn known_to_be(v: Value<Type>, ty: Type) -> (r: bool)
    ensures
        r == (v == Value::Known(ty)),
{
    match v {
        Value::Known(t) => t == ty,
        Value::Unknown => false,
    }
}

/// Computes [`sum_type`].
fn sum_type_impl(lt: Value<Type>, rt: Value<Type>) -> (r: Value<Type>)
    ensures
        r == sum_type(lt, rt),
{
    if known_to_be(rt, Type::Str) || known_to_be(lt, Type::Str) {
        return Value::Known(Type::Str);
    }
    // There are some pretty weird cases for object types:
    //   {} + [] === "0"
    //   [] + {} ==== "[object Object]"
    if known_to_be(lt, Type::Obj) || known_to_be(rt, Type::Obj) {
        return Value::Unknown;
    }
    if !may_be_str(lt) && !may_be_str(rt) {
        // ADD used with combinations of null, undefined, boolean and number
        // always results in numbers.
        return Value::Known(Type::Num);
    }
    Value::Unknown
}

/// Infers the type of the value `e` evaluates to from the form of `e`.
pub fn get_type(e: &Expr) -> (r: Value<Type>)
    ensures
        r == type_of(e@),
    decreases e,
{
    proof {
        lemma_expr_view(*e);
    }
    match e {
        Expr::Assign { op: AssignOp::Assign, right, .. } => get_type(right),
        Expr::Assign { op: AssignOp::AddAssign, right, .. } => {
            if known_to_be(get_type(right), Type::Str) {
                Value::Known(Type::Str)
            } else {
                Value::Unknown
            }
        },
        Expr::Assign { .. } => Value::Known(Type::Num),
        Expr::Sequence { last, .. } => get_type(last),
        Expr::Bin { op: BinaryOp::LogicalAnd, left, right } => and(get_type(left), get_type(right)),
        Expr::Bin { op: BinaryOp::LogicalOr, left, right } => and(get_type(left), get_type(right)),
        Expr::Cond { cons, alt, .. } => and(get_type(cons), get_type(alt)),
        Expr::Bin { op: BinaryOp::Add, left, right } => {
            let rt = get_type(right);
            let lt = get_type(left);
            sum_type_impl(lt, rt)
        },
        Expr::Bin { op, .. } => Value::Known(binary_type_impl(*op)),
        Expr::Ident(i) => {
            if str_eq(i.sym.as_str(), "undefined") {
                Value::Known(Type::Undefined)
            } else if str_eq(i.sym.as_str(), "NaN") || str_eq(i.sym.as_str(), "Infinity") {
                Value::Known(Type::Num)
            } else {
                Value::Unknown
            }
        },
        Expr::Lit(Lit::Num(_)) => Value::Known(Type::Num),
        Expr::Lit(Lit::Bool(_)) => Value::Known(Type::Bool),
        Expr::Lit(Lit::Str(_)) => Value::Known(Type::Str),
        Expr::Lit(Lit::Null) => Value::Known(Type::Null),
        Expr::Lit(Lit::Regex(_)) => Value::Known(Type::Obj),
        Expr::Lit(Lit::BigInt(_)) => Value::Unknown,
        Expr::Update { .. } => Value::Known(Type::Num),
        Expr::Unary { op, .. } => Value::Known(unary_type_impl(*op)),
        Expr::Tpl(_) => Value::Known(Type::Str),
        Expr::Fn { .. } | Expr::New { .. } | Expr::Array(_) | Expr::Object(_) => Value::Known(
            Type::Obj,
        ),
        _ => Value::Unknown,
    }
}

/// Merging a type with itself gives it back; merging is symmetric.
pub proof fn lemma_unified(a: Value<Type>, b: Value<Type>)
    ensures
        unified(a, a) == a,
        unified(a, b) == unified(b, a),
        unified(a, b) is Known ==> a == b,
{
}

} // verus!
