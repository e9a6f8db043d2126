//! The passes on small scripts: coercions, side effects, dead code.

use ecma_simplify::ast::{
    Annotation, AssignOp, BinaryOp, BlockStmtOrExpr, CatchClause, Class, ClassMember, Decl, Expr,
    ExprOrSpread, ExprOrSuper, Function, Ident, Lit, MemberProp, MethodKind, Module, ModuleDecl,
    ModuleItem, Number, ObjectPatProp,
    Pat, PatOrExpr, Prop, PropName, PropOrSpread, Regex, Stmt, Str, SwitchCase, Tpl, TplElement,
    TsCast, UnaryOp, UpdateOp, VarDecl, VarDeclKind, VarDeclOrExpr, VarDeclOrPat, VarDeclarator,
};
use ecma_simplify::coerce::{
    as_bool, as_number, as_pure_bool, as_string, count_digits, decimal_numeral, num_from_str,
};
use ecma_simplify::rounding::whole_bits_impl;
use ecma_simplify::copy::copy_stmts;
use ecma_simplify::dce::{dce, dce_module, dce_with_scope};
use ecma_simplify::effects::{ignore_result, preserve_effects, undefined};
use ecma_simplify::expr_ext::ExprExt;
use ecma_simplify::ident::{alias_ident_for, alias_if_required, id, is_valid_ident, IdentExt};
use ecma_simplify::inline_vars::{
    find_constants, inline_vars, is_constant_name_impl, worth_inlining_impl, InlineConfig,
};
use ecma_simplify::literal::{calc_literal_cost, is_literal};
use ecma_simplify::number::{
    infinite, integral, nan, to_int32, zero, Numeral, INFINITY, NAN, NEG_INFINITY, ONE, ZERO,
};
use ecma_simplify::options::{Config, Exports, Rule};
use ecma_simplify::same::same_stmts;
use ecma_simplify::occurs::collect_stmts;
use ecma_simplify::probe::{contains_ident_ref, contains_this_expr, has_rest_pat, UsageFinder};
use ecma_simplify::props::{default_constructor, prop_name_eq, prop_name_to_expr, prop_name_to_expr_value};
use ecma_simplify::purity::{is_pure_callee_impl, may_have_side_effects_impl};
use ecma_simplify::scope::{scope_of, tracked_scope_of, Scope, Scopes, VarInfo};
use ecma_simplify::shape::{is_immutable_value_impl, is_rest_arguments_impl};
use ecma_simplify::simplify::{simplify_pat, simplify_stmt};
use ecma_simplify::stmt_like::{
    prepend, prepend_stmts, EndsWithRet, IsDirective, IsEmpty, ModuleItemLike, StmtLike,
};
use ecma_simplify::text::{holds_text_impl, stands_at_impl, str_eq, trim};
use ecma_simplify::types::get_type;
use ecma_simplify::usage::{annotation_of, Mark, Occurrence};
use ecma_simplify::value::{and, may_be_str, Purity, Type, Value};
use swc_common::comments::{Comments, SingleThreadedComments};
use swc_common::BytePos;
use swc_ecma_ast as swc;
use swc_ecma_parser::{Parser, StringInput, Syntax};

type Notes = SingleThreadedComments;

type Res<T> = Result<T, String>;

fn unsupported<T>(what: &str) -> Res<T> {
    Err(format!("the tree holds {}, which the passes do not take", what))
}

fn ident(i: &swc::Ident) -> Ident {
    Ident { sym: i.sym.to_string(), ctxt: i.ctxt.as_u32() }
}

fn ident_name(i: &swc::IdentName) -> Ident {
    Ident { sym: i.sym.to_string(), ctxt: 0 }
}

fn number(n: &swc::Number) -> Number {
    let text = if n.value.is_infinite() {
        if n.value > 0.0 { "Infinity".to_string() } else { "-Infinity".to_string() }
    } else {
        format!("{}", n.value)
    };
    Number { bits: n.value.to_bits(), text }
}

fn string(s: &swc::Str) -> Str {
    let has_escape = match &s.raw {
        Some(raw) => raw.contains('\\'),
        None => false,
    };
    Str { value: s.value.to_string_lossy().into_owned(), has_escape }
}

fn lit(l: &swc::Lit) -> Res<Lit> {
    Ok(match l {
        swc::Lit::Str(s) => Lit::Str(string(s)),
        swc::Lit::Bool(b) => Lit::Bool(b.value),
        swc::Lit::Null(_) => Lit::Null,
        swc::Lit::Num(n) => Lit::Num(number(n)),
        swc::Lit::BigInt(b) => Lit::BigInt(b.value.to_string()),
        swc::Lit::Regex(r) => Lit::Regex(Regex { exp: r.exp.to_string(), flags: r.flags.to_string() }),
        swc::Lit::JSXText(_) => return unsupported("JSX"),
    })
}

fn unary_op(op: swc::UnaryOp) -> UnaryOp {
    match op {
        swc::UnaryOp::Minus => UnaryOp::Minus,
        swc::UnaryOp::Plus => UnaryOp::Plus,
        swc::UnaryOp::Bang => UnaryOp::Bang,
        swc::UnaryOp::Tilde => UnaryOp::Tilde,
        swc::UnaryOp::TypeOf => UnaryOp::TypeOf,
        swc::UnaryOp::Void => UnaryOp::Void,
        swc::UnaryOp::Delete => UnaryOp::Delete,
    }
}

fn binary_op(op: swc::BinaryOp) -> Res<BinaryOp> {
    Ok(match op {
        swc::BinaryOp::EqEq => BinaryOp::EqEq,
        swc::BinaryOp::NotEq => BinaryOp::NotEq,
        swc::BinaryOp::EqEqEq => BinaryOp::EqEqEq,
        swc::BinaryOp::NotEqEq => BinaryOp::NotEqEq,
        swc::BinaryOp::Lt => BinaryOp::Lt,
        swc::BinaryOp::LtEq => BinaryOp::LtEq,
        swc::BinaryOp::Gt => BinaryOp::Gt,
        swc::BinaryOp::GtEq => BinaryOp::GtEq,
        swc::BinaryOp::LShift => BinaryOp::LShift,
        swc::BinaryOp::RShift => BinaryOp::RShift,
        swc::BinaryOp::ZeroFillRShift => BinaryOp::ZeroFillRShift,
        swc::BinaryOp::Add => BinaryOp::Add,
        swc::BinaryOp::Sub => BinaryOp::Sub,
        swc::BinaryOp::Mul => BinaryOp::Mul,
        swc::BinaryOp::Div => BinaryOp::Div,
        swc::BinaryOp::Mod => BinaryOp::Mod,
        swc::BinaryOp::BitOr => BinaryOp::BitOr,
        swc::BinaryOp::BitXor => BinaryOp::BitXor,
        swc::BinaryOp::BitAnd => BinaryOp::BitAnd,
        swc::BinaryOp::LogicalOr => BinaryOp::LogicalOr,
        swc::BinaryOp::LogicalAnd => BinaryOp::LogicalAnd,
        swc::BinaryOp::In => BinaryOp::In,
        swc::BinaryOp::InstanceOf => BinaryOp::InstanceOf,
        swc::BinaryOp::Exp => BinaryOp::Exp,
        swc::BinaryOp::NullishCoalescing => return unsupported("`??`"),
    })
}

fn assign_op(op: swc::AssignOp) -> Res<AssignOp> {
    Ok(match op {
        swc::AssignOp::Assign => AssignOp::Assign,
        swc::AssignOp::AddAssign => AssignOp::AddAssign,
        swc::AssignOp::SubAssign => AssignOp::SubAssign,
        swc::AssignOp::MulAssign => AssignOp::MulAssign,
        swc::AssignOp::DivAssign => AssignOp::DivAssign,
        swc::AssignOp::ModAssign => AssignOp::ModAssign,
        swc::AssignOp::LShiftAssign => AssignOp::LShiftAssign,
        swc::AssignOp::RShiftAssign => AssignOp::RShiftAssign,
        swc::AssignOp::ZeroFillRShiftAssign => AssignOp::ZeroFillRShiftAssign,
        swc::AssignOp::BitOrAssign => AssignOp::BitOrAssign,
        swc::AssignOp::BitXorAssign => AssignOp::BitXorAssign,
        swc::AssignOp::BitAndAssign => AssignOp::BitAndAssign,
        swc::AssignOp::ExpAssign => AssignOp::ExpAssign,
        _ => return unsupported("a logical assignment"),
    })
}

fn exprs(notes: &Notes, v: &[Box<swc::Expr>]) -> Res<Vec<Expr>> {
    v.iter().map(|e| expr(notes, e)).collect()
}

fn boxed(notes: &Notes, e: &swc::Expr) -> Res<Box<Expr>> {
    Ok(Box::new(expr(notes, e)?))
}

fn args(notes: &Notes, v: &[swc::ExprOrSpread]) -> Res<Vec<ExprOrSpread>> {
    v.iter().map(|x| expr_or_spread(notes, x)).collect()
}

fn expr_or_spread(notes: &Notes, e: &swc::ExprOrSpread) -> Res<ExprOrSpread> {
    Ok(ExprOrSpread { spread: e.spread.is_some(), expr: expr(notes, &e.expr)? })
}

fn stmts(notes: &Notes, v: &[swc::Stmt]) -> Res<Vec<Stmt>> {
    v.iter().map(|x| stmt(notes, x)).collect()
}

fn pats(notes: &Notes, v: &[swc::Param]) -> Res<Vec<Pat>> {
    v.iter().map(|p| pat(notes, &p.pat)).collect()
}

fn tpl(notes: &Notes, t: &swc::Tpl) -> Res<Tpl> {
    let quasis = t
        .quasis
        .iter()
        .map(|q| TplElement {
            tail: q.tail,
            cooked: q.cooked.as_ref().map(|c| c.to_string_lossy().into_owned()),
            raw: q.raw.to_string(),
        })
        .collect();
    Ok(Tpl { exprs: exprs(notes, &t.exprs)?, quasis })
}

fn function(notes: &Notes, f: &swc::Function) -> Res<Function> {
    let body = match &f.body {
        Some(b) => Some(stmts(notes, &b.stmts)?),
        None => None,
    };
    Ok(Function { params: pats(notes, &f.params)?, body, is_generator: f.is_generator, is_async: f.is_async })
}

fn prop_name(notes: &Notes, k: &swc::PropName) -> Res<PropName> {
    Ok(match k {
        swc::PropName::Ident(i) => PropName::Ident(ident_name(i)),
        swc::PropName::Str(s) => PropName::Str(string(s)),
        swc::PropName::Num(n) => PropName::Num(number(n)),
        swc::PropName::Computed(c) => PropName::Computed(boxed(notes, &c.expr)?),
        swc::PropName::BigInt(_) => return unsupported("a big integer as a key"),
    })
}

fn member_prop(notes: &Notes, p: &swc::MemberProp) -> Res<MemberProp> {
    Ok(match p {
        swc::MemberProp::Ident(i) => MemberProp::Ident(ident_name(i)),
        swc::MemberProp::Computed(c) => MemberProp::Computed(boxed(notes, &c.expr)?),
        swc::MemberProp::PrivateName(_) => return unsupported("a private member"),
    })
}

fn member(notes: &Notes, m: &swc::MemberExpr) -> Res<Expr> {
    Ok(Expr::Member { obj: ExprOrSuper::Expr(boxed(notes, &m.obj)?), prop: member_prop(notes, &m.prop)? })
}

fn prop(notes: &Notes, p: &swc::Prop) -> Res<Prop> {
    Ok(match p {
        swc::Prop::Shorthand(i) => Prop::Shorthand(ident(i)),
        swc::Prop::KeyValue(kv) => Prop::KeyValue { key: prop_name(notes, &kv.key)?, value: boxed(notes, &kv.value)? },
        swc::Prop::Assign(_) => return unsupported("a default in an object literal"),
        swc::Prop::Getter(g) => Prop::Getter { key: prop_name(notes, &g.key)?, body: function(notes, &g.function)?.body },
        swc::Prop::Setter(s) => {
            let f = function(notes, &s.function)?;
            let mut params = f.params;
            if params.len() != 1 {
                return unsupported("a setter that does not take one parameter");
            }
            Prop::Setter { key: prop_name(notes, &s.key)?, param: params.remove(0), body: f.body }
        },
        swc::Prop::Method(m) => Prop::Method { key: prop_name(notes, &m.key)?, function: function(notes, &m.function)? },
    })
}

fn class(notes: &Notes, c: &swc::Class) -> Res<Class> {
    let super_class = match &c.super_class {
        Some(e) => Some(boxed(notes, e)?),
        None => None,
    };
    let mut body = Vec::new();
    for m in &c.body {
        body.push(match m {
            swc::ClassMember::Constructor(k) => {
                let mut params = Vec::new();
                for p in &k.params {
                    match p {
                        swc::ParamOrTsParamProp::Param(p) => params.push(pat(notes, &p.pat)?),
                        swc::ParamOrTsParamProp::TsParamProp(_) => {
                            return unsupported("a parameter property");
                        },
                    }
                }
                let stmts = match &k.body {
                    Some(b) => Some(stmts(notes, &b.stmts)?),
                    None => None,
                };
                ClassMember::Constructor { key: prop_name(notes, &k.key)?, params, body: stmts }
            },
            swc::ClassMember::Method(m) => ClassMember::Method {
                key: prop_name(notes, &m.key)?,
                function: function(notes, &m.function)?,
                kind: match m.kind {
                    swc::MethodKind::Method => MethodKind::Method,
                    swc::MethodKind::Getter => MethodKind::Getter,
                    swc::MethodKind::Setter => MethodKind::Setter,
                },
                is_static: m.is_static,
            },
            swc::ClassMember::ClassProp(p) => {
                let (key, computed) = match &p.key {
                    swc::PropName::Ident(i) => (Expr::Ident(ident_name(i)), false),
                    swc::PropName::Str(s) => (Expr::Lit(Lit::Str(string(s))), false),
                    swc::PropName::Num(n) => (Expr::Lit(Lit::Num(number(n))), false),
                    swc::PropName::Computed(c) => (expr(notes, &c.expr)?, true),
                    swc::PropName::BigInt(_) => return unsupported("a big integer as a key"),
                };
                let value = match &p.value {
                    Some(e) => Some(boxed(notes, e)?),
                    None => None,
                };
                ClassMember::Prop { key: Box::new(key), value, is_static: p.is_static, computed }
            },
            _ => return unsupported("a class member of this kind"),
        });
    }
    Ok(Class { super_class, body })
}

fn expr(notes: &Notes, e: &swc::Expr) -> Res<Expr> {
    Ok(match e {
        swc::Expr::This(_) => Expr::This,
        swc::Expr::Array(a) => {
            let mut elems = Vec::new();
            for el in &a.elems {
                elems.push(match el {
                    Some(x) => Some(expr_or_spread(notes, x)?),
                    None => None,
                });
            }
            Expr::Array(elems)
        },
        swc::Expr::Object(o) => {
            let mut props = Vec::new();
            for p in &o.props {
                props.push(match p {
                    swc::PropOrSpread::Spread(s) => PropOrSpread::Spread(boxed(notes, &s.expr)?),
                    swc::PropOrSpread::Prop(p) => PropOrSpread::Prop(Box::new(prop(notes, p)?)),
                });
            }
            Expr::Object(props)
        },
        swc::Expr::Fn(f) => Expr::Fn {
            ident: f.ident.as_ref().map(ident),
            function: Box::new(function(notes, &f.function)?),
        },
        swc::Expr::Unary(u) => Expr::Unary { op: unary_op(u.op), arg: boxed(notes, &u.arg)? },
        swc::Expr::Update(u) => Expr::Update {
            op: match u.op {
                swc::UpdateOp::PlusPlus => UpdateOp::PlusPlus,
                swc::UpdateOp::MinusMinus => UpdateOp::MinusMinus,
            },
            prefix: u.prefix,
            arg: boxed(notes, &u.arg)?,
        },
        swc::Expr::Bin(b) => Expr::Bin {
            op: binary_op(b.op)?,
            left: boxed(notes, &b.left)?,
            right: boxed(notes, &b.right)?,
        },
        swc::Expr::Assign(a) => {
            let left = match &a.left {
                swc::AssignTarget::Simple(swc::SimpleAssignTarget::Ident(b)) => {
                    PatOrExpr::Pat(Box::new(Pat::Ident(ident(&b.id))))
                },
                swc::AssignTarget::Simple(swc::SimpleAssignTarget::Member(m)) => {
                    PatOrExpr::Expr(Box::new(member(notes, m)?))
                },
                swc::AssignTarget::Simple(swc::SimpleAssignTarget::Paren(p)) => {
                    PatOrExpr::Expr(Box::new(Expr::Paren(boxed(notes, &p.expr)?)))
                },
                swc::AssignTarget::Simple(_) => return unsupported("an assignment target of this kind"),
                swc::AssignTarget::Pat(swc::AssignTargetPat::Array(p)) => {
                    PatOrExpr::Pat(Box::new(array_pat(notes, p)?))
                },
                swc::AssignTarget::Pat(swc::AssignTargetPat::Object(p)) => {
                    PatOrExpr::Pat(Box::new(object_pat(notes, p)?))
                },
                swc::AssignTarget::Pat(swc::AssignTargetPat::Invalid(_)) => {
                    return unsupported("an invalid node");
                },
            };
            Expr::Assign { op: assign_op(a.op)?, left, right: boxed(notes, &a.right)? }
        },
        swc::Expr::Member(m) => member(notes, m)?,
        swc::Expr::SuperProp(s) => Expr::Member {
            obj: ExprOrSuper::Super,
            prop: match &s.prop {
                swc::SuperProp::Ident(i) => MemberProp::Ident(ident_name(i)),
                swc::SuperProp::Computed(c) => MemberProp::Computed(boxed(notes, &c.expr)?),
            },
        },
        swc::Expr::Cond(c) => Expr::Cond {
            test: boxed(notes, &c.test)?,
            cons: boxed(notes, &c.cons)?,
            alt: boxed(notes, &c.alt)?,
        },
        swc::Expr::Call(c) => Expr::Call {
            callee: match &c.callee {
                swc::Callee::Super(_) => ExprOrSuper::Super,
                swc::Callee::Expr(e) => ExprOrSuper::Expr(boxed(notes, e)?),
                swc::Callee::Import(_) => return unsupported("a dynamic import"),
            },
            args: args(notes, &c.args)?,
        },
        swc::Expr::New(n) => Expr::New {
            callee: boxed(notes, &n.callee)?,
            args: match &n.args {
                Some(a) => Some(args(notes, a)?),
                None => None,
            },
        },
        swc::Expr::Seq(s) => {
            let mut init = exprs(notes, &s.exprs)?;
            match init.pop() {
                Some(last) => Expr::Sequence { init, last: Box::new(last) },
                None => return unsupported("an empty sequence"),
            }
        },
        swc::Expr::Ident(i) => Expr::Ident(ident(i)),
        swc::Expr::Lit(l) => Expr::Lit(lit(l)?),
        swc::Expr::Tpl(t) => Expr::Tpl(tpl(notes, t)?),
        swc::Expr::TaggedTpl(t) => Expr::TaggedTpl { tag: boxed(notes, &t.tag)?, tpl: tpl(notes, &t.tpl)? },
        swc::Expr::Arrow(a) => Expr::Arrow {
            params: a.params.iter().map(|x| pat(notes, x)).collect::<Res<Vec<Pat>>>()?,
            body: match &*a.body {
                swc::ArrowFunctionBody::FunctionBody(b) => BlockStmtOrExpr::Block(stmts(notes, &b.stmts)?),
                swc::ArrowFunctionBody::Expr(e) => BlockStmtOrExpr::Expr(boxed(notes, e)?),
            },
            is_async: a.is_async,
            is_generator: a.is_generator,
        },
        swc::Expr::Class(c) => Expr::Class {
            ident: c.ident.as_ref().map(ident),
            class: Box::new(class(notes, &c.class)?),
        },
        swc::Expr::Yield(y) => Expr::Yield {
            arg: match &y.arg {
                Some(e) => Some(boxed(notes, e)?),
                None => None,
            },
            delegate: y.delegate,
        },
        swc::Expr::MetaProp(m) => {
            let (meta, prop) = match m.kind {
                swc::MetaPropKind::NewTarget => ("new", "target"),
                swc::MetaPropKind::ImportMeta => ("import", "meta"),
            };
            Expr::MetaProp {
                meta: Ident { sym: meta.to_string(), ctxt: 0 },
                prop: Ident { sym: prop.to_string(), ctxt: 0 },
            }
        },
        swc::Expr::Await(a) => Expr::Await(boxed(notes, &a.arg)?),
        swc::Expr::Paren(p) => Expr::Paren(boxed(notes, &p.expr)?),
        swc::Expr::TsTypeAssertion(t) => Expr::Ts { cast: TsCast::TypeAssertion, expr: boxed(notes, &t.expr)? },
        swc::Expr::TsConstAssertion(t) => Expr::Ts { cast: TsCast::ConstAssertion, expr: boxed(notes, &t.expr)? },
        swc::Expr::TsNonNull(t) => Expr::Ts { cast: TsCast::NonNull, expr: boxed(notes, &t.expr)? },
        swc::Expr::TsAs(t) => Expr::Ts { cast: TsCast::As, expr: boxed(notes, &t.expr)? },
        swc::Expr::PrivateName(p) => Expr::PrivateName(Ident { sym: p.name.to_string(), ctxt: 0 }),
        swc::Expr::OptChain(o) => Expr::OptChain(Box::new(match &*o.base {
            swc::OptChainBase::Member(m) => member(notes, m)?,
            swc::OptChainBase::Call(c) => Expr::Call {
                callee: ExprOrSuper::Expr(boxed(notes, &c.callee)?),
                args: args(notes, &c.args)?,
            },
        })),
        swc::Expr::Invalid(_) => return unsupported("an invalid node"),
        _ => return unsupported("JSX or a type-level form"),
    })
}

fn array_pat(notes: &Notes, p: &swc::ArrayPat) -> Res<Pat> {
    let mut elems = Vec::new();
    for el in &p.elems {
        elems.push(match el {
            Some(x) => Some(pat(notes, x)?),
            None => None,
        });
    }
    Ok(Pat::Array(elems))
}

fn object_pat(notes: &Notes, p: &swc::ObjectPat) -> Res<Pat> {
    let mut props = Vec::new();
    for x in &p.props {
        props.push(match x {
            swc::ObjectPatProp::KeyValue(kv) => ObjectPatProp::KeyValue {
                key: prop_name(notes, &kv.key)?,
                value: Box::new(pat(notes, &kv.value)?),
            },
            swc::ObjectPatProp::Assign(a) => ObjectPatProp::Assign {
                key: ident(&a.key.id),
                value: match &a.value {
                    Some(e) => Some(boxed(notes, e)?),
                    None => None,
                },
            },
            swc::ObjectPatProp::Rest(r) => ObjectPatProp::Rest(Box::new(pat(notes, &r.arg)?)),
        });
    }
    Ok(Pat::Object(props))
}

fn pat(notes: &Notes, p: &swc::Pat) -> Res<Pat> {
    Ok(match p {
        swc::Pat::Ident(b) => Pat::Ident(ident(&b.id)),
        swc::Pat::Array(a) => array_pat(notes, a)?,
        swc::Pat::Rest(r) => Pat::Rest(Box::new(pat(notes, &r.arg)?)),
        swc::Pat::Object(o) => object_pat(notes, o)?,
        swc::Pat::Assign(a) => Pat::Assign { left: Box::new(pat(notes, &a.left)?), right: boxed(notes, &a.right)? },
        swc::Pat::Expr(e) => Pat::Expr(boxed(notes, e)?),
        swc::Pat::Invalid(_) => return unsupported("an invalid node"),
    })
}

fn annotation(comments: &Notes, at: BytePos) -> Annotation {
    let texts: Vec<String> = match comments.get_leading(at) {
        Some(list) => list.iter().map(|c| c.text.to_string()).collect(),
        None => Vec::new(),
    };
    annotation_of(&texts)
}

fn var_decl(notes: &Notes, d: &swc::VarDecl) -> Res<VarDecl> {
    let mut decls = Vec::new();
    for x in &d.decls {
        decls.push(VarDeclarator {
            name: pat(notes, &x.name)?,
            init: match &x.init {
                Some(e) => Some(boxed(notes, e)?),
                None => None,
            },
        });
    }
    Ok(VarDecl {
        kind: match d.kind {
            swc::VarDeclKind::Var => VarDeclKind::Var,
            swc::VarDeclKind::Let => VarDeclKind::Let,
            swc::VarDeclKind::Const => VarDeclKind::Const,
        },
        annotation: annotation(notes, d.span.lo),
        decls,
    })
}

fn for_head(notes: &Notes, h: &swc::ForHead) -> Res<VarDeclOrPat> {
    Ok(match h {
        swc::ForHead::VarDecl(d) => VarDeclOrPat::VarDecl(var_decl(notes, d)?),
        swc::ForHead::Pat(p) => VarDeclOrPat::Pat(pat(notes, p)?),
        swc::ForHead::UsingDecl(_) => return unsupported("a `using` declaration"),
    })
}

fn block(notes: &Notes, b: &swc::BlockStmt) -> Res<Vec<Stmt>> {
    stmts(notes, &b.stmts)
}

fn stmt(notes: &Notes, s: &swc::Stmt) -> Res<Stmt> {
    Ok(match s {
        swc::Stmt::Block(b) => Stmt::Block(block(notes, b)?),
        swc::Stmt::Empty(_) => Stmt::Empty,
        swc::Stmt::Debugger(_) => Stmt::Debugger,
        swc::Stmt::With(w) => Stmt::With { obj: boxed(notes, &w.obj)?, body: Box::new(stmt(notes, &w.body)?) },
        swc::Stmt::Return(r) => Stmt::Return(match &r.arg {
            Some(e) => Some(boxed(notes, e)?),
            None => None,
        }),
        swc::Stmt::Labeled(l) => Stmt::Labeled { label: ident(&l.label), body: Box::new(stmt(notes, &l.body)?) },
        swc::Stmt::Break(b) => Stmt::Break(b.label.as_ref().map(ident)),
        swc::Stmt::Continue(c) => Stmt::Continue(c.label.as_ref().map(ident)),
        swc::Stmt::If(i) => Stmt::If {
            test: boxed(notes, &i.test)?,
            cons: Box::new(stmt(notes, &i.cons)?),
            alt: match &i.alt {
                Some(a) => Some(Box::new(stmt(notes, a)?)),
                None => None,
            },
        },
        swc::Stmt::Switch(s) => {
            let mut cases = Vec::new();
            for c in &s.cases {
                cases.push(SwitchCase {
                    test: match &c.test {
                        Some(e) => Some(boxed(notes, e)?),
                        None => None,
                    },
                    cons: stmts(notes, &c.cons)?,
                });
            }
            Stmt::Switch { discriminant: boxed(notes, &s.discriminant)?, cases }
        },
        swc::Stmt::Throw(t) => Stmt::Throw(boxed(notes, &t.arg)?),
        swc::Stmt::Try(t) => Stmt::Try {
            block: block(notes, &t.block)?,
            handler: match &t.handler {
                Some(h) => Some(CatchClause {
                    param: match &h.param {
                        Some(p) => Some(pat(notes, p)?),
                        None => None,
                    },
                    body: block(notes, &h.body)?,
                }),
                None => None,
            },
            finalizer: match &t.finalizer {
                Some(f) => Some(block(notes, f)?),
                None => None,
            },
        },
        swc::Stmt::While(w) => Stmt::While { test: boxed(notes, &w.test)?, body: Box::new(stmt(notes, &w.body)?) },
        swc::Stmt::DoWhile(w) => Stmt::DoWhile { test: boxed(notes, &w.test)?, body: Box::new(stmt(notes, &w.body)?) },
        swc::Stmt::For(f) => Stmt::For {
            init: match &f.init {
                Some(swc::VarDeclOrExpr::VarDecl(d)) => {
                    Some(VarDeclOrExpr::VarDecl(var_decl(notes, d)?))
                },
                Some(swc::VarDeclOrExpr::Expr(e)) => Some(VarDeclOrExpr::Expr(boxed(notes, e)?)),
                None => None,
            },
            test: match &f.test {
                Some(e) => Some(boxed(notes, e)?),
                None => None,
            },
            update: match &f.update {
                Some(e) => Some(boxed(notes, e)?),
                None => None,
            },
            body: Box::new(stmt(notes, &f.body)?),
        },
        swc::Stmt::ForIn(f) => Stmt::ForIn {
            left: for_head(notes, &f.left)?,
            right: boxed(notes, &f.right)?,
            body: Box::new(stmt(notes, &f.body)?),
        },
        swc::Stmt::ForOf(f) => Stmt::ForOf {
            is_await: f.is_await,
            left: for_head(notes, &f.left)?,
            right: boxed(notes, &f.right)?,
            body: Box::new(stmt(notes, &f.body)?),
        },
        swc::Stmt::Decl(swc::Decl::Class(c)) => {
            Stmt::Decl(Decl::Class { ident: ident(&c.ident), class: class(notes, &c.class)? })
        },
        swc::Stmt::Decl(swc::Decl::Fn(f)) => {
            Stmt::Decl(Decl::Fn { ident: ident(&f.ident), function: function(notes, &f.function)? })
        },
        swc::Stmt::Decl(swc::Decl::Var(d)) => Stmt::Decl(Decl::Var(var_decl(notes, d)?)),
        swc::Stmt::Decl(_) => return unsupported("a declaration of this kind"),
        swc::Stmt::Expr(e) => Stmt::Expr(boxed(notes, &e.expr)?),
    })
}

/// Reads a script.
fn script(src: &str) -> Vec<Stmt> {
    let notes = SingleThreadedComments::default();
    let input = StringInput::new(src, BytePos(1), BytePos(1 + src.len() as u32));
    let mut parser = Parser::new(Syntax::default(), input, Some(&notes));
    let script = match parser.parse_script() {
        Ok(s) => s,
        Err(e) => panic!("{:?}", e),
    };
    match stmts(&notes, &script.body) {
        Ok(v) => v,
        Err(e) => panic!("{}", e),
    }
}

/// Reads an expression.
fn e(src: &str) -> Expr {
    let mut body = script(&format!("({});", src));
    assert_eq!(body.len(), 1);
    match body.remove(0) {
        Stmt::Expr(x) => match *x {
            // an object literal may come in parentheses of its own
            Expr::Paren(inner) => match *inner {
                Expr::Paren(object) if matches!(*object, Expr::Object(_)) => *object,
                other => other,
            },
            other => other,
        },
        other => panic!("{:?} is no expression", other),
    }
}

fn num_bits(bits: u64) -> Value<Numeral> {
    Value::Known(Numeral::Bits(bits))
}

fn num(v: f64) -> Value<Numeral> {
    Value::Known(Numeral::Bits(v.to_bits()))
}

fn text(s: &str) -> Value<String> {
    Value::Known(s.to_string())
}

fn check_dce(src: &str, expected: &str) {
    assert_eq!(dce(script(src)), script(expected), "removing the dead code of `{}`", src);
}

// ---- coercion to a boolean

#[test]
fn bool_of_literals() {
    assert_eq!(as_bool(&e("0")), (Purity::Pure, Value::Known(false)));
    assert_eq!(as_bool(&e("-0")), (Purity::Pure, Value::Unknown));
    assert_eq!(as_bool(&e("1")), (Purity::Pure, Value::Known(true)));
    assert_eq!(as_bool(&e("''")), (Purity::Pure, Value::Known(false)));
    assert_eq!(as_bool(&e("'a'")), (Purity::Pure, Value::Known(true)));
    assert_eq!(as_bool(&e("null")), (Purity::Pure, Value::Known(false)));
    assert_eq!(as_bool(&e("true")), (Purity::Pure, Value::Known(true)));
    assert_eq!(as_bool(&e("false")), (Purity::Pure, Value::Known(false)));
    assert_eq!(as_bool(&e("/x/")), (Purity::Pure, Value::Known(true)));
    assert_eq!(as_bool(&e("0n")), (Purity::Pure, Value::Known(false)));
    assert_eq!(as_bool(&e("100n")), (Purity::Pure, Value::Known(true)));
    assert_eq!(as_bool(&e("undefined")), (Purity::Pure, Value::Known(false)));
}

#[test]
fn bool_of_nan_literal() {
    let nan = Expr::Lit(Lit::Num(Number { bits: f64::NAN.to_bits(), text: "NaN".to_string() }));
    assert_eq!(as_bool(&nan), (Purity::Pure, Value::Known(false)));
    let minus_zero = Expr::Lit(Lit::Num(Number { bits: (-0.0f64).to_bits(), text: "0".to_string() }));
    assert_eq!(as_bool(&minus_zero), (Purity::Pure, Value::Known(false)));
}

#[test]
fn bool_of_forms() {
    assert_eq!(as_bool(&e("void 0")), (Purity::Pure, Value::Known(false)));
    assert_eq!(as_bool(&e("void f()")), (Purity::MayBeImpure, Value::Known(false)));
    assert_eq!(as_bool(&e("[]")), (Purity::Pure, Value::Known(true)));
    assert_eq!(as_bool(&e("[f()]")), (Purity::MayBeImpure, Value::Known(true)));
    assert_eq!(as_bool(&e("{}")), (Purity::Pure, Value::Known(true)));
    assert_eq!(as_bool(&e("function() {}")), (Purity::Pure, Value::Known(true)));
    assert_eq!(as_bool(&e("class {}")), (Purity::MayBeImpure, Value::Known(true)));
    assert_eq!(as_bool(&e("new Foo()")), (Purity::MayBeImpure, Value::Known(true)));
    assert_eq!(as_bool(&e("x")), (Purity::Pure, Value::Unknown));
    assert_eq!(as_bool(&e("f()")), (Purity::MayBeImpure, Value::Unknown));
}

#[test]
fn bool_passes_through() {
    assert_eq!(as_bool(&e("(1)")), (Purity::Pure, Value::Known(true)));
    assert_eq!(as_bool(&e("(1, 0)")), (Purity::Pure, Value::Known(false)));
    assert_eq!(as_bool(&e("(f(), 0)")), (Purity::MayBeImpure, Value::Known(false)));
    assert_eq!(as_bool(&e("x = 1")), (Purity::MayBeImpure, Value::Known(true)));
    assert_eq!(as_bool(&e("x = 0")), (Purity::MayBeImpure, Value::Known(false)));
    assert_eq!(as_pure_bool(&e("x = 1")), Value::Unknown);
    assert_eq!(as_pure_bool(&e("(f(), 0)")), Value::Unknown);
    assert_eq!(as_bool(&e("new Date()")), (Purity::Pure, Value::Known(true)));
    assert_eq!(as_bool(&e("new Date(1)")), (Purity::MayBeImpure, Value::Known(true)));
    assert_eq!(as_bool(&e("!0")), (Purity::Pure, Value::Known(true)));
    assert_eq!(as_bool(&e("!x")), (Purity::Pure, Value::Unknown));
    assert_eq!(as_bool(&e("!f()")), (Purity::MayBeImpure, Value::Unknown));
}

#[test]
fn bool_of_bit_operators() {
    assert_eq!(as_bool(&e("1 & 0")), (Purity::Pure, Value::Known(false)));
    assert_eq!(as_bool(&e("1 & 1")), (Purity::Pure, Value::Known(true)));
    assert_eq!(as_bool(&e("1 | 0")), (Purity::Pure, Value::Known(true)));
    assert_eq!(as_bool(&e("0 | 0")), (Purity::Pure, Value::Known(false)));
    assert_eq!(as_bool(&e("x & 0")), (Purity::Pure, Value::Known(false)));
    assert_eq!(as_bool(&e("x | 1")), (Purity::Pure, Value::Known(true)));
    assert_eq!(as_bool(&e("x | 0")), (Purity::Pure, Value::Unknown));
    assert_eq!(as_bool(&e("f() & 0")), (Purity::MayBeImpure, Value::Known(false)));
    assert_eq!(as_bool(&e("f() | 1")), (Purity::MayBeImpure, Value::Known(true)));
}

#[test]
fn pure_bool_needs_purity() {
    assert_eq!(as_pure_bool(&e("1")), Value::Known(true));
    assert_eq!(as_pure_bool(&e("[f()]")), Value::Unknown);
    assert_eq!(as_pure_bool(&e("x")), Value::Unknown);
    assert_eq!(e("1").as_pure_bool(), Value::Known(true));
}

// ---- coercion to a number

#[test]
fn number_of_literals_and_names() {
    assert_eq!(as_number(&e("true")), num(1.0));
    assert_eq!(as_number(&e("false")), num(0.0));
    assert_eq!(as_number(&e("null")), num(0.0));
    assert_eq!(as_number(&e("1.5")), num(1.5));
    assert_eq!(as_number(&e("undefined")), Value::Known(Numeral::Bits(NAN)));
    assert_eq!(as_number(&e("NaN")), Value::Known(Numeral::Bits(NAN)));
    assert_eq!(as_number(&e("Infinity")), num(f64::INFINITY));
    assert_eq!(as_number(&e("-Infinity")), num(f64::NEG_INFINITY));
    assert_eq!(as_number(&e("-x")), Value::Unknown);
    assert_eq!(as_number(&e("x")), Value::Unknown);
    assert_eq!(as_number(&e("/x/")), Value::Unknown);
    assert_eq!(NAN, f64::NAN.to_bits());
    assert_eq!(INFINITY, f64::INFINITY.to_bits());
    assert_eq!(NEG_INFINITY, f64::NEG_INFINITY.to_bits());
    assert_eq!(ONE, 1.0f64.to_bits());
    assert_eq!(ZERO, 0.0f64.to_bits());
}

#[test]
fn number_of_operators() {
    assert_eq!(as_number(&e("!0")), num(1.0));
    assert_eq!(as_number(&e("!1")), num(0.0));
    assert_eq!(as_number(&e("!x")), Value::Unknown);
    assert_eq!(as_number(&e("![f()]")), Value::Unknown);
    assert_eq!(as_number(&e("void 0")), Value::Known(Numeral::Bits(NAN)));
    assert_eq!(as_number(&e("void f()")), Value::Unknown);
}

#[test]
fn number_of_strings() {
    assert_eq!(num_from_str(""), num(0.0));
    assert_eq!(num_from_str("   "), num(0.0));
    assert_eq!(num_from_str(" 12 "), Value::Known(Numeral::Decimal("12".to_string())));
    assert_eq!(num_from_str("1.5e3"), Value::Known(Numeral::Decimal("1.5e3".to_string())));
    assert_eq!(num_from_str("abc"), num_bits(NAN));
    for numeral in ["0", "12", "-12", "+12", "5.", ".5", "+.5e-3", "-1.25E+10", "1e5", "007", "0.0e0"] {
        assert_eq!(num_from_str(numeral), Value::Known(Numeral::Decimal(numeral.to_string())), "{}", numeral);
        assert!(decimal_numeral(&numeral.chars().collect::<Vec<char>>()), "{}", numeral);
    }
    for other in ["1e", ".", "e5", "1.2.3", "--1", "+-1", "inf", "nan", "NaN", "1_0", "12abc", "1e+", "1e5.", "+", "-", "1 2",
        "1,2", "[object Object]", "٣"] {
        assert_eq!(num_from_str(other), num_bits(NAN), "{}", other);
        assert!(!decimal_numeral(&other.chars().collect::<Vec<char>>()), "{}", other);
    }
    let digits = |s: &str, i: usize| count_digits(&s.chars().collect::<Vec<char>>(), i);
    assert_eq!(digits("12a3", 0), 2);
    assert_eq!(digits("12a3", 2), 0);
    assert_eq!(digits("12a3", 3), 1);
    assert_eq!(digits("12a3", 4), 0);
    assert_eq!(num_from_str("1\u{b}"), Value::Unknown);
    assert_eq!(num_from_str("\u{b}"), Value::Unknown);
    assert_eq!(num_from_str("infinity"), Value::Unknown);
    assert_eq!(num_from_str("+Infinity"), Value::Unknown);
    assert_eq!(num_from_str("-INFINITY"), Value::Unknown);
    assert_eq!(num_from_str("infinity1"), num_bits(NAN));
    assert_eq!(num_from_str("+0x10"), Value::Unknown);
    assert_eq!(num_from_str("-0X10"), Value::Unknown);
    assert_eq!(as_number(&e("' 7'")), Value::Known(Numeral::Decimal("7".to_string())));
    assert_eq!(as_number(&e("''")), num(0.0));
}

#[test]
fn number_of_hexadecimal_strings() {
    assert_eq!(num_from_str("0x10"), num(16.0));
    assert_eq!(num_from_str("0XfF"), num(255.0));
    assert_eq!(num_from_str("0x0"), num(0.0));
    assert_eq!(num_from_str("0x1"), num(1.0));
    assert_eq!(num_from_str(" 0x1F "), num(31.0));
    assert_eq!(num_from_str("0x"), Value::Known(Numeral::Bits(NAN)));
    assert_eq!(num_from_str("0xg"), Value::Known(Numeral::Bits(NAN)));
    assert_eq!(num_from_str("0x1 2"), Value::Known(Numeral::Bits(NAN)));
    assert_eq!(num_from_str("0x1fffffffffffff"), num(9007199254740991.0));
    assert_eq!(num_from_str("0x20000000000000"), num(9007199254740992.0));
    assert_eq!(num_from_str("0x000000000000000000001"), num(1.0));
    assert_eq!(num_from_str("0xffffffffffffffffffffffffffffffffffz"), Value::Known(Numeral::Bits(NAN)));
}

#[test]
fn hexadecimal_strings_are_rounded() {
    // a tie goes to the even neighbour
    assert_eq!(num_from_str("0x20000000000001"), num(9007199254740992.0));
    assert_eq!(num_from_str("0x20000000000002"), num(9007199254740994.0));
    assert_eq!(num_from_str("0x20000000000003"), num(9007199254740996.0));
    assert_eq!(num_from_str("0x3fffffffffffff"), num(18014398509481984.0));
    assert_eq!(num_from_str("0xffffffffffffffff"), num(18446744073709551616.0));
    // a digit far behind breaks a tie
    assert_eq!(num_from_str("0x200000000000010000000000000000000"), num(2f64.powi(129)));
    assert_eq!(num_from_str("0x200000000000010000000000000000001"), num(2f64.powi(129) + 2f64.powi(77)));
    let mut x: u128 = 0x9e37_79b9_7f4a_7c15_f39c_c060_5ced_c834;
    for _ in 0..2000 {
        x = x.wrapping_mul(0x2545_f491_4f6c_dd1d_0000_0000_0000_0001).wrapping_add(0x1234_5678_9abc_def1);
        for shift in [0u32, 1, 7, 40, 63, 64, 65, 75, 100] {
            let v = x >> shift;
            assert_eq!(num_from_str(&format!("0x{:x}", v)), num(v as f64), "{:x}", v);
            assert_eq!(num_from_str(&format!("0X{:X}", v)), num(v as f64), "{:X}", v);
        }
    }
    // beyond the largest finite value
    let largest = format!("0x{}{}", "fffffffffffff8", "0".repeat(242));
    assert_eq!(num_from_str(&largest), num(f64::MAX));
    let rounds_up = format!("0x{}{}", "fffffffffffffc", "0".repeat(242));
    assert_eq!(num_from_str(&rounds_up), num(f64::INFINITY));
    let stays = format!("0x{}{}", "fffffffffffffb", "f".repeat(242));
    assert_eq!(num_from_str(&stays), num(f64::MAX));
    assert_eq!(num_from_str(&format!("0x1{}", "0".repeat(256))), num(f64::INFINITY));
    assert_eq!(num_from_str(&format!("0x1{}", "0".repeat(255))), num(2f64.powi(1020)));
    assert_eq!(num_from_str(&format!("0x{}", "f".repeat(5000))), num(f64::INFINITY));
    assert_eq!(num_from_str(&format!("0x{}1", "0".repeat(5000))), num(1.0));
}

#[test]
fn bits_of_whole_numbers() {
    for v in [0u64, 1, 2, 3, 4, 7, 8, 255, 256, 1023, 1024, 4294967295, 4294967296, 9007199254740991, 4503599627370496, 4503599627370495] {
        assert_eq!(whole_bits_impl(v), (v as f64).to_bits(), "the bits of {}", v);
    }
}

#[test]
fn number_of_composites() {
    assert_eq!(as_number(&e("[]")), num(0.0));
    assert_eq!(as_number(&e("['0x10']")), num(16.0));
    assert_eq!(as_number(&e("[ ' 5' ]")), Value::Known(Numeral::Decimal("5".to_string())));
    assert_eq!(as_number(&e("[1, 2]")), num_bits(NAN));
    assert_eq!(as_number(&e("{}")), num_bits(NAN));
    assert_eq!(as_number(&e("[]")), num(0.0));
    assert_eq!(as_number(&e("[5]")), Value::Known(Numeral::Decimal("5".to_string())));
    assert_eq!(as_number(&e("'abc'")), num_bits(NAN));
    assert_eq!(as_number(&e("[x]")), Value::Unknown);
    assert_eq!(as_number(&e("`a`")), Value::Unknown);
}

// ---- coercion to a string

#[test]
fn text_of_literals_and_names() {
    assert_eq!(as_string(&e("'abc'")), text("abc"));
    assert_eq!(as_string(&e("1")), text("1"));
    assert_eq!(as_string(&e("1.5")), text("1.5"));
    assert_eq!(as_string(&e("true")), text("true"));
    assert_eq!(as_string(&e("false")), text("false"));
    assert_eq!(as_string(&e("null")), text("null"));
    assert_eq!(as_string(&e("undefined")), text("undefined"));
    assert_eq!(as_string(&e("Infinity")), text("Infinity"));
    assert_eq!(as_string(&e("NaN")), text("NaN"));
    assert_eq!(as_string(&e("x")), Value::Unknown);
    assert_eq!(as_string(&e("/x/")), Value::Unknown);
    assert_eq!(as_string(&e("`a`")), Value::Unknown);
    assert_eq!(as_string(&e("`a${b}`")), Value::Unknown);
}

#[test]
fn text_of_operators_and_composites() {
    assert_eq!(as_string(&e("void 0")), text("undefined"));
    assert_eq!(as_string(&e("void f()")), text("undefined"));
    assert_eq!(as_string(&e("!0")), text("true"));
    assert_eq!(as_string(&e("!1")), text("false"));
    assert_eq!(as_string(&e("!x")), Value::Unknown);
    assert_eq!(as_string(&e("{}")), text("[object Object]"));
    assert_eq!(as_string(&e("{a: 1}")), text("[object Object]"));
    assert_eq!(as_string(&e("[]")), text(""));
    assert_eq!(as_string(&e("[1]")), text("1"));
    assert_eq!(as_string(&e("[1, 'a', true]")), text("1,a,true"));
    assert_eq!(as_string(&e("[null, undefined, 1]")), text(",,1"));
    assert_eq!(as_string(&e("[, 1, ]")), text(",1"));
    assert_eq!(as_string(&e("[[1, 2], [3]]")), text("1,2,3"));
    assert_eq!(as_string(&e("[1, x]")), Value::Unknown);
    assert_eq!(as_string(&e("[x, 1]")), Value::Unknown);
}

// ---- types

#[test]
fn types_of_forms() {
    let known = |t: Type| Value::Known(t);
    assert_eq!(get_type(&e("1")), known(Type::Num));
    assert_eq!(get_type(&e("'a'")), known(Type::Str));
    assert_eq!(get_type(&e("`a${b}`")), known(Type::Str));
    assert_eq!(get_type(&e("true")), known(Type::Bool));
    assert_eq!(get_type(&e("null")), known(Type::Null));
    assert_eq!(get_type(&e("undefined")), known(Type::Undefined));
    assert_eq!(get_type(&e("NaN")), known(Type::Num));
    assert_eq!(get_type(&e("Infinity")), known(Type::Num));
    assert_eq!(get_type(&e("x")), Value::Unknown);
    assert_eq!(get_type(&e("/x/")), known(Type::Obj));
    assert_eq!(get_type(&e("[]")), known(Type::Obj));
    assert_eq!(get_type(&e("{}")), known(Type::Obj));
    assert_eq!(get_type(&e("function() {}")), known(Type::Obj));
    assert_eq!(get_type(&e("new Foo")), known(Type::Obj));
    assert_eq!(get_type(&e("void 0")), known(Type::Undefined));
    assert_eq!(get_type(&e("typeof x")), known(Type::Str));
    assert_eq!(get_type(&e("!x")), known(Type::Bool));
    assert_eq!(get_type(&e("delete x.y")), known(Type::Bool));
    assert_eq!(get_type(&e("~x")), known(Type::Num));
    assert_eq!(get_type(&e("-x")), known(Type::Num));
    assert_eq!(get_type(&e("+x")), known(Type::Num));
    assert_eq!(get_type(&e("x++")), known(Type::Num));
    assert_eq!(get_type(&e("--x")), known(Type::Num));
    assert_eq!(get_type(&e("f()")), Value::Unknown);
    assert_eq!(get_type(&e("10n")), Value::Unknown);
}

#[test]
fn types_of_operators() {
    let known = |t: Type| Value::Known(t);
    for op in ["|", "^", "&", "<<", ">>", ">>>", "-", "*", "%", "/", "**"] {
        assert_eq!(get_type(&e(&format!("x {} y", op))), known(Type::Num), "{}", op);
    }
    for op in ["==", "!=", "===", "!==", "<", "<=", ">", ">=", "in", "instanceof"] {
        assert_eq!(get_type(&e(&format!("x {} y", op))), known(Type::Bool), "{}", op);
    }
    for op in ["&=", "^=", "|=", "<<=", ">>=", ">>>=", "-=", "*=", "**=", "/=", "%="] {
        assert_eq!(get_type(&e(&format!("x {} y", op))), known(Type::Num), "{}", op);
    }
    assert_eq!(get_type(&e("x = 'a'")), known(Type::Str));
    assert_eq!(get_type(&e("x = y")), Value::Unknown);
    assert_eq!(get_type(&e("x += 'a'")), known(Type::Str));
    assert_eq!(get_type(&e("x += 1")), Value::Unknown);
    assert_eq!(get_type(&e("f(), 1")), known(Type::Num));
    assert_eq!(get_type(&e("(1)")), Value::Unknown);
    assert_eq!(get_type(&e("a && b")), Value::Unknown);
    assert_eq!(get_type(&e("1 && 2")), known(Type::Num));
    assert_eq!(get_type(&e("1 || 'a'")), Value::Unknown);
    assert_eq!(get_type(&e("'b' || 'a'")), known(Type::Str));
    assert_eq!(get_type(&e("x ? 1 : 2")), known(Type::Num));
    assert_eq!(get_type(&e("x ? 1 : 'a'")), Value::Unknown);
}

#[test]
fn types_of_sums() {
    let known = |t: Type| Value::Known(t);
    assert_eq!(get_type(&e("1 + 2")), known(Type::Num));
    assert_eq!(get_type(&e("1 + 'a'")), known(Type::Str));
    assert_eq!(get_type(&e("'a' + x")), known(Type::Str));
    assert_eq!(get_type(&e("x + 'a'")), known(Type::Str));
    assert_eq!(get_type(&e("[] + {}")), Value::Unknown);
    assert_eq!(get_type(&e("1 + {}")), Value::Unknown);
    assert_eq!(get_type(&e("{} + 'a'")), known(Type::Str));
    assert_eq!(get_type(&e("null + true")), known(Type::Num));
    assert_eq!(get_type(&e("undefined + 1")), known(Type::Num));
    assert_eq!(get_type(&e("x + 1")), Value::Unknown);
}

#[test]
fn merging_types() {
    assert_eq!(and(Value::Known(Type::Num), Value::Known(Type::Num)), Value::Known(Type::Num));
    assert_eq!(and(Value::Known(Type::Num), Value::Known(Type::Str)), Value::Unknown);
    assert_eq!(and(Value::Known(Type::Num), Value::Unknown), Value::Unknown);
    assert_eq!(and(Value::Unknown, Value::Unknown), Value::Unknown);
    assert!(!may_be_str(Value::Known(Type::Bool)));
    assert!(!may_be_str(Value::Known(Type::Null)));
    assert!(!may_be_str(Value::Known(Type::Num)));
    assert!(!may_be_str(Value::Known(Type::Undefined)));
    assert!(may_be_str(Value::Known(Type::Obj)));
    assert!(may_be_str(Value::Known(Type::Str)));
    assert!(may_be_str(Value::Known(Type::Symbol)));
    assert!(may_be_str(Value::Unknown));
}

#[test]
fn purity_is_a_monoid() {
    assert_eq!(Purity::Pure.add(Purity::Pure), Purity::Pure);
    assert_eq!(Purity::Pure.add(Purity::MayBeImpure), Purity::MayBeImpure);
    assert_eq!(Purity::MayBeImpure.add(Purity::Pure), Purity::MayBeImpure);
    assert_eq!(Purity::MayBeImpure.add(Purity::MayBeImpure), Purity::MayBeImpure);
    assert!(Purity::Pure.is_pure());
    assert!(!Purity::MayBeImpure.is_pure());
    for a in [Purity::Pure, Purity::MayBeImpure] {
        for b in [Purity::Pure, Purity::MayBeImpure] {
            for c in [Purity::Pure, Purity::MayBeImpure] {
                assert_eq!(a.add(b).add(c), a.add(b.add(c)));
            }
        }
    }
}

#[test]
fn three_valued_logic() {
    let t = Value::Known(true);
    let f = Value::Known(false);
    let u: Value<bool> = Value::Unknown;
    assert_eq!(t.and(u), u);
    assert_eq!(f.and(u), f);
    assert_eq!(u.and(f), f);
    assert_eq!(u.and(t), u);
    assert_eq!(t.or(u), t);
    assert_eq!(f.or(u), u);
    assert_eq!(u.or(t), t);
    assert_eq!(u.or(f), u);
    assert_eq!(t.not(), f);
    assert_eq!(u.not(), u);
    assert!(t.is_known());
    assert!(u.is_unknown());
}

// ---- side effects

#[test]
fn pure_callees() {
    assert!(is_pure_callee_impl(&e("Date")));
    assert!(is_pure_callee_impl(&e("Math.floor")));
    assert!(is_pure_callee_impl(&e("Math[x]")));
    assert!(is_pure_callee_impl(&e("function() {}")));
    assert!(!is_pure_callee_impl(&e("function() { f(); }")));
    assert!(!is_pure_callee_impl(&e("f")));
    assert!(!is_pure_callee_impl(&e("a.b")));
    assert!(e("Date").is_pure_callee());
}

#[test]
fn side_effects_of_forms() {
    let pure = ["new Date()", "new Date", "1", "'a'", "x", "this", "function() { f(); }", "() => f()", "[1, x]", "!x",
        "x + y", "x ? y : z", "(x, y)", "({})", "({a: 1, b})", "({a() {}})", "Math.floor(f())",
        "Date()", "Math.PI", "(x)", "a?.b === undefined" ];
    for src in pure.iter().take(20) {
        assert!(!may_have_side_effects_impl(&e(src)), "`{}` has no side effect", src);
    }
    let impure = ["f()", "a.b", "x++", "x = 1", "new Foo()", "new Date(1)", "new Date(...a)", "`a`", "f`a`",
        "class {}", "[f()]", "-f()", "1 + f()", "x ? f() : 1", "(f(), 1)", "({a: f()})",
        "({[f()]: 1})", "({...a})", "({[f()]() {}})", "new.target"];
    for src in impure {
        assert!(may_have_side_effects_impl(&e(src)), "`{}` may have a side effect", src);
    }
    assert!(e("f()").may_have_side_effects());
}

#[test]
fn side_effects_under_type_wrappers() {
    let call = || Box::new(e("f()"));
    assert!(!may_have_side_effects_impl(&Expr::Ts { cast: TsCast::ConstAssertion, expr: call() }));
    assert!(may_have_side_effects_impl(&Expr::Ts { cast: TsCast::As, expr: call() }));
    assert!(may_have_side_effects_impl(&Expr::Ts { cast: TsCast::NonNull, expr: call() }));
    assert!(!may_have_side_effects_impl(&Expr::Ts { cast: TsCast::As, expr: Box::new(e("x")) }));
}

// ---- effects that stay

fn ignored(src: &str) -> Option<Expr> {
    ignore_result(e(src))
}

#[test]
fn ignoring_a_result() {
    assert_eq!(ignored("1"), None);
    assert_eq!(ignored("'a'"), None);
    assert_eq!(ignored("null"), None);
    assert_eq!(ignored("/x/"), None);
    assert_eq!(ignored("x"), None);
    assert_eq!(ignored("(x)"), None);
    assert_eq!(ignored("function() { f(); }"), None);
    assert_eq!(ignored("({})"), None);
    assert_eq!(ignored("[]"), None);
    assert_eq!(ignored("[1, x, , 'a']"), None);
    assert_eq!(ignored("x + y"), None);
    assert_eq!(ignored("-x"), None);
    assert_eq!(ignored("typeof x"), None);
    assert_eq!(ignored("void 0"), None);
    assert_eq!(ignored("!~+x"), None);
    assert_eq!(ignored("Math.floor(1)"), None);
    assert_eq!(ignored("Date()"), None);
    assert_eq!(ignored("f()"), Some(e("f()")));
    assert_eq!(ignored("(f())"), Some(e("f()")));
    assert_eq!(ignored("-f()"), Some(e("f()")));
    assert_eq!(ignored("delete x"), Some(e("delete x")));
    assert_eq!(ignored("a && b"), Some(e("a && b")));
    assert_eq!(ignored("a || f()"), Some(e("a || f()")));
    assert_eq!(ignored("x + f()"), Some(e("f()")));
    assert_eq!(ignored("f() + x"), Some(e("f()")));
    assert_eq!(ignored("f() + g()"), Some(e("f(), g()")));
    assert_eq!(ignored("f() + (g() + h())"), Some(e("f(), g(), h()")));
    assert_eq!(ignored("({a: 1})"), Some(e("({a: 1})")));
    assert_eq!(ignored("[1, f(), x, g()]"), Some(e("[f(), g()]")));
    assert_eq!(ignored("[...a, 1]"), Some(e("[...a]")));
    assert_eq!(ignored("Math.floor(f(), 1)"), Some(e("[f()]")));
    assert_eq!(ignored("x.y"), Some(e("x.y")));
    assert_eq!(ignored("x = 1"), Some(e("x = 1")));
}

#[test]
fn ignoring_the_result_of_a_sequence() {
    assert_eq!(ignored("f(), 1"), Some(Expr::Sequence { init: vec![], last: Box::new(e("f()")) }));
    assert_eq!(ignored("f(), g()"), Some(e("f(), g()")));
    assert_eq!(ignored("f(), g(), x"), Some(e("f(), g()")));
    assert_eq!(ignored("x, -g()"), Some(e("x, g()")));
    let one = Expr::Sequence { init: vec![], last: Box::new(e("1")) };
    assert_eq!(ignore_result(one), None);
}

#[test]
fn ignoring_the_result_of_a_tagged_template() {
    assert_eq!(ignored("Math.raw`a`"), None);
    assert_eq!(ignored("Math.raw`a${x}b`"), None);
    assert_eq!(ignored("Math.raw`a${f()}b${g()}`"), Some(e("f(), g()")));
    assert_eq!(ignored("tag`a`"), Some(e("tag`a`")));
}

#[test]
fn sums_of_pure_forms_that_the_rules_take_for_impure() {
    // The reduction drops them although the purity rules would not.
    assert_eq!(ignored("new Date() + new Date()"), None);
    assert!(!may_have_side_effects_impl(&e("new Date() + new Date()")));
    assert_eq!(ignored("({...a}) + ({...b})"), None);
    assert!(may_have_side_effects_impl(&e("({...a}) + ({...b})")));
    assert_eq!(ignored("Math.raw`a`"), None);
    assert!(may_have_side_effects_impl(&e("Math.raw`a`")));
}

#[test]
fn what_is_dropped_has_no_side_effects() {
    for src in ["1", "x", "(x)", "x + y", "[1, [2, x]]", "-x", "Math.floor(1)", "({})",
        "function() {}", "this + this", "delete x + delete y"] {
        assert_eq!(ignored(src), None, "`{}`", src);
        assert!(!may_have_side_effects_impl(&e(src)), "`{}`", src);
    }
}

#[test]
fn preserving_effects() {
    let keep = |val: &str, of: &[&str]| preserve_effects(e(val), of.iter().map(|s| e(s)).collect());
    assert_eq!(keep("1", &[]), e("1"));
    assert_eq!(keep("1", &["x", "2", "this", "function() {}", "() => 1"]), e("1"));
    assert_eq!(keep("1", &["f()"]), e("f(), 1"));
    assert_eq!(keep("1", &["f() + g()"]), e("f(), g(), 1"));
    assert_eq!(keep("v", &["-f()", "x", "(g())"]), e("f(), g(), v"));
    assert_eq!(keep("v", &["[f(), , ...g()]"]), e("f(), g(), v"));
    assert_eq!(keep("v", &["({a: f(), [g()]: h(), ...i(), [j()]() {}, k})"]), e("f(), g(), h(), i(), j(), v"));
    assert_eq!(keep("v", &["(f(), x, g())"]), e("f(), g(), v"));
    assert_eq!(keep("v", &["a.b", "a++", "a = 1", "new Foo()", "x ? y : z", "new.target"]),
        e("a.b, a++, a = 1, new Foo(), x ? y : z, new.target, v"));
    assert_eq!(keep("v", &["new Date()", "new Date"]), e("v"));
    assert_eq!(keep("v", &["new Date(1)", "new Foo"]), e("new Date(1), new Foo, v"));
    assert_eq!(keep("v", &["`a${f()}`", "tag`a`", "class {}"]), e("`a${f()}`, tag`a`, class {}, v"));
    assert_eq!(undefined(), e("void 0"));
}

// ---- literals and their cost

#[test]
fn literals() {
    for src in ["1", "'a'", "null", "true", "[]", "[1, 'a', [2]]", "({})", "({a: 1, 'b': [2], 3: null})",
        "`a`", "(1)", "[1, , 2]", "10n"] {
        assert!(is_literal(&e(src)), "`{}` is a literal", src);
    }
    for src in ["x", "/x/", "`a${b}`", "f()", "new Foo", "a.b", "x++", "x = 1", "x ? 1 : 2", "(1, 2)",
        "tag`a`", "() => 1", "function() {}", "class {}", "new.target", "a?.b", "[...a]", "({...a})",
        "({a})", "({a() {}})", "({[a]: 1})", "({1.5: 1})", "-1", "1 + 2", "this", "[1, [x]]"] {
        assert!(!is_literal(&e(src)), "`{}` is no literal", src);
    }
}

#[test]
fn cost_of_literals() {
    assert_eq!(calc_literal_cost(&e("1"), true), (true, 0));
    assert_eq!(calc_literal_cost(&e("'abcdef'"), true), (true, 0));
    assert_eq!(calc_literal_cost(&e("[]"), true), (true, 2));
    assert_eq!(calc_literal_cost(&e("[1, 2, 3]"), true), (true, 5));
    assert_eq!(calc_literal_cost(&e("[[1], [2, 3]]"), true), (true, 4 + 3 + 4));
    assert_eq!(calc_literal_cost(&e("({})"), true), (true, 0));
    assert_eq!(calc_literal_cost(&e("({a: 1})"), true), (true, 2 + 1 + 1));
    assert_eq!(calc_literal_cost(&e("({abc: 1, 'de': 2})"), true), (true, (2 + 3 + 1) + (2 + 2 + 1)));
    assert_eq!(calc_literal_cost(&e("({'é': 1})"), true), (true, 2 + 2 + 1));
    assert_eq!(calc_literal_cost(&e("({7: 1})"), true), (true, 5 + 1));
    assert_eq!(calc_literal_cost(&e("({a: [1, 2]})"), true), (true, 3 + 4 + 1));
    assert_eq!(calc_literal_cost(&e("({1.5: 1})"), true), (false, 1));
    assert_eq!(calc_literal_cost(&e("[1, x, [2]]"), true), (false, 5));
    assert_eq!(calc_literal_cost(&e("({a: x, b: 1})"), true), (false, 4));
    assert_eq!(calc_literal_cost(&e("({a: x})"), true), (false, 4));
    assert_eq!(calc_literal_cost(&e("({a: 1, b: [x], c: 2})"), true), (false, 4 + 3 + 3 + 1));
}

#[test]
fn literals_of_json() {
    assert_eq!(calc_literal_cost(&e("[1, , 2]"), true), (true, 5));
    assert_eq!(calc_literal_cost(&e("[1, , 2]"), false), (false, 5));
    assert_eq!(calc_literal_cost(&e("1e999"), true), (true, 0));
    assert_eq!(calc_literal_cost(&e("1e999"), false), (false, 0));
    assert_eq!(calc_literal_cost(&e("[1e999]"), false), (false, 3));
}

#[test]
fn whole_numbers() {
    for v in [0.0f64, -0.0, 1.0, -1.0, 2.0, 3.0, 1e15, 4503599627370496.0, 9007199254740992.0, 1e300, -1e300, 123456.0] {
        assert!(integral(v.to_bits()), "{} is whole", v);
    }
    for v in [0.5f64, -0.5, 1.5, 1e-10, -1e-10, 123456.5, 4503599627370495.5, f64::NAN, f64::INFINITY,
        f64::NEG_INFINITY, f64::MIN_POSITIVE, 5e-324] {
        assert!(!integral(v.to_bits()), "{} is not whole", v);
    }
}

#[test]
fn immutable_values() {
    for src in ["1", "'a'", "true", "null", "!1", "~1", "void 0", "!!~void 'a'", "undefined", "Infinity",
        "NaN", "`a`", "`a${1}b${'c'}`"] {
        assert!(is_immutable_value_impl(&e(src)), "`{}`", src);
        assert!(e(src).is_immutable_value());
    }
    for src in ["x", "-1", "+1", "typeof 1", "[]", "({})", "/x/", "f()", "`a${x}`", "!x", "10n"] {
        assert!(!is_immutable_value_impl(&e(src)), "`{}`", src);
    }
}

#[test]
fn shapes() {
    assert!(e("1").is_number());
    assert!(!e("'1'").is_number());
    assert!(e("'1'").is_str());
    assert!(e("[]").is_array_lit());
    assert!(e("NaN").is_nan());
    assert!(e("undefined").is_undefined());
    assert!(!e("void 0").is_undefined());
    assert!(e("void 0").is_void());
    assert!(e("x").is_ident_ref_to("x"));
    assert!(!e("x").is_ident_ref_to("y"));
    assert!(!e("x.y").is_ident_ref_to("x"));
    assert_eq!(e("1").get_type(), Value::Known(Type::Num));
    assert_eq!(e("1").as_bool(), (Purity::Pure, Value::Known(true)));
    assert_eq!(e("true").as_number(), num(1.0));
    assert_eq!(e("true").as_string(), text("true"));
    assert_eq!(Box::new(e("true")).as_string(), text("true"));
    let call = match e("f(...arguments, ...rest, arguments)") {
        Expr::Call { args, .. } => args,
        _ => unreachable!(),
    };
    assert!(is_rest_arguments_impl(&call[0]));
    assert!(!is_rest_arguments_impl(&call[1]));
    assert!(!is_rest_arguments_impl(&call[2]));
}

// ---- dead code

#[test]
fn expression_statements_without_effect_go() {
    check_dce("1;", "");
    check_dce("x; 'a'; null; f; (1, 2);", "");
    check_dce("f();", "f();");
    check_dce("-f();", "f();");
    check_dce("x + f() + g();", "f(), g();");
    check_dce("[1, f()];", "[f()];");
    check_dce("'use strict'; f();", "f();");
}

#[test]
fn ifs_without_a_body_become_their_test() {
    check_dce("if (x) {}", "");
    check_dce("if (x);", "");
    check_dce("if (f()) {}", "f();");
    check_dce("if (f());", "f();");
    check_dce("if (-f()) {}", "f();");
    check_dce("if (x) {} else {}", "");
    check_dce("if (f()) {} else {}", "f();");
    check_dce("if (x) f(); else {}", "if (x) f();");
    check_dce("if (x) f(); else;", "if (x) f();");
    check_dce("if (x) f(); else g();", "if (x) f(); else g();");
    assert_eq!(simplify_stmt(Stmt::Block(vec![])), Stmt::Empty);
}

#[test]
fn ifs_with_a_known_test_become_a_branch() {
    check_dce("if (true) f();", "f();");
    check_dce("if (1) f(); else g();", "f();");
    check_dce("if (0) f(); else g();", "g();");
    check_dce("if (false) f(); g();", "g();");
    check_dce("if (false) f();", "");
    check_dce("if (x = 0) a();", "if (x = 0) a();");
    check_dce("if ((f(), 1)) a();", "if ((f(), 1)) a();");
    check_dce("if (new Date()) a();", "a();");
    check_dce("while (x) if (true) f();", "while (x) f();");
    check_dce("if (x) if (0) f();", "");
    check_dce("if (void 0) f(); else { g(); h(); }", "{ g(); h(); }");
    check_dce("if (x) f();", "if (x) f();");
    check_dce("if ([f()]) g();", "if ([f()]) g();");
    check_dce("if (undefined) f(); else g();", "g();");
    check_dce("if (!0) f();", "f();");
    check_dce("if ('') f(); else g();", "g();");
}

#[test]
fn blocks_are_unwrapped() {
    check_dce("{}", "");
    check_dce("{ f(); }", "f();");
    check_dce("{ { f(); } }", "f();");
    check_dce("{ f(); g(); }", "{ f(); g(); }");
    check_dce("{ 1; f(); 2; }", "f();");
    check_dce("while (x) { f(); }", "while (x) f();");
    check_dce("while (x) {}", "while (x);");
    check_dce("{ var x = 1; }", "var x = 1;");
    check_dce("{ function f() {} }", "function f() {}");
    check_dce("{ let x = 1; }", "{ let x = 1; }");
    check_dce("{ const x = 1; }", "{ const x = 1; }");
    check_dce("{ class A {} }", "{ class A {} }");
    check_dce("{ 1; let x = 1; }", "{ let x = 1; }");
    check_dce("{ let x = 1; f(x); }", "{ let x = 1; f(x); }");
}

#[test]
fn code_after_a_transfer_of_control_goes() {
    check_dce("function f() { return 1; g(); h(); }", "function f() { return 1; }");
    check_dce("function f() { g(); throw x; h(); }", "function f() { g(); throw x; }");
    check_dce("while (x) { f(); break; g(); }", "while (x) { f(); break; }");
    check_dce("while (x) { continue; g(); }", "while (x) continue;");
    check_dce("a: { f(); break a; g(); }", "a: { f(); break a; }");
    check_dce("function f() { if (x) { return; g(); } h(); }", "function f() { if (x) return; h(); }");
    check_dce("function f() { if (true) return; g(); }", "function f() { return; }");
    check_dce("function f() { if (0) g(); else throw x; h(); }", "function f() { throw x; }");
}

#[test]
fn tries_with_nothing_to_try_go() {
    check_dce("try {} catch (e) { f(); }", "");
    check_dce("try {} finally { f(); }", "{ f(); }");
    check_dce("try {} finally { let x = f(); }", "{ let x = f(); }");
    check_dce("try {} finally {}", "{}");
    check_dce("try {} finally { 1; }", "{}");
    check_dce("try {} catch (e) { f(); } finally { g(); h(); }", "{ g(); h(); }");
    check_dce("try { f(); } catch (e) {}", "{ f(); }");
    check_dce("try { f(); g(); } finally {}", "{ f(); g(); }");
    check_dce("try { f(); } catch (e) {} finally {}", "{ f(); }");
    check_dce("try { f(); } catch (e) { g(); }", "try { f(); } catch (e) { g(); }");
    check_dce("try { f(); } finally { g(); }", "try { f(); } finally { g(); }");
    check_dce("try { 1; } catch (e) { g(); }", "");
    check_dce("function f() { try { return; g(); } finally {} }", "function f() { { return; } }");
}

#[test]
fn sequences_keep_what_has_an_effect() {
    check_dce("x = (1, f(), y, g());", "x = (f(), g());");
    check_dce("x = (a + f(), b);", "x = (f(), b);");
    assert_eq!(
        dce(script("x = (1, 2);")),
        script("x = (2);")
            .into_iter()
            .map(|s| match s {
                Stmt::Expr(e) => match *e {
                    Expr::Assign { op, left, right } => match *right {
                        Expr::Paren(two) => Stmt::Expr(Box::new(Expr::Assign {
                            op,
                            left,
                            right: Box::new(Expr::Paren(Box::new(Expr::Sequence { init: vec![], last: two }))),
                        })),
                        other => panic!("{:?}", other),
                    },
                    other => panic!("{:?}", other),
                },
                other => other,
            })
            .collect::<Vec<Stmt>>()
    );
}

#[test]
fn defaults_that_a_binding_has_anyway_go() {
    check_dce("function f(a = undefined, b = void 0, c = 1, d = void g()) {}", "function f(a, b, c = 1, d = void g()) {}");
    check_dce("var {a = undefined, b = void 0, c = 2} = x;", "var {a, b, c = 2} = x;");
    check_dce("var [a = void x, b = f()] = y;", "var [a, b = f()] = y;");
    let p = match script("var [a = undefined] = y;").remove(0) {
        Stmt::Decl(Decl::Var(mut d)) => match d.decls.remove(0).name {
            Pat::Array(mut elems) => elems.remove(0).unwrap(),
            other => panic!("{:?}", other),
        },
        other => panic!("{:?}", other),
    };
    assert_eq!(simplify_pat(p), Pat::Ident(Ident { sym: "a".to_string(), ctxt: 0 }));
}

#[test]
fn dead_code_goes_everywhere() {
    check_dce("var f = function() { 1; return; g(); };", "var f = function() { return; };");
    check_dce("var f = () => { if (x) {} };", "var f = () => {};");
    check_dce("class A { m() { 1; } constructor() { 2; f(); } }", "class A { m() {} constructor() { f(); } }");
    check_dce("var o = { m() { 1; }, get a() { 2; return 1; 3; }, set a(v) { 4; } };", "var o = { m() {}, get a() { return 1; }, set a(v) {} };");
    check_dce("switch (x) { case 9: 1; f(); break; g(); default: {} }", "switch (x) { case 9: f(); break; default: }");
    check_dce("for (;;) { 1; }", "for (;;);");
    check_dce("do { ; } while (x);", "do ; while (x);");
    check_dce("l: { 1; }", "l: ;");
}

#[test]
fn removing_dead_code_twice() {
    for src in ["f(); 1; if (x) {} g();", "function f() { return 1; g(); }",
        "x = (1, f(), 2);", "{ { f(); } } while (x) { 1; }", "if (false) f(); g();",
        "try { f(); } catch (e) { g(); }", "if (x) {} else {}", "{ let x = 1; }",
        "function f() { if (true) return; g(); }", "try { f(); } finally { g(); h(); }",
        "try {} finally { f(); g(); }", "try { let x = f(); } finally {}",
        "Math.sin(Math.cos(f()));", "x + f() + [g(), 1];", "Math.sin(f());",
        "(function() { a(); })();", "(function() {})(f());", "x = Math.sin(a) * 2;",
        "Date(f(), ...g());", "Math.sin(1) + g();", "-Math.sin(x);", "x || Math.sin(1);",
        "if (Math.random() < 0.5) { f(); }", "[Math.sin(1), ...a];", "a, Math.sin(f()), b;",
        "typeof (x || Math.sin(1));", "var y = (a || Math.max(b, c)) * 2;"] {
        let once = dce(script(src));
        let twice = dce(dce(script(src)));
        assert_eq!(once, twice, "`{}`", src);
    }
    // The block that is left of a `try` is one that the rule for blocks changes.
    assert_eq!(dce(script("try {} finally { f(); }")), script("{ f(); }"));
    assert_eq!(dce(dce(script("try {} finally { f(); }"))), script("f();"));
    assert_eq!(dce(script("try { f(); } catch (e) {}")), script("{ f(); }"));
    assert_eq!(dce(dce(script("try { f(); } catch (e) {}"))), script("f();"));
    assert_eq!(dce(dce(script("try {} finally {}"))), script(""));
    // What is left of a sum keeps a call that has no effect of its own whole,
    // and the next run takes it apart.
    let once = dce(script("(x || Math.sin(1)) + g();"));
    assert_eq!(once, script("Math.sin(1), g();"));
    let twice = dce(dce(script("(x || Math.sin(1)) + g();")));
    assert_ne!(once, twice);
    assert_eq!(dce(dce(dce(script("(x || Math.sin(1)) + g();")))), twice);
}

#[test]
fn nothing_follows_a_transfer_of_control() {
    for src in ["function f() { if (true) return; g(); }", "if (false) f();",
        "a: { if (1) break a; f(); }", "function f() { ; ; if (0) ; else return 1; 2; }"] {
        for s in dce(script(src)) {
            let body = match s {
                Stmt::Decl(Decl::Fn { function, .. }) => function.body.unwrap(),
                Stmt::Labeled { body, .. } => match *body {
                    Stmt::Block(b) => b,
                    other => vec![other],
                },
                other => vec![other],
            };
            for (i, x) in body.iter().enumerate() {
                assert_ne!(*x, Stmt::Empty);
                let ends = matches!(x, Stmt::Return(_) | Stmt::Throw(_) | Stmt::Break(_) | Stmt::Continue(_));
                assert!(!ends || i + 1 == body.len(), "`{}`", src);
            }
        }
    }
}

#[test]
fn uses_are_counted() {
    let name = |s: &str, ctxt: u32| Ident { sym: s.to_string(), ctxt };
    let mut s = Scope::new(None);
    assert!(!s.record_use(&name("a", 0)));
    assert_eq!(s.get(&name("a", 0)), None);
    s.declare(&name("a", 0));
    assert!(s.record_use(&name("a", 0)));
    assert!(s.record_use(&name("a", 0)));
    assert!(!s.record_use(&name("a", 1)));
    assert_eq!(s.get(&name("a", 0)), Some(VarInfo { cnt: 2 }));

    let t = tracked_scope_of(&script("var a = 1, b, c; f(a, b); a = 2; g(a + a); c++; x;"), Some(1));
    assert_eq!(t.get(&name("a", 0)), Some(VarInfo { cnt: 3 }));
    assert_eq!(t.get(&name("b", 0)), Some(VarInfo { cnt: 1 }));
    assert_eq!(t.get(&name("f", 0)), None);
    assert_eq!(t.get(&name("x", 0)), None);
    assert_eq!(t.enclosing(), Some(1));

    let (out, scope) = dce_with_scope(script("var a = 1; a; if (false) f(a); g(a);"));
    assert_eq!(out, script("var a = 1; g(a);"));
    assert_eq!(scope.get(&name("a", 0)), Some(VarInfo { cnt: 1 }));
    assert_eq!(scope.enclosing(), None);
}

fn params_of(src: &str) -> Vec<Pat> {
    match script(src).remove(0) {
        Stmt::Decl(Decl::Fn { function, .. }) => function.params,
        other => panic!("{:?}", other),
    }
}

#[test]
fn questions_about_trees() {
    let name = |s: &str, ctxt: u32| Ident { sym: s.to_string(), ctxt };
    assert!(contains_this_expr(&script("f(this);")));
    assert!(contains_this_expr(&script("x; if (y) { z = [1, this.a]; }")));
    assert!(contains_this_expr(&script("var f = () => this.a;")));
    assert!(!contains_this_expr(&script("function f() { return this; }")));
    assert!(!contains_this_expr(&script("var f = function() { this; };")));
    assert!(!contains_this_expr(&script("class A { constructor() { this.a = 1; } m() { this; } }")));
    assert!(!contains_this_expr(&script("var o = { m() { this; } };")));
    assert!(!contains_this_expr(&script("x;")));
    assert!(!contains_this_expr(&script("")));

    assert!(has_rest_pat(&params_of("function f(a, ...b) {}")));
    assert!(has_rest_pat(&params_of("function f(a, [b, ...c]) {}")));
    assert!(has_rest_pat(&params_of("function f({a, ...b}) {}")));
    assert!(has_rest_pat(&params_of("function f(a = function(...b) {}) {}")));
    assert!(!has_rest_pat(&params_of("function f(a, b = [...c]) {}")));
    assert!(!has_rest_pat(&params_of("function f(a, [b], {c}) {}")));
    assert!(!has_rest_pat(&params_of("function f() {}")));

    assert!(contains_ident_ref(&script("f(a);"), &name("a", 0)));
    assert!(contains_ident_ref(&script("function g() { return [1, a + 1]; }"), &name("a", 0)));
    assert!(contains_ident_ref(&script("b = {a};"), &name("a", 0)));
    assert!(!contains_ident_ref(&script("var a = 1;"), &name("a", 0)));
    assert!(!contains_ident_ref(&script("b.a; ({a: 1});"), &name("a", 0)));
    assert!(!contains_ident_ref(&script("f(a);"), &name("a", 1)));
    assert!(!contains_ident_ref(&script("f(a);"), &name("f2", 0)));

    assert!(UsageFinder::find(&name("a", 0), &script("var a = 1;")));
    assert!(UsageFinder::find(&name("a", 0), &script("f(a);")));
    assert!(UsageFinder::find(&name("a", 0), &script("function g(a) {}")));
    assert!(!UsageFinder::find(&name("a", 0), &script("b.a;")));
    assert!(!UsageFinder::find(&name("a", 1), &script("var a = 1;")));
    assert!(!UsageFinder::find(&name("a", 0), &script("x;")));
}

#[test]
fn reducing_what_was_reduced() {
    for src in ["f() + g()", "[f(), 1, ...a]", "(a, f())", "-x.y", "x || f()", "!(f(), g())",
        "delete a.b", "({a: f()})", "a[f()] - (b = 1) * c++", "[[f()], [1], [[g(), 2]]]",
        "(f(), 1)", "x ? f() : g()", "new Foo(f()) + new Date()", "-(-(a.b))"] {
        let once = ignore_result(e(src)).unwrap();
        assert_eq!(ignore_result(once.duplicate()), Some(once), "`{}`", src);
    }
    // A call of a callee without effect is kept whole among the effects of a
    // sum, and taken apart when it is reduced again.
    let once = ignore_result(e("f() + (x || Math.sin(1))")).unwrap();
    assert_eq!(once, e("f(), Math.sin(1)"));
    let twice = ignore_result(once.duplicate()).unwrap();
    assert_ne!(twice, once);
    assert_eq!(ignore_result(twice.duplicate()), Some(twice));
    // So, on its own, is a sequence with an operand that can go.
    let once = ignore_result(e("(1, 2)")).unwrap();
    assert_eq!(ignore_result(once), None);
}

#[test]
fn annotations_in_comments() {
    let texts = |v: &[&str]| v.iter().map(|s| s.to_string()).collect::<Vec<String>>();
    assert_eq!(annotation_of(&texts(&[])), Annotation::Plain);
    assert_eq!(annotation_of(&texts(&["* @const "])), Annotation::Const);
    assert_eq!(annotation_of(&texts(&["@define"])), Annotation::Define);
    assert_eq!(annotation_of(&texts(&[" a ", "* @const ", "*\n * @define {string}\n "])), Annotation::Define);
    assert_eq!(annotation_of(&texts(&["* @define {string}", "* @const "])), Annotation::Define);
    assert_eq!(annotation_of(&texts(&["@cons", "const", "@ define", "@defin"])), Annotation::Plain);
    assert_eq!(annotation_of(&texts(&["", "x@const"])), Annotation::Const);
    let chars = |s: &str| s.chars().collect::<Vec<char>>();
    assert!(holds_text_impl(&chars("abc"), &chars("")));
    assert!(holds_text_impl(&chars(""), &chars("")));
    assert!(holds_text_impl(&chars("abc"), &chars("bc")));
    assert!(holds_text_impl(&chars("abc"), &chars("abc")));
    assert!(!holds_text_impl(&chars("abc"), &chars("abcd")));
    assert!(!holds_text_impl(&chars("abc"), &chars("ca")));
    assert!(stands_at_impl(&chars("abc"), &chars("bc"), 1));
    assert!(!stands_at_impl(&chars("abc"), &chars("bc"), 2));
    assert!(!stands_at_impl(&chars("abc"), &chars("bc"), 9));
}

// ---- constants

#[test]
fn names_of_constants() {
    for name in ["A", "AA", "ABC", "A_A", "_A", "A_", "XXX"] {
        assert!(is_constant_name_impl(name), "{}", name);
    }
    for name in ["", "_", "__", "a", "Aa", "aA", "A1", "A$", "É"] {
        assert!(!is_constant_name_impl(name), "{}", name);
    }
}

#[test]
fn cost_of_inlining() {
    let off = InlineConfig { inline_all_strings: false };
    let on = InlineConfig { inline_all_strings: true };
    let s = |v: &str| Lit::Str(Str { value: v.to_string(), has_escape: false });
    // kept: 8 + 12 + 4 * reads; inlined: 11 * reads
    assert!(worth_inlining_impl(&off, &s("1234567890"), 0));
    assert!(worth_inlining_impl(&off, &s("1234567890"), 1));
    assert!(worth_inlining_impl(&off, &s("1234567890"), 2));
    assert!(!worth_inlining_impl(&off, &s("1234567890"), 3));
    assert!(!worth_inlining_impl(&off, &s("1234567890"), 4));
    assert!(worth_inlining_impl(&on, &s("1234567890"), 3));
    // a string of three characters costs no more inlined than kept
    assert!(worth_inlining_impl(&off, &s("abc"), 1000000));
    assert!(worth_inlining_impl(&off, &s("abcd"), 10));
    assert!(!worth_inlining_impl(&off, &s("abcd"), 15));
    assert!(worth_inlining_impl(&off, &Lit::Null, 1000000));
    assert!(worth_inlining_impl(&off, &Lit::Bool(true), usize::MAX));
    assert!(!worth_inlining_impl(&off, &s("abcd"), usize::MAX));
}

#[test]
fn occurrences_of_bindings() {
    let program = script("var AA = 1, b; AA; b = 2; AA++; function f(c) { c; }");
    let mut occs: Vec<Occurrence> = Vec::new();
    collect_stmts(&program, &mut occs);
    let kinds: Vec<(String, &str)> = occs
        .iter()
        .map(|o| {
            (o.id.sym.clone(), match o.mark {
                Mark::Decl { .. } => "decl",
                Mark::Assign { .. } => "assign",
                Mark::Bind => "bind",
                Mark::Read => "read",
                Mark::Other => "other",
            })
        })
        .collect();
    let expected = [("AA", "decl"), ("b", "decl"), ("AA", "bind"), ("b", "bind"), ("AA", "read"),
        ("b", "assign"), ("b", "bind"), ("AA", "other"), ("AA", "read"), ("f", "other"), ("c", "bind"),
        ("c", "read")];
    assert_eq!(kinds.len(), expected.len(), "{:?}", kinds);
    for (k, x) in kinds.iter().zip(expected.iter()) {
        assert_eq!((k.0.as_str(), k.1), *x);
    }
    assert!(find_constants(&occs, &InlineConfig { inline_all_strings: false }).is_empty());
}

#[test]
fn constants_that_are_not_inlined() {
    let cfg = InlineConfig { inline_all_strings: false };
    for src in ["var AA = 1; AA++;", "var AA = 1; AA += 1;", "var AA = 1; AA = 2;", "var AA = 1; var AA = 2; AA;",
        "var AA = 1; function AA() {}", "var AA = 1; [AA] = x;", "var AA = 1; ({AA} = x);",
        "for (var AA = 1;;) f(AA);", "for (var AA in x) f(AA);", "var AA = f(); AA;", "var AA = -1; AA;",
        "var AA; AA;", "var AA; AA = f(); AA;", "var {AA} = x; AA;", "function f(AA) { AA; }"] {
        assert_eq!(inline_vars(script(src), &cfg), script(src), "`{}`", src);
    }
}

#[test]
fn constants_in_other_places() {
    let cfg = InlineConfig { inline_all_strings: false };
    let check = |src: &str, expected: &str| assert_eq!(inline_vars(script(src), &cfg), script(expected), "`{}`", src);
    check("var AA = 1, b = 2; f(AA, b);", "var b = 2; f(1, b);");
    check("var AA = 1, BB = 'x'; f(AA, BB);", "f(1, 'x');");
    check("var AA = 1; x = {AA};", "x = {AA: 1};");
    check("var AA = 1; x.AA = AA; y = {AA: AA};", "x.AA = 1; y = {AA: 1};");
    check("var AA = null; function f() { return AA; }", "function f() { return null; }");
    check("var AA = true; while (x) var BB = 2; f(AA, BB);", "while (x); f(true, 2);");
    check("l: var AA = 1;", "l: ;");
    check("var AA = 10n; f(AA);", "f(10n);");
    check("/** @const */ var aa = 'x'; f(aa);", "f('x');");
}

// ---- names and lists

#[test]
fn valid_identifiers() {
    for s in ["a", "A", "abc", "a1", "a_b", "é", "名前"] {
        assert!(is_valid_ident(s), "{}", s);
    }
    for s in ["", "1", "1a", "a-b", "a b", "_a", "$"] {
        assert!(!is_valid_ident(s), "{}", s);
    }
}

#[test]
fn aliases() {
    let plain = |s: &str, ctxt: u32| Ident { sym: s.to_string(), ctxt };
    assert_eq!(alias_ident_for(&e("foo"), "_default", 7), plain("_foo", 7));
    assert_eq!(alias_ident_for(&e("a.b"), "_default", 7), plain("_b", 7));
    assert_eq!(alias_ident_for(&e("a.b.c"), "_default", 7), plain("_c", 7));
    assert_eq!(alias_ident_for(&e("a[b]"), "_default", 7), plain("_b", 7));
    assert_eq!(alias_ident_for(&e("a[1]"), "_default", 7), plain("_default", 7));
    assert_eq!(alias_ident_for(&e("f()"), "_default", 7), plain("_default", 7));
    assert_eq!(alias_if_required(&e("foo"), "_default", 7), (plain("foo", 0), false));
    assert_eq!(alias_if_required(&e("a.b"), "_default", 7), (plain("_b", 7), true));
    assert_eq!(plain("a", 3).prefix("_"), plain("_a", 3));
    assert_eq!(plain("a", 3).private(9), plain("a", 9));
    assert_eq!(id(&plain("a", 3)), ("a".to_string(), 3));
}

#[test]
fn keys_of_properties() {
    let keys = match e("({a: 1, 'b': 2, 3: 3, [c]: 4, ['d']: 5})") {
        Expr::Object(props) => props
            .into_iter()
            .map(|p| match p {
                PropOrSpread::Prop(p) => match *p {
                    Prop::KeyValue { key, .. } => key,
                    other => panic!("{:?}", other),
                },
                other => panic!("{:?}", other),
            })
            .collect::<Vec<PropName>>(),
        other => panic!("{:?}", other),
    };
    assert!(prop_name_eq(&keys[0], "a"));
    assert!(!prop_name_eq(&keys[0], "b"));
    assert!(prop_name_eq(&keys[1], "b"));
    assert!(!prop_name_eq(&keys[2], "3"));
    assert!(!prop_name_eq(&keys[3], "c"));
    assert!(prop_name_eq(&keys[4], "d"));
    let mut keys = keys;
    assert_eq!(prop_name_to_expr(keys.remove(0)), e("a"));
    assert_eq!(prop_name_to_expr_value(PropName::Ident(Ident { sym: "a".to_string(), ctxt: 0 })), e("'a'"));
    assert_eq!(prop_name_to_expr(keys.remove(0)), e("'b'"));
    assert_eq!(prop_name_to_expr_value(keys.remove(0)), e("3"));
    assert_eq!(prop_name_to_expr(keys.remove(0)), e("c"));
}

fn constructor_of(src: &str) -> ClassMember {
    match e(src) {
        Expr::Class { mut class, .. } => class.body.remove(0),
        other => panic!("{:?}", other),
    }
}

#[test]
fn implicit_constructors() {
    assert_eq!(default_constructor(false), constructor_of("class { constructor() {} }"));
    assert_eq!(default_constructor(true), constructor_of("class extends A { constructor(...args) { super(...args); } }"));
}

#[test]
fn directives() {
    let body = script("'use strict'; 'use asm'; f(); 'not one';");
    assert!(body[0].is_use_strict());
    assert!(!body[1].is_use_strict());
    assert!(!body[2].is_use_strict());
    assert!(!script("'use\\x20strict';")[0].is_use_strict());
    assert!(!script("x;")[0].is_use_strict());
}

#[test]
fn prepending_after_directives() {
    let mut body = script("'use strict'; 'use asm'; f(); 'not one';");
    prepend(&mut body, script("g();").remove(0));
    assert_eq!(body, script("'use strict'; 'use asm'; g(); f(); 'not one';"));
    let mut body = script("f();");
    prepend(&mut body, script("g();").remove(0));
    assert_eq!(body, script("g(); f();"));
    let mut body = script("'a'; 'b';");
    prepend(&mut body, script("g();").remove(0));
    assert_eq!(body, script("'a'; 'b'; g();"));
    let mut body = script("'use strict'; f();");
    prepend_stmts(&mut body, script("g(); h();"));
    assert_eq!(body, script("'use strict'; g(); h(); f();"));
    let mut body: Vec<Stmt> = Vec::new();
    prepend_stmts(&mut body, script("g();"));
    assert_eq!(body, script("g();"));
}

#[test]
fn emptiness() {
    assert!(Stmt::Empty.is_empty());
    assert!(script("{}")[0].is_empty());
    assert!(!script("{ f(); }")[0].is_empty());
    assert!(!script("f();")[0].is_empty());
    assert!(script("").is_empty());
    let none: Option<Stmt> = None;
    assert!(none.is_empty());
    assert!(Some(Stmt::Empty).is_empty());
    assert!(Box::new(Stmt::Empty).is_empty());
    assert!(!Some(Box::new(Stmt::Debugger)).is_empty());
    assert!(CatchClause { param: None, body: vec![] }.is_empty());
    assert_eq!(Stmt::from_stmt(Stmt::Empty).try_into_stmt(), Ok(Stmt::Empty));
    assert_eq!(Stmt::Debugger.as_stmt(), Some(&Stmt::Debugger));
}

#[test]
fn scopes() {
    let name = |s: &str, ctxt: u32| Ident { sym: s.to_string(), ctxt };
    let outer = scope_of(&script("var a = 1, [b, {c, d: [e = 2, ...f]}] = x; g(); let h; function i() { var j; }"), None);
    for n in ["a", "b", "c", "e", "f", "h"] {
        assert_eq!(outer.get(&name(n, 0)), Some(VarInfo { cnt: 0 }), "{}", n);
    }
    for n in ["d", "g", "i", "j", "x"] {
        assert_eq!(outer.get(&name(n, 0)), None, "{}", n);
    }
    assert_eq!(outer.get(&name("a", 1)), None);
    assert_eq!(outer.enclosing(), None);

    let mut scopes = Scopes::new();
    let top = scopes.enter(outer);
    let inner = scopes.enter(scope_of(&script("var j, a;"), Some(top)));
    assert_eq!(scopes.lookup(inner, &name("j", 0)), Some(VarInfo { cnt: 0 }));
    assert_eq!(scopes.lookup(inner, &name("b", 0)), Some(VarInfo { cnt: 0 }));
    assert_eq!(scopes.lookup(top, &name("j", 0)), None);
    assert_eq!(scopes.lookup(inner, &name("zz", 0)), None);
    assert_eq!(scopes.lookup(5, &name("a", 0)), None);

    let mut s = Scope::new(Some(3));
    assert_eq!(s.get(&name("a", 0)), None);
    s.declare(&name("a", 0));
    s.declare(&name("a", 0));
    assert_eq!(s.get(&name("a", 0)), Some(VarInfo { cnt: 0 }));
    assert_eq!(s.get(&name("a", 2)), None);
    assert_eq!(s.enclosing(), Some(3));
}

#[test]
fn strings() {
    assert!(str_eq("", ""));
    assert!(str_eq("aé", "aé"));
    assert!(!str_eq("a", "b"));
    assert!(!str_eq("a", "ab"));
    let chars = |s: &str| s.chars().collect::<Vec<char>>();
    assert_eq!(trim(&chars("  a b\t\n")), chars("a b"));
    assert_eq!(trim(&chars("")), chars(""));
    assert_eq!(trim(&chars(" \u{a0}\u{3000}\u{2028}")), chars(""));
    assert_eq!(trim(&chars("\u{feff}a")), chars("\u{feff}a"));
    assert_eq!(trim(&chars("a")), chars("a"));
}

// ---- numbers

/// The conversion as the language defines it, in floating point.
fn int32(d: f64) -> i32 {
    if d.is_nan() || d.is_infinite() {
        return 0;
    }
    (d.trunc() % 4294967296.0) as i64 as i32
}

#[test]
fn numbers_as_32_bit_integers() {
    let cases = [0.0f64, -0.0, 1.0, -1.0, 0.5, -0.5, 1.9, -1.9, 2147483647.0, 2147483648.0, -2147483648.0,
        -2147483649.0, 4294967295.0, 4294967296.0, 4294967297.0, -4294967295.0, -4294967296.0,
        -4294967301.0, 1e10, -1e10, 1e15, 9007199254740991.0, 9007199254740992.0, 1e21, -1e21, 1e300,
        3.5e9, 123456789.75, f64::NAN, f64::INFINITY, f64::NEG_INFINITY, f64::MIN_POSITIVE, 5e-324,
        4503599627370496.5, 6442450944.0, 1.5 * 4294967296.0 * 4294967296.0];
    for d in cases {
        assert_eq!(to_int32(d.to_bits()), int32(d), "{}", d);
    }
    assert_eq!(to_int32(2147483648.0f64.to_bits()), -2147483648);
    assert_eq!(to_int32(4294967295.0f64.to_bits()), -1);
    assert_eq!(to_int32((-4294967301.0f64).to_bits()), -5);
    assert_eq!(to_int32(3.7f64.to_bits()), 3);
}

#[test]
fn kinds_of_numbers() {
    assert!(nan(f64::NAN.to_bits()));
    assert!(nan(0x7ff0_0000_0000_0001));
    assert!(nan(0xfff8_0000_0000_0000));
    assert!(!nan(f64::INFINITY.to_bits()));
    assert!(!nan(1.0f64.to_bits()));
    assert!(infinite(f64::INFINITY.to_bits()));
    assert!(infinite(f64::NEG_INFINITY.to_bits()));
    assert!(!infinite(f64::MAX.to_bits()));
    assert!(!infinite(f64::NAN.to_bits()));
    assert!(zero(0.0f64.to_bits()));
    assert!(zero((-0.0f64).to_bits()));
    assert!(!zero(5e-324f64.to_bits()));
}

// ---- trees

#[test]
fn copies_and_equality() {
    let a = script("var a = [1, , ...b], {c, d: [e = 2]} = f(`x${y}z`); class A extends B { m() {} }");
    let b = copy_stmts(&a);
    assert_eq!(a, b);
    assert!(same_stmts(&a, &b));
    assert!(!same_stmts(&a, &script("var a = [1, , ...b];")));
    assert!(!same_stmts(&script("f(1);"), &script("f(2);")));
    assert!(!same_stmts(&script("f(1);"), &script("f(1); g();")));
    assert!(!same_stmts(&script("a.b;"), &script("a[b];")));
    assert!(same_stmts(&script(""), &script("")));
    assert!(e("x + 1").same(&e("x+1")));
    assert!(!e("x + 1").same(&e("x - 1")));
    assert_eq!(e("x + 1").duplicate(), e("x + 1"));
}

#[test]
fn dead_code_of_modules() {
    let import = || {
        ModuleItem::ModuleDecl(ModuleDecl::ExportDefaultExpr(Box::new(e("x"))))
    };
    let stmt = |src: &str| ModuleItem::Stmt(script(src).remove(0));
    let module = Module {
        body: vec![stmt("1;"), import(), stmt("if (true) f();"), stmt("{ g(); }"), stmt("throw x;"), import()],
    };
    let out = dce_module(module);
    assert_eq!(out.body, vec![import(), stmt("f();"), stmt("g();"), stmt("throw x;")]);
    assert_eq!(stmt("x;").try_into_stmt(), Ok(script("x;").remove(0)));
    assert_eq!(import().try_into_stmt(), Err(import()));
    assert_eq!(import().as_stmt(), None);
    assert!(import().try_into_module_decl().is_ok());
    assert_eq!(stmt("x;").try_into_module_decl(), Err(stmt("x;")));
    assert_eq!(Stmt::Empty.try_into_module_decl(), Err(Stmt::Empty));
    let mut body = vec![stmt("'use strict';"), import()];
    prepend(&mut body, stmt("f();"));
    assert_eq!(body, vec![stmt("'use strict';"), stmt("f();"), import()]);
}

#[test]
fn ends_with_a_jump() {
    for src in ["return;", "break;", "continue;", "f(); return 1;"] {
        let body = match e(&format!("function() {{ while (x) {{ {} }} }}", src)) {
            Expr::Fn { function, .. } => match function.body.unwrap().remove(0) {
                Stmt::While { body, .. } => match *body {
                    Stmt::Block(stmts) => stmts,
                    other => vec![other],
                },
                other => panic!("{:?}", other),
            },
            other => panic!("{:?}", other),
        };
        assert!(body.ends_with_ret(), "{}", src);
    }
    assert!(!script("f();").ends_with_ret());
    assert!(!script("").ends_with_ret());
    assert!(!script("throw x;")[0].ends_with_ret());
    assert!(!script("function f() { return; } f();").ends_with_ret());
}

#[test]
fn options() {
    let rule = Rule::default();
    assert!(!rule.no_implicit_any && !rule.always_strict && !rule.no_unused_parameters);
    let strict = Rule { always_strict: true, ..rule };
    let config = Config::new(true, "out".to_string(), strict, vec!["es5".to_string()]);
    assert!(config.emits_declarations());
    assert_eq!(config.declarations_go_to(), "out");
    assert!(config.rule.always_strict);
    assert_eq!(config.libs, vec!["es5".to_string()]);
    assert_eq!(Exports { vars: 1, types: 2 }, Exports { vars: 1, types: 2 });
}
