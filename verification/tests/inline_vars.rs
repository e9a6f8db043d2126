//! The constant inliner on small scripts.

use ecma_simplify::ast::{
    Annotation, AssignOp, BinaryOp, BlockStmtOrExpr, CatchClause, Class, ClassMember, Decl, Expr,
    ExprOrSpread, ExprOrSuper, Function, Ident, Lit, MemberProp, MethodKind, Number, ObjectPatProp,
    Pat, PatOrExpr, Prop, PropName, PropOrSpread, Regex, Stmt, Str, SwitchCase, Tpl, TplElement,
    TsCast, UnaryOp, UpdateOp, VarDecl, VarDeclKind, VarDeclOrExpr, VarDeclOrPat, VarDeclarator,
};
use ecma_simplify::inline_vars::{fold, fold_same, inline_vars, InlineConfig};
use ecma_simplify::usage::annotation_of;
use swc_common::comments::{Comments, SingleThreadedComments};
use swc_common::BytePos;
use swc_ecma_ast as swc;
use swc_ecma_parser::{Parser, StringInput, Syntax};

type Notes = SingleThreadedComments;

type Res<T> = Result<T, String>;

fn unsupported<T>(what: &str) -> Res<T> {
    Err(format!("the tree holds {}, which the passes do not take", what))
}

fn ident(i: &swc::Ident) -> Ident {
    Ident { sym: i.sym.to_string(), ctxt: i.ctxt.as_u32() }
}

fn ident_name(i: &swc::IdentName) -> Ident {
    Ident { sym: i.sym.to_string(), ctxt: 0 }
}

fn number(n: &swc::Number) -> Number {
    let text = if n.value.is_infinite() {
        if n.value > 0.0 { "Infinity".to_string() } else { "-Infinity".to_string() }
    } else {
        format!("{}", n.value)
    };
    Number { bits: n.value.to_bits(), text }
}

fn string(s: &swc::Str) -> Str {
    let has_escape = match &s.raw {
        Some(raw) => raw.contains('\\'),
        None => false,
    };
    Str { value: s.value.to_string_lossy().into_owned(), has_escape }
}

fn lit(l: &swc::Lit) -> Res<Lit> {
    Ok(match l {
        swc::Lit::Str(s) => Lit::Str(string(s)),
        swc::Lit::Bool(b) => Lit::Bool(b.value),
        swc::Lit::Null(_) => Lit::Null,
        swc::Lit::Num(n) => Lit::Num(number(n)),
        swc::Lit::BigInt(b) => Lit::BigInt(b.value.to_string()),
        swc::Lit::Regex(r) => Lit::Regex(Regex { exp: r.exp.to_string(), flags: r.flags.to_string() }),
        swc::Lit::JSXText(_) => return unsupported("JSX"),
    })
}

fn unary_op(op: swc::UnaryOp) -> UnaryOp {
    match op {
        swc::UnaryOp::Minus => UnaryOp::Minus,
        swc::UnaryOp::Plus => UnaryOp::Plus,
        swc::UnaryOp::Bang => UnaryOp::Bang,
        swc::UnaryOp::Tilde => UnaryOp::Tilde,
        swc::UnaryOp::TypeOf => UnaryOp::TypeOf,
        swc::UnaryOp::Void => UnaryOp::Void,
        swc::UnaryOp::Delete => UnaryOp::Delete,
    }
}

fn binary_op(op: swc::BinaryOp) -> Res<BinaryOp> {
    Ok(match op {
        swc::BinaryOp::EqEq => BinaryOp::EqEq,
        swc::BinaryOp::NotEq => BinaryOp::NotEq,
        swc::BinaryOp::EqEqEq => BinaryOp::EqEqEq,
        swc::BinaryOp::NotEqEq => BinaryOp::NotEqEq,
        swc::BinaryOp::Lt => BinaryOp::Lt,
        swc::BinaryOp::LtEq => BinaryOp::LtEq,
        swc::BinaryOp::Gt => BinaryOp::Gt,
        swc::BinaryOp::GtEq => BinaryOp::GtEq,
        swc::BinaryOp::LShift => BinaryOp::LShift,
        swc::BinaryOp::RShift => BinaryOp::RShift,
        swc::BinaryOp::ZeroFillRShift => BinaryOp::ZeroFillRShift,
        swc::BinaryOp::Add => BinaryOp::Add,
        swc::BinaryOp::Sub => BinaryOp::Sub,
        swc::BinaryOp::Mul => BinaryOp::Mul,
        swc::BinaryOp::Div => BinaryOp::Div,
        swc::BinaryOp::Mod => BinaryOp::Mod,
        swc::BinaryOp::BitOr => BinaryOp::BitOr,
        swc::BinaryOp::BitXor => BinaryOp::BitXor,
        swc::BinaryOp::BitAnd => BinaryOp::BitAnd,
        swc::BinaryOp::LogicalOr => BinaryOp::LogicalOr,
        swc::BinaryOp::LogicalAnd => BinaryOp::LogicalAnd,
        swc::BinaryOp::In => BinaryOp::In,
        swc::BinaryOp::InstanceOf => BinaryOp::InstanceOf,
        swc::BinaryOp::Exp => BinaryOp::Exp,
        swc::BinaryOp::NullishCoalescing => return unsupported("`??`"),
    })
}

fn assign_op(op: swc::AssignOp) -> Res<AssignOp> {
    Ok(match op {
        swc::AssignOp::Assign => AssignOp::Assign,
        swc::AssignOp::AddAssign => AssignOp::AddAssign,
        swc::AssignOp::SubAssign => AssignOp::SubAssign,
        swc::AssignOp::MulAssign => AssignOp::MulAssign,
        swc::AssignOp::DivAssign => AssignOp::DivAssign,
        swc::AssignOp::ModAssign => AssignOp::ModAssign,
        swc::AssignOp::LShiftAssign => AssignOp::LShiftAssign,
        swc::AssignOp::RShiftAssign => AssignOp::RShiftAssign,
        swc::AssignOp::ZeroFillRShiftAssign => AssignOp::ZeroFillRShiftAssign,
        swc::AssignOp::BitOrAssign => AssignOp::BitOrAssign,
        swc::AssignOp::BitXorAssign => AssignOp::BitXorAssign,
        swc::AssignOp::BitAndAssign => AssignOp::BitAndAssign,
        swc::AssignOp::ExpAssign => AssignOp::ExpAssign,
        _ => return unsupported("a logical assignment"),
    })
}

fn exprs(notes: &Notes, v: &[Box<swc::Expr>]) -> Res<Vec<Expr>> {
    v.iter().map(|e| expr(notes, e)).collect()
}

fn boxed(notes: &Notes, e: &swc::Expr) -> Res<Box<Expr>> {
    Ok(Box::new(expr(notes, e)?))
}

fn args(notes: &Notes, v: &[swc::ExprOrSpread]) -> Res<Vec<ExprOrSpread>> {
    v.iter().map(|x| expr_or_spread(notes, x)).collect()
}

fn expr_or_spread(notes: &Notes, e: &swc::ExprOrSpread) -> Res<ExprOrSpread> {
    Ok(ExprOrSpread { spread: e.spread.is_some(), expr: expr(notes, &e.expr)? })
}

fn stmts(notes: &Notes, v: &[swc::Stmt]) -> Res<Vec<Stmt>> {
    v.iter().map(|x| stmt(notes, x)).collect()
}

fn pats(notes: &Notes, v: &[swc::Param]) -> Res<Vec<Pat>> {
    v.iter().map(|p| pat(notes, &p.pat)).collect()
}

fn tpl(notes: &Notes, t: &swc::Tpl) -> Res<Tpl> {
    let quasis = t
        .quasis
        .iter()
        .map(|q| TplElement {
            tail: q.tail,
            cooked: q.cooked.as_ref().map(|c| c.to_string_lossy().into_owned()),
            raw: q.raw.to_string(),
        })
        .collect();
    Ok(Tpl { exprs: exprs(notes, &t.exprs)?, quasis })
}

fn function(notes: &Notes, f: &swc::Function) -> Res<Function> {
    let body = match &f.body {
        Some(b) => Some(stmts(notes, &b.stmts)?),
        None => None,
    };
    Ok(Function { params: pats(notes, &f.params)?, body, is_generator: f.is_generator, is_async: f.is_async })
}

fn prop_name(notes: &Notes, k: &swc::PropName) -> Res<PropName> {
    Ok(match k {
        swc::PropName::Ident(i) => PropName::Ident(ident_name(i)),
        swc::PropName::Str(s) => PropName::Str(string(s)),
        swc::PropName::Num(n) => PropName::Num(number(n)),
        swc::PropName::Computed(c) => PropName::Computed(boxed(notes, &c.expr)?),
        swc::PropName::BigInt(_) => return unsupported("a big integer as a key"),
    })
}

fn member_prop(notes: &Notes, p: &swc::MemberProp) -> Res<MemberProp> {
    Ok(match p {
        swc::MemberProp::Ident(i) => MemberProp::Ident(ident_name(i)),
        swc::MemberProp::Computed(c) => MemberProp::Computed(boxed(notes, &c.expr)?),
        swc::MemberProp::PrivateName(_) => return unsupported("a private member"),
    })
}

fn member(notes: &Notes, m: &swc::MemberExpr) -> Res<Expr> {
    Ok(Expr::Member { obj: ExprOrSuper::Expr(boxed(notes, &m.obj)?), prop: member_prop(notes, &m.prop)? })
}

fn prop(notes: &Notes, p: &swc::Prop) -> Res<Prop> {
    Ok(match p {
        swc::Prop::Shorthand(i) => Prop::Shorthand(ident(i)),
        swc::Prop::KeyValue(kv) => Prop::KeyValue { key: prop_name(notes, &kv.key)?, value: boxed(notes, &kv.value)? },
        swc::Prop::Assign(_) => return unsupported("a default in an object literal"),
        swc::Prop::Getter(g) => Prop::Getter { key: prop_name(notes, &g.key)?, body: function(notes, &g.function)?.body },
        swc::Prop::Setter(s) => {
            let f = function(notes, &s.function)?;
            let mut params = f.params;
            if params.len() != 1 {
                return unsupported("a setter that does not take one parameter");
            }
            Prop::Setter { key: prop_name(notes, &s.key)?, param: params.remove(0), body: f.body }
        },
        swc::Prop::Method(m) => Prop::Method { key: prop_name(notes, &m.key)?, function: function(notes, &m.function)? },
    })
}

fn class(notes: &Notes, c: &swc::Class) -> Res<Class> {
    let super_class = match &c.super_class {
        Some(e) => Some(boxed(notes, e)?),
        None => None,
    };
    let mut body = Vec::new();
    for m in &c.body {
        body.push(match m {
            swc::ClassMember::Constructor(k) => {
                let mut params = Vec::new();
                for p in &k.params {
                    match p {
                        swc::ParamOrTsParamProp::Param(p) => params.push(pat(notes, &p.pat)?),
                        swc::ParamOrTsParamProp::TsParamProp(_) => {
                            return unsupported("a parameter property");
                        },
                    }
                }
                let stmts = match &k.body {
                    Some(b) => Some(stmts(notes, &b.stmts)?),
                    None => None,
                };
                ClassMember::Constructor { key: prop_name(notes, &k.key)?, params, body: stmts }
            },
            swc::ClassMember::Method(m) => ClassMember::Method {
                key: prop_name(notes, &m.key)?,
                function: function(notes, &m.function)?,
                kind: match m.kind {
                    swc::MethodKind::Method => MethodKind::Method,
                    swc::MethodKind::Getter => MethodKind::Getter,
                    swc::MethodKind::Setter => MethodKind::Setter,
                },
                is_static: m.is_static,
            },
            swc::ClassMember::ClassProp(p) => {
                let (key, computed) = match &p.key {
                    swc::PropName::Ident(i) => (Expr::Ident(ident_name(i)), false),
                    swc::PropName::Str(s) => (Expr::Lit(Lit::Str(string(s))), false),
                    swc::PropName::Num(n) => (Expr::Lit(Lit::Num(number(n))), false),
                    swc::PropName::Computed(c) => (expr(notes, &c.expr)?, true),
                    swc::PropName::BigInt(_) => return unsupported("a big integer as a key"),
                };
                let value = match &p.value {
                    Some(e) => Some(boxed(notes, e)?),
                    None => None,
                };
                ClassMember::Prop { key: Box::new(key), value, is_static: p.is_static, computed }
            },
            _ => return unsupported("a class member of this kind"),
        });
    }
    Ok(Class { super_class, body })
}

fn expr(notes: &Notes, e: &swc::Expr) -> Res<Expr> {
    Ok(match e {
        swc::Expr::This(_) => Expr::This,
        swc::Expr::Array(a) => {
            let mut elems = Vec::new();
            for el in &a.elems {
                elems.push(match el {
                    Some(x) => Some(expr_or_spread(notes, x)?),
                    None => None,
                });
            }
            Expr::Array(elems)
        },
        swc::Expr::Object(o) => {
            let mut props = Vec::new();
            for p in &o.props {
                props.push(match p {
                    swc::PropOrSpread::Spread(s) => PropOrSpread::Spread(boxed(notes, &s.expr)?),
                    swc::PropOrSpread::Prop(p) => PropOrSpread::Prop(Box::new(prop(notes, p)?)),
                });
            }
            Expr::Object(props)
        },
        swc::Expr::Fn(f) => Expr::Fn {
            ident: f.ident.as_ref().map(ident),
            function: Box::new(function(notes, &f.function)?),
        },
        swc::Expr::Unary(u) => Expr::Unary { op: unary_op(u.op), arg: boxed(notes, &u.arg)? },
        swc::Expr::Update(u) => Expr::Update {
            op: match u.op {
                swc::UpdateOp::PlusPlus => UpdateOp::PlusPlus,
                swc::UpdateOp::MinusMinus => UpdateOp::MinusMinus,
            },
            prefix: u.prefix,
            arg: boxed(notes, &u.arg)?,
        },
        swc::Expr::Bin(b) => Expr::Bin {
            op: binary_op(b.op)?,
            left: boxed(notes, &b.left)?,
            right: boxed(notes, &b.right)?,
        },
        swc::Expr::Assign(a) => {
            let left = match &a.left {
                swc::AssignTarget::Simple(swc::SimpleAssignTarget::Ident(b)) => {
                    PatOrExpr::Pat(Box::new(Pat::Ident(ident(&b.id))))
                },
                swc::AssignTarget::Simple(swc::SimpleAssignTarget::Member(m)) => {
                    PatOrExpr::Expr(Box::new(member(notes, m)?))
                },
                swc::AssignTarget::Simple(swc::SimpleAssignTarget::Paren(p)) => {
                    PatOrExpr::Expr(Box::new(Expr::Paren(boxed(notes, &p.expr)?)))
                },
                swc::AssignTarget::Simple(_) => return unsupported("an assignment target of this kind"),
                swc::AssignTarget::Pat(swc::AssignTargetPat::Array(p)) => {
                    PatOrExpr::Pat(Box::new(array_pat(notes, p)?))
                },
                swc::AssignTarget::Pat(swc::AssignTargetPat::Object(p)) => {
                    PatOrExpr::Pat(Box::new(object_pat(notes, p)?))
                },
                swc::AssignTarget::Pat(swc::AssignTargetPat::Invalid(_)) => {
                    return unsupported("an invalid node");
                },
            };
            Expr::Assign { op: assign_op(a.op)?, left, right: boxed(notes, &a.right)? }
        },
        swc::Expr::Member(m) => member(notes, m)?,
        swc::Expr::SuperProp(s) => Expr::Member {
            obj: ExprOrSuper::Super,
            prop: match &s.prop {
                swc::SuperProp::Ident(i) => MemberProp::Ident(ident_name(i)),
                swc::SuperProp::Computed(c) => MemberProp::Computed(boxed(notes, &c.expr)?),
            },
        },
        swc::Expr::Cond(c) => Expr::Cond {
            test: boxed(notes, &c.test)?,
            cons: boxed(notes, &c.cons)?,
            alt: boxed(notes, &c.alt)?,
        },
        swc::Expr::Call(c) => Expr::Call {
            callee: match &c.callee {
                swc::Callee::Super(_) => ExprOrSuper::Super,
                swc::Callee::Expr(e) => ExprOrSuper::Expr(boxed(notes, e)?),
                swc::Callee::Import(_) => return unsupported("a dynamic import"),
            },
            args: args(notes, &c.args)?,
        },
        swc::Expr::New(n) => Expr::New {
            callee: boxed(notes, &n.callee)?,
            args: match &n.args {
                Some(a) => Some(args(notes, a)?),
                None => None,
            },
        },
        swc::Expr::Seq(s) => {
            let mut init = exprs(notes, &s.exprs)?;
            match init.pop() {
                Some(last) => Expr::Sequence { init, last: Box::new(last) },
                None => return unsupported("an empty sequence"),
            }
        },
        swc::Expr::Ident(i) => Expr::Ident(ident(i)),
        swc::Expr::Lit(l) => Expr::Lit(lit(l)?),
        swc::Expr::Tpl(t) => Expr::Tpl(tpl(notes, t)?),
        swc::Expr::TaggedTpl(t) => Expr::TaggedTpl { tag: boxed(notes, &t.tag)?, tpl: tpl(notes, &t.tpl)? },
        swc::Expr::Arrow(a) => Expr::Arrow {
            params: a.params.iter().map(|x| pat(notes, x)).collect::<Res<Vec<Pat>>>()?,
            body: match &*a.body {
                swc::ArrowFunctionBody::FunctionBody(b) => BlockStmtOrExpr::Block(stmts(notes, &b.stmts)?),
                swc::ArrowFunctionBody::Expr(e) => BlockStmtOrExpr::Expr(boxed(notes, e)?),
            },
            is_async: a.is_async,
            is_generator: a.is_generator,
        },
        swc::Expr::Class(c) => Expr::Class {
            ident: c.ident.as_ref().map(ident),
            class: Box::new(class(notes, &c.class)?),
        },
        swc::Expr::Yield(y) => Expr::Yield {
            arg: match &y.arg {
                Some(e) => Some(boxed(notes, e)?),
                None => None,
            },
            delegate: y.delegate,
        },
        swc::Expr::MetaProp(m) => {
            let (meta, prop) = match m.kind {
                swc::MetaPropKind::NewTarget => ("new", "target"),
                swc::MetaPropKind::ImportMeta => ("import", "meta"),
            };
            Expr::MetaProp {
                meta: Ident { sym: meta.to_string(), ctxt: 0 },
                prop: Ident { sym: prop.to_string(), ctxt: 0 },
            }
        },
        swc::Expr::Await(a) => Expr::Await(boxed(notes, &a.arg)?),
        swc::Expr::Paren(p) => Expr::Paren(boxed(notes, &p.expr)?),
        swc::Expr::TsTypeAssertion(t) => Expr::Ts { cast: TsCast::TypeAssertion, expr: boxed(notes, &t.expr)? },
        swc::Expr::TsConstAssertion(t) => Expr::Ts { cast: TsCast::ConstAssertion, expr: boxed(notes, &t.expr)? },
        swc::Expr::TsNonNull(t) => Expr::Ts { cast: TsCast::NonNull, expr: boxed(notes, &t.expr)? },
        swc::Expr::TsAs(t) => Expr::Ts { cast: TsCast::As, expr: boxed(notes, &t.expr)? },
        swc::Expr::PrivateName(p) => Expr::PrivateName(Ident { sym: p.name.to_string(), ctxt: 0 }),
        swc::Expr::OptChain(o) => Expr::OptChain(Box::new(match &*o.base {
            swc::OptChainBase::Member(m) => member(notes, m)?,
            swc::OptChainBase::Call(c) => Expr::Call {
                callee: ExprOrSuper::Expr(boxed(notes, &c.callee)?),
                args: args(notes, &c.args)?,
            },
        })),
        swc::Expr::Invalid(_) => return unsupported("an invalid node"),
        _ => return unsupported("JSX or a type-level form"),
    })
}

fn array_pat(notes: &Notes, p: &swc::ArrayPat) -> Res<Pat> {
    let mut elems = Vec::new();
    for el in &p.elems {
        elems.push(match el {
            Some(x) => Some(pat(notes, x)?),
            None => None,
        });
    }
    Ok(Pat::Array(elems))
}

fn object_pat(notes: &Notes, p: &swc::ObjectPat) -> Res<Pat> {
    let mut props = Vec::new();
    for x in &p.props {
        props.push(match x {
            swc::ObjectPatProp::KeyValue(kv) => ObjectPatProp::KeyValue {
                key: prop_name(notes, &kv.key)?,
                value: Box::new(pat(notes, &kv.value)?),
            },
            swc::ObjectPatProp::Assign(a) => ObjectPatProp::Assign {
                key: ident(&a.key.id),
                value: match &a.value {
                    Some(e) => Some(boxed(notes, e)?),
                    None => None,
                },
            },
            swc::ObjectPatProp::Rest(r) => ObjectPatProp::Rest(Box::new(pat(notes, &r.arg)?)),
        });
    }
    Ok(Pat::Object(props))
}

fn pat(notes: &Notes, p: &swc::Pat) -> Res<Pat> {
    Ok(match p {
        swc::Pat::Ident(b) => Pat::Ident(ident(&b.id)),
        swc::Pat::Array(a) => array_pat(notes, a)?,
        swc::Pat::Rest(r) => Pat::Rest(Box::new(pat(notes, &r.arg)?)),
        swc::Pat::Object(o) => object_pat(notes, o)?,
        swc::Pat::Assign(a) => Pat::Assign { left: Box::new(pat(notes, &a.left)?), right: boxed(notes, &a.right)? },
        swc::Pat::Expr(e) => Pat::Expr(boxed(notes, e)?),
        swc::Pat::Invalid(_) => return unsupported("an invalid node"),
    })
}

fn annotation(comments: &Notes, at: BytePos) -> Annotation {
    let texts: Vec<String> = match comments.get_leading(at) {
        Some(list) => list.iter().map(|c| c.text.to_string()).collect(),
        None => Vec::new(),
    };
    annotation_of(&texts)
}

fn var_decl(notes: &Notes, d: &swc::VarDecl) -> Res<VarDecl> {
    let mut decls = Vec::new();
    for x in &d.decls {
        decls.push(VarDeclarator {
            name: pat(notes, &x.name)?,
            init: match &x.init {
                Some(e) => Some(boxed(notes, e)?),
                None => None,
            },
        });
    }
    Ok(VarDecl {
        kind: match d.kind {
            swc::VarDeclKind::Var => VarDeclKind::Var,
            swc::VarDeclKind::Let => VarDeclKind::Let,
            swc::VarDeclKind::Const => VarDeclKind::Const,
        },
        annotation: annotation(notes, d.span.lo),
        decls,
    })
}

fn for_head(notes: &Notes, h: &swc::ForHead) -> Res<VarDeclOrPat> {
    Ok(match h {
        swc::ForHead::VarDecl(d) => VarDeclOrPat::VarDecl(var_decl(notes, d)?),
        swc::ForHead::Pat(p) => VarDeclOrPat::Pat(pat(notes, p)?),
        swc::ForHead::UsingDecl(_) => return unsupported("a `using` declaration"),
    })
}

fn block(notes: &Notes, b: &swc::BlockStmt) -> Res<Vec<Stmt>> {
    stmts(notes, &b.stmts)
}

fn stmt(notes: &Notes, s: &swc::Stmt) -> Res<Stmt> {
    Ok(match s {
        swc::Stmt::Block(b) => Stmt::Block(block(notes, b)?),
        swc::Stmt::Empty(_) => Stmt::Empty,
        swc::Stmt::Debugger(_) => Stmt::Debugger,
        swc::Stmt::With(w) => Stmt::With { obj: boxed(notes, &w.obj)?, body: Box::new(stmt(notes, &w.body)?) },
        swc::Stmt::Return(r) => Stmt::Return(match &r.arg {
            Some(e) => Some(boxed(notes, e)?),
            None => None,
        }),
        swc::Stmt::Labeled(l) => Stmt::Labeled { label: ident(&l.label), body: Box::new(stmt(notes, &l.body)?) },
        swc::Stmt::Break(b) => Stmt::Break(b.label.as_ref().map(ident)),
        swc::Stmt::Continue(c) => Stmt::Continue(c.label.as_ref().map(ident)),
        swc::Stmt::If(i) => Stmt::If {
            test: boxed(notes, &i.test)?,
            cons: Box::new(stmt(notes, &i.cons)?),
            alt: match &i.alt {
                Some(a) => Some(Box::new(stmt(notes, a)?)),
                None => None,
            },
        },
        swc::Stmt::Switch(s) => {
            let mut cases = Vec::new();
            for c in &s.cases {
                cases.push(SwitchCase {
                    test: match &c.test {
                        Some(e) => Some(boxed(notes, e)?),
                        None => None,
                    },
                    cons: stmts(notes, &c.cons)?,
                });
            }
            Stmt::Switch { discriminant: boxed(notes, &s.discriminant)?, cases }
        },
        swc::Stmt::Throw(t) => Stmt::Throw(boxed(notes, &t.arg)?),
        swc::Stmt::Try(t) => Stmt::Try {
            block: block(notes, &t.block)?,
            handler: match &t.handler {
                Some(h) => Some(CatchClause {
                    param: match &h.param {
                        Some(p) => Some(pat(notes, p)?),
                        None => None,
                    },
                    body: block(notes, &h.body)?,
                }),
                None => None,
            },
            finalizer: match &t.finalizer {
                Some(f) => Some(block(notes, f)?),
                None => None,
            },
        },
        swc::Stmt::While(w) => Stmt::While { test: boxed(notes, &w.test)?, body: Box::new(stmt(notes, &w.body)?) },
        swc::Stmt::DoWhile(w) => Stmt::DoWhile { test: boxed(notes, &w.test)?, body: Box::new(stmt(notes, &w.body)?) },
        swc::Stmt::For(f) => Stmt::For {
            init: match &f.init {
                Some(swc::VarDeclOrExpr::VarDecl(d)) => {
                    Some(VarDeclOrExpr::VarDecl(var_decl(notes, d)?))
                },
                Some(swc::VarDeclOrExpr::Expr(e)) => Some(VarDeclOrExpr::Expr(boxed(notes, e)?)),
                None => None,
            },
            test: match &f.test {
                Some(e) => Some(boxed(notes, e)?),
                None => None,
            },
            update: match &f.update {
                Some(e) => Some(boxed(notes, e)?),
                None => None,
            },
            body: Box::new(stmt(notes, &f.body)?),
        },
        swc::Stmt::ForIn(f) => Stmt::ForIn {
            left: for_head(notes, &f.left)?,
            right: boxed(notes, &f.right)?,
            body: Box::new(stmt(notes, &f.body)?),
        },
        swc::Stmt::ForOf(f) => Stmt::ForOf {
            is_await: f.is_await,
            left: for_head(notes, &f.left)?,
            right: boxed(notes, &f.right)?,
            body: Box::new(stmt(notes, &f.body)?),
        },
        swc::Stmt::Decl(swc::Decl::Class(c)) => {
            Stmt::Decl(Decl::Class { ident: ident(&c.ident), class: class(notes, &c.class)? })
        },
        swc::Stmt::Decl(swc::Decl::Fn(f)) => {
            Stmt::Decl(Decl::Fn { ident: ident(&f.ident), function: function(notes, &f.function)? })
        },
        swc::Stmt::Decl(swc::Decl::Var(d)) => Stmt::Decl(Decl::Var(var_decl(notes, d)?)),
        swc::Stmt::Decl(_) => return unsupported("a declaration of this kind"),
        swc::Stmt::Expr(e) => Stmt::Expr(boxed(notes, &e.expr)?),
    })
}

/// Reads a script.
fn script(src: &str) -> Vec<Stmt> {
    let notes = SingleThreadedComments::default();
    let input = StringInput::new(src, BytePos(1), BytePos(1 + src.len() as u32));
    let mut parser = Parser::new(Syntax::default(), input, Some(&notes));
    let script = match parser.parse_script() {
        Ok(s) => s,
        Err(e) => panic!("{:?}", e),
    };
    match stmts(&notes, &script.body) {
        Ok(v) => v,
        Err(e) => panic!("{}", e),
    }
}

const DEFAULT: InlineConfig = InlineConfig { inline_all_strings: false };

fn test_with(cfg: InlineConfig, src: &str, expected: &str) {
    let out = inline_vars(script(src), &cfg);
    assert_eq!(out, script(expected), "inlining the constants of `{}`", src);
    assert!(fold(&script(src), &script(expected), &cfg));
}

fn test(src: &str, expected: &str) {
    test_with(DEFAULT, src, expected)
}

/// Should not modify expression.
fn test_same(s: &str) {
    test(s, s);
    assert!(fold_same(&script(s), &DEFAULT));
}

#[test]
fn test_inline_variables_constants() {
    test("var ABC=2; var x = ABC;", "var x=2");
    test("var AA = 'aa'; AA;", "'aa'");
    test("var A_A=10; A_A + A_A;", "10+10");
    test("var AA=1", "");
    test("var AA; AA=1", "1");
    test("var AA; if (false) AA=1; AA;", "if (false) 1; 1;");
    test_same("var AA; if (false) AA=1; else AA=2; AA;");

    // Make sure that nothing explodes if there are undeclared variables.
    test_same("var x = AA;");

    // Don't inline if it will make the output larger.
    test_same("var AA = '1234567890'; foo(AA); foo(AA); foo(AA);");

    test("var AA = '123456789012345';AA;", "'123456789012345'");
}

#[test]
fn test_no_inline_arrays_or_regexps() {
    test_same("var AA = [10,20]; AA[0]");
    test_same("var AA = [10,20]; AA.push(1); AA[0]");
    test_same("var AA = /x/; AA.test('1')");
    test_same("/** @const */ var aa = /x/; aa.test('1')");
}

#[test]
fn test_inline_conditionally_defined_constant1() {
    // Note that inlining conditionally defined constants can change the
    // run-time behavior of code (e.g. when y is true and x is false in the
    // example below). We inline them anyway because if the code author didn't
    // want one inlined, they could define it as a non-const variable instead.
    test("if (x) var ABC = 2; if (y) f(ABC);", "if (x); if (y) f(2);");
}

#[test]
fn test_inline_conditionally_defined_constant2() {
    test(
        "if (x); else var ABC = 2; if (y) f(ABC);",
        "if (x); else; if (y) f(2);",
    );
}

#[test]
fn test_inline_conditionally_defined_constant3() {
    test(
        "if (x) { var ABC = 2; } if (y) { f(ABC); }",
        "if (x) {} if (y) { f(2); }",
    );
}

#[test]
fn test_inline_defined_constant() {
    test(
        &[
            "/**\n",
            " * @define {string}\n",
            " */\n",
            "var aa = '1234567890';\n",
            "foo(aa); foo(aa); foo(aa);",
        ]
        .concat(),
        "foo('1234567890');foo('1234567890');foo('1234567890')",
    );

    test(
        &[
            "/**\n",
            " * @define {string}\n",
            " */\n",
            "var ABC = '1234567890';\n",
            "foo(ABC); foo(ABC); foo(ABC);",
        ]
        .concat(),
        "foo('1234567890');foo('1234567890');foo('1234567890')",
    );
}

#[test]
fn test_inline_variables_constants_with_inline_all_strings_on() {
    test_with(
        InlineConfig { inline_all_strings: true },
        "var AA = '1234567890'; foo(AA); foo(AA); foo(AA);",
        "foo('1234567890'); foo('1234567890'); foo('1234567890')",
    );
}

#[test]
fn test_no_inline_without_const_declaration() {
    test_same("var abc = 2; var x = abc;");
}

#[test]
fn test_no_inline_aliases() {
    test_same("var XXX = new Foo(); var yyy = XXX; bar(yyy)");
    test_same("var xxx = new Foo(); var YYY = xxx; bar(YYY)");
}
