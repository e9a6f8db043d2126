//! Property keys as expressions, and the constructor that a class has when it
//! declares none.

use vstd::prelude::*;
use crate::ast::{
    ClassMember, Expr, ExprOrSpread, ExprOrSuper, Ident, Lit, Pat, PropName, Stmt, Str,
};
use crate::model::{
    ClassMemberV, ExprOrSpreadV, ExprOrSuperV, ExprV, IdentV, LitV, PatV, PropNameV, StmtV, StrV,
};
use crate::text::str_eq;
use crate::view::{
    lemma_class_member_view, lemma_expr_or_spread_view, lemma_expr_or_spreads_view,
    lemma_expr_or_super_view, lemma_expr_view, lemma_pat_view, lemma_pats_view,
    lemma_prop_name_view, lemma_stmt_view, lemma_stmts_view,
};

verus! {

/// The expression that names the same property as the key.
pub open spec fn key_expr(p: PropNameV) -> ExprV {
    match p {
        PropNameV::Ident(i) => ExprV::Ident(i),
        PropNameV::Str(s) => ExprV::Lit(LitV::Str(s)),
        PropNameV::Num(n) => ExprV::Lit(LitV::Num(n)),
        PropNameV::Computed(e) => *e,
    }
}

/// The expression whose value is the key: a name becomes the string of its letters.
pub open spec fn key_value(p: PropNameV) -> ExprV {
    match p {
        PropNameV::Ident(i) => ExprV::Lit(LitV::Str(StrV { value: i.sym, has_escape: false })),
        PropNameV::Str(s) => ExprV::Lit(LitV::Str(s)),
        PropNameV::Num(n) => ExprV::Lit(LitV::Num(n)),
        PropNameV::Computed(e) => *e,
    }
}

/// Whether the key is `key`: a name or a string of those letters, or a
/// computed key that is such a string.
pub open spec fn key_is(p: PropNameV, key: Seq<char>) -> bool {
    match p {
        PropNameV::Ident(i) => i.sym == key,
        PropNameV::Str(s) => s.value == key,
        PropNameV::Num(_) => false,
        PropNameV::Computed(e) => *e matches ExprV::Lit(LitV::Str(s)) && s.value == key,
    }
}

/// The identifier `name` that no scope has been given to.
pub open spec fn plain(name: Seq<char>) -> IdentV {
    IdentV { sym: name, ctxt: 0 }
}

/// The constructor of a class that declares none: it takes nothing and does
/// nothing, or where the class extends another it hands all its arguments to
/// the constructor of that class.
pub open spec fn implicit_constructor(has_super: bool) -> ClassMemberV {
    ClassMemberV::Constructor {
        key: PropNameV::Ident(plain("constructor"@)),
        params: if has_super {
            seq![PatV::Rest(Box::new(PatV::Ident(plain("args"@))))]
        } else {
            Seq::empty()
        },
        body: Some(
            if has_super {
                seq![
                    StmtV::Expr(
                        Box::new(
                            ExprV::Call {
                                callee: ExprOrSuperV::Super,
                                args: seq![
                                    ExprOrSpreadV {
                                        spread: true,
                                        expr: ExprV::Ident(plain("args"@)),
                                    },
                                ],
                            },
                        ),
                    ),
                ]
            } else {
                Seq::empty()
            },
        ),
    }
}

pub fn prop_name_to_expr(p: PropName) -> (r: Expr)
    ensures
        r@ == key_expr(p@),
{
    proof {
        lemma_prop_name_view(p);
    }
    match p {
        PropName::Ident(i) => {
            let r = Expr::Ident(i);
            proof {
                lemma_expr_view(r);
            }
            r
        },
        PropName::Str(s) => {
            let r = Expr::Lit(Lit::Str(s));
            proof {
                lemma_expr_view(r);
            }
            r
        },
        PropName::Num(n) => {
            let r = Expr::Lit(Lit::Num(n));
            proof {
                lemma_expr_view(r);
            }
            r
        },
        PropName::Computed(e) => *e,
    }
}

/// Simillar to `prop_name_to_expr`, but used for value position.
///
/// e.g. value from `{ key: value }`
pub fn prop_name_to_expr_value(p: PropName) -> (r: Expr)
    ensures
        r@ == key_value(p@),
{
    proof {
        lemma_prop_name_view(p);
    }
    match p {
        PropName::Ident(i) => {
            let r = Expr::Lit(Lit::Str(Str { value: i.sym, has_escape: false }));
            proof {
                lemma_expr_view(r);
            }
            r
        },
        PropName::Str(s) => {
            let r = Expr::Lit(Lit::Str(s));
            proof {
                lemma_expr_view(r);
            }
            r
        },
        PropName::Num(n) => {
            let r = Expr::Lit(Lit::Num(n));
            proof {
                lemma_expr_view(r);
            }
            r
        },
        PropName::Computed(e) => *e,
    }
}

pub fn prop_name_eq(p: &PropName, key: &str) -> (r: bool)
    ensures
        r == key_is(p@, key@),
{
    proof {
        lemma_prop_name_view(*p);
    }
    match p {
        PropName::Ident(i) => str_eq(i.sym.as_str(), key),
        PropName::Str(s) => str_eq(s.value.as_str(), key),
        PropName::Num(_) => false,
        PropName::Computed(e) => {
            proof {
                lemma_expr_view(**e);
            }
            match &**e {
                Expr::Lit(Lit::Str(s)) => str_eq(s.value.as_str(), key),
                _ => false,
            }
        },
    }
}

/// The identifier `name` that no scope has been given to.
fn plain_ident(name: &str) -> (r: Ident)
    ensures
        r@ == plain(name@),
{
    Ident { sym: String::from_str(name), ctxt: 0 }
}

pub fn default_constructor(has_super: bool) -> (r: ClassMember)
    ensures
        r@ == implicit_constructor(has_super),
{
    let key = PropName::Ident(plain_ident("constructor"));
    let mut params: Vec<Pat> = Vec::new();
    let mut stmts: Vec<Stmt> = Vec::new();
    if has_super {
        let name = Pat::Ident(plain_ident("args"));
        let rest = Pat::Rest(Box::new(name));
        let arg = ExprOrSpread { spread: true, expr: Expr::Ident(plain_ident("args")) };
        let mut args: Vec<ExprOrSpread> = Vec::new();
        args.push(arg);
        let callee = ExprOrSuper::Super;
        let call = Expr::Call { callee, args };
        let stmt = Stmt::Expr(Box::new(call));
        proof {
            lemma_pat_view(name);
            lemma_pat_view(rest);
            lemma_expr_view(arg.expr);
            lemma_expr_or_spread_view(arg);
            lemma_expr_or_spreads_view(args@);
            lemma_expr_or_super_view(callee);
            lemma_expr_view(call);
            lemma_stmt_view(stmt);
            assert(crate::view::expr_or_spreads_view(args@) =~= seq![arg@]);
        }
        params.push(rest);
        stmts.push(stmt);
        proof {
            lemma_pats_view(params@);
            lemma_stmts_view(stmts@);
            assert(crate::view::pats_view(params@) =~= seq![rest@]);
            assert(crate::view::stmts_view(stmts@) =~= seq![stmt@]);
        }
    } else {
        proof {
            lemma_pats_view(params@);
            lemma_stmts_view(stmts@);
            assert(crate::view::pats_view(params@) =~= Seq::<PatV>::empty());
            assert(crate::view::stmts_view(stmts@) =~= Seq::<StmtV>::empty());
        }
    }
    let r = ClassMember::Constructor { key, params, body: Some(stmts) };
    proof {
        lemma_prop_name_view(key);
        lemma_class_member_view(r);
    }
    r
}

} // verus!
