//! What statements and the items of a module have in common.

use vstd::prelude::*;
use crate::ast::{CatchClause, Expr, Lit, ModuleDecl, ModuleItem, Stmt};
use crate::model::{ExprV, LitV, ModuleDeclV, ModuleItemV, StmtV};
use crate::simplify::{is_empty_stmt, is_empty_stmt_impl};
use crate::text::str_eq;
use crate::view::{
    lemma_catch_clause_view, lemma_expr_view, lemma_module_item_view, lemma_stmt_view,
    lemma_stmts_view,
};

verus! {

/// Something that may be a statement.
pub trait StmtLike: Sized {
    /// The statement that this is, if it is one.
    spec fn stmt(&self) -> Option<StmtV>;

    fn try_into_stmt(self) -> (r: Result<Stmt, Self>)
        ensures
            match r {
                Ok(s) => self.stmt() == Some(s@),
                Err(x) => self.stmt() is None && x == self,
            },
    ;

    fn as_stmt(&self) -> (r: Option<&Stmt>)
        ensures
            match r {
                Some(s) => self.stmt() == Some(s@),
                None => self.stmt() is None,
            },
    ;

    fn from_stmt(stmt: Stmt) -> (r: Self)
        ensures
            r.stmt() == Some(stmt@),
    ;
}

/// Something that may be an import or an export.
pub trait ModuleItemLike: StmtLike {
    /// The import or export that this is, if it is one.
    spec fn module_decl(&self) -> Option<ModuleDeclV>;

    fn try_into_module_decl(self) -> (r: Result<ModuleDecl, Self>)
        ensures
            match r {
                Ok(d) => self.module_decl() == Some(d@),
                Err(x) => self.module_decl() is None && x == self,
            },
    ;

    fn try_from_module_decl(decl: ModuleDecl) -> (r: Result<Self, ModuleDecl>)
        ensures
            match r {
                Ok(x) => x.module_decl() == Some(decl@),
                Err(d) => d == decl,
            },
    ;
}

impl StmtLike for Stmt {
    open spec fn stmt(&self) -> Option<StmtV> {
        Some(self@)
    }

    fn try_into_stmt(self) -> (r: Result<Stmt, Self>) {
        Ok(self)
    }

    fn as_stmt(&self) -> (r: Option<&Stmt>) {
        Some(self)
    }

    fn from_stmt(stmt: Stmt) -> (r: Self) {
        stmt
    }
}

impl ModuleItemLike for Stmt {
    open spec fn module_decl(&self) -> Option<ModuleDeclV> {
        None
    }

    fn try_into_module_decl(self) -> (r: Result<ModuleDecl, Self>) {
        Err(self)
    }

    fn try_from_module_decl(decl: ModuleDecl) -> (r: Result<Self, ModuleDecl>) {
        Err(decl)
    }
}

impl StmtLike for ModuleItem {
    open spec fn stmt(&self) -> Option<StmtV> {
        match self@ {
            ModuleItemV::Stmt(s) => Some(s),
            ModuleItemV::ModuleDecl(_) => None,
        }
    }

    fn try_into_stmt(self) -> (r: Result<Stmt, Self>) {
        proof {
            lemma_module_item_view(self);
        }
        match self {
            ModuleItem::Stmt(stmt) => Ok(stmt),
            _ => Err(self),
        }
    }

    fn as_stmt(&self) -> (r: Option<&Stmt>) {
        proof {
            lemma_module_item_view(*self);
        }
        match self {
            ModuleItem::Stmt(stmt) => Some(stmt),
            _ => None,
        }
    }

    fn from_stmt(stmt: Stmt) -> (r: Self) {
        let r = ModuleItem::Stmt(stmt);
        proof {
            lemma_module_item_view(r);
        }
        r
    }
}

impl ModuleItemLike for ModuleItem {
    open spec fn module_decl(&self) -> Option<ModuleDeclV> {
        match self@ {
            ModuleItemV::ModuleDecl(d) => Some(d),
            ModuleItemV::Stmt(_) => None,
        }
    }

    fn try_into_module_decl(self) -> (r: Result<ModuleDecl, Self>) {
        proof {
            lemma_module_item_view(self);
        }
        match self {
            ModuleItem::ModuleDecl(decl) => Ok(decl),
            _ => Err(self),
        }
    }

    fn try_from_module_decl(decl: ModuleDecl) -> (r: Result<Self, ModuleDecl>) {
        let r = ModuleItem::ModuleDecl(decl);
        proof {
            lemma_module_item_view(r);
        }
        Ok(r)
    }
}

/// Something that may hold nothing.
pub trait IsEmpty {
    /// Whether this holds nothing.
    spec fn holds_nothing(&self) -> bool;

    fn is_empty(&self) -> (r: bool)
        ensures
            r == self.holds_nothing(),
    ;
}

impl IsEmpty for CatchClause {
    open spec fn holds_nothing(&self) -> bool {
        self@.body.len() == 0
    }

    fn is_empty(&self) -> (r: bool) {
        proof {
            lemma_catch_clause_view(*self);
            lemma_stmts_view(self.body@);
        }
        self.body.len() == 0
    }
}

impl IsEmpty for Stmt {
    open spec fn holds_nothing(&self) -> bool {
        is_empty_stmt(self@)
    }

    fn is_empty(&self) -> (r: bool) {
        is_empty_stmt_impl(self)
    }
}

impl<T: IsEmpty> IsEmpty for Option<T> {
    open spec fn holds_nothing(&self) -> bool {
        match self {
            Some(node) => node.holds_nothing(),
            None => true,
        }
    }

    fn is_empty(&self) -> (r: bool) {
        match self {
            Some(node) => node.is_empty(),
            None => true,
        }
    }
}

impl<T: IsEmpty> IsEmpty for Box<T> {
    open spec fn holds_nothing(&self) -> bool {
        (**self).holds_nothing()
    }

    fn is_empty(&self) -> (r: bool) {
        (**self).is_empty()
    }
}

impl<T> IsEmpty for Vec<T> {
    open spec fn holds_nothing(&self) -> bool {
        self@.len() == 0
    }

    fn is_empty(&self) -> (r: bool) {
        self.len() == 0
    }
}

/// Whether a statement is a directive: an expression statement that is
/// nothing but a string.
pub open spec fn is_directive(s: StmtV) -> bool {
    s matches StmtV::Expr(e) && *e matches ExprV::Lit(LitV::Str(_))
}

/// Whether a statement is the directive `"use strict"`, written without escapes.
pub open spec fn is_use_strict_directive(s: StmtV) -> bool {
    s matches StmtV::Expr(e) && (*e matches ExprV::Lit(LitV::Str(x)) && x.value == "use strict"@
        && !x.has_escape)
}

/// Something that may be a directive.
pub trait IsDirective {
    /// The statement that this is, if it is one.
    spec fn directive_stmt(&self) -> Option<StmtV>;

    fn as_ref(&self) -> (r: Option<&Stmt>)
        ensures
            match r {
                Some(s) => self.directive_stmt() == Some(s@),
                None => self.directive_stmt() is None,
            },
    ;

    fn is_use_strict(&self) -> (r: bool)
        ensures
            r == (self.directive_stmt() matches Some(s) && is_use_strict_directive(s)),
    {
        match self.as_ref() {
            Some(s) => {
                proof {
                    lemma_stmt_view(*s);
                }
                match s {
                    Stmt::Expr(e) => {
                        proof {
                            lemma_expr_view(**e);
                        }
                        match &**e {
                            Expr::Lit(Lit::Str(x)) => !x.has_escape && str_eq(
                                x.value.as_str(),
                                "use strict",
                            ),
                            _ => false,
                        }
                    },
                    _ => false,
                }
            },
            None => false,
        }
    }
}

impl IsDirective for Stmt {
    open spec fn directive_stmt(&self) -> Option<StmtV> {
        Some(self@)
    }

    fn as_ref(&self) -> (r: Option<&Stmt>) {
        Some(self)
    }
}

/// Whether a statement hands control on at once: `return`, `break`, `continue`.
pub open spec fn is_jump(s: StmtV) -> bool {
    s is Return || s is Break || s is Continue
}

/// Something that may end by handing control on at once.
pub trait EndsWithRet {
    /// Whether this ends with `return`, `break` or `continue`.
    spec fn ends_with_jump(&self) -> bool;

    /// Returns true if the statement ends with return, break, continue;
    fn ends_with_ret(&self) -> (r: bool)
        ensures
            r == self.ends_with_jump(),
    ;
}

impl EndsWithRet for Stmt {
    open spec fn ends_with_jump(&self) -> bool {
        is_jump(self@)
    }

    fn ends_with_ret(&self) -> (r: bool) {
        proof {
            lemma_stmt_view(*self);
        }
        match self {
            Stmt::Return(_) | Stmt::Break(_) | Stmt::Continue(_) => true,
            _ => false,
        }
    }
}

impl<T: EndsWithRet> EndsWithRet for Vec<T> {
    open spec fn ends_with_jump(&self) -> bool {
        self@.len() > 0 && self@.last().ends_with_jump()
    }

    fn ends_with_ret(&self) -> (r: bool) {
        if self.len() == 0 {
            false
        } else {
            self[self.len() - 1].ends_with_ret()
        }
    }
}

/// Whether something is a directive.
pub open spec fn item_is_directive<T: StmtLike>(x: T) -> bool {
    x.stmt() matches Some(s) && is_directive(s)
}

/// How many directives a list begins with.
pub open spec fn directives<T: StmtLike>(s: Seq<T>) -> nat
    decreases s.len(),
{
    if s.len() > 0 && item_is_directive(s[0]) {
        1 + directives(s.drop_first())
    } else {
        0
    }
}

/// The directives are the items before the first one that is none.
pub proof fn lemma_directives<T: StmtLike>(s: Seq<T>, k: int)
    requires
        0 <= k <= s.len(),
        forall|i: int| 0 <= i < k ==> item_is_directive(#[trigger] s[i]),
        k < s.len() ==> !item_is_directive(s[k]),
    ensures
        directives(s) == k,
    decreases s.len(),
{
    if s.len() > 0 && item_is_directive(s[0]) {
        let t = s.drop_first();
        assert(k > 0);
        assert forall|i: int| 0 <= i < k - 1 implies item_is_directive(#[trigger] t[i]) by {
            assert(t[i] == s[i + 1]);
        }
        if k - 1 < t.len() {
            assert(t[k - 1] == s[k]);
        }
        lemma_directives(t, k - 1);
    } else if k > 0 {
        assert(item_is_directive(s[0]));
    }
}

/// Where the directives of a list end.
fn after_directives<T: StmtLike>(stmts: &Vec<T>) -> (r: usize)
    ensures
        r == directives(stmts@),
        r <= stmts.len(),
{
    let mut i: usize = 0;
    while i < stmts.len()
        invariant
            i <= stmts.len(),
            forall|j: int| 0 <= j < i ==> item_is_directive(#[trigger] stmts@[j]),
        decreases stmts.len() - i,
    {
        let directive = match stmts[i].as_stmt() {
            Some(s) => {
                proof {
                    lemma_stmt_view(*s);
                }
                match s {
                    Stmt::Expr(e) => {
                        proof {
                            lemma_expr_view(**e);
                        }
                        match &**e {
                            Expr::Lit(Lit::Str(_)) => true,
                            _ => false,
                        }
                    },
                    _ => false,
                }
            },
            None => false,
        };
        if !directive {
            proof {
                lemma_directives(stmts@, i as int);
            }
            return i;
        }
        i += 1;
    }
    proof {
        lemma_directives(stmts@, i as int);
    }
    i
}

/// inject `stmt` after directives
pub fn prepend<T: StmtLike>(stmts: &mut Vec<T>, stmt: T)
    ensures
        final(stmts)@ == old(stmts)@.insert(directives(old(stmts)@) as int, stmt),
{
    let idx = after_directives(stmts);
    stmts.insert(idx, stmt);
}

/// inject `stmts` after directives
pub fn prepend_stmts<T: StmtLike>(to: &mut Vec<T>, stmts: Vec<T>)
    ensures
        final(to)@ == old(to)@.take(directives(old(to)@) as int) + stmts@ + old(to)@.skip(
            directives(old(to)@) as int,
        ),
{
    let idx = after_directives(to);
    let ghost before = to@;
    let mut tail = to.split_off(idx);
    let mut stmts = stmts;
    to.append(&mut stmts);
    to.append(&mut tail);
}

} // verus!
