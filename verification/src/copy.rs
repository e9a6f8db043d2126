//! Copies of trees.

use vstd::prelude::*;
use crate::ast::{
    BlockStmtOrExpr, CatchClause, Class, ClassMember, Decl, DefaultDecl, ExportSpecifier, Expr,
    ExprOrSpread, ExprOrSuper, Function, Ident, ImportSpecifier, Lit, MemberProp, Module,
    ModuleDecl, ModuleItem, Number, ObjectPatProp, Pat, PatOrExpr, Prop, PropName, PropOrSpread,
    Regex, Stmt, Str, SwitchCase, Tpl, TplElement, VarDecl, VarDeclOrExpr, VarDeclOrPat,
    VarDeclarator,
};
use crate::view::{
    class_members_view, export_specifiers_view, expr_or_spreads_view, exprs_view,
    import_specifiers_view, lemma_block_stmt_or_expr_view, lemma_catch_clause_view,
    lemma_class_member_view, lemma_class_members_view, lemma_class_members_view_push,
    lemma_class_view, lemma_decl_view, lemma_default_decl_view, lemma_export_specifiers_view,
    lemma_export_specifiers_view_push, lemma_expr_or_spread_view, lemma_expr_or_spreads_view,
    lemma_expr_or_spreads_view_push, lemma_expr_or_super_view, lemma_expr_view, lemma_exprs_view,
    lemma_exprs_view_push, lemma_function_view, lemma_import_specifiers_view,
    lemma_import_specifiers_view_push, lemma_member_prop_view, lemma_module_decl_view,
    lemma_module_item_view, lemma_module_items_view, lemma_module_items_view_push,
    lemma_module_view, lemma_object_pat_prop_view, lemma_object_pat_props_view,
    lemma_object_pat_props_view_push, lemma_opt_expr_or_spreads_view,
    lemma_opt_expr_or_spreads_view_push, lemma_opt_pats_view, lemma_opt_pats_view_push,
    lemma_pat_or_expr_view, lemma_pat_view, lemma_pats_view, lemma_pats_view_push,
    lemma_prop_name_view, lemma_prop_or_spread_view, lemma_prop_or_spreads_view,
    lemma_prop_or_spreads_view_push, lemma_prop_view, lemma_stmt_view, lemma_stmts_view,
    lemma_stmts_view_push, lemma_switch_case_view, lemma_switch_cases_view,
    lemma_switch_cases_view_push, lemma_tpl_elements_view, lemma_tpl_elements_view_push,
    lemma_tpl_view, lemma_var_decl_or_expr_view, lemma_var_decl_or_pat_view, lemma_var_decl_view,
    lemma_var_declarator_view, lemma_var_declarators_view, lemma_var_declarators_view_push,
    module_items_view, object_pat_props_view, opt_expr_or_spreads_view, opt_pats_view, pats_view,
    prop_or_spreads_view, stmts_view, switch_cases_view, tpl_elements_view, var_declarators_view,
};

verus! {

impl Ident {
    /// A copy of the tree.
    pub fn duplicate(&self) -> (r: Ident)
        ensures
            r@ == self@,
        decreases self,
    {
        let sym = self.sym.clone();
        let ctxt = self.ctxt;
        let r = Ident { sym, ctxt };
        r
    }
}

impl Number {
    /// A copy of the tree.
    pub fn duplicate(&self) -> (r: Number)
        ensures
            r@ == self@,
        decreases self,
    {
        let bits = self.bits;
        let text = self.text.clone();
        let r = Number { bits, text };
        r
    }
}

impl Str {
    /// A copy of the tree.
    pub fn duplicate(&self) -> (r: Str)
        ensures
            r@ == self@,
        decreases self,
    {
        let value = self.value.clone();
        let has_escape = self.has_escape;
        let r = Str { value, has_escape };
        r
    }
}

impl Regex {
    /// A copy of the tree.
    pub fn duplicate(&self) -> (r: Regex)
        ensures
            r@ == self@,
        decreases self,
    {
        let exp = self.exp.clone();
        let flags = self.flags.clone();
        let r = Regex { exp, flags };
        r
    }
}

impl Lit {
    /// A copy of the tree.
    pub fn duplicate(&self) -> (r: Lit)
        ensures
            r@ == self@,
        decreases self,
    {
        match self {
            Lit::Str(a) => {
                let a = a.duplicate();
                let r = Lit::Str(a);
                r
            },
            Lit::Bool(a) => {
                let a = *a;
                let r = Lit::Bool(a);
                r
            },
            Lit::Null => Lit::Null,
            Lit::Num(a) => {
                let a = a.duplicate();
                let r = Lit::Num(a);
                r
            },
            Lit::BigInt(a) => {
                let a = a.clone();
                let r = Lit::BigInt(a);
                r
            },
            Lit::Regex(a) => {
                let a = a.duplicate();
                let r = Lit::Regex(a);
                r
            },
        }
    }
}

impl TplElement {
    /// A copy of the tree.
    pub fn duplicate(&self) -> (r: TplElement)
        ensures
            r@ == self@,
        decreases self,
    {
        let tail = self.tail;
        let cooked = match &self.cooked {
            Some(x) => Some(x.clone()),
            None => None,
        };
        let raw = self.raw.clone();
        let r = TplElement { tail, cooked, raw };
        r
    }
}

impl Tpl {
    /// A copy of the tree.
    pub fn duplicate(&self) -> (r: Tpl)
        ensures
            r@ == self@,
        decreases self,
    {
        proof {
            lemma_tpl_view(*self);
        }
        let exprs = copy_exprs(&self.exprs);
        let quasis = copy_tpl_elements(&self.quasis);
        let r = Tpl { exprs, quasis };
        proof {
            lemma_tpl_view(r);
        }
        r
    }
}

impl ExprOrSpread {
    /// A copy of the tree.
    pub fn duplicate(&self) -> (r: ExprOrSpread)
        ensures
            r@ == self@,
        decreases self,
    {
        proof {
            lemma_expr_or_spread_view(*self);
        }
        let spread = self.spread;
        let expr = self.expr.duplicate();
        let r = ExprOrSpread { spread, expr };
        proof {
            lemma_expr_or_spread_view(r);
        }
        r
    }
}

impl ExprOrSuper {
    /// A copy of the tree.
    pub fn duplicate(&self) -> (r: ExprOrSuper)
        ensures
            r@ == self@,
        decreases self,
    {
        proof {
            lemma_expr_or_super_view(*self);
        }
        match self {
            ExprOrSuper::Super => ExprOrSuper::Super,
            ExprOrSuper::Expr(a) => {
                let a = Box::new(a.duplicate());
                let r = ExprOrSuper::Expr(a);
                proof {
                    lemma_expr_or_super_view(r);
                }
                r
            },
        }
    }
}

impl MemberProp {
    /// A copy of the tree.
    pub fn duplicate(&self) -> (r: MemberProp)
        ensures
            r@ == self@,
        decreases self,
    {
        proof {
            lemma_member_prop_view(*self);
        }
        match self {
            MemberProp::Ident(a) => {
                let a = a.duplicate();
                let r = MemberProp::Ident(a);
                proof {
                    lemma_member_prop_view(r);
                }
                r
            },
            MemberProp::Computed(a) => {
                let a = Box::new(a.duplicate());
                let r = MemberProp::Computed(a);
                proof {
                    lemma_member_prop_view(r);
                }
                r
            },
        }
    }
}

impl PatOrExpr {
    /// A copy of the tree.
    pub fn duplicate(&self) -> (r: PatOrExpr)
        ensures
            r@ == self@,
        decreases self,
    {
        proof {
            lemma_pat_or_expr_view(*self);
        }
        match self {
            PatOrExpr::Expr(a) => {
                let a = Box::new(a.duplicate());
                let r = PatOrExpr::Expr(a);
                proof {
                    lemma_pat_or_expr_view(r);
                }
                r
            },
            PatOrExpr::Pat(a) => {
                let a = Box::new(a.duplicate());
                let r = PatOrExpr::Pat(a);
                proof {
                    lemma_pat_or_expr_view(r);
                }
                r
            },
        }
    }
}

impl PropName {
    /// A copy of the tree.
    pub fn duplicate(&self) -> (r: PropName)
        ensures
            r@ == self@,
        decreases self,
    {
        proof {
            lemma_prop_name_view(*self);
        }
        match self {
            PropName::Ident(a) => {
                let a = a.duplicate();
                let r = PropName::Ident(a);
                proof {
                    lemma_prop_name_view(r);
                }
                r
            },
            PropName::Str(a) => {
                let a = a.duplicate();
                let r = PropName::Str(a);
                proof {
                    lemma_prop_name_view(r);
                }
                r
            },
            PropName::Num(a) => {
                let a = a.duplicate();
                let r = PropName::Num(a);
                proof {
                    lemma_prop_name_view(r);
                }
                r
            },
            PropName::Computed(a) => {
                let a = Box::new(a.duplicate());
                let r = PropName::Computed(a);
                proof {
                    lemma_prop_name_view(r);
                }
                r
            },
        }
    }
}

impl Prop {
    /// A copy of the tree.
    pub fn duplicate(&self) -> (r: Prop)
        ensures
            r@ == self@,
        decreases self,
    {
        proof {
            lemma_prop_view(*self);
        }
        match self {
            Prop::Shorthand(a) => {
                let a = a.duplicate();
                let r = Prop::Shorthand(a);
                proof {
                    lemma_prop_view(r);
                }
                r
            },
            Prop::KeyValue { key, value } => {
                let key = key.duplicate();
                let value = Box::new(value.duplicate());
                let r = Prop::KeyValue { key, value };
                proof {
                    lemma_prop_view(r);
                }
                r
            },
            Prop::Getter { key, body } => {
                let key = key.duplicate();
                let body = match body {
                    Some(x) => Some(copy_stmts(x)),
                    None => None,
                };
                let r = Prop::Getter { key, body };
                proof {
                    lemma_prop_view(r);
                }
                r
            },
            Prop::Setter { key, param, body } => {
                let key = key.duplicate();
                let param = param.duplicate();
                let body = match body {
                    Some(x) => Some(copy_stmts(x)),
                    None => None,
                };
                let r = Prop::Setter { key, param, body };
                proof {
                    lemma_prop_view(r);
                }
                r
            },
            Prop::Method { key, function } => {
                let key = key.duplicate();
                let function = function.duplicate();
                let r = Prop::Method { key, function };
                proof {
                    lemma_prop_view(r);
                }
                r
            },
        }
    }
}

impl PropOrSpread {
    /// A copy of the tree.
    pub fn duplicate(&self) -> (r: PropOrSpread)
        ensures
            r@ == self@,
        decreases self,
    {
        proof {
            lemma_prop_or_spread_view(*self);
        }
        match self {
            PropOrSpread::Spread(a) => {
                let a = Box::new(a.duplicate());
                let r = PropOrSpread::Spread(a);
                proof {
                    lemma_prop_or_spread_view(r);
                }
                r
            },
            PropOrSpread::Prop(a) => {
                let a = Box::new(a.duplicate());
                let r = PropOrSpread::Prop(a);
                proof {
                    lemma_prop_or_spread_view(r);
                }
                r
            },
        }
    }
}

impl Function {
    /// A copy of the tree.
    pub fn duplicate(&self) -> (r: Function)
        ensures
            r@ == self@,
        decreases self,
    {
        proof {
            lemma_function_view(*self);
        }
        let params = copy_pats(&self.params);
        let body = match &self.body {
            Some(x) => Some(copy_stmts(x)),
            None => None,
        };
        let is_generator = self.is_generator;
        let is_async = self.is_async;
        let r = Function { params, body, is_generator, is_async };
        proof {
            lemma_function_view(r);
        }
        r
    }
}

impl Class {
    /// A copy of the tree.
    pub fn duplicate(&self) -> (r: Class)
        ensures
            r@ == self@,
        decreases self,
    {
        proof {
            lemma_class_view(*self);
        }
        let super_class = match &self.super_class {
            Some(x) => Some(Box::new(x.duplicate())),
            None => None,
        };
        let body = copy_class_members(&self.body);
        let r = Class { super_class, body };
        proof {
            lemma_class_view(r);
        }
        r
    }
}

impl ClassMember {
    /// A copy of the tree.
    pub fn duplicate(&self) -> (r: ClassMember)
        ensures
            r@ == self@,
        decreases self,
    {
        proof {
            lemma_class_member_view(*self);
        }
        match self {
            ClassMember::Constructor { key, params, body } => {
                let key = key.duplicate();
                let params = copy_pats(params);
                let body = match body {
                    Some(x) => Some(copy_stmts(x)),
                    None => None,
                };
                let r = ClassMember::Constructor { key, params, body };
                proof {
                    lemma_class_member_view(r);
                }
                r
            },
            ClassMember::Method { key, function, kind, is_static } => {
                let key = key.duplicate();
                let function = function.duplicate();
                let kind = *kind;
                let is_static = *is_static;
                let r = ClassMember::Method { key, function, kind, is_static };
                proof {
                    lemma_class_member_view(r);
                }
                r
            },
            ClassMember::Prop { key, value, is_static, computed } => {
                let key = Box::new(key.duplicate());
                let value = match value {
                    Some(x) => Some(Box::new(x.duplicate())),
                    None => None,
                };
                let is_static = *is_static;
                let computed = *computed;
                let r = ClassMember::Prop { key, value, is_static, computed };
                proof {
                    lemma_class_member_view(r);
                }
                r
            },
        }
    }
}

impl BlockStmtOrExpr {
    /// A copy of the tree.
    pub fn duplicate(&self) -> (r: BlockStmtOrExpr)
        ensures
            r@ == self@,
        decreases self,
    {
        proof {
            lemma_block_stmt_or_expr_view(*self);
        }
        match self {
            BlockStmtOrExpr::Block(a) => {
                let a = copy_stmts(a);
                let r = BlockStmtOrExpr::Block(a);
                proof {
                    lemma_block_stmt_or_expr_view(r);
                }
                r
            },
            BlockStmtOrExpr::Expr(a) => {
                let a = Box::new(a.duplicate());
                let r = BlockStmtOrExpr::Expr(a);
                proof {
                    lemma_block_stmt_or_expr_view(r);
                }
                r
            },
        }
    }
}

impl Expr {
    /// A copy of the tree.
    pub fn duplicate(&self) -> (r: Expr)
        ensures
            r@ == self@,
        decreases self,
    {
        proof {
            lemma_expr_view(*self);
        }
        match self {
            Expr::This => Expr::This,
            Expr::Array(a) => {
                let a = copy_opt_expr_or_spreads(a);
                let r = Expr::Array(a);
                proof {
                    lemma_expr_view(r);
                }
                r
            },
            Expr::Object(a) => {
                let a = copy_prop_or_spreads(a);
                let r = Expr::Object(a);
                proof {
                    lemma_expr_view(r);
                }
                r
            },
            Expr::Fn { ident, function } => {
                let ident = match ident {
                    Some(x) => Some(x.duplicate()),
                    None => None,
                };
                let function = Box::new(function.duplicate());
                let r = Expr::Fn { ident, function };
                proof {
                    lemma_expr_view(r);
                }
                r
            },
            Expr::Unary { op, arg } => {
                let op = *op;
                let arg = Box::new(arg.duplicate());
                let r = Expr::Unary { op, arg };
                proof {
                    lemma_expr_view(r);
                }
                r
            },
            Expr::Update { op, prefix, arg } => {
                let op = *op;
                let prefix = *prefix;
                let arg = Box::new(arg.duplicate());
                let r = Expr::Update { op, prefix, arg };
                proof {
                    lemma_expr_view(r);
                }
                r
            },
            Expr::Bin { op, left, right } => {
                let op = *op;
                let left = Box::new(left.duplicate());
                let right = Box::new(right.duplicate());
                let r = Expr::Bin { op, left, right };
                proof {
                    lemma_expr_view(r);
                }
                r
            },
            Expr::Assign { op, left, right } => {
                let op = *op;
                let left = left.duplicate();
                let right = Box::new(right.duplicate());
                let r = Expr::Assign { op, left, right };
                proof {
                    lemma_expr_view(r);
                }
                r
            },
            Expr::Member { obj, prop } => {
                let obj = obj.duplicate();
                let prop = prop.duplicate();
                let r = Expr::Member { obj, prop };
                proof {
                    lemma_expr_view(r);
                }
                r
            },
            Expr::Cond { test, cons, alt } => {
                let test = Box::new(test.duplicate());
                let cons = Box::new(cons.duplicate());
                let alt = Box::new(alt.duplicate());
                let r = Expr::Cond { test, cons, alt };
                proof {
                    lemma_expr_view(r);
                }
                r
            },
            Expr::Call { callee, args } => {
                let callee = callee.duplicate();
                let args = copy_expr_or_spreads(args);
                let r = Expr::Call { callee, args };
                proof {
                    lemma_expr_view(r);
                }
                r
            },
            Expr::New { callee, args } => {
                let callee = Box::new(callee.duplicate());
                let args = match args {
                    Some(x) => Some(copy_expr_or_spreads(x)),
                    None => None,
                };
                let r = Expr::New { callee, args };
                proof {
                    lemma_expr_view(r);
                }
                r
            },
            Expr::Sequence { init, last } => {
                let init = copy_exprs(init);
                let last = Box::new(last.duplicate());
                let r = Expr::Sequence { init, last };
                proof {
                    lemma_expr_view(r);
                }
                r
            },
            Expr::Ident(a) => {
                let a = a.duplicate();
                let r = Expr::Ident(a);
                proof {
                    lemma_expr_view(r);
                }
                r
            },
            Expr::Lit(a) => {
                let a = a.duplicate();
                let r = Expr::Lit(a);
                proof {
                    lemma_expr_view(r);
                }
                r
            },
            Expr::Tpl(a) => {
                let a = a.duplicate();
                let r = Expr::Tpl(a);
                proof {
                    lemma_expr_view(r);
                }
                r
            },
            Expr::TaggedTpl { tag, tpl } => {
                let tag = Box::new(tag.duplicate());
                let tpl = tpl.duplicate();
                let r = Expr::TaggedTpl { tag, tpl };
                proof {
                    lemma_expr_view(r);
                }
                r
            },
            Expr::Arrow { params, body, is_async, is_generator } => {
                let params = copy_pats(params);
                let body = body.duplicate();
                let is_async = *is_async;
                let is_generator = *is_generator;
                let r = Expr::Arrow { params, body, is_async, is_generator };
                proof {
                    lemma_expr_view(r);
                }
                r
            },
            Expr::Class { ident, class } => {
                let ident = match ident {
                    Some(x) => Some(x.duplicate()),
                    None => None,
                };
                let class = Box::new(class.duplicate());
                let r = Expr::Class { ident, class };
                proof {
                    lemma_expr_view(r);
                }
                r
            },
            Expr::Yield { arg, delegate } => {
                let arg = match arg {
                    Some(x) => Some(Box::new(x.duplicate())),
                    None => None,
                };
                let delegate = *delegate;
                let r = Expr::Yield { arg, delegate };
                proof {
                    lemma_expr_view(r);
                }
                r
            },
            Expr::MetaProp { meta, prop } => {
                let meta = meta.duplicate();
                let prop = prop.duplicate();
                let r = Expr::MetaProp { meta, prop };
                proof {
                    lemma_expr_view(r);
                }
                r
            },
            Expr::Await(a) => {
                let a = Box::new(a.duplicate());
                let r = Expr::Await(a);
                proof {
                    lemma_expr_view(r);
                }
                r
            },
            Expr::Paren(a) => {
                let a = Box::new(a.duplicate());
                let r = Expr::Paren(a);
                proof {
                    lemma_expr_view(r);
                }
                r
            },
            Expr::Ts { cast, expr } => {
                let cast = *cast;
                let expr = Box::new(expr.duplicate());
                let r = Expr::Ts { cast, expr };
                proof {
                    lemma_expr_view(r);
                }
                r
            },
            Expr::OptChain(a) => {
                let a = Box::new(a.duplicate());
                let r = Expr::OptChain(a);
                proof {
                    lemma_expr_view(r);
                }
                r
            },
            Expr::PrivateName(a) => {
                let a = a.duplicate();
                let r = Expr::PrivateName(a);
                proof {
                    lemma_expr_view(r);
                }
                r
            },
        }
    }
}

impl Pat {
    /// A copy of the tree.
    pub fn duplicate(&self) -> (r: Pat)
        ensures
            r@ == self@,
        decreases self,
    {
        proof {
            lemma_pat_view(*self);
        }
        match self {
            Pat::Ident(a) => {
                let a = a.duplicate();
                let r = Pat::Ident(a);
                proof {
                    lemma_pat_view(r);
                }
                r
            },
            Pat::Array(a) => {
                let a = copy_opt_pats(a);
                let r = Pat::Array(a);
                proof {
                    lemma_pat_view(r);
                }
                r
            },
            Pat::Rest(a) => {
                let a = Box::new(a.duplicate());
                let r = Pat::Rest(a);
                proof {
                    lemma_pat_view(r);
                }
                r
            },
            Pat::Object(a) => {
                let a = copy_object_pat_props(a);
                let r = Pat::Object(a);
                proof {
                    lemma_pat_view(r);
                }
                r
            },
            Pat::Assign { left, right } => {
                let left = Box::new(left.duplicate());
                let right = Box::new(right.duplicate());
                let r = Pat::Assign { left, right };
                proof {
                    lemma_pat_view(r);
                }
                r
            },
            Pat::Expr(a) => {
                let a = Box::new(a.duplicate());
                let r = Pat::Expr(a);
                proof {
                    lemma_pat_view(r);
                }
                r
            },
        }
    }
}

impl ObjectPatProp {
    /// A copy of the tree.
    pub fn duplicate(&self) -> (r: ObjectPatProp)
        ensures
            r@ == self@,
        decreases self,
    {
        proof {
            lemma_object_pat_prop_view(*self);
        }
        match self {
            ObjectPatProp::KeyValue { key, value } => {
                let key = key.duplicate();
                let value = Box::new(value.duplicate());
                let r = ObjectPatProp::KeyValue { key, value };
                proof {
                    lemma_object_pat_prop_view(r);
                }
                r
            },
            ObjectPatProp::Assign { key, value } => {
                let key = key.duplicate();
                let value = match value {
                    Some(x) => Some(Box::new(x.duplicate())),
                    None => None,
                };
                let r = ObjectPatProp::Assign { key, value };
                proof {
                    lemma_object_pat_prop_view(r);
                }
                r
            },
            ObjectPatProp::Rest(a) => {
                let a = Box::new(a.duplicate());
                let r = ObjectPatProp::Rest(a);
                proof {
                    lemma_object_pat_prop_view(r);
                }
                r
            },
        }
    }
}

impl VarDeclarator {
    /// A copy of the tree.
    pub fn duplicate(&self) -> (r: VarDeclarator)
        ensures
            r@ == self@,
        decreases self,
    {
        proof {
            lemma_var_declarator_view(*self);
        }
        let name = self.name.duplicate();
        let init = match &self.init {
            Some(x) => Some(Box::new(x.duplicate())),
            None => None,
        };
        let r = VarDeclarator { name, init };
        proof {
            lemma_var_declarator_view(r);
        }
        r
    }
}

impl VarDecl {
    /// A copy of the tree.
    pub fn duplicate(&self) -> (r: VarDecl)
        ensures
            r@ == self@,
        decreases self,
    {
        proof {
            lemma_var_decl_view(*self);
        }
        let kind = self.kind;
        let annotation = self.annotation;
        let decls = copy_var_declarators(&self.decls);
        let r = VarDecl { kind, annotation, decls };
        proof {
            lemma_var_decl_view(r);
        }
        r
    }
}

impl Decl {
    /// A copy of the tree.
    pub fn duplicate(&self) -> (r: Decl)
        ensures
            r@ == self@,
        decreases self,
    {
        proof {
            lemma_decl_view(*self);
        }
        match self {
            Decl::Class { ident, class } => {
                let ident = ident.duplicate();
                let class = class.duplicate();
                let r = Decl::Class { ident, class };
                proof {
                    lemma_decl_view(r);
                }
                r
            },
            Decl::Fn { ident, function } => {
                let ident = ident.duplicate();
                let function = function.duplicate();
                let r = Decl::Fn { ident, function };
                proof {
                    lemma_decl_view(r);
                }
                r
            },
            Decl::Var(a) => {
                let a = a.duplicate();
                let r = Decl::Var(a);
                proof {
                    lemma_decl_view(r);
                }
                r
            },
        }
    }
}

impl VarDeclOrExpr {
    /// A copy of the tree.
    pub fn duplicate(&self) -> (r: VarDeclOrExpr)
        ensures
            r@ == self@,
        decreases self,
    {
        proof {
            lemma_var_decl_or_expr_view(*self);
        }
        match self {
            VarDeclOrExpr::VarDecl(a) => {
                let a = a.duplicate();
                let r = VarDeclOrExpr::VarDecl(a);
                proof {
                    lemma_var_decl_or_expr_view(r);
                }
                r
            },
            VarDeclOrExpr::Expr(a) => {
                let a = Box::new(a.duplicate());
                let r = VarDeclOrExpr::Expr(a);
                proof {
                    lemma_var_decl_or_expr_view(r);
                }
                r
            },
        }
    }
}

impl VarDeclOrPat {
    /// A copy of the tree.
    pub fn duplicate(&self) -> (r: VarDeclOrPat)
        ensures
            r@ == self@,
        decreases self,
    {
        proof {
            lemma_var_decl_or_pat_view(*self);
        }
        match self {
            VarDeclOrPat::VarDecl(a) => {
                let a = a.duplicate();
                let r = VarDeclOrPat::VarDecl(a);
                proof {
                    lemma_var_decl_or_pat_view(r);
                }
                r
            },
            VarDeclOrPat::Pat(a) => {
                let a = a.duplicate();
                let r = VarDeclOrPat::Pat(a);
                proof {
                    lemma_var_decl_or_pat_view(r);
                }
                r
            },
        }
    }
}

impl SwitchCase {
    /// A copy of the tree.
    pub fn duplicate(&self) -> (r: SwitchCase)
        ensures
            r@ == self@,
        decreases self,
    {
        proof {
            lemma_switch_case_view(*self);
        }
        let test = match &self.test {
            Some(x) => Some(Box::new(x.duplicate())),
            None => None,
        };
        let cons = copy_stmts(&self.cons);
        let r = SwitchCase { test, cons };
        proof {
            lemma_switch_case_view(r);
        }
        r
    }
}

impl CatchClause {
    /// A copy of the tree.
    pub fn duplicate(&self) -> (r: CatchClause)
        ensures
            r@ == self@,
        decreases self,
    {
        proof {
            lemma_catch_clause_view(*self);
        }
        let param = match &self.param {
            Some(x) => Some(x.duplicate()),
            None => None,
        };
        let body = copy_stmts(&self.body);
        let r = CatchClause { param, body };
        proof {
            lemma_catch_clause_view(r);
        }
        r
    }
}

impl Stmt {
    /// A copy of the tree.
    pub fn duplicate(&self) -> (r: Stmt)
        ensures
            r@ == self@,
        decreases self,
    {
        proof {
            lemma_stmt_view(*self);
        }
        match self {
            Stmt::Block(a) => {
                let a = copy_stmts(a);
                let r = Stmt::Block(a);
                proof {
                    lemma_stmt_view(r);
                }
                r
            },
            Stmt::Empty => Stmt::Empty,
            Stmt::Debugger => Stmt::Debugger,
            Stmt::With { obj, body } => {
                let obj = Box::new(obj.duplicate());
                let body = Box::new(body.duplicate());
                let r = Stmt::With { obj, body };
                proof {
                    lemma_stmt_view(r);
                }
                r
            },
            Stmt::Return(a) => {
                let a = match a {
                    Some(x) => Some(Box::new(x.duplicate())),
                    None => None,
                };
                let r = Stmt::Return(a);
                proof {
                    lemma_stmt_view(r);
                }
                r
            },
            Stmt::Labeled { label, body } => {
                let label = label.duplicate();
                let body = Box::new(body.duplicate());
                let r = Stmt::Labeled { label, body };
                proof {
                    lemma_stmt_view(r);
                }
                r
            },
            Stmt::Break(a) => {
                let a = match a {
                    Some(x) => Some(x.duplicate()),
                    None => None,
                };
                let r = Stmt::Break(a);
                proof {
                    lemma_stmt_view(r);
                }
                r
            },
            Stmt::Continue(a) => {
                let a = match a {
                    Some(x) => Some(x.duplicate()),
                    None => None,
                };
                let r = Stmt::Continue(a);
                proof {
                    lemma_stmt_view(r);
                }
                r
            },
            Stmt::If { test, cons, alt } => {
                let test = Box::new(test.duplicate());
                let cons = Box::new(cons.duplicate());
                let alt = match alt {
                    Some(x) => Some(Box::new(x.duplicate())),
                    None => None,
                };
                let r = Stmt::If { test, cons, alt };
                proof {
                    lemma_stmt_view(r);
                }
                r
            },
            Stmt::Switch { discriminant, cases } => {
                let discriminant = Box::new(discriminant.duplicate());
                let cases = copy_switch_cases(cases);
                let r = Stmt::Switch { discriminant, cases };
                proof {
                    lemma_stmt_view(r);
                }
                r
            },
            Stmt::Throw(a) => {
                let a = Box::new(a.duplicate());
                let r = Stmt::Throw(a);
                proof {
                    lemma_stmt_view(r);
                }
                r
            },
            Stmt::Try { block, handler, finalizer } => {
                let block = copy_stmts(block);
                let handler = match handler {
                    Some(x) => Some(x.duplicate()),
                    None => None,
                };
                let finalizer = match finalizer {
                    Some(x) => Some(copy_stmts(x)),
                    None => None,
                };
                let r = Stmt::Try { block, handler, finalizer };
                proof {
                    lemma_stmt_view(r);
                }
                r
            },
            Stmt::While { test, body } => {
                let test = Box::new(test.duplicate());
                let body = Box::new(body.duplicate());
                let r = Stmt::While { test, body };
                proof {
                    lemma_stmt_view(r);
                }
                r
            },
            Stmt::DoWhile { test, body } => {
                let test = Box::new(test.duplicate());
                let body = Box::new(body.duplicate());
                let r = Stmt::DoWhile { test, body };
                proof {
                    lemma_stmt_view(r);
                }
                r
            },
            Stmt::For { init, test, update, body } => {
                let init = match init {
                    Some(x) => Some(x.duplicate()),
                    None => None,
                };
                let test = match test {
                    Some(x) => Some(Box::new(x.duplicate())),
                    None => None,
                };
                let update = match update {
                    Some(x) => Some(Box::new(x.duplicate())),
                    None => None,
                };
                let body = Box::new(body.duplicate());
                let r = Stmt::For { init, test, update, body };
                proof {
                    lemma_stmt_view(r);
                }
                r
            },
            Stmt::ForIn { left, right, body } => {
                let left = left.duplicate();
                let right = Box::new(right.duplicate());
                let body = Box::new(body.duplicate());
                let r = Stmt::ForIn { left, right, body };
                proof {
                    lemma_stmt_view(r);
                }
                r
            },
            Stmt::ForOf { is_await, left, right, body } => {
                let is_await = *is_await;
                let left = left.duplicate();
                let right = Box::new(right.duplicate());
                let body = Box::new(body.duplicate());
                let r = Stmt::ForOf { is_await, left, right, body };
                proof {
                    lemma_stmt_view(r);
                }
                r
            },
            Stmt::Decl(a) => {
                let a = a.duplicate();
                let r = Stmt::Decl(a);
                proof {
                    lemma_stmt_view(r);
                }
                r
            },
            Stmt::Expr(a) => {
                let a = Box::new(a.duplicate());
                let r = Stmt::Expr(a);
                proof {
                    lemma_stmt_view(r);
                }
                r
            },
        }
    }
}

impl ImportSpecifier {
    /// A copy of the tree.
    pub fn duplicate(&self) -> (r: ImportSpecifier)
        ensures
            r@ == self@,
        decreases self,
    {
        match self {
            ImportSpecifier::Named { local, imported } => {
                let local = local.duplicate();
                let imported = match imported {
                    Some(x) => Some(x.duplicate()),
                    None => None,
                };
                let r = ImportSpecifier::Named { local, imported };
                r
            },
            ImportSpecifier::Default(a) => {
                let a = a.duplicate();
                let r = ImportSpecifier::Default(a);
                r
            },
            ImportSpecifier::Namespace(a) => {
                let a = a.duplicate();
                let r = ImportSpecifier::Namespace(a);
                r
            },
        }
    }
}

impl ExportSpecifier {
    /// A copy of the tree.
    pub fn duplicate(&self) -> (r: ExportSpecifier)
        ensures
            r@ == self@,
        decreases self,
    {
        let orig = self.orig.duplicate();
        let exported = match &self.exported {
            Some(x) => Some(x.duplicate()),
            None => None,
        };
        let r = ExportSpecifier { orig, exported };
        r
    }
}

impl DefaultDecl {
    /// A copy of the tree.
    pub fn duplicate(&self) -> (r: DefaultDecl)
        ensures
            r@ == self@,
        decreases self,
    {
        proof {
            lemma_default_decl_view(*self);
        }
        match self {
            DefaultDecl::Class { ident, class } => {
                let ident = match ident {
                    Some(x) => Some(x.duplicate()),
                    None => None,
                };
                let class = class.duplicate();
                let r = DefaultDecl::Class { ident, class };
                proof {
                    lemma_default_decl_view(r);
                }
                r
            },
            DefaultDecl::Fn { ident, function } => {
                let ident = match ident {
                    Some(x) => Some(x.duplicate()),
                    None => None,
                };
                let function = function.duplicate();
                let r = DefaultDecl::Fn { ident, function };
                proof {
                    lemma_default_decl_view(r);
                }
                r
            },
        }
    }
}

impl ModuleDecl {
    /// A copy of the tree.
    pub fn duplicate(&self) -> (r: ModuleDecl)
        ensures
            r@ == self@,
        decreases self,
    {
        proof {
            lemma_module_decl_view(*self);
        }
        match self {
            ModuleDecl::Import { specifiers, src } => {
                let specifiers = copy_import_specifiers(specifiers);
                let src = src.duplicate();
                let r = ModuleDecl::Import { specifiers, src };
                proof {
                    lemma_module_decl_view(r);
                }
                r
            },
            ModuleDecl::ExportDecl(a) => {
                let a = a.duplicate();
                let r = ModuleDecl::ExportDecl(a);
                proof {
                    lemma_module_decl_view(r);
                }
                r
            },
            ModuleDecl::ExportNamed { specifiers, src } => {
                let specifiers = copy_export_specifiers(specifiers);
                let src = match src {
                    Some(x) => Some(x.duplicate()),
                    None => None,
                };
                let r = ModuleDecl::ExportNamed { specifiers, src };
                proof {
                    lemma_module_decl_view(r);
                }
                r
            },
            ModuleDecl::ExportDefaultDecl(a) => {
                let a = a.duplicate();
                let r = ModuleDecl::ExportDefaultDecl(a);
                proof {
                    lemma_module_decl_view(r);
                }
                r
            },
            ModuleDecl::ExportDefaultExpr(a) => {
                let a = Box::new(a.duplicate());
                let r = ModuleDecl::ExportDefaultExpr(a);
                proof {
                    lemma_module_decl_view(r);
                }
                r
            },
            ModuleDecl::ExportAll { src } => {
                let src = src.duplicate();
                let r = ModuleDecl::ExportAll { src };
                proof {
                    lemma_module_decl_view(r);
                }
                r
            },
        }
    }
}

impl ModuleItem {
    /// A copy of the tree.
    pub fn duplicate(&self) -> (r: ModuleItem)
        ensures
            r@ == self@,
        decreases self,
    {
        proof {
            lemma_module_item_view(*self);
        }
        match self {
            ModuleItem::ModuleDecl(a) => {
                let a = a.duplicate();
                let r = ModuleItem::ModuleDecl(a);
                proof {
                    lemma_module_item_view(r);
                }
                r
            },
            ModuleItem::Stmt(a) => {
                let a = a.duplicate();
                let r = ModuleItem::Stmt(a);
                proof {
                    lemma_module_item_view(r);
                }
                r
            },
        }
    }
}

impl Module {
    /// A copy of the tree.
    pub fn duplicate(&self) -> (r: Module)
        ensures
            r@ == self@,
        decreases self,
    {
        proof {
            lemma_module_view(*self);
        }
        let body = copy_module_items(&self.body);
        let r = Module { body };
        proof {
            lemma_module_view(r);
        }
        r
    }
}

/// A copy of the list.
pub fn copy_class_members(v: &Vec<ClassMember>) -> (r: Vec<ClassMember>)
    ensures
        class_members_view(r@) == class_members_view(v@),
    decreases v,
{
    proof {
        lemma_class_members_view(v@);
    }
    let mut r: Vec<ClassMember> = Vec::new();
    let mut i: usize = 0;
    proof {
        lemma_class_members_view(r@);
    }
    while i < v.len()
        invariant
            i <= v.len(),
            r@.len() == i,
            class_members_view(r@).len() == i,
            class_members_view(v@).len() == v@.len(),
            forall|j: int| 0 <= j < i ==>
                (#[trigger] class_members_view(r@)[j]) == class_members_view(v@)[j],
        decreases v.len() - i,
    {
        let ghost before = r@;
        let x = v[i].duplicate();
        proof {
            lemma_class_members_view(v@);
            lemma_class_members_view_push(before, x);
        }
        r.push(x);
        i += 1;
    }
    assert(class_members_view(r@) =~= class_members_view(v@));
    r
}

/// A copy of the list.
pub fn copy_export_specifiers(v: &Vec<ExportSpecifier>) -> (r: Vec<ExportSpecifier>)
    ensures
        export_specifiers_view(r@) == export_specifiers_view(v@),
    decreases v,
{
    proof {
        lemma_export_specifiers_view(v@);
    }
    let mut r: Vec<ExportSpecifier> = Vec::new();
    let mut i: usize = 0;
    proof {
        lemma_export_specifiers_view(r@);
    }
    while i < v.len()
        invariant
            i <= v.len(),
            r@.len() == i,
            export_specifiers_view(r@).len() == i,
            export_specifiers_view(v@).len() == v@.len(),
            forall|j: int| 0 <= j < i ==>
                (#[trigger] export_specifiers_view(r@)[j]) == export_specifiers_view(v@)[j],
        decreases v.len() - i,
    {
        let ghost before = r@;
        let x = v[i].duplicate();
        proof {
            lemma_export_specifiers_view(v@);
            lemma_export_specifiers_view_push(before, x);
        }
        r.push(x);
        i += 1;
    }
    assert(export_specifiers_view(r@) =~= export_specifiers_view(v@));
    r
}

/// A copy of the list.
pub fn copy_expr_or_spreads(v: &Vec<ExprOrSpread>) -> (r: Vec<ExprOrSpread>)
    ensures
        expr_or_spreads_view(r@) == expr_or_spreads_view(v@),
    decreases v,
{
    proof {
        lemma_expr_or_spreads_view(v@);
    }
    let mut r: Vec<ExprOrSpread> = Vec::new();
    let mut i: usize = 0;
    proof {
        lemma_expr_or_spreads_view(r@);
    }
    while i < v.len()
        invariant
            i <= v.len(),
            r@.len() == i,
            expr_or_spreads_view(r@).len() == i,
            expr_or_spreads_view(v@).len() == v@.len(),
            forall|j: int| 0 <= j < i ==>
                (#[trigger] expr_or_spreads_view(r@)[j]) == expr_or_spreads_view(v@)[j],
        decreases v.len() - i,
    {
        let ghost before = r@;
        let x = v[i].duplicate();
        proof {
            lemma_expr_or_spreads_view(v@);
            lemma_expr_or_spreads_view_push(before, x);
        }
        r.push(x);
        i += 1;
    }
    assert(expr_or_spreads_view(r@) =~= expr_or_spreads_view(v@));
    r
}

/// A copy of the list.
pub fn copy_exprs(v: &Vec<Expr>) -> (r: Vec<Expr>)
    ensures
        exprs_view(r@) == exprs_view(v@),
    decreases v,
{
    proof {
        lemma_exprs_view(v@);
    }
    let mut r: Vec<Expr> = Vec::new();
    let mut i: usize = 0;
    proof {
        lemma_exprs_view(r@);
    }
    while i < v.len()
        invariant
            i <= v.len(),
            r@.len() == i,
            exprs_view(r@).len() == i,
            exprs_view(v@).len() == v@.len(),
            forall|j: int| 0 <= j < i ==> (#[trigger] exprs_view(r@)[j]) == exprs_view(v@)[j],
        decreases v.len() - i,
    {
        let ghost before = r@;
        let x = v[i].duplicate();
        proof {
            lemma_exprs_view(v@);
            lemma_exprs_view_push(before, x);
        }
        r.push(x);
        i += 1;
    }
    assert(exprs_view(r@) =~= exprs_view(v@));
    r
}

/// A copy of the list.
pub fn copy_import_specifiers(v: &Vec<ImportSpecifier>) -> (r: Vec<ImportSpecifier>)
    ensures
        import_specifiers_view(r@) == import_specifiers_view(v@),
    decreases v,
{
    proof {
        lemma_import_specifiers_view(v@);
    }
    let mut r: Vec<ImportSpecifier> = Vec::new();
    let mut i: usize = 0;
    proof {
        lemma_import_specifiers_view(r@);
    }
    while i < v.len()
        invariant
            i <= v.len(),
            r@.len() == i,
            import_specifiers_view(r@).len() == i,
            import_specifiers_view(v@).len() == v@.len(),
            forall|j: int| 0 <= j < i ==>
                (#[trigger] import_specifiers_view(r@)[j]) == import_specifiers_view(v@)[j],
        decreases v.len() - i,
    {
        let ghost before = r@;
        let x = v[i].duplicate();
        proof {
            lemma_import_specifiers_view(v@);
            lemma_import_specifiers_view_push(before, x);
        }
        r.push(x);
        i += 1;
    }
    assert(import_specifiers_view(r@) =~= import_specifiers_view(v@));
    r
}

/// A copy of the list.
pub fn copy_module_items(v: &Vec<ModuleItem>) -> (r: Vec<ModuleItem>)
    ensures
        module_items_view(r@) == module_items_view(v@),
    decreases v,
{
    proof {
        lemma_module_items_view(v@);
    }
    let mut r: Vec<ModuleItem> = Vec::new();
    let mut i: usize = 0;
    proof {
        lemma_module_items_view(r@);
    }
    while i < v.len()
        invariant
            i <= v.len(),
            r@.len() == i,
            module_items_view(r@).len() == i,
            module_items_view(v@).len() == v@.len(),
            forall|j: int| 0 <= j < i ==>
                (#[trigger] module_items_view(r@)[j]) == module_items_view(v@)[j],
        decreases v.len() - i,
    {
        let ghost before = r@;
        let x = v[i].duplicate();
        proof {
            lemma_module_items_view(v@);
            lemma_module_items_view_push(before, x);
        }
        r.push(x);
        i += 1;
    }
    assert(module_items_view(r@) =~= module_items_view(v@));
    r
}

/// A copy of the list.
pub fn copy_object_pat_props(v: &Vec<ObjectPatProp>) -> (r: Vec<ObjectPatProp>)
    ensures
        object_pat_props_view(r@) == object_pat_props_view(v@),
    decreases v,
{
    proof {
        lemma_object_pat_props_view(v@);
    }
    let mut r: Vec<ObjectPatProp> = Vec::new();
    let mut i: usize = 0;
    proof {
        lemma_object_pat_props_view(r@);
    }
    while i < v.len()
        invariant
            i <= v.len(),
            r@.len() == i,
            object_pat_props_view(r@).len() == i,
            object_pat_props_view(v@).len() == v@.len(),
            forall|j: int| 0 <= j < i ==>
                (#[trigger] object_pat_props_view(r@)[j]) == object_pat_props_view(v@)[j],
        decreases v.len() - i,
    {
        let ghost before = r@;
        let x = v[i].duplicate();
        proof {
            lemma_object_pat_props_view(v@);
            lemma_object_pat_props_view_push(before, x);
        }
        r.push(x);
        i += 1;
    }
    assert(object_pat_props_view(r@) =~= object_pat_props_view(v@));
    r
}

/// A copy of the list.
pub fn copy_opt_expr_or_spreads(v: &Vec<Option<ExprOrSpread>>) -> (r: Vec<Option<ExprOrSpread>>)
    ensures
        opt_expr_or_spreads_view(r@) == opt_expr_or_spreads_view(v@),
    decreases v,
{
    proof {
        lemma_opt_expr_or_spreads_view(v@);
    }
    let mut r: Vec<Option<ExprOrSpread>> = Vec::new();
    let mut i: usize = 0;
    proof {
        lemma_opt_expr_or_spreads_view(r@);
    }
    while i < v.len()
        invariant
            i <= v.len(),
            r@.len() == i,
            opt_expr_or_spreads_view(r@).len() == i,
            opt_expr_or_spreads_view(v@).len() == v@.len(),
            forall|j: int| 0 <= j < i ==>
                (#[trigger] opt_expr_or_spreads_view(r@)[j]) == opt_expr_or_spreads_view(v@)[j],
        decreases v.len() - i,
    {
        let ghost before = r@;
        let x = match &v[i] {
            Some(x) => Some(x.duplicate()),
            None => None,
        };
        proof {
            lemma_opt_expr_or_spreads_view(v@);
            lemma_opt_expr_or_spreads_view_push(before, x);
        }
        r.push(x);
        i += 1;
    }
    assert(opt_expr_or_spreads_view(r@) =~= opt_expr_or_spreads_view(v@));
    r
}

/// A copy of the list.
pub fn copy_opt_pats(v: &Vec<Option<Pat>>) -> (r: Vec<Option<Pat>>)
    ensures
        opt_pats_view(r@) == opt_pats_view(v@),
    decreases v,
{
    proof {
        lemma_opt_pats_view(v@);
    }
    let mut r: Vec<Option<Pat>> = Vec::new();
    let mut i: usize = 0;
    proof {
        lemma_opt_pats_view(r@);
    }
    while i < v.len()
        invariant
            i <= v.len(),
            r@.len() == i,
            opt_pats_view(r@).len() == i,
            opt_pats_view(v@).len() == v@.len(),
            forall|j: int| 0 <= j < i ==> (#[trigger] opt_pats_view(r@)[j]) == opt_pats_view(v@)[j],
        decreases v.len() - i,
    {
        let ghost before = r@;
        let x = match &v[i] {
            Some(x) => Some(x.duplicate()),
            None => None,
        };
        proof {
            lemma_opt_pats_view(v@);
            lemma_opt_pats_view_push(before, x);
        }
        r.push(x);
        i += 1;
    }
    assert(opt_pats_view(r@) =~= opt_pats_view(v@));
    r
}

/// A copy of the list.
pub fn copy_pats(v: &Vec<Pat>) -> (r: Vec<Pat>)
    ensures
        pats_view(r@) == pats_view(v@),
    decreases v,
{
    proof {
        lemma_pats_view(v@);
    }
    let mut r: Vec<Pat> = Vec::new();
    let mut i: usize = 0;
    proof {
        lemma_pats_view(r@);
    }
    while i < v.len()
        invariant
            i <= v.len(),
            r@.len() == i,
            pats_view(r@).len() == i,
            pats_view(v@).len() == v@.len(),
            forall|j: int| 0 <= j < i ==> (#[trigger] pats_view(r@)[j]) == pats_view(v@)[j],
        decreases v.len() - i,
    {
        let ghost before = r@;
        let x = v[i].duplicate();
        proof {
            lemma_pats_view(v@);
            lemma_pats_view_push(before, x);
        }
        r.push(x);
        i += 1;
    }
    assert(pats_view(r@) =~= pats_view(v@));
    r
}

/// A copy of the list.
pub fn copy_prop_or_spreads(v: &Vec<PropOrSpread>) -> (r: Vec<PropOrSpread>)
    ensures
        prop_or_spreads_view(r@) == prop_or_spreads_view(v@),
    decreases v,
{
    proof {
        lemma_prop_or_spreads_view(v@);
    }
    let mut r: Vec<PropOrSpread> = Vec::new();
    let mut i: usize = 0;
    proof {
        lemma_prop_or_spreads_view(r@);
    }
    while i < v.len()
        invariant
            i <= v.len(),
            r@.len() == i,
            prop_or_spreads_view(r@).len() == i,
            prop_or_spreads_view(v@).len() == v@.len(),
            forall|j: int| 0 <= j < i ==>
                (#[trigger] prop_or_spreads_view(r@)[j]) == prop_or_spreads_view(v@)[j],
        decreases v.len() - i,
    {
        let ghost before = r@;
        let x = v[i].duplicate();
        proof {
            lemma_prop_or_spreads_view(v@);
            lemma_prop_or_spreads_view_push(before, x);
        }
        r.push(x);
        i += 1;
    }
    assert(prop_or_spreads_view(r@) =~= prop_or_spreads_view(v@));
    r
}

/// A copy of the list.
pub fn copy_stmts(v: &Vec<Stmt>) -> (r: Vec<Stmt>)
    ensures
        stmts_view(r@) == stmts_view(v@),
    decreases v,
{
    proof {
        lemma_stmts_view(v@);
    }
    let mut r: Vec<Stmt> = Vec::new();
    let mut i: usize = 0;
    proof {
        lemma_stmts_view(r@);
    }
    while i < v.len()
        invariant
            i <= v.len(),
            r@.len() == i,
            stmts_view(r@).len() == i,
            stmts_view(v@).len() == v@.len(),
            forall|j: int| 0 <= j < i ==> (#[trigger] stmts_view(r@)[j]) == stmts_view(v@)[j],
        decreases v.len() - i,
    {
        let ghost before = r@;
        let x = v[i].duplicate();
        proof {
            lemma_stmts_view(v@);
            lemma_stmts_view_push(before, x);
        }
        r.push(x);
        i += 1;
    }
    assert(stmts_view(r@) =~= stmts_view(v@));
    r
}

/// A copy of the list.
pub fn copy_switch_cases(v: &Vec<SwitchCase>) -> (r: Vec<SwitchCase>)
    ensures
        switch_cases_view(r@) == switch_cases_view(v@),
    decreases v,
{
    proof {
        lemma_switch_cases_view(v@);
    }
    let mut r: Vec<SwitchCase> = Vec::new();
    let mut i: usize = 0;
    proof {
        lemma_switch_cases_view(r@);
    }
    while i < v.len()
        invariant
            i <= v.len(),
            r@.len() == i,
            switch_cases_view(r@).len() == i,
            switch_cases_view(v@).len() == v@.len(),
            forall|j: int| 0 <= j < i ==>
                (#[trigger] switch_cases_view(r@)[j]) == switch_cases_view(v@)[j],
        decreases v.len() - i,
    {
        let ghost before = r@;
        let x = v[i].duplicate();
        proof {
            lemma_switch_cases_view(v@);
            lemma_switch_cases_view_push(before, x);
        }
        r.push(x);
        i += 1;
    }
    assert(switch_cases_view(r@) =~= switch_cases_view(v@));
    r
}

/// A copy of the list.
pub fn copy_tpl_elements(v: &Vec<TplElement>) -> (r: Vec<TplElement>)
    ensures
        tpl_elements_view(r@) == tpl_elements_view(v@),
    decreases v,
{
    proof {
        lemma_tpl_elements_view(v@);
    }
    let mut r: Vec<TplElement> = Vec::new();
    let mut i: usize = 0;
    proof {
        lemma_tpl_elements_view(r@);
    }
    while i < v.len()
        invariant
            i <= v.len(),
            r@.len() == i,
            tpl_elements_view(r@).len() == i,
            tpl_elements_view(v@).len() == v@.len(),
            forall|j: int| 0 <= j < i ==>
                (#[trigger] tpl_elements_view(r@)[j]) == tpl_elements_view(v@)[j],
        decreases v.len() - i,
    {
        let ghost before = r@;
        let x = v[i].duplicate();
        proof {
            lemma_tpl_elements_view(v@);
            lemma_tpl_elements_view_push(before, x);
        }
        r.push(x);
        i += 1;
    }
    assert(tpl_elements_view(r@) =~= tpl_elements_view(v@));
    r
}

/// A copy of the list.
pub fn copy_var_declarators(v: &Vec<VarDeclarator>) -> (r: Vec<VarDeclarator>)
    ensures
        var_declarators_view(r@) == var_declarators_view(v@),
    decreases v,
{
    proof {
        lemma_var_declarators_view(v@);
    }
    let mut r: Vec<VarDeclarator> = Vec::new();
    let mut i: usize = 0;
    proof {
        lemma_var_declarators_view(r@);
    }
    while i < v.len()
        invariant
            i <= v.len(),
            r@.len() == i,
            var_declarators_view(r@).len() == i,
            var_declarators_view(v@).len() == v@.len(),
            forall|j: int| 0 <= j < i ==>
                (#[trigger] var_declarators_view(r@)[j]) == var_declarators_view(v@)[j],
        decreases v.len() - i,
    {
        let ghost before = r@;
        let x = v[i].duplicate();
        proof {
            lemma_var_declarators_view(v@);
            lemma_var_declarators_view_push(before, x);
        }
        r.push(x);
        i += 1;
    }
    assert(var_declarators_view(r@) =~= var_declarators_view(v@));
    r
}

} // verus!
