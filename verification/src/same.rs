//! Equality of trees, decided position by position.

use vstd::prelude::*;
use crate::ast::{
    BlockStmtOrExpr, CatchClause, Class, ClassMember, Decl, DefaultDecl, ExportSpecifier, Expr,
    ExprOrSpread, ExprOrSuper, Function, Ident, ImportSpecifier, Lit, MemberProp, Module,
    ModuleDecl, ModuleItem, Number, ObjectPatProp, Pat, PatOrExpr, Prop, PropName, PropOrSpread,
    Regex, Stmt, Str, SwitchCase, Tpl, TplElement, VarDecl, VarDeclOrExpr, VarDeclOrPat,
    VarDeclarator,
};
use crate::view::{
    class_members_view, export_specifiers_view, expr_or_spreads_view, exprs_view,
    import_specifiers_view, lemma_block_stmt_or_expr_view, lemma_catch_clause_view,
    lemma_class_member_view, lemma_class_members_view, lemma_class_view, lemma_decl_view,
    lemma_default_decl_view, lemma_export_specifiers_view, lemma_expr_or_spread_view,
    lemma_expr_or_spreads_view, lemma_expr_or_super_view, lemma_expr_view, lemma_exprs_view,
    lemma_function_view, lemma_import_specifiers_view, lemma_member_prop_view,
    lemma_module_decl_view, lemma_module_item_view, lemma_module_items_view, lemma_module_view,
    lemma_object_pat_prop_view, lemma_object_pat_props_view, lemma_opt_expr_or_spreads_view,
    lemma_opt_pats_view, lemma_pat_or_expr_view, lemma_pat_view, lemma_pats_view,
    lemma_prop_name_view, lemma_prop_or_spread_view, lemma_prop_or_spreads_view, lemma_prop_view,
    lemma_stmt_view, lemma_stmts_view, lemma_switch_case_view, lemma_switch_cases_view,
    lemma_tpl_elements_view, lemma_tpl_view, lemma_var_decl_or_expr_view,
    lemma_var_decl_or_pat_view, lemma_var_decl_view, lemma_var_declarator_view,
    lemma_var_declarators_view, module_items_view, object_pat_props_view, opt_expr_or_spreads_view,
    opt_pats_view, pats_view, prop_or_spreads_view, stmts_view, switch_cases_view,
    tpl_elements_view, var_declarators_view,
};

verus! {

impl Ident {
    /// Whether the two trees are the same, position by position.
    pub fn same(&self, other: &Ident) -> (r: bool)
        ensures
            r == (self@ == other@),
        decreases self,
    {
        self.sym == other.sym
        && self.ctxt == other.ctxt
    }
}

impl Number {
    /// Whether the two trees are the same, position by position.
    pub fn same(&self, other: &Number) -> (r: bool)
        ensures
            r == (self@ == other@),
        decreases self,
    {
        self.bits == other.bits
        && self.text == other.text
    }
}

impl Str {
    /// Whether the two trees are the same, position by position.
    pub fn same(&self, other: &Str) -> (r: bool)
        ensures
            r == (self@ == other@),
        decreases self,
    {
        self.value == other.value
        && self.has_escape == other.has_escape
    }
}

impl Regex {
    /// Whether the two trees are the same, position by position.
    pub fn same(&self, other: &Regex) -> (r: bool)
        ensures
            r == (self@ == other@),
        decreases self,
    {
        self.exp == other.exp
        && self.flags == other.flags
    }
}

impl Lit {
    /// Whether the two trees are the same, position by position.
    pub fn same(&self, other: &Lit) -> (r: bool)
        ensures
            r == (self@ == other@),
        decreases self,
    {
        match self {
            Lit::Str(a0) => match other {
                Lit::Str(b0) => {
                    a0.same(b0)
                },
                _ => false,
            },
            Lit::Bool(a0) => match other {
                Lit::Bool(b0) => {
                    *a0 == *b0
                },
                _ => false,
            },
            Lit::Null => match other {
                Lit::Null => true,
                _ => false,
            },
            Lit::Num(a0) => match other {
                Lit::Num(b0) => {
                    a0.same(b0)
                },
                _ => false,
            },
            Lit::BigInt(a0) => match other {
                Lit::BigInt(b0) => {
                    *a0 == *b0
                },
                _ => false,
            },
            Lit::Regex(a0) => match other {
                Lit::Regex(b0) => {
                    a0.same(b0)
                },
                _ => false,
            },
        }
    }
}

impl TplElement {
    /// Whether the two trees are the same, position by position.
    pub fn same(&self, other: &TplElement) -> (r: bool)
        ensures
            r == (self@ == other@),
        decreases self,
    {
        self.tail == other.tail
        && (match (&self.cooked, &other.cooked) {
            (Some(x), Some(y)) => *x == *y,
            (None, None) => true,
            _ => false,
        })
        && self.raw == other.raw
    }
}

impl Tpl {
    /// Whether the two trees are the same, position by position.
    pub fn same(&self, other: &Tpl) -> (r: bool)
        ensures
            r == (self@ == other@),
        decreases self,
    {
        proof {
            lemma_tpl_view(*self);
            lemma_tpl_view(*other);
        }
        same_exprs(&self.exprs, &other.exprs)
        && same_tpl_elements(&self.quasis, &other.quasis)
    }
}

impl ExprOrSpread {
    /// Whether the two trees are the same, position by position.
    pub fn same(&self, other: &ExprOrSpread) -> (r: bool)
        ensures
            r == (self@ == other@),
        decreases self,
    {
        proof {
            lemma_expr_or_spread_view(*self);
            lemma_expr_or_spread_view(*other);
        }
        self.spread == other.spread
        && self.expr.same(&other.expr)
    }
}

impl ExprOrSuper {
    /// Whether the two trees are the same, position by position.
    pub fn same(&self, other: &ExprOrSuper) -> (r: bool)
        ensures
            r == (self@ == other@),
        decreases self,
    {
        proof {
            lemma_expr_or_super_view(*self);
            lemma_expr_or_super_view(*other);
        }
        match self {
            ExprOrSuper::Super => match other {
                ExprOrSuper::Super => true,
                _ => false,
            },
            ExprOrSuper::Expr(a0) => match other {
                ExprOrSuper::Expr(b0) => {
                    a0.same(b0)
                },
                _ => false,
            },
        }
    }
}

impl MemberProp {
    /// Whether the two trees are the same, position by position.
    pub fn same(&self, other: &MemberProp) -> (r: bool)
        ensures
            r == (self@ == other@),
        decreases self,
    {
        proof {
            lemma_member_prop_view(*self);
            lemma_member_prop_view(*other);
        }
        match self {
            MemberProp::Ident(a0) => match other {
                MemberProp::Ident(b0) => {
                    a0.same(b0)
                },
                _ => false,
            },
            MemberProp::Computed(a0) => match other {
                MemberProp::Computed(b0) => {
                    a0.same(b0)
                },
                _ => false,
            },
        }
    }
}

impl PatOrExpr {
    /// Whether the two trees are the same, position by position.
    pub fn same(&self, other: &PatOrExpr) -> (r: bool)
        ensures
            r == (self@ == other@),
        decreases self,
    {
        proof {
            lemma_pat_or_expr_view(*self);
            lemma_pat_or_expr_view(*other);
        }
        match self {
            PatOrExpr::Expr(a0) => match other {
                PatOrExpr::Expr(b0) => {
                    a0.same(b0)
                },
                _ => false,
            },
            PatOrExpr::Pat(a0) => match other {
                PatOrExpr::Pat(b0) => {
                    a0.same(b0)
                },
                _ => false,
            },
        }
    }
}

impl PropName {
    /// Whether the two trees are the same, position by position.
    pub fn same(&self, other: &PropName) -> (r: bool)
        ensures
            r == (self@ == other@),
        decreases self,
    {
        proof {
            lemma_prop_name_view(*self);
            lemma_prop_name_view(*other);
        }
        match self {
            PropName::Ident(a0) => match other {
                PropName::Ident(b0) => {
                    a0.same(b0)
                },
                _ => false,
            },
            PropName::Str(a0) => match other {
                PropName::Str(b0) => {
                    a0.same(b0)
                },
                _ => false,
            },
            PropName::Num(a0) => match other {
                PropName::Num(b0) => {
                    a0.same(b0)
                },
                _ => false,
            },
            PropName::Computed(a0) => match other {
                PropName::Computed(b0) => {
                    a0.same(b0)
                },
                _ => false,
            },
        }
    }
}

impl Prop {
    /// Whether the two trees are the same, position by position.
    pub fn same(&self, other: &Prop) -> (r: bool)
        ensures
            r == (self@ == other@),
        decreases self,
    {
        proof {
            lemma_prop_view(*self);
            lemma_prop_view(*other);
        }
        match self {
            Prop::Shorthand(a0) => match other {
                Prop::Shorthand(b0) => {
                    a0.same(b0)
                },
                _ => false,
            },
            Prop::KeyValue { key: a_key, value: a_value } => match other {
                Prop::KeyValue { key: b_key, value: b_value } => {
                    a_key.same(b_key)
                    && a_value.same(b_value)
                },
                _ => false,
            },
            Prop::Getter { key: a_key, body: a_body } => match other {
                Prop::Getter { key: b_key, body: b_body } => {
                    a_key.same(b_key)
                    && (match (a_body, b_body) {
                        (Some(x), Some(y)) => same_stmts(x, y),
                        (None, None) => true,
                        _ => false,
                    })
                },
                _ => false,
            },
            Prop::Setter { key: a_key, param: a_param, body: a_body } => match other {
                Prop::Setter { key: b_key, param: b_param, body: b_body } => {
                    a_key.same(b_key)
                    && a_param.same(b_param)
                    && (match (a_body, b_body) {
                        (Some(x), Some(y)) => same_stmts(x, y),
                        (None, None) => true,
                        _ => false,
                    })
                },
                _ => false,
            },
            Prop::Method { key: a_key, function: a_function } => match other {
                Prop::Method { key: b_key, function: b_function } => {
                    a_key.same(b_key)
                    && a_function.same(b_function)
                },
                _ => false,
            },
        }
    }
}

impl PropOrSpread {
    /// Whether the two trees are the same, position by position.
    pub fn same(&self, other: &PropOrSpread) -> (r: bool)
        ensures
            r == (self@ == other@),
        decreases self,
    {
        proof {
            lemma_prop_or_spread_view(*self);
            lemma_prop_or_spread_view(*other);
        }
        match self {
            PropOrSpread::Spread(a0) => match other {
                PropOrSpread::Spread(b0) => {
                    a0.same(b0)
                },
                _ => false,
            },
            PropOrSpread::Prop(a0) => match other {
                PropOrSpread::Prop(b0) => {
                    a0.same(b0)
                },
                _ => false,
            },
        }
    }
}

impl Function {
    /// Whether the two trees are the same, position by position.
    pub fn same(&self, other: &Function) -> (r: bool)
        ensures
            r == (self@ == other@),
        decreases self,
    {
        proof {
            lemma_function_view(*self);
            lemma_function_view(*other);
        }
        same_pats(&self.params, &other.params)
        && (match (&self.body, &other.body) {
            (Some(x), Some(y)) => same_stmts(x, y),
            (None, None) => true,
            _ => false,
        })
        && self.is_generator == other.is_generator
        && self.is_async == other.is_async
    }
}

impl Class {
    /// Whether the two trees are the same, position by position.
    pub fn same(&self, other: &Class) -> (r: bool)
        ensures
            r == (self@ == other@),
        decreases self,
    {
        proof {
            lemma_class_view(*self);
            lemma_class_view(*other);
        }
        (match (&self.super_class, &other.super_class) {
            (Some(x), Some(y)) => x.same(y),
            (None, None) => true,
            _ => false,
        })
        && same_class_members(&self.body, &other.body)
    }
}

impl ClassMember {
    /// Whether the two trees are the same, position by position.
    pub fn same(&self, other: &ClassMember) -> (r: bool)
        ensures
            r == (self@ == other@),
        decreases self,
    {
        proof {
            lemma_class_member_view(*self);
            lemma_class_member_view(*other);
        }
        match self {
            ClassMember::Constructor { key: a_key, params: a_params, body: a_body } => match other {
                ClassMember::Constructor { key: b_key, params: b_params, body: b_body } => {
                    a_key.same(b_key)
                    && same_pats(a_params, b_params)
                    && (match (a_body, b_body) {
                        (Some(x), Some(y)) => same_stmts(x, y),
                        (None, None) => true,
                        _ => false,
                    })
                },
                _ => false,
            },
            ClassMember::Method {
                key: a_key,
                function: a_function,
                kind: a_kind,
                is_static: a_is_static,
            } => match other {
                ClassMember::Method {
                    key: b_key,
                    function: b_function,
                    kind: b_kind,
                    is_static: b_is_static,
                } => {
                    a_key.same(b_key)
                    && a_function.same(b_function)
                    && *a_kind == *b_kind
                    && *a_is_static == *b_is_static
                },
                _ => false,
            },
            ClassMember::Prop {
                key: a_key,
                value: a_value,
                is_static: a_is_static,
                computed: a_computed,
            } => match other {
                ClassMember::Prop {
                    key: b_key,
                    value: b_value,
                    is_static: b_is_static,
                    computed: b_computed,
                } => {
                    a_key.same(b_key)
                    && (match (a_value, b_value) {
                        (Some(x), Some(y)) => x.same(y),
                        (None, None) => true,
                        _ => false,
                    })
                    && *a_is_static == *b_is_static
                    && *a_computed == *b_computed
                },
                _ => false,
            },
        }
    }
}

impl BlockStmtOrExpr {
    /// Whether the two trees are the same, position by position.
    pub fn same(&self, other: &BlockStmtOrExpr) -> (r: bool)
        ensures
            r == (self@ == other@),
        decreases self,
    {
        proof {
            lemma_block_stmt_or_expr_view(*self);
            lemma_block_stmt_or_expr_view(*other);
        }
        match self {
            BlockStmtOrExpr::Block(a0) => match other {
                BlockStmtOrExpr::Block(b0) => {
                    same_stmts(a0, b0)
                },
                _ => false,
            },
            BlockStmtOrExpr::Expr(a0) => match other {
                BlockStmtOrExpr::Expr(b0) => {
                    a0.same(b0)
                },
                _ => false,
            },
        }
    }
}

impl Expr {
    /// Whether the two trees are the same, position by position.
    pub fn same(&self, other: &Expr) -> (r: bool)
        ensures
            r == (self@ == other@),
        decreases self,
    {
        proof {
            lemma_expr_view(*self);
            lemma_expr_view(*other);
        }
        match self {
            Expr::This => match other {
                Expr::This => true,
                _ => false,
            },
            Expr::Array(a0) => match other {
                Expr::Array(b0) => {
                    same_opt_expr_or_spreads(a0, b0)
                },
                _ => false,
            },
            Expr::Object(a0) => match other {
                Expr::Object(b0) => {
                    same_prop_or_spreads(a0, b0)
                },
                _ => false,
            },
            Expr::Fn { ident: a_ident, function: a_function } => match other {
                Expr::Fn { ident: b_ident, function: b_function } => {
                    (match (a_ident, b_ident) {
                        (Some(x), Some(y)) => x.same(y),
                        (None, None) => true,
                        _ => false,
                    })
                    && a_function.same(b_function)
                },
                _ => false,
            },
            Expr::Unary { op: a_op, arg: a_arg } => match other {
                Expr::Unary { op: b_op, arg: b_arg } => {
                    *a_op == *b_op
                    && a_arg.same(b_arg)
                },
                _ => false,
            },
            Expr::Update { op: a_op, prefix: a_prefix, arg: a_arg } => match other {
                Expr::Update { op: b_op, prefix: b_prefix, arg: b_arg } => {
                    *a_op == *b_op
                    && *a_prefix == *b_prefix
                    && a_arg.same(b_arg)
                },
                _ => false,
            },
            Expr::Bin { op: a_op, left: a_left, right: a_right } => match other {
                Expr::Bin { op: b_op, left: b_left, right: b_right } => {
                    *a_op == *b_op
                    && a_left.same(b_left)
                    && a_right.same(b_right)
                },
                _ => false,
            },
            Expr::Assign { op: a_op, left: a_left, right: a_right } => match other {
                Expr::Assign { op: b_op, left: b_left, right: b_right } => {
                    *a_op == *b_op
                    && a_left.same(b_left)
                    && a_right.same(b_right)
                },
                _ => false,
            },
            Expr::Member { obj: a_obj, prop: a_prop } => match other {
                Expr::Member { obj: b_obj, prop: b_prop } => {
                    a_obj.same(b_obj)
                    && a_prop.same(b_prop)
                },
                _ => false,
            },
            Expr::Cond { test: a_test, cons: a_cons, alt: a_alt } => match other {
                Expr::Cond { test: b_test, cons: b_cons, alt: b_alt } => {
                    a_test.same(b_test)
                    && a_cons.same(b_cons)
                    && a_alt.same(b_alt)
                },
                _ => false,
            },
            Expr::Call { callee: a_callee, args: a_args } => match other {
                Expr::Call { callee: b_callee, args: b_args } => {
                    a_callee.same(b_callee)
                    && same_expr_or_spreads(a_args, b_args)
                },
                _ => false,
            },
            Expr::New { callee: a_callee, args: a_args } => match other {
                Expr::New { callee: b_callee, args: b_args } => {
                    a_callee.same(b_callee)
                    && (match (a_args, b_args) {
                        (Some(x), Some(y)) => same_expr_or_spreads(x, y),
                        (None, None) => true,
                        _ => false,
                    })
                },
                _ => false,
            },
            Expr::Sequence { init: a_init, last: a_last } => match other {
                Expr::Sequence { init: b_init, last: b_last } => {
                    same_exprs(a_init, b_init)
                    && a_last.same(b_last)
                },
                _ => false,
            },
            Expr::Ident(a0) => match other {
                Expr::Ident(b0) => {
                    a0.same(b0)
                },
                _ => false,
            },
            Expr::Lit(a0) => match other {
                Expr::Lit(b0) => {
                    a0.same(b0)
                },
                _ => false,
            },
            Expr::Tpl(a0) => match other {
                Expr::Tpl(b0) => {
                    a0.same(b0)
                },
                _ => false,
            },
            Expr::TaggedTpl { tag: a_tag, tpl: a_tpl } => match other {
                Expr::TaggedTpl { tag: b_tag, tpl: b_tpl } => {
                    a_tag.same(b_tag)
                    && a_tpl.same(b_tpl)
                },
                _ => false,
            },
            Expr::Arrow {
                params: a_params,
                body: a_body,
                is_async: a_is_async,
                is_generator: a_is_generator,
            } => match other {
                Expr::Arrow {
                    params: b_params,
                    body: b_body,
                    is_async: b_is_async,
                    is_generator: b_is_generator,
                } => {
                    same_pats(a_params, b_params)
                    && a_body.same(b_body)
                    && *a_is_async == *b_is_async
                    && *a_is_generator == *b_is_generator
                },
                _ => false,
            },
            Expr::Class { ident: a_ident, class: a_class } => match other {
                Expr::Class { ident: b_ident, class: b_class } => {
                    (match (a_ident, b_ident) {
                        (Some(x), Some(y)) => x.same(y),
                        (None, None) => true,
                        _ => false,
                    })
                    && a_class.same(b_class)
                },
                _ => false,
            },
            Expr::Yield { arg: a_arg, delegate: a_delegate } => match other {
                Expr::Yield { arg: b_arg, delegate: b_delegate } => {
                    (match (a_arg, b_arg) {
                        (Some(x), Some(y)) => x.same(y),
                        (None, None) => true,
                        _ => false,
                    })
                    && *a_delegate == *b_delegate
                },
                _ => false,
            },
            Expr::MetaProp { meta: a_meta, prop: a_prop } => match other {
                Expr::MetaProp { meta: b_meta, prop: b_prop } => {
                    a_meta.same(b_meta)
                    && a_prop.same(b_prop)
                },
                _ => false,
            },
            Expr::Await(a0) => match other {
                Expr::Await(b0) => {
                    a0.same(b0)
                },
                _ => false,
            },
            Expr::Paren(a0) => match other {
                Expr::Paren(b0) => {
                    a0.same(b0)
                },
                _ => false,
            },
            Expr::Ts { cast: a_cast, expr: a_expr } => match other {
                Expr::Ts { cast: b_cast, expr: b_expr } => {
                    *a_cast == *b_cast
                    && a_expr.same(b_expr)
                },
                _ => false,
            },
            Expr::OptChain(a0) => match other {
                Expr::OptChain(b0) => {
                    a0.same(b0)
                },
                _ => false,
            },
            Expr::PrivateName(a0) => match other {
                Expr::PrivateName(b0) => {
                    a0.same(b0)
                },
                _ => false,
            },
        }
    }
}

impl Pat {
    /// Whether the two trees are the same, position by position.
    pub fn same(&self, other: &Pat) -> (r: bool)
        ensures
            r == (self@ == other@),
        decreases self,
    {
        proof {
            lemma_pat_view(*self);
            lemma_pat_view(*other);
        }
        match self {
            Pat::Ident(a0) => match other {
                Pat::Ident(b0) => {
                    a0.same(b0)
                },
                _ => false,
            },
            Pat::Array(a0) => match other {
                Pat::Array(b0) => {
                    same_opt_pats(a0, b0)
                },
                _ => false,
            },
            Pat::Rest(a0) => match other {
                Pat::Rest(b0) => {
                    a0.same(b0)
                },
                _ => false,
            },
            Pat::Object(a0) => match other {
                Pat::Object(b0) => {
                    same_object_pat_props(a0, b0)
                },
                _ => false,
            },
            Pat::Assign { left: a_left, right: a_right } => match other {
                Pat::Assign { left: b_left, right: b_right } => {
                    a_left.same(b_left)
                    && a_right.same(b_right)
                },
                _ => false,
            },
            Pat::Expr(a0) => match other {
                Pat::Expr(b0) => {
                    a0.same(b0)
                },
                _ => false,
            },
        }
    }
}

impl ObjectPatProp {
    /// Whether the two trees are the same, position by position.
    pub fn same(&self, other: &ObjectPatProp) -> (r: bool)
        ensures
            r == (self@ == other@),
        decreases self,
    {
        proof {
            lemma_object_pat_prop_view(*self);
            lemma_object_pat_prop_view(*other);
        }
        match self {
            ObjectPatProp::KeyValue { key: a_key, value: a_value } => match other {
                ObjectPatProp::KeyValue { key: b_key, value: b_value } => {
                    a_key.same(b_key)
                    && a_value.same(b_value)
                },
                _ => false,
            },
            ObjectPatProp::Assign { key: a_key, value: a_value } => match other {
                ObjectPatProp::Assign { key: b_key, value: b_value } => {
                    a_key.same(b_key)
                    && (match (a_value, b_value) {
                        (Some(x), Some(y)) => x.same(y),
                        (None, None) => true,
                        _ => false,
                    })
                },
                _ => false,
            },
            ObjectPatProp::Rest(a0) => match other {
                ObjectPatProp::Rest(b0) => {
                    a0.same(b0)
                },
                _ => false,
            },
        }
    }
}

impl VarDeclarator {
    /// Whether the two trees are the same, position by position.
    pub fn same(&self, other: &VarDeclarator) -> (r: bool)
        ensures
            r == (self@ == other@),
        decreases self,
    {
        proof {
            lemma_var_declarator_view(*self);
            lemma_var_declarator_view(*other);
        }
        self.name.same(&other.name)
        && (match (&self.init, &other.init) {
            (Some(x), Some(y)) => x.same(y),
            (None, None) => true,
            _ => false,
        })
    }
}

impl VarDecl {
    /// Whether the two trees are the same, position by position.
    pub fn same(&self, other: &VarDecl) -> (r: bool)
        ensures
            r == (self@ == other@),
        decreases self,
    {
        proof {
            lemma_var_decl_view(*self);
            lemma_var_decl_view(*other);
        }
        self.kind == other.kind
        && self.annotation == other.annotation
        && same_var_declarators(&self.decls, &other.decls)
    }
}

impl Decl {
    /// Whether the two trees are the same, position by position.
    pub fn same(&self, other: &Decl) -> (r: bool)
        ensures
            r == (self@ == other@),
        decreases self,
    {
        proof {
            lemma_decl_view(*self);
            lemma_decl_view(*other);
        }
        match self {
            Decl::Class { ident: a_ident, class: a_class } => match other {
                Decl::Class { ident: b_ident, class: b_class } => {
                    a_ident.same(b_ident)
                    && a_class.same(b_class)
                },
                _ => false,
            },
            Decl::Fn { ident: a_ident, function: a_function } => match other {
                Decl::Fn { ident: b_ident, function: b_function } => {
                    a_ident.same(b_ident)
                    && a_function.same(b_function)
                },
                _ => false,
            },
            Decl::Var(a0) => match other {
                Decl::Var(b0) => {
                    a0.same(b0)
                },
                _ => false,
            },
        }
    }
}

impl VarDeclOrExpr {
    /// Whether the two trees are the same, position by position.
    pub fn same(&self, other: &VarDeclOrExpr) -> (r: bool)
        ensures
            r == (self@ == other@),
        decreases self,
    {
        proof {
            lemma_var_decl_or_expr_view(*self);
            lemma_var_decl_or_expr_view(*other);
        }
        match self {
            VarDeclOrExpr::VarDecl(a0) => match other {
                VarDeclOrExpr::VarDecl(b0) => {
                    a0.same(b0)
                },
                _ => false,
            },
            VarDeclOrExpr::Expr(a0) => match other {
                VarDeclOrExpr::Expr(b0) => {
                    a0.same(b0)
                },
                _ => false,
            },
        }
    }
}

impl VarDeclOrPat {
    /// Whether the two trees are the same, position by position.
    pub fn same(&self, other: &VarDeclOrPat) -> (r: bool)
        ensures
            r == (self@ == other@),
        decreases self,
    {
        proof {
            lemma_var_decl_or_pat_view(*self);
            lemma_var_decl_or_pat_view(*other);
        }
        match self {
            VarDeclOrPat::VarDecl(a0) => match other {
                VarDeclOrPat::VarDecl(b0) => {
                    a0.same(b0)
                },
                _ => false,
            },
            VarDeclOrPat::Pat(a0) => match other {
                VarDeclOrPat::Pat(b0) => {
                    a0.same(b0)
                },
                _ => false,
            },
        }
    }
}

impl SwitchCase {
    /// Whether the two trees are the same, position by position.
    pub fn same(&self, other: &SwitchCase) -> (r: bool)
        ensures
            r == (self@ == other@),
        decreases self,
    {
        proof {
            lemma_switch_case_view(*self);
            lemma_switch_case_view(*other);
        }
        (match (&self.test, &other.test) {
            (Some(x), Some(y)) => x.same(y),
            (None, None) => true,
            _ => false,
        })
        && same_stmts(&self.cons, &other.cons)
    }
}

impl CatchClause {
    /// Whether the two trees are the same, position by position.
    pub fn same(&self, other: &CatchClause) -> (r: bool)
        ensures
            r == (self@ == other@),
        decreases self,
    {
        proof {
            lemma_catch_clause_view(*self);
            lemma_catch_clause_view(*other);
        }
        (match (&self.param, &other.param) {
            (Some(x), Some(y)) => x.same(y),
            (None, None) => true,
            _ => false,
        })
        && same_stmts(&self.body, &other.body)
    }
}

impl Stmt {
    /// Whether the two trees are the same, position by position.
    pub fn same(&self, other: &Stmt) -> (r: bool)
        ensures
            r == (self@ == other@),
        decreases self,
    {
        proof {
            lemma_stmt_view(*self);
            lemma_stmt_view(*other);
        }
        match self {
            Stmt::Block(a0) => match other {
                Stmt::Block(b0) => {
                    same_stmts(a0, b0)
                },
                _ => false,
            },
            Stmt::Empty => match other {
                Stmt::Empty => true,
                _ => false,
            },
            Stmt::Debugger => match other {
                Stmt::Debugger => true,
                _ => false,
            },
            Stmt::With { obj: a_obj, body: a_body } => match other {
                Stmt::With { obj: b_obj, body: b_body } => {
                    a_obj.same(b_obj)
                    && a_body.same(b_body)
                },
                _ => false,
            },
            Stmt::Return(a0) => match other {
                Stmt::Return(b0) => {
                    (match (a0, b0) {
                        (Some(x), Some(y)) => x.same(y),
                        (None, None) => true,
                        _ => false,
                    })
                },
                _ => false,
            },
            Stmt::Labeled { label: a_label, body: a_body } => match other {
                Stmt::Labeled { label: b_label, body: b_body } => {
                    a_label.same(b_label)
                    && a_body.same(b_body)
                },
                _ => false,
            },
            Stmt::Break(a0) => match other {
                Stmt::Break(b0) => {
                    (match (a0, b0) {
                        (Some(x), Some(y)) => x.same(y),
                        (None, None) => true,
                        _ => false,
                    })
                },
                _ => false,
            },
            Stmt::Continue(a0) => match other {
                Stmt::Continue(b0) => {
                    (match (a0, b0) {
                        (Some(x), Some(y)) => x.same(y),
                        (None, None) => true,
                        _ => false,
                    })
                },
                _ => false,
            },
            Stmt::If { test: a_test, cons: a_cons, alt: a_alt } => match other {
                Stmt::If { test: b_test, cons: b_cons, alt: b_alt } => {
                    a_test.same(b_test)
                    && a_cons.same(b_cons)
                    && (match (a_alt, b_alt) {
                        (Some(x), Some(y)) => x.same(y),
                        (None, None) => true,
                        _ => false,
                    })
                },
                _ => false,
            },
            Stmt::Switch { discriminant: a_discriminant, cases: a_cases } => match other {
                Stmt::Switch { discriminant: b_discriminant, cases: b_cases } => {
                    a_discriminant.same(b_discriminant)
                    && same_switch_cases(a_cases, b_cases)
                },
                _ => false,
            },
            Stmt::Throw(a0) => match other {
                Stmt::Throw(b0) => {
                    a0.same(b0)
                },
                _ => false,
            },
            Stmt::Try {
                block: a_block,
                handler: a_handler,
                finalizer: a_finalizer,
            } => match other {
                Stmt::Try { block: b_block, handler: b_handler, finalizer: b_finalizer } => {
                    same_stmts(a_block, b_block)
                    && (match (a_handler, b_handler) {
                        (Some(x), Some(y)) => x.same(y),
                        (None, None) => true,
                        _ => false,
                    })
                    && (match (a_finalizer, b_finalizer) {
                        (Some(x), Some(y)) => same_stmts(x, y),
                        (None, None) => true,
                        _ => false,
                    })
                },
                _ => false,
            },
            Stmt::While { test: a_test, body: a_body } => match other {
                Stmt::While { test: b_test, body: b_body } => {
                    a_test.same(b_test)
                    && a_body.same(b_body)
                },
                _ => false,
            },
            Stmt::DoWhile { test: a_test, body: a_body } => match other {
                Stmt::DoWhile { test: b_test, body: b_body } => {
                    a_test.same(b_test)
                    && a_body.same(b_body)
                },
                _ => false,
            },
            Stmt::For {
                init: a_init,
                test: a_test,
                update: a_update,
                body: a_body,
            } => match other {
                Stmt::For { init: b_init, test: b_test, update: b_update, body: b_body } => {
                    (match (a_init, b_init) {
                        (Some(x), Some(y)) => x.same(y),
                        (None, None) => true,
                        _ => false,
                    })
                    && (match (a_test, b_test) {
                        (Some(x), Some(y)) => x.same(y),
                        (None, None) => true,
                        _ => false,
                    })
                    && (match (a_update, b_update) {
                        (Some(x), Some(y)) => x.same(y),
                        (None, None) => true,
                        _ => false,
                    })
                    && a_body.same(b_body)
                },
                _ => false,
            },
            Stmt::ForIn { left: a_left, right: a_right, body: a_body } => match other {
                Stmt::ForIn { left: b_left, right: b_right, body: b_body } => {
                    a_left.same(b_left)
                    && a_right.same(b_right)
                    && a_body.same(b_body)
                },
                _ => false,
            },
            Stmt::ForOf {
                is_await: a_is_await,
                left: a_left,
                right: a_right,
                body: a_body,
            } => match other {
                Stmt::ForOf {
                    is_await: b_is_await,
                    left: b_left,
                    right: b_right,
                    body: b_body,
                } => {
                    *a_is_await == *b_is_await
                    && a_left.same(b_left)
                    && a_right.same(b_right)
                    && a_body.same(b_body)
                },
                _ => false,
            },
            Stmt::Decl(a0) => match other {
                Stmt::Decl(b0) => {
                    a0.same(b0)
                },
                _ => false,
            },
            Stmt::Expr(a0) => match other {
                Stmt::Expr(b0) => {
                    a0.same(b0)
                },
                _ => false,
            },
        }
    }
}

impl ImportSpecifier {
    /// Whether the two trees are the same, position by position.
    pub fn same(&self, other: &ImportSpecifier) -> (r: bool)
        ensures
            r == (self@ == other@),
        decreases self,
    {
        match self {
            ImportSpecifier::Named { local: a_local, imported: a_imported } => match other {
                ImportSpecifier::Named { local: b_local, imported: b_imported } => {
                    a_local.same(b_local)
                    && (match (a_imported, b_imported) {
                        (Some(x), Some(y)) => x.same(y),
                        (None, None) => true,
                        _ => false,
                    })
                },
                _ => false,
            },
            ImportSpecifier::Default(a0) => match other {
                ImportSpecifier::Default(b0) => {
                    a0.same(b0)
                },
                _ => false,
            },
            ImportSpecifier::Namespace(a0) => match other {
                ImportSpecifier::Namespace(b0) => {
                    a0.same(b0)
                },
                _ => false,
            },
        }
    }
}

impl ExportSpecifier {
    /// Whether the two trees are the same, position by position.
    pub fn same(&self, other: &ExportSpecifier) -> (r: bool)
        ensures
            r == (self@ == other@),
        decreases self,
    {
        self.orig.same(&other.orig)
        && (match (&self.exported, &other.exported) {
            (Some(x), Some(y)) => x.same(y),
            (None, None) => true,
            _ => false,
        })
    }
}

impl DefaultDecl {
    /// Whether the two trees are the same, position by position.
    pub fn same(&self, other: &DefaultDecl) -> (r: bool)
        ensures
            r == (self@ == other@),
        decreases self,
    {
        proof {
            lemma_default_decl_view(*self);
            lemma_default_decl_view(*other);
        }
        match self {
            DefaultDecl::Class { ident: a_ident, class: a_class } => match other {
                DefaultDecl::Class { ident: b_ident, class: b_class } => {
                    (match (a_ident, b_ident) {
                        (Some(x), Some(y)) => x.same(y),
                        (None, None) => true,
                        _ => false,
                    })
                    && a_class.same(b_class)
                },
                _ => false,
            },
            DefaultDecl::Fn { ident: a_ident, function: a_function } => match other {
                DefaultDecl::Fn { ident: b_ident, function: b_function } => {
                    (match (a_ident, b_ident) {
                        (Some(x), Some(y)) => x.same(y),
                        (None, None) => true,
                        _ => false,
                    })
                    && a_function.same(b_function)
                },
                _ => false,
            },
        }
    }
}

impl ModuleDecl {
    /// Whether the two trees are the same, position by position.
    pub fn same(&self, other: &ModuleDecl) -> (r: bool)
        ensures
            r == (self@ == other@),
        decreases self,
    {
        proof {
            lemma_module_decl_view(*self);
            lemma_module_decl_view(*other);
        }
        match self {
            ModuleDecl::Import { specifiers: a_specifiers, src: a_src } => match other {
                ModuleDecl::Import { specifiers: b_specifiers, src: b_src } => {
                    same_import_specifiers(a_specifiers, b_specifiers)
                    && a_src.same(b_src)
                },
                _ => false,
            },
            ModuleDecl::ExportDecl(a0) => match other {
                ModuleDecl::ExportDecl(b0) => {
                    a0.same(b0)
                },
                _ => false,
            },
            ModuleDecl::ExportNamed { specifiers: a_specifiers, src: a_src } => match other {
                ModuleDecl::ExportNamed { specifiers: b_specifiers, src: b_src } => {
                    same_export_specifiers(a_specifiers, b_specifiers)
                    && (match (a_src, b_src) {
                        (Some(x), Some(y)) => x.same(y),
                        (None, None) => true,
                        _ => false,
                    })
                },
                _ => false,
            },
            ModuleDecl::ExportDefaultDecl(a0) => match other {
                ModuleDecl::ExportDefaultDecl(b0) => {
                    a0.same(b0)
                },
                _ => false,
            },
            ModuleDecl::ExportDefaultExpr(a0) => match other {
                ModuleDecl::ExportDefaultExpr(b0) => {
                    a0.same(b0)
                },
                _ => false,
            },
            ModuleDecl::ExportAll { src: a_src } => match other {
                ModuleDecl::ExportAll { src: b_src } => {
                    a_src.same(b_src)
                },
                _ => false,
            },
        }
    }
}

impl ModuleItem {
    /// Whether the two trees are the same, position by position.
    pub fn same(&self, other: &ModuleItem) -> (r: bool)
        ensures
            r == (self@ == other@),
        decreases self,
    {
        proof {
            lemma_module_item_view(*self);
            lemma_module_item_view(*other);
        }
        match self {
            ModuleItem::ModuleDecl(a0) => match other {
                ModuleItem::ModuleDecl(b0) => {
                    a0.same(b0)
                },
                _ => false,
            },
            ModuleItem::Stmt(a0) => match other {
                ModuleItem::Stmt(b0) => {
                    a0.same(b0)
                },
                _ => false,
            },
        }
    }
}

impl Module {
    /// Whether the two trees are the same, position by position.
    pub fn same(&self, other: &Module) -> (r: bool)
        ensures
            r == (self@ == other@),
        decreases self,
    {
        proof {
            lemma_module_view(*self);
            lemma_module_view(*other);
        }
        same_module_items(&self.body, &other.body)
    }
}

/// Whether the two lists hold the same trees in the same order.
pub fn same_class_members(a: &Vec<ClassMember>, b: &Vec<ClassMember>) -> (r: bool)
    ensures
        r == (class_members_view(a@) == class_members_view(b@)),
    decreases a,
{
    proof {
        lemma_class_members_view(a@);
        lemma_class_members_view(b@);
    }
    if a.len() != b.len() {
        return false;
    }
    let mut i: usize = 0;
    while i < a.len()
        invariant
            a.len() == b.len(),
            i <= a.len(),
            forall|j: int| 0 <= j < i ==>
                (#[trigger] class_members_view(a@)[j]) == class_members_view(b@)[j],
        decreases a.len() - i,
    {
        proof {
            lemma_class_members_view(a@);
            lemma_class_members_view(b@);
        }
        let same = a[i].same(&b[i]);
        if !same {
            assert(class_members_view(a@)[i as int] != class_members_view(b@)[i as int]);
            return false;
        }
        i += 1;
    }
    assert(class_members_view(a@) =~= class_members_view(b@));
    true
}

/// Whether the two lists hold the same trees in the same order.
pub fn same_export_specifiers(a: &Vec<ExportSpecifier>, b: &Vec<ExportSpecifier>) -> (r: bool)
    ensures
        r == (export_specifiers_view(a@) == export_specifiers_view(b@)),
    decreases a,
{
    proof {
        lemma_export_specifiers_view(a@);
        lemma_export_specifiers_view(b@);
    }
    if a.len() != b.len() {
        return false;
    }
    let mut i: usize = 0;
    while i < a.len()
        invariant
            a.len() == b.len(),
            i <= a.len(),
            forall|j: int| 0 <= j < i ==>
                (#[trigger] export_specifiers_view(a@)[j]) == export_specifiers_view(b@)[j],
        decreases a.len() - i,
    {
        proof {
            lemma_export_specifiers_view(a@);
            lemma_export_specifiers_view(b@);
        }
        let same = a[i].same(&b[i]);
        if !same {
            assert(export_specifiers_view(a@)[i as int] != export_specifiers_view(b@)[i as int]);
            return false;
        }
        i += 1;
    }
    assert(export_specifiers_view(a@) =~= export_specifiers_view(b@));
    true
}

/// Whether the two lists hold the same trees in the same order.
pub fn same_expr_or_spreads(a: &Vec<ExprOrSpread>, b: &Vec<ExprOrSpread>) -> (r: bool)
    ensures
        r == (expr_or_spreads_view(a@) == expr_or_spreads_view(b@)),
    decreases a,
{
    proof {
        lemma_expr_or_spreads_view(a@);
        lemma_expr_or_spreads_view(b@);
    }
    if a.len() != b.len() {
        return false;
    }
    let mut i: usize = 0;
    while i < a.len()
        invariant
            a.len() == b.len(),
            i <= a.len(),
            forall|j: int| 0 <= j < i ==>
                (#[trigger] expr_or_spreads_view(a@)[j]) == expr_or_spreads_view(b@)[j],
        decreases a.len() - i,
    {
        proof {
            lemma_expr_or_spreads_view(a@);
            lemma_expr_or_spreads_view(b@);
        }
        let same = a[i].same(&b[i]);
        if !same {
            assert(expr_or_spreads_view(a@)[i as int] != expr_or_spreads_view(b@)[i as int]);
            return false;
        }
        i += 1;
    }
    assert(expr_or_spreads_view(a@) =~= expr_or_spreads_view(b@));
    true
}

/// Whether the two lists hold the same trees in the same order.
pub fn same_exprs(a: &Vec<Expr>, b: &Vec<Expr>) -> (r: bool)
    ensures
        r == (exprs_view(a@) == exprs_view(b@)),
    decreases a,
{
    proof {
        lemma_exprs_view(a@);
        lemma_exprs_view(b@);
    }
    if a.len() != b.len() {
        return false;
    }
    let mut i: usize = 0;
    while i < a.len()
        invariant
            a.len() == b.len(),
            i <= a.len(),
            forall|j: int| 0 <= j < i ==> (#[trigger] exprs_view(a@)[j]) == exprs_view(b@)[j],
        decreases a.len() - i,
    {
        proof {
            lemma_exprs_view(a@);
            lemma_exprs_view(b@);
        }
        let same = a[i].same(&b[i]);
        if !same {
            assert(exprs_view(a@)[i as int] != exprs_view(b@)[i as int]);
            return false;
        }
        i += 1;
    }
    assert(exprs_view(a@) =~= exprs_view(b@));
    true
}

/// Whether the two lists hold the same trees in the same order.
pub fn same_import_specifiers(a: &Vec<ImportSpecifier>, b: &Vec<ImportSpecifier>) -> (r: bool)
    ensures
        r == (import_specifiers_view(a@) == import_specifiers_view(b@)),
    decreases a,
{
    proof {
        lemma_import_specifiers_view(a@);
        lemma_import_specifiers_view(b@);
    }
    if a.len() != b.len() {
        return false;
    }
    let mut i: usize = 0;
    while i < a.len()
        invariant
            a.len() == b.len(),
            i <= a.len(),
            forall|j: int| 0 <= j < i ==>
                (#[trigger] import_specifiers_view(a@)[j]) == import_specifiers_view(b@)[j],
        decreases a.len() - i,
    {
        proof {
            lemma_import_specifiers_view(a@);
            lemma_import_specifiers_view(b@);
        }
        let same = a[i].same(&b[i]);
        if !same {
            assert(import_specifiers_view(a@)[i as int] != import_specifiers_view(b@)[i as int]);
            return false;
        }
        i += 1;
    }
    assert(import_specifiers_view(a@) =~= import_specifiers_view(b@));
    true
}

/// Whether the two lists hold the same trees in the same order.
pub fn same_module_items(a: &Vec<ModuleItem>, b: &Vec<ModuleItem>) -> (r: bool)
    ensures
        r == (module_items_view(a@) == module_items_view(b@)),
    decreases a,
{
    proof {
        lemma_module_items_view(a@);
        lemma_module_items_view(b@);
    }
    if a.len() != b.len() {
        return false;
    }
    let mut i: usize = 0;
    while i < a.len()
        invariant
            a.len() == b.len(),
            i <= a.len(),
            forall|j: int| 0 <= j < i ==>
                (#[trigger] module_items_view(a@)[j]) == module_items_view(b@)[j],
        decreases a.len() - i,
    {
        proof {
            lemma_module_items_view(a@);
            lemma_module_items_view(b@);
        }
        let same = a[i].same(&b[i]);
        if !same {
            assert(module_items_view(a@)[i as int] != module_items_view(b@)[i as int]);
            return false;
        }
        i += 1;
    }
    assert(module_items_view(a@) =~= module_items_view(b@));
    true
}

/// Whether the two lists hold the same trees in the same order.
pub fn same_object_pat_props(a: &Vec<ObjectPatProp>, b: &Vec<ObjectPatProp>) -> (r: bool)
    ensures
        r == (object_pat_props_view(a@) == object_pat_props_view(b@)),
    decreases a,
{
    proof {
        lemma_object_pat_props_view(a@);
        lemma_object_pat_props_view(b@);
    }
    if a.len() != b.len() {
        return false;
    }
    let mut i: usize = 0;
    while i < a.len()
        invariant
            a.len() == b.len(),
            i <= a.len(),
            forall|j: int| 0 <= j < i ==>
                (#[trigger] object_pat_props_view(a@)[j]) == object_pat_props_view(b@)[j],
        decreases a.len() - i,
    {
        proof {
            lemma_object_pat_props_view(a@);
            lemma_object_pat_props_view(b@);
        }
        let same = a[i].same(&b[i]);
        if !same {
            assert(object_pat_props_view(a@)[i as int] != object_pat_props_view(b@)[i as int]);
            return false;
        }
        i += 1;
    }
    assert(object_pat_props_view(a@) =~= object_pat_props_view(b@));
    true
}

/// Whether the two lists hold the same trees in the same order.
pub fn same_opt_expr_or_spreads(a: &Vec<Option<ExprOrSpread>>, b: &Vec<Option<ExprOrSpread>>) -> (r: bool)
    ensures
        r == (opt_expr_or_spreads_view(a@) == opt_expr_or_spreads_view(b@)),
    decreases a,
{
    proof {
        lemma_opt_expr_or_spreads_view(a@);
        lemma_opt_expr_or_spreads_view(b@);
    }
    if a.len() != b.len() {
        return false;
    }
    let mut i: usize = 0;
    while i < a.len()
        invariant
            a.len() == b.len(),
            i <= a.len(),
            forall|j: int| 0 <= j < i ==>
                (#[trigger] opt_expr_or_spreads_view(a@)[j]) == opt_expr_or_spreads_view(b@)[j],
        decreases a.len() - i,
    {
        proof {
            lemma_opt_expr_or_spreads_view(a@);
            lemma_opt_expr_or_spreads_view(b@);
        }
        let same = match (&a[i], &b[i]) {
            (Some(x), Some(y)) => x.same(y),
            (None, None) => true,
            _ => false,
        };
        if !same {
            assert(opt_expr_or_spreads_view(a@)[i as int] != opt_expr_or_spreads_view(b@)[i as int]);
            return false;
        }
        i += 1;
    }
    assert(opt_expr_or_spreads_view(a@) =~= opt_expr_or_spreads_view(b@));
    true
}

/// Whether the two lists hold the same trees in the same order.
pub fn same_opt_pats(a: &Vec<Option<Pat>>, b: &Vec<Option<Pat>>) -> (r: bool)
    ensures
        r == (opt_pats_view(a@) == opt_pats_view(b@)),
    decreases a,
{
    proof {
        lemma_opt_pats_view(a@);
        lemma_opt_pats_view(b@);
    }
    if a.len() != b.len() {
        return false;
    }
    let mut i: usize = 0;
    while i < a.len()
        invariant
            a.len() == b.len(),
            i <= a.len(),
            forall|j: int| 0 <= j < i ==> (#[trigger] opt_pats_view(a@)[j]) == opt_pats_view(b@)[j],
        decreases a.len() - i,
    {
        proof {
            lemma_opt_pats_view(a@);
            lemma_opt_pats_view(b@);
        }
        let same = match (&a[i], &b[i]) {
            (Some(x), Some(y)) => x.same(y),
            (None, None) => true,
            _ => false,
        };
        if !same {
            assert(opt_pats_view(a@)[i as int] != opt_pats_view(b@)[i as int]);
            return false;
        }
        i += 1;
    }
    assert(opt_pats_view(a@) =~= opt_pats_view(b@));
    true
}

/// Whether the two lists hold the same trees in the same order.
pub fn same_pats(a: &Vec<Pat>, b: &Vec<Pat>) -> (r: bool)
    ensures
        r == (pats_view(a@) == pats_view(b@)),
    decreases a,
{
    proof {
        lemma_pats_view(a@);
        lemma_pats_view(b@);
    }
    if a.len() != b.len() {
        return false;
    }
    let mut i: usize = 0;
    while i < a.len()
        invariant
            a.len() == b.len(),
            i <= a.len(),
            forall|j: int| 0 <= j < i ==> (#[trigger] pats_view(a@)[j]) == pats_view(b@)[j],
        decreases a.len() - i,
    {
        proof {
            lemma_pats_view(a@);
            lemma_pats_view(b@);
        }
        let same = a[i].same(&b[i]);
        if !same {
            assert(pats_view(a@)[i as int] != pats_view(b@)[i as int]);
            return false;
        }
        i += 1;
    }
    assert(pats_view(a@) =~= pats_view(b@));
    true
}

/// Whether the two lists hold the same trees in the same order.
pub fn same_prop_or_spreads(a: &Vec<PropOrSpread>, b: &Vec<PropOrSpread>) -> (r: bool)
    ensures
        r == (prop_or_spreads_view(a@) == prop_or_spreads_view(b@)),
    decreases a,
{
    proof {
        lemma_prop_or_spreads_view(a@);
        lemma_prop_or_spreads_view(b@);
    }
    if a.len() != b.len() {
        return false;
    }
    let mut i: usize = 0;
    while i < a.len()
        invariant
            a.len() == b.len(),
            i <= a.len(),
            forall|j: int| 0 <= j < i ==>
                (#[trigger] prop_or_spreads_view(a@)[j]) == prop_or_spreads_view(b@)[j],
        decreases a.len() - i,
    {
        proof {
            lemma_prop_or_spreads_view(a@);
            lemma_prop_or_spreads_view(b@);
        }
        let same = a[i].same(&b[i]);
        if !same {
            assert(prop_or_spreads_view(a@)[i as int] != prop_or_spreads_view(b@)[i as int]);
            return false;
        }
        i += 1;
    }
    assert(prop_or_spreads_view(a@) =~= prop_or_spreads_view(b@));
    true
}

/// Whether the two lists hold the same trees in the same order.
pub fn same_stmts(a: &Vec<Stmt>, b: &Vec<Stmt>) -> (r: bool)
    ensures
        r == (stmts_view(a@) == stmts_view(b@)),
    decreases a,
{
    proof {
        lemma_stmts_view(a@);
        lemma_stmts_view(b@);
    }
    if a.len() != b.len() {
        return false;
    }
    let mut i: usize = 0;
    while i < a.len()
        invariant
            a.len() == b.len(),
            i <= a.len(),
            forall|j: int| 0 <= j < i ==> (#[trigger] stmts_view(a@)[j]) == stmts_view(b@)[j],
        decreases a.len() - i,
    {
        proof {
            lemma_stmts_view(a@);
            lemma_stmts_view(b@);
        }
        let same = a[i].same(&b[i]);
        if !same {
            assert(stmts_view(a@)[i as int] != stmts_view(b@)[i as int]);
            return false;
        }
        i += 1;
    }
    assert(stmts_view(a@) =~= stmts_view(b@));
    true
}

/// Whether the two lists hold the same trees in the same order.
pub fn same_switch_cases(a: &Vec<SwitchCase>, b: &Vec<SwitchCase>) -> (r: bool)
    ensures
        r == (switch_cases_view(a@) == switch_cases_view(b@)),
    decreases a,
{
    proof {
        lemma_switch_cases_view(a@);
        lemma_switch_cases_view(b@);
    }
    if a.len() != b.len() {
        return false;
    }
    let mut i: usize = 0;
    while i < a.len()
        invariant
            a.len() == b.len(),
            i <= a.len(),
            forall|j: int| 0 <= j < i ==>
                (#[trigger] switch_cases_view(a@)[j]) == switch_cases_view(b@)[j],
        decreases a.len() - i,
    {
        proof {
            lemma_switch_cases_view(a@);
            lemma_switch_cases_view(b@);
        }
        let same = a[i].same(&b[i]);
        if !same {
            assert(switch_cases_view(a@)[i as int] != switch_cases_view(b@)[i as int]);
            return false;
        }
        i += 1;
    }
    assert(switch_cases_view(a@) =~= switch_cases_view(b@));
    true
}

/// Whether the two lists hold the same trees in the same order.
pub fn same_tpl_elements(a: &Vec<TplElement>, b: &Vec<TplElement>) -> (r: bool)
    ensures
        r == (tpl_elements_view(a@) == tpl_elements_view(b@)),
    decreases a,
{
    proof {
        lemma_tpl_elements_view(a@);
        lemma_tpl_elements_view(b@);
    }
    if a.len() != b.len() {
        return false;
    }
    let mut i: usize = 0;
    while i < a.len()
        invariant
            a.len() == b.len(),
            i <= a.len(),
            forall|j: int| 0 <= j < i ==>
                (#[trigger] tpl_elements_view(a@)[j]) == tpl_elements_view(b@)[j],
        decreases a.len() - i,
    {
        proof {
            lemma_tpl_elements_view(a@);
            lemma_tpl_elements_view(b@);
        }
        let same = a[i].same(&b[i]);
        if !same {
            assert(tpl_elements_view(a@)[i as int] != tpl_elements_view(b@)[i as int]);
            return false;
        }
        i += 1;
    }
    assert(tpl_elements_view(a@) =~= tpl_elements_view(b@));
    true
}

/// Whether the two lists hold the same trees in the same order.
pub fn same_var_declarators(a: &Vec<VarDeclarator>, b: &Vec<VarDeclarator>) -> (r: bool)
    ensures
        r == (var_declarators_view(a@) == var_declarators_view(b@)),
    decreases a,
{
    proof {
        lemma_var_declarators_view(a@);
        lemma_var_declarators_view(b@);
    }
    if a.len() != b.len() {
        return false;
    }
    let mut i: usize = 0;
    while i < a.len()
        invariant
            a.len() == b.len(),
            i <= a.len(),
            forall|j: int| 0 <= j < i ==>
                (#[trigger] var_declarators_view(a@)[j]) == var_declarators_view(b@)[j],
        decreases a.len() - i,
    {
        proof {
            lemma_var_declarators_view(a@);
            lemma_var_declarators_view(b@);
        }
        let same = a[i].same(&b[i]);
        if !same {
            assert(var_declarators_view(a@)[i as int] != var_declarators_view(b@)[i as int]);
            return false;
        }
        i += 1;
    }
    assert(var_declarators_view(a@) =~= var_declarators_view(b@));
    true
}

} // verus!
