//! The view of each tree type: its model.

use vstd::prelude::*;
use crate::ast::{
    BlockStmtOrExpr, CatchClause, Class, ClassMember, Decl, DefaultDecl, ExportSpecifier, Expr, ExprOrSpread, ExprOrSuper, Function, Ident, ImportSpecifier, Lit, MemberProp, Module, ModuleDecl, ModuleItem, Number, ObjectPatProp, Pat, PatOrExpr, Prop, PropName, PropOrSpread, Regex, Stmt, Str, SwitchCase, Tpl, TplElement, VarDecl, VarDeclOrExpr, VarDeclOrPat, VarDeclarator,
};
use crate::model::{
    BlockStmtOrExprV, CatchClauseV, ClassV, ClassMemberV, DeclV, DefaultDeclV, ExportSpecifierV, ExprV, ExprOrSpreadV, ExprOrSuperV, FunctionV, IdentV, ImportSpecifierV, LitV, MemberPropV, ModuleV, ModuleDeclV, ModuleItemV, NumberV, ObjectPatPropV, PatV, PatOrExprV, PropV, PropNameV, PropOrSpreadV, RegexV, StmtV, StrV, SwitchCaseV, TplV, TplElementV, VarDeclV, VarDeclOrExprV, VarDeclOrPatV, VarDeclaratorV,
};

verus! {

/// The model of a [`Ident`].
pub open spec fn ident_view(x: Ident) -> IdentV {
    IdentV {
        sym: x.sym@,
        ctxt: x.ctxt,
    }
}

/// The model of a [`Number`].
pub open spec fn number_view(x: Number) -> NumberV {
    NumberV {
        bits: x.bits,
        text: x.text@,
    }
}

/// The model of a [`Str`].
pub open spec fn str_view(x: Str) -> StrV {
    StrV {
        value: x.value@,
        has_escape: x.has_escape,
    }
}

/// The model of a [`Regex`].
pub open spec fn regex_view(x: Regex) -> RegexV {
    RegexV {
        exp: x.exp@,
        flags: x.flags@,
    }
}

/// The model of a [`Lit`].
pub open spec fn lit_view(x: Lit) -> LitV {
    match x {
        Lit::Str(a) => LitV::Str(str_view(a)),
        Lit::Bool(a) => LitV::Bool(a),
        Lit::Null => LitV::Null,
        Lit::Num(a) => LitV::Num(number_view(a)),
        Lit::BigInt(a) => LitV::BigInt(a@),
        Lit::Regex(a) => LitV::Regex(regex_view(a)),
    }
}

/// The model of a [`TplElement`].
pub open spec fn tpl_element_view(x: TplElement) -> TplElementV {
    TplElementV {
        tail: x.tail,
        cooked: match x.cooked {
            Some(x) => Some(x@),
            None => None,
        },
        raw: x.raw@,
    }
}

/// The model of a [`Tpl`].
#[verifier::opaque]
pub open spec fn tpl_view(x: Tpl) -> TplV
    decreases x,
{
    TplV {
        exprs: exprs_view(x.exprs@),
        quasis: tpl_elements_view(x.quasis@),
    }
}

/// The model of a [`ExprOrSpread`].
#[verifier::opaque]
pub open spec fn expr_or_spread_view(x: ExprOrSpread) -> ExprOrSpreadV
    decreases x,
{
    ExprOrSpreadV {
        spread: x.spread,
        expr: expr_view(x.expr),
    }
}

/// The model of a [`ExprOrSuper`].
#[verifier::opaque]
pub open spec fn expr_or_super_view(x: ExprOrSuper) -> ExprOrSuperV
    decreases x,
{
    match x {
        ExprOrSuper::Super => ExprOrSuperV::Super,
        ExprOrSuper::Expr(a) => ExprOrSuperV::Expr(Box::new(expr_view(*a))),
    }
}

/// The model of a [`MemberProp`].
#[verifier::opaque]
pub open spec fn member_prop_view(x: MemberProp) -> MemberPropV
    decreases x,
{
    match x {
        MemberProp::Ident(a) => MemberPropV::Ident(ident_view(a)),
        MemberProp::Computed(a) => MemberPropV::Computed(Box::new(expr_view(*a))),
    }
}

/// The model of a [`PatOrExpr`].
#[verifier::opaque]
pub open spec fn pat_or_expr_view(x: PatOrExpr) -> PatOrExprV
    decreases x,
{
    match x {
        PatOrExpr::Expr(a) => PatOrExprV::Expr(Box::new(expr_view(*a))),
        PatOrExpr::Pat(a) => PatOrExprV::Pat(Box::new(pat_view(*a))),
    }
}

/// The model of a [`PropName`].
#[verifier::opaque]
pub open spec fn prop_name_view(x: PropName) -> PropNameV
    decreases x,
{
    match x {
        PropName::Ident(a) => PropNameV::Ident(ident_view(a)),
        PropName::Str(a) => PropNameV::Str(str_view(a)),
        PropName::Num(a) => PropNameV::Num(number_view(a)),
        PropName::Computed(a) => PropNameV::Computed(Box::new(expr_view(*a))),
    }
}

/// The model of a [`Prop`].
#[verifier::opaque]
pub open spec fn prop_view(x: Prop) -> PropV
    decreases x,
{
    match x {
        Prop::Shorthand(a) => PropV::Shorthand(ident_view(a)),
        Prop::KeyValue { key, value } => PropV::KeyValue {
            key: prop_name_view(key),
            value: Box::new(expr_view(*value)),
        },
        Prop::Getter { key, body } => PropV::Getter {
            key: prop_name_view(key),
            body: match body {
                Some(x) => Some(stmts_view(x@)),
                None => None,
            },
        },
        Prop::Setter { key, param, body } => PropV::Setter {
            key: prop_name_view(key),
            param: pat_view(param),
            body: match body {
                Some(x) => Some(stmts_view(x@)),
                None => None,
            },
        },
        Prop::Method { key, function } => PropV::Method {
            key: prop_name_view(key),
            function: function_view(function),
        },
    }
}

/// The model of a [`PropOrSpread`].
#[verifier::opaque]
pub open spec fn prop_or_spread_view(x: PropOrSpread) -> PropOrSpreadV
    decreases x,
{
    match x {
        PropOrSpread::Spread(a) => PropOrSpreadV::Spread(Box::new(expr_view(*a))),
        PropOrSpread::Prop(a) => PropOrSpreadV::Prop(Box::new(prop_view(*a))),
    }
}

/// The model of a [`Function`].
#[verifier::opaque]
pub open spec fn function_view(x: Function) -> FunctionV
    decreases x,
{
    FunctionV {
        params: pats_view(x.params@),
        body: match x.body {
            Some(x) => Some(stmts_view(x@)),
            None => None,
        },
        is_generator: x.is_generator,
        is_async: x.is_async,
    }
}

/// The model of a [`Class`].
#[verifier::opaque]
pub open spec fn class_view(x: Class) -> ClassV
    decreases x,
{
    ClassV {
        super_class: match x.super_class {
            Some(x) => Some(Box::new(expr_view(*x))),
            None => None,
        },
        body: class_members_view(x.body@),
    }
}

/// The model of a [`ClassMember`].
#[verifier::opaque]
pub open spec fn class_member_view(x: ClassMember) -> ClassMemberV
    decreases x,
{
    match x {
        ClassMember::Constructor { key, params, body } => ClassMemberV::Constructor {
            key: prop_name_view(key),
            params: pats_view(params@),
            body: match body {
                Some(x) => Some(stmts_view(x@)),
                None => None,
            },
        },
        ClassMember::Method { key, function, kind, is_static } => ClassMemberV::Method {
            key: prop_name_view(key),
            function: function_view(function),
            kind: kind,
            is_static: is_static,
        },
        ClassMember::Prop { key, value, is_static, computed } => ClassMemberV::Prop {
            key: Box::new(expr_view(*key)),
            value: match value {
                Some(x) => Some(Box::new(expr_view(*x))),
                None => None,
            },
            is_static: is_static,
            computed: computed,
        },
    }
}

/// The model of a [`BlockStmtOrExpr`].
#[verifier::opaque]
pub open spec fn block_stmt_or_expr_view(x: BlockStmtOrExpr) -> BlockStmtOrExprV
    decreases x,
{
    match x {
        BlockStmtOrExpr::Block(a) => BlockStmtOrExprV::Block(stmts_view(a@)),
        BlockStmtOrExpr::Expr(a) => BlockStmtOrExprV::Expr(Box::new(expr_view(*a))),
    }
}

/// The model of a [`Expr`].
#[verifier::opaque]
pub open spec fn expr_view(x: Expr) -> ExprV
    decreases x,
{
    match x {
        Expr::This => ExprV::This,
        Expr::Array(a) => ExprV::Array(opt_expr_or_spreads_view(a@)),
        Expr::Object(a) => ExprV::Object(prop_or_spreads_view(a@)),
        Expr::Fn { ident, function } => ExprV::Fn {
            ident: match ident {
                Some(x) => Some(ident_view(x)),
                None => None,
            },
            function: Box::new(function_view(*function)),
        },
        Expr::Unary { op, arg } => ExprV::Unary {
            op: op,
            arg: Box::new(expr_view(*arg)),
        },
        Expr::Update { op, prefix, arg } => ExprV::Update {
            op: op,
            prefix: prefix,
            arg: Box::new(expr_view(*arg)),
        },
        Expr::Bin { op, left, right } => ExprV::Bin {
            op: op,
            left: Box::new(expr_view(*left)),
            right: Box::new(expr_view(*right)),
        },
        Expr::Assign { op, left, right } => ExprV::Assign {
            op: op,
            left: pat_or_expr_view(left),
            right: Box::new(expr_view(*right)),
        },
        Expr::Member { obj, prop } => ExprV::Member {
            obj: expr_or_super_view(obj),
            prop: member_prop_view(prop),
        },
        Expr::Cond { test, cons, alt } => ExprV::Cond {
            test: Box::new(expr_view(*test)),
            cons: Box::new(expr_view(*cons)),
            alt: Box::new(expr_view(*alt)),
        },
        Expr::Call { callee, args } => ExprV::Call {
            callee: expr_or_super_view(callee),
            args: expr_or_spreads_view(args@),
        },
        Expr::New { callee, args } => ExprV::New {
            callee: Box::new(expr_view(*callee)),
            args: match args {
                Some(x) => Some(expr_or_spreads_view(x@)),
                None => None,
            },
        },
        Expr::Sequence { init, last } => ExprV::Sequence {
            init: exprs_view(init@),
            last: Box::new(expr_view(*last)),
        },
        Expr::Ident(a) => ExprV::Ident(ident_view(a)),
        Expr::Lit(a) => ExprV::Lit(lit_view(a)),
        Expr::Tpl(a) => ExprV::Tpl(tpl_view(a)),
        Expr::TaggedTpl { tag, tpl } => ExprV::TaggedTpl {
            tag: Box::new(expr_view(*tag)),
            tpl: tpl_view(tpl),
        },
        Expr::Arrow { params, body, is_async, is_generator } => ExprV::Arrow {
            params: pats_view(params@),
            body: block_stmt_or_expr_view(body),
            is_async: is_async,
            is_generator: is_generator,
        },
        Expr::Class { ident, class } => ExprV::Class {
            ident: match ident {
                Some(x) => Some(ident_view(x)),
                None => None,
            },
            class: Box::new(class_view(*class)),
        },
        Expr::Yield { arg, delegate } => ExprV::Yield {
            arg: match arg {
                Some(x) => Some(Box::new(expr_view(*x))),
                None => None,
            },
            delegate: delegate,
        },
        Expr::MetaProp { meta, prop } => ExprV::MetaProp {
            meta: ident_view(meta),
            prop: ident_view(prop),
        },
        Expr::Await(a) => ExprV::Await(Box::new(expr_view(*a))),
        Expr::Paren(a) => ExprV::Paren(Box::new(expr_view(*a))),
        Expr::Ts { cast, expr } => ExprV::Ts {
            cast: cast,
            expr: Box::new(expr_view(*expr)),
        },
        Expr::OptChain(a) => ExprV::OptChain(Box::new(expr_view(*a))),
        Expr::PrivateName(a) => ExprV::PrivateName(ident_view(a)),
    }
}

/// The model of a [`Pat`].
#[verifier::opaque]
pub open spec fn pat_view(x: Pat) -> PatV
    decreases x,
{
    match x {
        Pat::Ident(a) => PatV::Ident(ident_view(a)),
        Pat::Array(a) => PatV::Array(opt_pats_view(a@)),
        Pat::Rest(a) => PatV::Rest(Box::new(pat_view(*a))),
        Pat::Object(a) => PatV::Object(object_pat_props_view(a@)),
        Pat::Assign { left, right } => PatV::Assign {
            left: Box::new(pat_view(*left)),
            right: Box::new(expr_view(*right)),
        },
        Pat::Expr(a) => PatV::Expr(Box::new(expr_view(*a))),
    }
}

/// The model of a [`ObjectPatProp`].
#[verifier::opaque]
pub open spec fn object_pat_prop_view(x: ObjectPatProp) -> ObjectPatPropV
    decreases x,
{
    match x {
        ObjectPatProp::KeyValue { key, value } => ObjectPatPropV::KeyValue {
            key: prop_name_view(key),
            value: Box::new(pat_view(*value)),
        },
        ObjectPatProp::Assign { key, value } => ObjectPatPropV::Assign {
            key: ident_view(key),
            value: match value {
                Some(x) => Some(Box::new(expr_view(*x))),
                None => None,
            },
        },
        ObjectPatProp::Rest(a) => ObjectPatPropV::Rest(Box::new(pat_view(*a))),
    }
}

/// The model of a [`VarDeclarator`].
#[verifier::opaque]
pub open spec fn var_declarator_view(x: VarDeclarator) -> VarDeclaratorV
    decreases x,
{
    VarDeclaratorV {
        name: pat_view(x.name),
        init: match x.init {
            Some(x) => Some(Box::new(expr_view(*x))),
            None => None,
        },
    }
}

/// The model of a [`VarDecl`].
#[verifier::opaque]
pub open spec fn var_decl_view(x: VarDecl) -> VarDeclV
    decreases x,
{
    VarDeclV {
        kind: x.kind,
        annotation: x.annotation,
        decls: var_declarators_view(x.decls@),
    }
}

/// The model of a [`Decl`].
#[verifier::opaque]
pub open spec fn decl_view(x: Decl) -> DeclV
    decreases x,
{
    match x {
        Decl::Class { ident, class } => DeclV::Class {
            ident: ident_view(ident),
            class: class_view(class),
        },
        Decl::Fn { ident, function } => DeclV::Fn {
            ident: ident_view(ident),
            function: function_view(function),
        },
        Decl::Var(a) => DeclV::Var(var_decl_view(a)),
    }
}

/// The model of a [`VarDeclOrExpr`].
#[verifier::opaque]
pub open spec fn var_decl_or_expr_view(x: VarDeclOrExpr) -> VarDeclOrExprV
    decreases x,
{
    match x {
        VarDeclOrExpr::VarDecl(a) => VarDeclOrExprV::VarDecl(var_decl_view(a)),
        VarDeclOrExpr::Expr(a) => VarDeclOrExprV::Expr(Box::new(expr_view(*a))),
    }
}

/// The model of a [`VarDeclOrPat`].
#[verifier::opaque]
pub open spec fn var_decl_or_pat_view(x: VarDeclOrPat) -> VarDeclOrPatV
    decreases x,
{
    match x {
        VarDeclOrPat::VarDecl(a) => VarDeclOrPatV::VarDecl(var_decl_view(a)),
        VarDeclOrPat::Pat(a) => VarDeclOrPatV::Pat(pat_view(a)),
    }
}

/// The model of a [`SwitchCase`].
#[verifier::opaque]
pub open spec fn switch_case_view(x: SwitchCase) -> SwitchCaseV
    decreases x,
{
    SwitchCaseV {
        test: match x.test {
            Some(x) => Some(Box::new(expr_view(*x))),
            None => None,
        },
        cons: stmts_view(x.cons@),
    }
}

/// The model of a [`CatchClause`].
#[verifier::opaque]
pub open spec fn catch_clause_view(x: CatchClause) -> CatchClauseV
    decreases x,
{
    CatchClauseV {
        param: match x.param {
            Some(x) => Some(pat_view(x)),
            None => None,
        },
        body: stmts_view(x.body@),
    }
}

/// The model of a [`Stmt`].
#[verifier::opaque]
pub open spec fn stmt_view(x: Stmt) -> StmtV
    decreases x,
{
    match x {
        Stmt::Block(a) => StmtV::Block(stmts_view(a@)),
        Stmt::Empty => StmtV::Empty,
        Stmt::Debugger => StmtV::Debugger,
        Stmt::With { obj, body } => StmtV::With {
            obj: Box::new(expr_view(*obj)),
            body: Box::new(stmt_view(*body)),
        },
        Stmt::Return(a) => StmtV::Return(match a {
            Some(x) => Some(Box::new(expr_view(*x))),
            None => None,
        }),
        Stmt::Labeled { label, body } => StmtV::Labeled {
            label: ident_view(label),
            body: Box::new(stmt_view(*body)),
        },
        Stmt::Break(a) => StmtV::Break(match a {
            Some(x) => Some(ident_view(x)),
            None => None,
        }),
        Stmt::Continue(a) => StmtV::Continue(match a {
            Some(x) => Some(ident_view(x)),
            None => None,
        }),
        Stmt::If { test, cons, alt } => StmtV::If {
            test: Box::new(expr_view(*test)),
            cons: Box::new(stmt_view(*cons)),
            alt: match alt {
                Some(x) => Some(Box::new(stmt_view(*x))),
                None => None,
            },
        },
        Stmt::Switch { discriminant, cases } => StmtV::Switch {
            discriminant: Box::new(expr_view(*discriminant)),
            cases: switch_cases_view(cases@),
        },
        Stmt::Throw(a) => StmtV::Throw(Box::new(expr_view(*a))),
        Stmt::Try { block, handler, finalizer } => StmtV::Try {
            block: stmts_view(block@),
            handler: match handler {
                Some(x) => Some(catch_clause_view(x)),
                None => None,
            },
            finalizer: match finalizer {
                Some(x) => Some(stmts_view(x@)),
                None => None,
            },
        },
        Stmt::While { test, body } => StmtV::While {
            test: Box::new(expr_view(*test)),
            body: Box::new(stmt_view(*body)),
        },
        Stmt::DoWhile { test, body } => StmtV::DoWhile {
            test: Box::new(expr_view(*test)),
            body: Box::new(stmt_view(*body)),
        },
        Stmt::For { init, test, update, body } => StmtV::For {
            init: match init {
                Some(x) => Some(var_decl_or_expr_view(x)),
                None => None,
            },
            test: match test {
                Some(x) => Some(Box::new(expr_view(*x))),
                None => None,
            },
            update: match update {
                Some(x) => Some(Box::new(expr_view(*x))),
                None => None,
            },
            body: Box::new(stmt_view(*body)),
        },
        Stmt::ForIn { left, right, body } => StmtV::ForIn {
            left: var_decl_or_pat_view(left),
            right: Box::new(expr_view(*right)),
            body: Box::new(stmt_view(*body)),
        },
        Stmt::ForOf { is_await, left, right, body } => StmtV::ForOf {
            is_await: is_await,
            left: var_decl_or_pat_view(left),
            right: Box::new(expr_view(*right)),
            body: Box::new(stmt_view(*body)),
        },
        Stmt::Decl(a) => StmtV::Decl(decl_view(a)),
        Stmt::Expr(a) => StmtV::Expr(Box::new(expr_view(*a))),
    }
}

/// The model of a [`ImportSpecifier`].
pub open spec fn import_specifier_view(x: ImportSpecifier) -> ImportSpecifierV {
    match x {
        ImportSpecifier::Named { local, imported } => ImportSpecifierV::Named {
            local: ident_view(local),
            imported: match imported {
                Some(x) => Some(ident_view(x)),
                None => None,
            },
        },
        ImportSpecifier::Default(a) => ImportSpecifierV::Default(ident_view(a)),
        ImportSpecifier::Namespace(a) => ImportSpecifierV::Namespace(ident_view(a)),
    }
}

/// The model of a [`ExportSpecifier`].
pub open spec fn export_specifier_view(x: ExportSpecifier) -> ExportSpecifierV {
    ExportSpecifierV {
        orig: ident_view(x.orig),
        exported: match x.exported {
            Some(x) => Some(ident_view(x)),
            None => None,
        },
    }
}

/// The model of a [`DefaultDecl`].
#[verifier::opaque]
pub open spec fn default_decl_view(x: DefaultDecl) -> DefaultDeclV
    decreases x,
{
    match x {
        DefaultDecl::Class { ident, class } => DefaultDeclV::Class {
            ident: match ident {
                Some(x) => Some(ident_view(x)),
                None => None,
            },
            class: class_view(class),
        },
        DefaultDecl::Fn { ident, function } => DefaultDeclV::Fn {
            ident: match ident {
                Some(x) => Some(ident_view(x)),
                None => None,
            },
            function: function_view(function),
        },
    }
}

/// The model of a [`ModuleDecl`].
#[verifier::opaque]
pub open spec fn module_decl_view(x: ModuleDecl) -> ModuleDeclV
    decreases x,
{
    match x {
        ModuleDecl::Import { specifiers, src } => ModuleDeclV::Import {
            specifiers: import_specifiers_view(specifiers@),
            src: str_view(src),
        },
        ModuleDecl::ExportDecl(a) => ModuleDeclV::ExportDecl(decl_view(a)),
        ModuleDecl::ExportNamed { specifiers, src } => ModuleDeclV::ExportNamed {
            specifiers: export_specifiers_view(specifiers@),
            src: match src {
                Some(x) => Some(str_view(x)),
                None => None,
            },
        },
        ModuleDecl::ExportDefaultDecl(a) => ModuleDeclV::ExportDefaultDecl(default_decl_view(a)),
        ModuleDecl::ExportDefaultExpr(a) => ModuleDeclV::ExportDefaultExpr(Box::new(expr_view(*a))),
        ModuleDecl::ExportAll { src } => ModuleDeclV::ExportAll {
            src: str_view(src),
        },
    }
}

/// The model of a [`ModuleItem`].
#[verifier::opaque]
pub open spec fn module_item_view(x: ModuleItem) -> ModuleItemV
    decreases x,
{
    match x {
        ModuleItem::ModuleDecl(a) => ModuleItemV::ModuleDecl(module_decl_view(a)),
        ModuleItem::Stmt(a) => ModuleItemV::Stmt(stmt_view(a)),
    }
}

/// The model of a [`Module`].
#[verifier::opaque]
pub open spec fn module_view(x: Module) -> ModuleV
    decreases x,
{
    ModuleV {
        body: module_items_view(x.body@),
    }
}

/// The models of the items of a list, in their order.
#[verifier::opaque]
pub open spec fn class_members_view(s: Seq<ClassMember>) -> Seq<ClassMemberV>
    decreases s,
{
    Seq::new(
        s.len(),
        |i: int|
            if 0 <= i < s.len() {
                class_member_view(s[i])
            } else {
                arbitrary()
            },
    )
}

/// The view of a list has the list's length and holds the views of its items.
pub proof fn lemma_class_members_view(s: Seq<ClassMember>)
    ensures
        class_members_view(s).len() == s.len(),
        forall|i: int|
            0 <= i < s.len() ==> (#[trigger] class_members_view(s)[i]) == class_member_view(s[i]),
{
    reveal(class_members_view);
    reveal(class_member_view);
}

/// The view of a list with one more item is the view of the list with the view of the item.
pub proof fn lemma_class_members_view_push(s: Seq<ClassMember>, x: ClassMember)
    ensures
        class_members_view(s.push(x)) == class_members_view(s).push(class_member_view(x)),
{
    lemma_class_members_view(s);
    lemma_class_members_view(s.push(x));
    assert(class_members_view(s.push(x)) =~= class_members_view(s).push(class_member_view(x)));
}

/// The view of a part of a list is that part of the view of the list.
pub proof fn lemma_class_members_view_subrange(s: Seq<ClassMember>, i: int, j: int)
    requires
        0 <= i <= j <= s.len(),
    ensures
        class_members_view(s.subrange(i, j)) == class_members_view(s).subrange(i, j),
{
    lemma_class_members_view(s);
    lemma_class_members_view(s.subrange(i, j));
    assert(class_members_view(s.subrange(i, j)) =~= class_members_view(s).subrange(i, j));
}

/// The view of two lists joined is the views of the two joined.
pub proof fn lemma_class_members_view_concat(a: Seq<ClassMember>, b: Seq<ClassMember>)
    ensures
        class_members_view(a + b) == class_members_view(a) + class_members_view(b),
{
    lemma_class_members_view(a);
    lemma_class_members_view(b);
    lemma_class_members_view(a + b);
    assert(class_members_view(a + b) =~= class_members_view(a) + class_members_view(b));
}

/// The models of the items of a list, in their order.
#[verifier::opaque]
pub open spec fn export_specifiers_view(s: Seq<ExportSpecifier>) -> Seq<ExportSpecifierV>
    decreases s,
{
    Seq::new(
        s.len(),
        |i: int|
            if 0 <= i < s.len() {
                export_specifier_view(s[i])
            } else {
                arbitrary()
            },
    )
}

/// The view of a list has the list's length and holds the views of its items.
pub proof fn lemma_export_specifiers_view(s: Seq<ExportSpecifier>)
    ensures
        export_specifiers_view(s).len() == s.len(),
        forall|i: int|
            0 <= i < s.len() ==> (#[trigger] export_specifiers_view(s)[i])
                == export_specifier_view(s[i]),
{
    reveal(export_specifiers_view);
}

/// The view of a list with one more item is the view of the list with the view of the item.
pub proof fn lemma_export_specifiers_view_push(s: Seq<ExportSpecifier>, x: ExportSpecifier)
    ensures
        export_specifiers_view(s.push(x))
            == export_specifiers_view(s).push(export_specifier_view(x)),
{
    lemma_export_specifiers_view(s);
    lemma_export_specifiers_view(s.push(x));
    assert(export_specifiers_view(s.push(x)) =~= export_specifiers_view(s).push(export_specifier_view(x)));
}

/// The view of a part of a list is that part of the view of the list.
pub proof fn lemma_export_specifiers_view_subrange(s: Seq<ExportSpecifier>, i: int, j: int)
    requires
        0 <= i <= j <= s.len(),
    ensures
        export_specifiers_view(s.subrange(i, j)) == export_specifiers_view(s).subrange(i, j),
{
    lemma_export_specifiers_view(s);
    lemma_export_specifiers_view(s.subrange(i, j));
    assert(export_specifiers_view(s.subrange(i, j)) =~= export_specifiers_view(s).subrange(i, j));
}

/// The view of two lists joined is the views of the two joined.
pub proof fn lemma_export_specifiers_view_concat(a: Seq<ExportSpecifier>, b: Seq<ExportSpecifier>)
    ensures
        export_specifiers_view(a + b) == export_specifiers_view(a) + export_specifiers_view(b),
{
    lemma_export_specifiers_view(a);
    lemma_export_specifiers_view(b);
    lemma_export_specifiers_view(a + b);
    assert(export_specifiers_view(a + b) =~= export_specifiers_view(a) + export_specifiers_view(b));
}

/// The models of the items of a list, in their order.
#[verifier::opaque]
pub open spec fn expr_or_spreads_view(s: Seq<ExprOrSpread>) -> Seq<ExprOrSpreadV>
    decreases s,
{
    Seq::new(
        s.len(),
        |i: int|
            if 0 <= i < s.len() {
                expr_or_spread_view(s[i])
            } else {
                arbitrary()
            },
    )
}

/// The view of a list has the list's length and holds the views of its items.
pub proof fn lemma_expr_or_spreads_view(s: Seq<ExprOrSpread>)
    ensures
        expr_or_spreads_view(s).len() == s.len(),
        forall|i: int|
            0 <= i < s.len() ==> (#[trigger] expr_or_spreads_view(s)[i])
                == expr_or_spread_view(s[i]),
{
    reveal(expr_or_spreads_view);
    reveal(expr_or_spread_view);
}

/// The view of a list with one more item is the view of the list with the view of the item.
pub proof fn lemma_expr_or_spreads_view_push(s: Seq<ExprOrSpread>, x: ExprOrSpread)
    ensures
        expr_or_spreads_view(s.push(x)) == expr_or_spreads_view(s).push(expr_or_spread_view(x)),
{
    lemma_expr_or_spreads_view(s);
    lemma_expr_or_spreads_view(s.push(x));
    assert(expr_or_spreads_view(s.push(x)) =~= expr_or_spreads_view(s).push(expr_or_spread_view(x)));
}

/// The view of a part of a list is that part of the view of the list.
pub proof fn lemma_expr_or_spreads_view_subrange(s: Seq<ExprOrSpread>, i: int, j: int)
    requires
        0 <= i <= j <= s.len(),
    ensures
        expr_or_spreads_view(s.subrange(i, j)) == expr_or_spreads_view(s).subrange(i, j),
{
    lemma_expr_or_spreads_view(s);
    lemma_expr_or_spreads_view(s.subrange(i, j));
    assert(expr_or_spreads_view(s.subrange(i, j)) =~= expr_or_spreads_view(s).subrange(i, j));
}

/// The view of two lists joined is the views of the two joined.
pub proof fn lemma_expr_or_spreads_view_concat(a: Seq<ExprOrSpread>, b: Seq<ExprOrSpread>)
    ensures
        expr_or_spreads_view(a + b) == expr_or_spreads_view(a) + expr_or_spreads_view(b),
{
    lemma_expr_or_spreads_view(a);
    lemma_expr_or_spreads_view(b);
    lemma_expr_or_spreads_view(a + b);
    assert(expr_or_spreads_view(a + b) =~= expr_or_spreads_view(a) + expr_or_spreads_view(b));
}

/// The models of the items of a list, in their order.
#[verifier::opaque]
pub open spec fn exprs_view(s: Seq<Expr>) -> Seq<ExprV>
    decreases s,
{
    Seq::new(
        s.len(),
        |i: int|
            if 0 <= i < s.len() {
                expr_view(s[i])
            } else {
                arbitrary()
            },
    )
}

/// The view of a list has the list's length and holds the views of its items.
pub proof fn lemma_exprs_view(s: Seq<Expr>)
    ensures
        exprs_view(s).len() == s.len(),
        forall|i: int|
            0 <= i < s.len() ==> (#[trigger] exprs_view(s)[i]) == expr_view(s[i]),
{
    reveal(exprs_view);
    reveal(expr_view);
}

/// The view of a list with one more item is the view of the list with the view of the item.
pub proof fn lemma_exprs_view_push(s: Seq<Expr>, x: Expr)
    ensures
        exprs_view(s.push(x)) == exprs_view(s).push(expr_view(x)),
{
    lemma_exprs_view(s);
    lemma_exprs_view(s.push(x));
    assert(exprs_view(s.push(x)) =~= exprs_view(s).push(expr_view(x)));
}

/// The view of a part of a list is that part of the view of the list.
pub proof fn lemma_exprs_view_subrange(s: Seq<Expr>, i: int, j: int)
    requires
        0 <= i <= j <= s.len(),
    ensures
        exprs_view(s.subrange(i, j)) == exprs_view(s).subrange(i, j),
{
    lemma_exprs_view(s);
    lemma_exprs_view(s.subrange(i, j));
    assert(exprs_view(s.subrange(i, j)) =~= exprs_view(s).subrange(i, j));
}

/// The view of two lists joined is the views of the two joined.
pub proof fn lemma_exprs_view_concat(a: Seq<Expr>, b: Seq<Expr>)
    ensures
        exprs_view(a + b) == exprs_view(a) + exprs_view(b),
{
    lemma_exprs_view(a);
    lemma_exprs_view(b);
    lemma_exprs_view(a + b);
    assert(exprs_view(a + b) =~= exprs_view(a) + exprs_view(b));
}

/// The models of the items of a list, in their order.
#[verifier::opaque]
pub open spec fn import_specifiers_view(s: Seq<ImportSpecifier>) -> Seq<ImportSpecifierV>
    decreases s,
{
    Seq::new(
        s.len(),
        |i: int|
            if 0 <= i < s.len() {
                import_specifier_view(s[i])
            } else {
                arbitrary()
            },
    )
}

/// The view of a list has the list's length and holds the views of its items.
pub proof fn lemma_import_specifiers_view(s: Seq<ImportSpecifier>)
    ensures
        import_specifiers_view(s).len() == s.len(),
        forall|i: int|
            0 <= i < s.len() ==> (#[trigger] import_specifiers_view(s)[i])
                == import_specifier_view(s[i]),
{
    reveal(import_specifiers_view);
}

/// The view of a list with one more item is the view of the list with the view of the item.
pub proof fn lemma_import_specifiers_view_push(s: Seq<ImportSpecifier>, x: ImportSpecifier)
    ensures
        import_specifiers_view(s.push(x))
            == import_specifiers_view(s).push(import_specifier_view(x)),
{
    lemma_import_specifiers_view(s);
    lemma_import_specifiers_view(s.push(x));
    assert(import_specifiers_view(s.push(x)) =~= import_specifiers_view(s).push(import_specifier_view(x)));
}

/// The view of a part of a list is that part of the view of the list.
pub proof fn lemma_import_specifiers_view_subrange(s: Seq<ImportSpecifier>, i: int, j: int)
    requires
        0 <= i <= j <= s.len(),
    ensures
        import_specifiers_view(s.subrange(i, j)) == import_specifiers_view(s).subrange(i, j),
{
    lemma_import_specifiers_view(s);
    lemma_import_specifiers_view(s.subrange(i, j));
    assert(import_specifiers_view(s.subrange(i, j)) =~= import_specifiers_view(s).subrange(i, j));
}

/// The view of two lists joined is the views of the two joined.
pub proof fn lemma_import_specifiers_view_concat(a: Seq<ImportSpecifier>, b: Seq<ImportSpecifier>)
    ensures
        import_specifiers_view(a + b) == import_specifiers_view(a) + import_specifiers_view(b),
{
    lemma_import_specifiers_view(a);
    lemma_import_specifiers_view(b);
    lemma_import_specifiers_view(a + b);
    assert(import_specifiers_view(a + b) =~= import_specifiers_view(a) + import_specifiers_view(b));
}

/// The models of the items of a list, in their order.
#[verifier::opaque]
pub open spec fn module_items_view(s: Seq<ModuleItem>) -> Seq<ModuleItemV>
    decreases s,
{
    Seq::new(
        s.len(),
        |i: int|
            if 0 <= i < s.len() {
                module_item_view(s[i])
            } else {
                arbitrary()
            },
    )
}

/// The view of a list has the list's length and holds the views of its items.
pub proof fn lemma_module_items_view(s: Seq<ModuleItem>)
    ensures
        module_items_view(s).len() == s.len(),
        forall|i: int|
            0 <= i < s.len() ==> (#[trigger] module_items_view(s)[i]) == module_item_view(s[i]),
{
    reveal(module_items_view);
    reveal(module_item_view);
}

/// The view of a list with one more item is the view of the list with the view of the item.
pub proof fn lemma_module_items_view_push(s: Seq<ModuleItem>, x: ModuleItem)
    ensures
        module_items_view(s.push(x)) == module_items_view(s).push(module_item_view(x)),
{
    lemma_module_items_view(s);
    lemma_module_items_view(s.push(x));
    assert(module_items_view(s.push(x)) =~= module_items_view(s).push(module_item_view(x)));
}

/// The view of a part of a list is that part of the view of the list.
pub proof fn lemma_module_items_view_subrange(s: Seq<ModuleItem>, i: int, j: int)
    requires
        0 <= i <= j <= s.len(),
    ensures
        module_items_view(s.subrange(i, j)) == module_items_view(s).subrange(i, j),
{
    lemma_module_items_view(s);
    lemma_module_items_view(s.subrange(i, j));
    assert(module_items_view(s.subrange(i, j)) =~= module_items_view(s).subrange(i, j));
}

/// The view of two lists joined is the views of the two joined.
pub proof fn lemma_module_items_view_concat(a: Seq<ModuleItem>, b: Seq<ModuleItem>)
    ensures
        module_items_view(a + b) == module_items_view(a) + module_items_view(b),
{
    lemma_module_items_view(a);
    lemma_module_items_view(b);
    lemma_module_items_view(a + b);
    assert(module_items_view(a + b) =~= module_items_view(a) + module_items_view(b));
}

/// The models of the items of a list, in their order.
#[verifier::opaque]
pub open spec fn object_pat_props_view(s: Seq<ObjectPatProp>) -> Seq<ObjectPatPropV>
    decreases s,
{
    Seq::new(
        s.len(),
        |i: int|
            if 0 <= i < s.len() {
                object_pat_prop_view(s[i])
            } else {
                arbitrary()
            },
    )
}

/// The view of a list has the list's length and holds the views of its items.
pub proof fn lemma_object_pat_props_view(s: Seq<ObjectPatProp>)
    ensures
        object_pat_props_view(s).len() == s.len(),
        forall|i: int|
            0 <= i < s.len() ==> (#[trigger] object_pat_props_view(s)[i])
                == object_pat_prop_view(s[i]),
{
    reveal(object_pat_props_view);
    reveal(object_pat_prop_view);
}

/// The view of a list with one more item is the view of the list with the view of the item.
pub proof fn lemma_object_pat_props_view_push(s: Seq<ObjectPatProp>, x: ObjectPatProp)
    ensures
        object_pat_props_view(s.push(x)) == object_pat_props_view(s).push(object_pat_prop_view(x)),
{
    lemma_object_pat_props_view(s);
    lemma_object_pat_props_view(s.push(x));
    assert(object_pat_props_view(s.push(x)) =~= object_pat_props_view(s).push(object_pat_prop_view(x)));
}

/// The view of a part of a list is that part of the view of the list.
pub proof fn lemma_object_pat_props_view_subrange(s: Seq<ObjectPatProp>, i: int, j: int)
    requires
        0 <= i <= j <= s.len(),
    ensures
        object_pat_props_view(s.subrange(i, j)) == object_pat_props_view(s).subrange(i, j),
{
    lemma_object_pat_props_view(s);
    lemma_object_pat_props_view(s.subrange(i, j));
    assert(object_pat_props_view(s.subrange(i, j)) =~= object_pat_props_view(s).subrange(i, j));
}

/// The view of two lists joined is the views of the two joined.
pub proof fn lemma_object_pat_props_view_concat(a: Seq<ObjectPatProp>, b: Seq<ObjectPatProp>)
    ensures
        object_pat_props_view(a + b) == object_pat_props_view(a) + object_pat_props_view(b),
{
    lemma_object_pat_props_view(a);
    lemma_object_pat_props_view(b);
    lemma_object_pat_props_view(a + b);
    assert(object_pat_props_view(a + b) =~= object_pat_props_view(a) + object_pat_props_view(b));
}

/// The models of the items of a list, in their order.
#[verifier::opaque]
pub open spec fn opt_expr_or_spreads_view(s: Seq<Option<ExprOrSpread>>) -> Seq<Option<ExprOrSpreadV>>
    decreases s,
{
    Seq::new(
        s.len(),
        |i: int|
            if 0 <= i < s.len() {
                match s[i] {
                    Some(x) => Some(expr_or_spread_view(x)),
                    None => None,
                }
            } else {
                arbitrary()
            },
    )
}

/// The view of a list has the list's length and holds the views of its items.
pub proof fn lemma_opt_expr_or_spreads_view(s: Seq<Option<ExprOrSpread>>)
    ensures
        opt_expr_or_spreads_view(s).len() == s.len(),
        forall|i: int|
            0 <= i < s.len() ==> (#[trigger] opt_expr_or_spreads_view(s)[i]) == match s[i] {
                Some(x) => Some(expr_or_spread_view(x)),
                None => None,
            },
{
    reveal(opt_expr_or_spreads_view);
    reveal(expr_or_spread_view);
}

/// The view of a list with one more item is the view of the list with the view of the item.
pub proof fn lemma_opt_expr_or_spreads_view_push(s: Seq<Option<ExprOrSpread>>, x: Option<ExprOrSpread>)
    ensures
        opt_expr_or_spreads_view(s.push(x)) == opt_expr_or_spreads_view(s).push(match x {
            Some(x) => Some(expr_or_spread_view(x)),
            None => None,
        }),
{
    lemma_opt_expr_or_spreads_view(s);
    lemma_opt_expr_or_spreads_view(s.push(x));
    assert(opt_expr_or_spreads_view(s.push(x)) =~= opt_expr_or_spreads_view(s).push(match x {
        Some(x) => Some(expr_or_spread_view(x)),
        None => None,
    }));
}

/// The view of a part of a list is that part of the view of the list.
pub proof fn lemma_opt_expr_or_spreads_view_subrange(s: Seq<Option<ExprOrSpread>>, i: int, j: int)
    requires
        0 <= i <= j <= s.len(),
    ensures
        opt_expr_or_spreads_view(s.subrange(i, j)) == opt_expr_or_spreads_view(s).subrange(i, j),
{
    lemma_opt_expr_or_spreads_view(s);
    lemma_opt_expr_or_spreads_view(s.subrange(i, j));
    assert(opt_expr_or_spreads_view(s.subrange(i, j)) =~= opt_expr_or_spreads_view(s).subrange(i, j));
}

/// The view of two lists joined is the views of the two joined.
pub proof fn lemma_opt_expr_or_spreads_view_concat(a: Seq<Option<ExprOrSpread>>, b: Seq<Option<ExprOrSpread>>)
    ensures
        opt_expr_or_spreads_view(a
            + b) == opt_expr_or_spreads_view(a)
            + opt_expr_or_spreads_view(b),
{
    lemma_opt_expr_or_spreads_view(a);
    lemma_opt_expr_or_spreads_view(b);
    lemma_opt_expr_or_spreads_view(a + b);
    assert(opt_expr_or_spreads_view(a + b) =~= opt_expr_or_spreads_view(a) + opt_expr_or_spreads_view(b));
}

/// The models of the items of a list, in their order.
#[verifier::opaque]
pub open spec fn opt_pats_view(s: Seq<Option<Pat>>) -> Seq<Option<PatV>>
    decreases s,
{
    Seq::new(
        s.len(),
        |i: int|
            if 0 <= i < s.len() {
                match s[i] {
                    Some(x) => Some(pat_view(x)),
                    None => None,
                }
            } else {
                arbitrary()
            },
    )
}

/// The view of a list has the list's length and holds the views of its items.
pub proof fn lemma_opt_pats_view(s: Seq<Option<Pat>>)
    ensures
        opt_pats_view(s).len() == s.len(),
        forall|i: int|
            0 <= i < s.len() ==> (#[trigger] opt_pats_view(s)[i]) == match s[i] {
                Some(x) => Some(pat_view(x)),
                None => None,
            },
{
    reveal(opt_pats_view);
    reveal(pat_view);
}

/// The view of a list with one more item is the view of the list with the view of the item.
pub proof fn lemma_opt_pats_view_push(s: Seq<Option<Pat>>, x: Option<Pat>)
    ensures
        opt_pats_view(s.push(x)) == opt_pats_view(s).push(match x {
            Some(x) => Some(pat_view(x)),
            None => None,
        }),
{
    lemma_opt_pats_view(s);
    lemma_opt_pats_view(s.push(x));
    assert(opt_pats_view(s.push(x)) =~= opt_pats_view(s).push(match x {
        Some(x) => Some(pat_view(x)),
        None => None,
    }));
}

/// The view of a part of a list is that part of the view of the list.
pub proof fn lemma_opt_pats_view_subrange(s: Seq<Option<Pat>>, i: int, j: int)
    requires
        0 <= i <= j <= s.len(),
    ensures
        opt_pats_view(s.subrange(i, j)) == opt_pats_view(s).subrange(i, j),
{
    lemma_opt_pats_view(s);
    lemma_opt_pats_view(s.subrange(i, j));
    assert(opt_pats_view(s.subrange(i, j)) =~= opt_pats_view(s).subrange(i, j));
}

/// The view of two lists joined is the views of the two joined.
pub proof fn lemma_opt_pats_view_concat(a: Seq<Option<Pat>>, b: Seq<Option<Pat>>)
    ensures
        opt_pats_view(a + b) == opt_pats_view(a) + opt_pats_view(b),
{
    lemma_opt_pats_view(a);
    lemma_opt_pats_view(b);
    lemma_opt_pats_view(a + b);
    assert(opt_pats_view(a + b) =~= opt_pats_view(a) + opt_pats_view(b));
}

/// The models of the items of a list, in their order.
#[verifier::opaque]
pub open spec fn pats_view(s: Seq<Pat>) -> Seq<PatV>
    decreases s,
{
    Seq::new(
        s.len(),
        |i: int|
            if 0 <= i < s.len() {
                pat_view(s[i])
            } else {
                arbitrary()
            },
    )
}

/// The view of a list has the list's length and holds the views of its items.
pub proof fn lemma_pats_view(s: Seq<Pat>)
    ensures
        pats_view(s).len() == s.len(),
        forall|i: int|
            0 <= i < s.len() ==> (#[trigger] pats_view(s)[i]) == pat_view(s[i]),
{
    reveal(pats_view);
    reveal(pat_view);
}

/// The view of a list with one more item is the view of the list with the view of the item.
pub proof fn lemma_pats_view_push(s: Seq<Pat>, x: Pat)
    ensures
        pats_view(s.push(x)) == pats_view(s).push(pat_view(x)),
{
    lemma_pats_view(s);
    lemma_pats_view(s.push(x));
    assert(pats_view(s.push(x)) =~= pats_view(s).push(pat_view(x)));
}

/// The view of a part of a list is that part of the view of the list.
pub proof fn lemma_pats_view_subrange(s: Seq<Pat>, i: int, j: int)
    requires
        0 <= i <= j <= s.len(),
    ensures
        pats_view(s.subrange(i, j)) == pats_view(s).subrange(i, j),
{
    lemma_pats_view(s);
    lemma_pats_view(s.subrange(i, j));
    assert(pats_view(s.subrange(i, j)) =~= pats_view(s).subrange(i, j));
}

/// The view of two lists joined is the views of the two joined.
pub proof fn lemma_pats_view_concat(a: Seq<Pat>, b: Seq<Pat>)
    ensures
        pats_view(a + b) == pats_view(a) + pats_view(b),
{
    lemma_pats_view(a);
    lemma_pats_view(b);
    lemma_pats_view(a + b);
    assert(pats_view(a + b) =~= pats_view(a) + pats_view(b));
}

/// The models of the items of a list, in their order.
#[verifier::opaque]
pub open spec fn prop_or_spreads_view(s: Seq<PropOrSpread>) -> Seq<PropOrSpreadV>
    decreases s,
{
    Seq::new(
        s.len(),
        |i: int|
            if 0 <= i < s.len() {
                prop_or_spread_view(s[i])
            } else {
                arbitrary()
            },
    )
}

/// The view of a list has the list's length and holds the views of its items.
pub proof fn lemma_prop_or_spreads_view(s: Seq<PropOrSpread>)
    ensures
        prop_or_spreads_view(s).len() == s.len(),
        forall|i: int|
            0 <= i < s.len() ==> (#[trigger] prop_or_spreads_view(s)[i])
                == prop_or_spread_view(s[i]),
{
    reveal(prop_or_spreads_view);
    reveal(prop_or_spread_view);
}

/// The view of a list with one more item is the view of the list with the view of the item.
pub proof fn lemma_prop_or_spreads_view_push(s: Seq<PropOrSpread>, x: PropOrSpread)
    ensures
        prop_or_spreads_view(s.push(x)) == prop_or_spreads_view(s).push(prop_or_spread_view(x)),
{
    lemma_prop_or_spreads_view(s);
    lemma_prop_or_spreads_view(s.push(x));
    assert(prop_or_spreads_view(s.push(x)) =~= prop_or_spreads_view(s).push(prop_or_spread_view(x)));
}

/// The view of a part of a list is that part of the view of the list.
pub proof fn lemma_prop_or_spreads_view_subrange(s: Seq<PropOrSpread>, i: int, j: int)
    requires
        0 <= i <= j <= s.len(),
    ensures
        prop_or_spreads_view(s.subrange(i, j)) == prop_or_spreads_view(s).subrange(i, j),
{
    lemma_prop_or_spreads_view(s);
    lemma_prop_or_spreads_view(s.subrange(i, j));
    assert(prop_or_spreads_view(s.subrange(i, j)) =~= prop_or_spreads_view(s).subrange(i, j));
}

/// The view of two lists joined is the views of the two joined.
pub proof fn lemma_prop_or_spreads_view_concat(a: Seq<PropOrSpread>, b: Seq<PropOrSpread>)
    ensures
        prop_or_spreads_view(a + b) == prop_or_spreads_view(a) + prop_or_spreads_view(b),
{
    lemma_prop_or_spreads_view(a);
    lemma_prop_or_spreads_view(b);
    lemma_prop_or_spreads_view(a + b);
    assert(prop_or_spreads_view(a + b) =~= prop_or_spreads_view(a) + prop_or_spreads_view(b));
}

/// The models of the items of a list, in their order.
#[verifier::opaque]
pub open spec fn stmts_view(s: Seq<Stmt>) -> Seq<StmtV>
    decreases s,
{
    Seq::new(
        s.len(),
        |i: int|
            if 0 <= i < s.len() {
                stmt_view(s[i])
            } else {
                arbitrary()
            },
    )
}

/// The view of a list has the list's length and holds the views of its items.
pub proof fn lemma_stmts_view(s: Seq<Stmt>)
    ensures
        stmts_view(s).len() == s.len(),
        forall|i: int|
            0 <= i < s.len() ==> (#[trigger] stmts_view(s)[i]) == stmt_view(s[i]),
{
    reveal(stmts_view);
    reveal(stmt_view);
}

/// The view of a list with one more item is the view of the list with the view of the item.
pub proof fn lemma_stmts_view_push(s: Seq<Stmt>, x: Stmt)
    ensures
        stmts_view(s.push(x)) == stmts_view(s).push(stmt_view(x)),
{
    lemma_stmts_view(s);
    lemma_stmts_view(s.push(x));
    assert(stmts_view(s.push(x)) =~= stmts_view(s).push(stmt_view(x)));
}

/// The view of a part of a list is that part of the view of the list.
pub proof fn lemma_stmts_view_subrange(s: Seq<Stmt>, i: int, j: int)
    requires
        0 <= i <= j <= s.len(),
    ensures
        stmts_view(s.subrange(i, j)) == stmts_view(s).subrange(i, j),
{
    lemma_stmts_view(s);
    lemma_stmts_view(s.subrange(i, j));
    assert(stmts_view(s.subrange(i, j)) =~= stmts_view(s).subrange(i, j));
}

/// The view of two lists joined is the views of the two joined.
pub proof fn lemma_stmts_view_concat(a: Seq<Stmt>, b: Seq<Stmt>)
    ensures
        stmts_view(a + b) == stmts_view(a) + stmts_view(b),
{
    lemma_stmts_view(a);
    lemma_stmts_view(b);
    lemma_stmts_view(a + b);
    assert(stmts_view(a + b) =~= stmts_view(a) + stmts_view(b));
}

/// The models of the items of a list, in their order.
#[verifier::opaque]
pub open spec fn switch_cases_view(s: Seq<SwitchCase>) -> Seq<SwitchCaseV>
    decreases s,
{
    Seq::new(
        s.len(),
        |i: int|
            if 0 <= i < s.len() {
                switch_case_view(s[i])
            } else {
                arbitrary()
            },
    )
}

/// The view of a list has the list's length and holds the views of its items.
pub proof fn lemma_switch_cases_view(s: Seq<SwitchCase>)
    ensures
        switch_cases_view(s).len() == s.len(),
        forall|i: int|
            0 <= i < s.len() ==> (#[trigger] switch_cases_view(s)[i]) == switch_case_view(s[i]),
{
    reveal(switch_cases_view);
    reveal(switch_case_view);
}

/// The view of a list with one more item is the view of the list with the view of the item.
pub proof fn lemma_switch_cases_view_push(s: Seq<SwitchCase>, x: SwitchCase)
    ensures
        switch_cases_view(s.push(x)) == switch_cases_view(s).push(switch_case_view(x)),
{
    lemma_switch_cases_view(s);
    lemma_switch_cases_view(s.push(x));
    assert(switch_cases_view(s.push(x)) =~= switch_cases_view(s).push(switch_case_view(x)));
}

/// The view of a part of a list is that part of the view of the list.
pub proof fn lemma_switch_cases_view_subrange(s: Seq<SwitchCase>, i: int, j: int)
    requires
        0 <= i <= j <= s.len(),
    ensures
        switch_cases_view(s.subrange(i, j)) == switch_cases_view(s).subrange(i, j),
{
    lemma_switch_cases_view(s);
    lemma_switch_cases_view(s.subrange(i, j));
    assert(switch_cases_view(s.subrange(i, j)) =~= switch_cases_view(s).subrange(i, j));
}

/// The view of two lists joined is the views of the two joined.
pub proof fn lemma_switch_cases_view_concat(a: Seq<SwitchCase>, b: Seq<SwitchCase>)
    ensures
        switch_cases_view(a + b) == switch_cases_view(a) + switch_cases_view(b),
{
    lemma_switch_cases_view(a);
    lemma_switch_cases_view(b);
    lemma_switch_cases_view(a + b);
    assert(switch_cases_view(a + b) =~= switch_cases_view(a) + switch_cases_view(b));
}

/// The models of the items of a list, in their order.
#[verifier::opaque]
pub open spec fn tpl_elements_view(s: Seq<TplElement>) -> Seq<TplElementV>
    decreases s,
{
    Seq::new(
        s.len(),
        |i: int|
            if 0 <= i < s.len() {
                tpl_element_view(s[i])
            } else {
                arbitrary()
            },
    )
}

/// The view of a list has the list's length and holds the views of its items.
pub proof fn lemma_tpl_elements_view(s: Seq<TplElement>)
    ensures
        tpl_elements_view(s).len() == s.len(),
        forall|i: int|
            0 <= i < s.len() ==> (#[trigger] tpl_elements_view(s)[i]) == tpl_element_view(s[i]),
{
    reveal(tpl_elements_view);
}

/// The view of a list with one more item is the view of the list with the view of the item.
pub proof fn lemma_tpl_elements_view_push(s: Seq<TplElement>, x: TplElement)
    ensures
        tpl_elements_view(s.push(x)) == tpl_elements_view(s).push(tpl_element_view(x)),
{
    lemma_tpl_elements_view(s);
    lemma_tpl_elements_view(s.push(x));
    assert(tpl_elements_view(s.push(x)) =~= tpl_elements_view(s).push(tpl_element_view(x)));
}

/// The view of a part of a list is that part of the view of the list.
pub proof fn lemma_tpl_elements_view_subrange(s: Seq<TplElement>, i: int, j: int)
    requires
        0 <= i <= j <= s.len(),
    ensures
        tpl_elements_view(s.subrange(i, j)) == tpl_elements_view(s).subrange(i, j),
{
    lemma_tpl_elements_view(s);
    lemma_tpl_elements_view(s.subrange(i, j));
    assert(tpl_elements_view(s.subrange(i, j)) =~= tpl_elements_view(s).subrange(i, j));
}

/// The view of two lists joined is the views of the two joined.
pub proof fn lemma_tpl_elements_view_concat(a: Seq<TplElement>, b: Seq<TplElement>)
    ensures
        tpl_elements_view(a + b) == tpl_elements_view(a) + tpl_elements_view(b),
{
    lemma_tpl_elements_view(a);
    lemma_tpl_elements_view(b);
    lemma_tpl_elements_view(a + b);
    assert(tpl_elements_view(a + b) =~= tpl_elements_view(a) + tpl_elements_view(b));
}

/// The models of the items of a list, in their order.
#[verifier::opaque]
pub open spec fn var_declarators_view(s: Seq<VarDeclarator>) -> Seq<VarDeclaratorV>
    decreases s,
{
    Seq::new(
        s.len(),
        |i: int|
            if 0 <= i < s.len() {
                var_declarator_view(s[i])
            } else {
                arbitrary()
            },
    )
}

/// The view of a list has the list's length and holds the views of its items.
pub proof fn lemma_var_declarators_view(s: Seq<VarDeclarator>)
    ensures
        var_declarators_view(s).len() == s.len(),
        forall|i: int|
            0 <= i < s.len() ==> (#[trigger] var_declarators_view(s)[i])
                == var_declarator_view(s[i]),
{
    reveal(var_declarators_view);
    reveal(var_declarator_view);
}

/// The view of a list with one more item is the view of the list with the view of the item.
pub proof fn lemma_var_declarators_view_push(s: Seq<VarDeclarator>, x: VarDeclarator)
    ensures
        var_declarators_view(s.push(x)) == var_declarators_view(s).push(var_declarator_view(x)),
{
    lemma_var_declarators_view(s);
    lemma_var_declarators_view(s.push(x));
    assert(var_declarators_view(s.push(x)) =~= var_declarators_view(s).push(var_declarator_view(x)));
}

/// The view of a part of a list is that part of the view of the list.
pub proof fn lemma_var_declarators_view_subrange(s: Seq<VarDeclarator>, i: int, j: int)
    requires
        0 <= i <= j <= s.len(),
    ensures
        var_declarators_view(s.subrange(i, j)) == var_declarators_view(s).subrange(i, j),
{
    lemma_var_declarators_view(s);
    lemma_var_declarators_view(s.subrange(i, j));
    assert(var_declarators_view(s.subrange(i, j)) =~= var_declarators_view(s).subrange(i, j));
}

/// The view of two lists joined is the views of the two joined.
pub proof fn lemma_var_declarators_view_concat(a: Seq<VarDeclarator>, b: Seq<VarDeclarator>)
    ensures
        var_declarators_view(a + b) == var_declarators_view(a) + var_declarators_view(b),
{
    lemma_var_declarators_view(a);
    lemma_var_declarators_view(b);
    lemma_var_declarators_view(a + b);
    assert(var_declarators_view(a + b) =~= var_declarators_view(a) + var_declarators_view(b));
}

/// What the view of a tree is, one level down.
pub proof fn lemma_tpl_view(x: Tpl)
    ensures
        tpl_view(x) == (TplV {
            exprs: exprs_view(x.exprs@),
            quasis: tpl_elements_view(x.quasis@),
        }),
{
    reveal(tpl_view);
    reveal(exprs_view);
    reveal(tpl_elements_view);
}

/// What the view of a tree is, one level down.
pub proof fn lemma_expr_or_spread_view(x: ExprOrSpread)
    ensures
        expr_or_spread_view(x) == (ExprOrSpreadV {
            spread: x.spread,
            expr: expr_view(x.expr),
        }),
{
    reveal(expr_or_spread_view);
    reveal(expr_view);
}

/// What the view of a tree is, one level down.
pub proof fn lemma_expr_or_super_view(x: ExprOrSuper)
    ensures
        expr_or_super_view(x) == match x {
            ExprOrSuper::Super => ExprOrSuperV::Super,
            ExprOrSuper::Expr(a) => ExprOrSuperV::Expr(Box::new(expr_view(*a))),
        },
{
    reveal(expr_or_super_view);
    reveal(expr_view);
}

/// What the view of a tree is, one level down.
pub proof fn lemma_member_prop_view(x: MemberProp)
    ensures
        member_prop_view(x) == match x {
            MemberProp::Ident(a) => MemberPropV::Ident(ident_view(a)),
            MemberProp::Computed(a) => MemberPropV::Computed(Box::new(expr_view(*a))),
        },
{
    reveal(member_prop_view);
    reveal(expr_view);
}

/// What the view of a tree is, one level down.
pub proof fn lemma_pat_or_expr_view(x: PatOrExpr)
    ensures
        pat_or_expr_view(x) == match x {
            PatOrExpr::Expr(a) => PatOrExprV::Expr(Box::new(expr_view(*a))),
            PatOrExpr::Pat(a) => PatOrExprV::Pat(Box::new(pat_view(*a))),
        },
{
    reveal(pat_or_expr_view);
    reveal(expr_view);
    reveal(pat_view);
}

/// What the view of a tree is, one level down.
pub proof fn lemma_prop_name_view(x: PropName)
    ensures
        prop_name_view(x) == match x {
            PropName::Ident(a) => PropNameV::Ident(ident_view(a)),
            PropName::Str(a) => PropNameV::Str(str_view(a)),
            PropName::Num(a) => PropNameV::Num(number_view(a)),
            PropName::Computed(a) => PropNameV::Computed(Box::new(expr_view(*a))),
        },
{
    reveal(prop_name_view);
    reveal(expr_view);
}

/// What the view of a tree is, one level down.
pub proof fn lemma_prop_view(x: Prop)
    ensures
        prop_view(x) == match x {
            Prop::Shorthand(a) => PropV::Shorthand(ident_view(a)),
            Prop::KeyValue { key, value } => (PropV::KeyValue {
                key: prop_name_view(key),
                value: Box::new(expr_view(*value)),
            }),
            Prop::Getter { key, body } => (PropV::Getter {
                key: prop_name_view(key),
                body: match body {
                    Some(x) => Some(stmts_view(x@)),
                    None => None,
                },
            }),
            Prop::Setter { key, param, body } => (PropV::Setter {
                key: prop_name_view(key),
                param: pat_view(param),
                body: match body {
                    Some(x) => Some(stmts_view(x@)),
                    None => None,
                },
            }),
            Prop::Method { key, function } => (PropV::Method {
                key: prop_name_view(key),
                function: function_view(function),
            }),
        },
{
    reveal(prop_view);
    reveal(prop_name_view);
    reveal(expr_view);
    reveal(stmts_view);
    reveal(pat_view);
    reveal(function_view);
}

/// What the view of a tree is, one level down.
pub proof fn lemma_prop_or_spread_view(x: PropOrSpread)
    ensures
        prop_or_spread_view(x) == match x {
            PropOrSpread::Spread(a) => PropOrSpreadV::Spread(Box::new(expr_view(*a))),
            PropOrSpread::Prop(a) => PropOrSpreadV::Prop(Box::new(prop_view(*a))),
        },
{
    reveal(prop_or_spread_view);
    reveal(expr_view);
    reveal(prop_view);
}

/// What the view of a tree is, one level down.
pub proof fn lemma_function_view(x: Function)
    ensures
        function_view(x) == (FunctionV {
            params: pats_view(x.params@),
            body: match x.body {
                Some(x) => Some(stmts_view(x@)),
                None => None,
            },
            is_generator: x.is_generator,
            is_async: x.is_async,
        }),
{
    reveal(function_view);
    reveal(pats_view);
    reveal(stmts_view);
}

/// What the view of a tree is, one level down.
pub proof fn lemma_class_view(x: Class)
    ensures
        class_view(x) == (ClassV {
            super_class: match x.super_class {
                Some(x) => Some(Box::new(expr_view(*x))),
                None => None,
            },
            body: class_members_view(x.body@),
        }),
{
    reveal(class_view);
    reveal(expr_view);
    reveal(class_members_view);
}

/// What the view of a tree is, one level down.
pub proof fn lemma_class_member_view(x: ClassMember)
    ensures
        class_member_view(x) == match x {
            ClassMember::Constructor { key, params, body } => (ClassMemberV::Constructor {
                key: prop_name_view(key),
                params: pats_view(params@),
                body: match body {
                    Some(x) => Some(stmts_view(x@)),
                    None => None,
                },
            }),
            ClassMember::Method { key, function, kind, is_static } => (ClassMemberV::Method {
                key: prop_name_view(key),
                function: function_view(function),
                kind: kind,
                is_static: is_static,
            }),
            ClassMember::Prop { key, value, is_static, computed } => (ClassMemberV::Prop {
                key: Box::new(expr_view(*key)),
                value: match value {
                    Some(x) => Some(Box::new(expr_view(*x))),
                    None => None,
                },
                is_static: is_static,
                computed: computed,
            }),
        },
{
    reveal(class_member_view);
    reveal(prop_name_view);
    reveal(pats_view);
    reveal(stmts_view);
    reveal(function_view);
    reveal(expr_view);
}

/// What the view of a tree is, one level down.
pub proof fn lemma_block_stmt_or_expr_view(x: BlockStmtOrExpr)
    ensures
        block_stmt_or_expr_view(x) == match x {
            BlockStmtOrExpr::Block(a) => BlockStmtOrExprV::Block(stmts_view(a@)),
            BlockStmtOrExpr::Expr(a) => BlockStmtOrExprV::Expr(Box::new(expr_view(*a))),
        },
{
    reveal(block_stmt_or_expr_view);
    reveal(stmts_view);
    reveal(expr_view);
}

/// What the view of a tree is, one level down.
pub proof fn lemma_expr_view(x: Expr)
    ensures
        expr_view(x) == match x {
            Expr::This => ExprV::This,
            Expr::Array(a) => ExprV::Array(opt_expr_or_spreads_view(a@)),
            Expr::Object(a) => ExprV::Object(prop_or_spreads_view(a@)),
            Expr::Fn { ident, function } => (ExprV::Fn {
                ident: match ident {
                    Some(x) => Some(ident_view(x)),
                    None => None,
                },
                function: Box::new(function_view(*function)),
            }),
            Expr::Unary { op, arg } => (ExprV::Unary {
                op: op,
                arg: Box::new(expr_view(*arg)),
            }),
            Expr::Update { op, prefix, arg } => (ExprV::Update {
                op: op,
                prefix: prefix,
                arg: Box::new(expr_view(*arg)),
            }),
            Expr::Bin { op, left, right } => (ExprV::Bin {
                op: op,
                left: Box::new(expr_view(*left)),
                right: Box::new(expr_view(*right)),
            }),
            Expr::Assign { op, left, right } => (ExprV::Assign {
                op: op,
                left: pat_or_expr_view(left),
                right: Box::new(expr_view(*right)),
            }),
            Expr::Member { obj, prop } => (ExprV::Member {
                obj: expr_or_super_view(obj),
                prop: member_prop_view(prop),
            }),
            Expr::Cond { test, cons, alt } => (ExprV::Cond {
                test: Box::new(expr_view(*test)),
                cons: Box::new(expr_view(*cons)),
                alt: Box::new(expr_view(*alt)),
            }),
            Expr::Call { callee, args } => (ExprV::Call {
                callee: expr_or_super_view(callee),
                args: expr_or_spreads_view(args@),
            }),
            Expr::New { callee, args } => (ExprV::New {
                callee: Box::new(expr_view(*callee)),
                args: match args {
                    Some(x) => Some(expr_or_spreads_view(x@)),
                    None => None,
                },
            }),
            Expr::Sequence { init, last } => (ExprV::Sequence {
                init: exprs_view(init@),
                last: Box::new(expr_view(*last)),
            }),
            Expr::Ident(a) => ExprV::Ident(ident_view(a)),
            Expr::Lit(a) => ExprV::Lit(lit_view(a)),
            Expr::Tpl(a) => ExprV::Tpl(tpl_view(a)),
            Expr::TaggedTpl { tag, tpl } => (ExprV::TaggedTpl {
                tag: Box::new(expr_view(*tag)),
                tpl: tpl_view(tpl),
            }),
            Expr::Arrow { params, body, is_async, is_generator } => (ExprV::Arrow {
                params: pats_view(params@),
                body: block_stmt_or_expr_view(body),
                is_async: is_async,
                is_generator: is_generator,
            }),
            Expr::Class { ident, class } => (ExprV::Class {
                ident: match ident {
                    Some(x) => Some(ident_view(x)),
                    None => None,
                },
                class: Box::new(class_view(*class)),
            }),
            Expr::Yield { arg, delegate } => (ExprV::Yield {
                arg: match arg {
                    Some(x) => Some(Box::new(expr_view(*x))),
                    None => None,
                },
                delegate: delegate,
            }),
            Expr::MetaProp { meta, prop } => (ExprV::MetaProp {
                meta: ident_view(meta),
                prop: ident_view(prop),
            }),
            Expr::Await(a) => ExprV::Await(Box::new(expr_view(*a))),
            Expr::Paren(a) => ExprV::Paren(Box::new(expr_view(*a))),
            Expr::Ts { cast, expr } => (ExprV::Ts {
                cast: cast,
                expr: Box::new(expr_view(*expr)),
            }),
            Expr::OptChain(a) => ExprV::OptChain(Box::new(expr_view(*a))),
            Expr::PrivateName(a) => ExprV::PrivateName(ident_view(a)),
        },
{
    reveal(expr_view);
    reveal(opt_expr_or_spreads_view);
    reveal(prop_or_spreads_view);
    reveal(function_view);
    reveal(pat_or_expr_view);
    reveal(expr_or_super_view);
    reveal(member_prop_view);
    reveal(expr_or_spreads_view);
    reveal(exprs_view);
    reveal(tpl_view);
    reveal(pats_view);
    reveal(block_stmt_or_expr_view);
    reveal(class_view);
}

/// What the view of a tree is, one level down.
pub proof fn lemma_pat_view(x: Pat)
    ensures
        pat_view(x) == match x {
            Pat::Ident(a) => PatV::Ident(ident_view(a)),
            Pat::Array(a) => PatV::Array(opt_pats_view(a@)),
            Pat::Rest(a) => PatV::Rest(Box::new(pat_view(*a))),
            Pat::Object(a) => PatV::Object(object_pat_props_view(a@)),
            Pat::Assign { left, right } => (PatV::Assign {
                left: Box::new(pat_view(*left)),
                right: Box::new(expr_view(*right)),
            }),
            Pat::Expr(a) => PatV::Expr(Box::new(expr_view(*a))),
        },
{
    reveal(pat_view);
    reveal(opt_pats_view);
    reveal(object_pat_props_view);
    reveal(expr_view);
}

/// What the view of a tree is, one level down.
pub proof fn lemma_object_pat_prop_view(x: ObjectPatProp)
    ensures
        object_pat_prop_view(x) == match x {
            ObjectPatProp::KeyValue { key, value } => (ObjectPatPropV::KeyValue {
                key: prop_name_view(key),
                value: Box::new(pat_view(*value)),
            }),
            ObjectPatProp::Assign { key, value } => (ObjectPatPropV::Assign {
                key: ident_view(key),
                value: match value {
                    Some(x) => Some(Box::new(expr_view(*x))),
                    None => None,
                },
            }),
            ObjectPatProp::Rest(a) => ObjectPatPropV::Rest(Box::new(pat_view(*a))),
        },
{
    reveal(object_pat_prop_view);
    reveal(prop_name_view);
    reveal(pat_view);
    reveal(expr_view);
}

/// What the view of a tree is, one level down.
pub proof fn lemma_var_declarator_view(x: VarDeclarator)
    ensures
        var_declarator_view(x) == (VarDeclaratorV {
            name: pat_view(x.name),
            init: match x.init {
                Some(x) => Some(Box::new(expr_view(*x))),
                None => None,
            },
        }),
{
    reveal(var_declarator_view);
    reveal(pat_view);
    reveal(expr_view);
}

/// What the view of a tree is, one level down.
pub proof fn lemma_var_decl_view(x: VarDecl)
    ensures
        var_decl_view(x) == (VarDeclV {
            kind: x.kind,
            annotation: x.annotation,
            decls: var_declarators_view(x.decls@),
        }),
{
    reveal(var_decl_view);
    reveal(var_declarators_view);
}

/// What the view of a tree is, one level down.
pub proof fn lemma_decl_view(x: Decl)
    ensures
        decl_view(x) == match x {
            Decl::Class { ident, class } => (DeclV::Class {
                ident: ident_view(ident),
                class: class_view(class),
            }),
            Decl::Fn { ident, function } => (DeclV::Fn {
                ident: ident_view(ident),
                function: function_view(function),
            }),
            Decl::Var(a) => DeclV::Var(var_decl_view(a)),
        },
{
    reveal(decl_view);
    reveal(class_view);
    reveal(function_view);
    reveal(var_decl_view);
}

/// What the view of a tree is, one level down.
pub proof fn lemma_var_decl_or_expr_view(x: VarDeclOrExpr)
    ensures
        var_decl_or_expr_view(x) == match x {
            VarDeclOrExpr::VarDecl(a) => VarDeclOrExprV::VarDecl(var_decl_view(a)),
            VarDeclOrExpr::Expr(a) => VarDeclOrExprV::Expr(Box::new(expr_view(*a))),
        },
{
    reveal(var_decl_or_expr_view);
    reveal(var_decl_view);
    reveal(expr_view);
}

/// What the view of a tree is, one level down.
pub proof fn lemma_var_decl_or_pat_view(x: VarDeclOrPat)
    ensures
        var_decl_or_pat_view(x) == match x {
            VarDeclOrPat::VarDecl(a) => VarDeclOrPatV::VarDecl(var_decl_view(a)),
            VarDeclOrPat::Pat(a) => VarDeclOrPatV::Pat(pat_view(a)),
        },
{
    reveal(var_decl_or_pat_view);
    reveal(var_decl_view);
    reveal(pat_view);
}

/// What the view of a tree is, one level down.
pub proof fn lemma_switch_case_view(x: SwitchCase)
    ensures
        switch_case_view(x) == (SwitchCaseV {
            test: match x.test {
                Some(x) => Some(Box::new(expr_view(*x))),
                None => None,
            },
            cons: stmts_view(x.cons@),
        }),
{
    reveal(switch_case_view);
    reveal(expr_view);
    reveal(stmts_view);
}

/// What the view of a tree is, one level down.
pub proof fn lemma_catch_clause_view(x: CatchClause)
    ensures
        catch_clause_view(x) == (CatchClauseV {
            param: match x.param {
                Some(x) => Some(pat_view(x)),
                None => None,
            },
            body: stmts_view(x.body@),
        }),
{
    reveal(catch_clause_view);
    reveal(pat_view);
    reveal(stmts_view);
}

/// What the view of a tree is, one level down.
pub proof fn lemma_stmt_view(x: Stmt)
    ensures
        stmt_view(x) == match x {
            Stmt::Block(a) => StmtV::Block(stmts_view(a@)),
            Stmt::Empty => StmtV::Empty,
            Stmt::Debugger => StmtV::Debugger,
            Stmt::With { obj, body } => (StmtV::With {
                obj: Box::new(expr_view(*obj)),
                body: Box::new(stmt_view(*body)),
            }),
            Stmt::Return(a) => StmtV::Return(match a {
                Some(x) => Some(Box::new(expr_view(*x))),
                None => None,
            }),
            Stmt::Labeled { label, body } => (StmtV::Labeled {
                label: ident_view(label),
                body: Box::new(stmt_view(*body)),
            }),
            Stmt::Break(a) => StmtV::Break(match a {
                Some(x) => Some(ident_view(x)),
                None => None,
            }),
            Stmt::Continue(a) => StmtV::Continue(match a {
                Some(x) => Some(ident_view(x)),
                None => None,
            }),
            Stmt::If { test, cons, alt } => (StmtV::If {
                test: Box::new(expr_view(*test)),
                cons: Box::new(stmt_view(*cons)),
                alt: match alt {
                    Some(x) => Some(Box::new(stmt_view(*x))),
                    None => None,
                },
            }),
            Stmt::Switch { discriminant, cases } => (StmtV::Switch {
                discriminant: Box::new(expr_view(*discriminant)),
                cases: switch_cases_view(cases@),
            }),
            Stmt::Throw(a) => StmtV::Throw(Box::new(expr_view(*a))),
            Stmt::Try { block, handler, finalizer } => (StmtV::Try {
                block: stmts_view(block@),
                handler: match handler {
                    Some(x) => Some(catch_clause_view(x)),
                    None => None,
                },
                finalizer: match finalizer {
                    Some(x) => Some(stmts_view(x@)),
                    None => None,
                },
            }),
            Stmt::While { test, body } => (StmtV::While {
                test: Box::new(expr_view(*test)),
                body: Box::new(stmt_view(*body)),
            }),
            Stmt::DoWhile { test, body } => (StmtV::DoWhile {
                test: Box::new(expr_view(*test)),
                body: Box::new(stmt_view(*body)),
            }),
            Stmt::For { init, test, update, body } => (StmtV::For {
                init: match init {
                    Some(x) => Some(var_decl_or_expr_view(x)),
                    None => None,
                },
                test: match test {
                    Some(x) => Some(Box::new(expr_view(*x))),
                    None => None,
                },
                update: match update {
                    Some(x) => Some(Box::new(expr_view(*x))),
                    None => None,
                },
                body: Box::new(stmt_view(*body)),
            }),
            Stmt::ForIn { left, right, body } => (StmtV::ForIn {
                left: var_decl_or_pat_view(left),
                right: Box::new(expr_view(*right)),
                body: Box::new(stmt_view(*body)),
            }),
            Stmt::ForOf { is_await, left, right, body } => (StmtV::ForOf {
                is_await: is_await,
                left: var_decl_or_pat_view(left),
                right: Box::new(expr_view(*right)),
                body: Box::new(stmt_view(*body)),
            }),
            Stmt::Decl(a) => StmtV::Decl(decl_view(a)),
            Stmt::Expr(a) => StmtV::Expr(Box::new(expr_view(*a))),
        },
{
    reveal(stmt_view);
    reveal(stmts_view);
    reveal(expr_view);
    reveal(switch_cases_view);
    reveal(catch_clause_view);
    reveal(var_decl_or_expr_view);
    reveal(var_decl_or_pat_view);
    reveal(decl_view);
}

/// What the view of a tree is, one level down.
pub proof fn lemma_default_decl_view(x: DefaultDecl)
    ensures
        default_decl_view(x) == match x {
            DefaultDecl::Class { ident, class } => (DefaultDeclV::Class {
                ident: match ident {
                    Some(x) => Some(ident_view(x)),
                    None => None,
                },
                class: class_view(class),
            }),
            DefaultDecl::Fn { ident, function } => (DefaultDeclV::Fn {
                ident: match ident {
                    Some(x) => Some(ident_view(x)),
                    None => None,
                },
                function: function_view(function),
            }),
        },
{
    reveal(default_decl_view);
    reveal(class_view);
    reveal(function_view);
}

/// What the view of a tree is, one level down.
pub proof fn lemma_module_decl_view(x: ModuleDecl)
    ensures
        module_decl_view(x) == match x {
            ModuleDecl::Import { specifiers, src } => (ModuleDeclV::Import {
                specifiers: import_specifiers_view(specifiers@),
                src: str_view(src),
            }),
            ModuleDecl::ExportDecl(a) => ModuleDeclV::ExportDecl(decl_view(a)),
            ModuleDecl::ExportNamed { specifiers, src } => (ModuleDeclV::ExportNamed {
                specifiers: export_specifiers_view(specifiers@),
                src: match src {
                    Some(x) => Some(str_view(x)),
                    None => None,
                },
            }),
            ModuleDecl::ExportDefaultDecl(a) =>
                ModuleDeclV::ExportDefaultDecl(default_decl_view(a)),
            ModuleDecl::ExportDefaultExpr(a) =>
                ModuleDeclV::ExportDefaultExpr(Box::new(expr_view(*a))),
            ModuleDecl::ExportAll { src } => (ModuleDeclV::ExportAll {
                src: str_view(src),
            }),
        },
{
    reveal(module_decl_view);
    reveal(import_specifiers_view);
    reveal(decl_view);
    reveal(export_specifiers_view);
    reveal(default_decl_view);
    reveal(expr_view);
}

/// What the view of a tree is, one level down.
pub proof fn lemma_module_item_view(x: ModuleItem)
    ensures
        module_item_view(x) == match x {
            ModuleItem::ModuleDecl(a) => ModuleItemV::ModuleDecl(module_decl_view(a)),
            ModuleItem::Stmt(a) => ModuleItemV::Stmt(stmt_view(a)),
        },
{
    reveal(module_item_view);
    reveal(module_decl_view);
    reveal(stmt_view);
}

/// What the view of a tree is, one level down.
pub proof fn lemma_module_view(x: Module)
    ensures
        module_view(x) == (ModuleV {
            body: module_items_view(x.body@),
        }),
{
    reveal(module_view);
    reveal(module_items_view);
}

impl View for Ident {
    type V = IdentV;

    open spec fn view(&self) -> IdentV {
        ident_view(*self)
    }
}

impl View for Number {
    type V = NumberV;

    open spec fn view(&self) -> NumberV {
        number_view(*self)
    }
}

impl View for Str {
    type V = StrV;

    open spec fn view(&self) -> StrV {
        str_view(*self)
    }
}

impl View for Regex {
    type V = RegexV;

    open spec fn view(&self) -> RegexV {
        regex_view(*self)
    }
}

impl View for Lit {
    type V = LitV;

    open spec fn view(&self) -> LitV {
        lit_view(*self)
    }
}

impl View for TplElement {
    type V = TplElementV;

    open spec fn view(&self) -> TplElementV {
        tpl_element_view(*self)
    }
}

impl View for Tpl {
    type V = TplV;

    open spec fn view(&self) -> TplV {
        tpl_view(*self)
    }
}

impl View for ExprOrSpread {
    type V = ExprOrSpreadV;

    open spec fn view(&self) -> ExprOrSpreadV {
        expr_or_spread_view(*self)
    }
}

impl View for ExprOrSuper {
    type V = ExprOrSuperV;

    open spec fn view(&self) -> ExprOrSuperV {
        expr_or_super_view(*self)
    }
}

impl View for MemberProp {
    type V = MemberPropV;

    open spec fn view(&self) -> MemberPropV {
        member_prop_view(*self)
    }
}

impl View for PatOrExpr {
    type V = PatOrExprV;

    open spec fn view(&self) -> PatOrExprV {
        pat_or_expr_view(*self)
    }
}

impl View for PropName {
    type V = PropNameV;

    open spec fn view(&self) -> PropNameV {
        prop_name_view(*self)
    }
}

impl View for Prop {
    type V = PropV;

    open spec fn view(&self) -> PropV {
        prop_view(*self)
    }
}

impl View for PropOrSpread {
    type V = PropOrSpreadV;

    open spec fn view(&self) -> PropOrSpreadV {
        prop_or_spread_view(*self)
    }
}

impl View for Function {
    type V = FunctionV;

    open spec fn view(&self) -> FunctionV {
        function_view(*self)
    }
}

impl View for Class {
    type V = ClassV;

    open spec fn view(&self) -> ClassV {
        class_view(*self)
    }
}

impl View for ClassMember {
    type V = ClassMemberV;

    open spec fn view(&self) -> ClassMemberV {
        class_member_view(*self)
    }
}

impl View for BlockStmtOrExpr {
    type V = BlockStmtOrExprV;

    open spec fn view(&self) -> BlockStmtOrExprV {
        block_stmt_or_expr_view(*self)
    }
}

impl View for Expr {
    type V = ExprV;

    open spec fn view(&self) -> ExprV {
        expr_view(*self)
    }
}

impl View for Pat {
    type V = PatV;

    open spec fn view(&self) -> PatV {
        pat_view(*self)
    }
}

impl View for ObjectPatProp {
    type V = ObjectPatPropV;

    open spec fn view(&self) -> ObjectPatPropV {
        object_pat_prop_view(*self)
    }
}

impl View for VarDeclarator {
    type V = VarDeclaratorV;

    open spec fn view(&self) -> VarDeclaratorV {
        var_declarator_view(*self)
    }
}

impl View for VarDecl {
    type V = VarDeclV;

    open spec fn view(&self) -> VarDeclV {
        var_decl_view(*self)
    }
}

impl View for Decl {
    type V = DeclV;

    open spec fn view(&self) -> DeclV {
        decl_view(*self)
    }
}

impl View for VarDeclOrExpr {
    type V = VarDeclOrExprV;

    open spec fn view(&self) -> VarDeclOrExprV {
        var_decl_or_expr_view(*self)
    }
}

impl View for VarDeclOrPat {
    type V = VarDeclOrPatV;

    open spec fn view(&self) -> VarDeclOrPatV {
        var_decl_or_pat_view(*self)
    }
}

impl View for SwitchCase {
    type V = SwitchCaseV;

    open spec fn view(&self) -> SwitchCaseV {
        switch_case_view(*self)
    }
}

impl View for CatchClause {
    type V = CatchClauseV;

    open spec fn view(&self) -> CatchClauseV {
        catch_clause_view(*self)
    }
}

impl View for Stmt {
    type V = StmtV;

    open spec fn view(&self) -> StmtV {
        stmt_view(*self)
    }
}

impl View for ImportSpecifier {
    type V = ImportSpecifierV;

    open spec fn view(&self) -> ImportSpecifierV {
        import_specifier_view(*self)
    }
}

impl View for ExportSpecifier {
    type V = ExportSpecifierV;

    open spec fn view(&self) -> ExportSpecifierV {
        export_specifier_view(*self)
    }
}

impl View for DefaultDecl {
    type V = DefaultDeclV;

    open spec fn view(&self) -> DefaultDeclV {
        default_decl_view(*self)
    }
}

impl View for ModuleDecl {
    type V = ModuleDeclV;

    open spec fn view(&self) -> ModuleDeclV {
        module_decl_view(*self)
    }
}

impl View for ModuleItem {
    type V = ModuleItemV;

    open spec fn view(&self) -> ModuleItemV {
        module_item_view(*self)
    }
}

impl View for Module {
    type V = ModuleV;

    open spec fn view(&self) -> ModuleV {
        module_view(*self)
    }
}

} // verus!
