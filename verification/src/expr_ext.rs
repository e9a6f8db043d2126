//! The questions that can be asked of an expression, as methods.

use vstd::prelude::*;
use crate::ast::Expr;
use crate::coerce::{
    as_bool, as_number, as_pure_bool, as_string, bool_of, number_of, pure_bool_of, text_of,
};
use crate::model::ExprV;
use crate::number::Numeral;
use crate::purity::{
    is_ident_ref_to, is_ident_ref_to_impl, is_pure_callee, is_pure_callee_impl,
    may_have_side_effects, may_have_side_effects_impl,
};
use crate::shape::{
    is_array_lit, is_array_lit_impl, is_immutable_value, is_immutable_value_impl, is_number,
    is_number_impl, is_str, is_str_impl, is_void, is_void_impl,
};
use crate::types::{get_type, type_of};
use crate::value::{Purity, Type, Value};

verus! {

/// Extension methods for [`Expr`].
pub trait ExprExt {
    /// The expression that the methods speak of.
    spec fn expr(&self) -> ExprV;

    fn as_expr_kind(&self) -> (r: &Expr)
        ensures
            r@ == self.expr(),
    ;

    /// Returns true if this is an immutable value.
    fn is_immutable_value(&self) -> (r: bool)
        ensures
            r == is_immutable_value(self.expr()),
    {
        is_immutable_value_impl(self.as_expr_kind())
    }

    fn is_number(&self) -> (r: bool)
        ensures
            r == is_number(self.expr()),
    {
        is_number_impl(self.as_expr_kind())
    }

    fn is_str(&self) -> (r: bool)
        ensures
            r == is_str(self.expr()),
    {
        is_str_impl(self.as_expr_kind())
    }

    fn is_array_lit(&self) -> (r: bool)
        ensures
            r == is_array_lit(self.expr()),
    {
        is_array_lit_impl(self.as_expr_kind())
    }

    /// Checks if `self` is `NaN`.
    fn is_nan(&self) -> (r: bool)
        ensures
            r == is_ident_ref_to(self.expr(), "NaN"@),
    {
        is_ident_ref_to_impl(self.as_expr_kind(), "NaN")
    }

    fn is_undefined(&self) -> (r: bool)
        ensures
            r == is_ident_ref_to(self.expr(), "undefined"@),
    {
        is_ident_ref_to_impl(self.as_expr_kind(), "undefined")
    }

    fn is_void(&self) -> (r: bool)
        ensures
            r == is_void(self.expr()),
    {
        is_void_impl(self.as_expr_kind())
    }

    /// Is `self` an IdentifierReference to `id`?
    fn is_ident_ref_to(&self, id: &str) -> (r: bool)
        ensures
            r == is_ident_ref_to(self.expr(), id@),
    {
        is_ident_ref_to_impl(self.as_expr_kind(), id)
    }

    /// Get bool value of `self` if it does not have any side effects.
    fn as_pure_bool(&self) -> (r: Value<bool>)
        ensures
            r == pure_bool_of(self.expr()),
    {
        as_pure_bool(self.as_expr_kind())
    }

    /// This method emulates the `Boolean()` JavaScript cast function.
    fn as_bool(&self) -> (r: (Purity, Value<bool>))
        ensures
            r == bool_of(self.expr()),
    {
        as_bool(self.as_expr_kind())
    }

    /// Emulates javascript Number() cast function.
    fn as_number(&self) -> (r: Value<Numeral>)
        ensures
            r@ == number_of(self.expr()),
    {
        as_number(self.as_expr_kind())
    }

    /// Returns Known only if it's pure.
    fn as_string(&self) -> (r: Value<String>)
        ensures
            r@ == text_of(self.expr()),
    {
        as_string(self.as_expr_kind())
    }

    /// The type of the value that the expression evaluates to.
    fn get_type(&self) -> (r: Value<Type>)
        ensures
            r == type_of(self.expr()),
    {
        get_type(self.as_expr_kind())
    }

    fn is_pure_callee(&self) -> (r: bool)
        ensures
            r == is_pure_callee(self.expr()),
    {
        is_pure_callee_impl(self.as_expr_kind())
    }

    fn may_have_side_effects(&self) -> (r: bool)
        ensures
            r == may_have_side_effects(self.expr()),
    {
        may_have_side_effects_impl(self.as_expr_kind())
    }
}

impl ExprExt for Box<Expr> {
    open spec fn expr(&self) -> ExprV {
        (**self)@
    }

    fn as_expr_kind(&self) -> (r: &Expr) {
        &**self
    }
}

impl ExprExt for Expr {
    open spec fn expr(&self) -> ExprV {
        self@
    }

    fn as_expr_kind(&self) -> (r: &Expr) {
        self
    }
}

} // verus!
