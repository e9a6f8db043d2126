//! What can be known of an expression without running it.

use vstd::prelude::*;

verus! {

/// A statically determined runtime value, or the admission that there is none.
#[derive(Debug, Clone, Copy, PartialEq, Eq)]
pub enum Value<T> {
    Known(T),
    /// The value cannot be determined without running the program.
    Unknown,
}

pub type BoolValue = Value<bool>;

/// Whether evaluating an expression can be observed beyond its result.
#[derive(Debug, Clone, Copy, PartialEq, Eq, Structural)]
pub enum Purity {
    /// May have some side effects.
    MayBeImpure,
    /// Does not have any side effect.
    Pure,
}

/// The type of the value an expression evaluates to.
#[derive(Debug, Clone, Copy, PartialEq, Eq, Structural)]
pub enum Type {
    Bool,
    Null,
    Num,
    Obj,
    Str,
    Symbol,
    Undefined,
}

impl Purity {
    /// The purity of two evaluations one after the other.
    pub open spec fn plus(self, rhs: Purity) -> Purity {
        if self == Purity::Pure && rhs == Purity::Pure {
            Purity::Pure
        } else {
            Purity::MayBeImpure
        }
    }

    /// Returns true if it's pure.
    pub fn is_pure(self) -> (r: bool)
        ensures
            r == (self == Purity::Pure),
    {
        match self {
            Purity::Pure => true,
            Purity::MayBeImpure => false,
        }
    }

    /// Combines two purities: the result is pure only if both are.
    pub fn add(self, rhs: Purity) -> (r: Purity)
        ensures
            r == self.plus(rhs),
    {
        match (self, rhs) {
            (Purity::Pure, Purity::Pure) => Purity::Pure,
            _ => Purity::MayBeImpure,
        }
    }

    /// `Pure` is the unit of [`plus`](Purity::plus).
    pub proof fn lemma_plus_unit(p: Purity)
        ensures
            Purity::Pure.plus(p) == p,
            p.plus(Purity::Pure) == p,
    {
    }

    /// [`plus`](Purity::plus) does not depend on how its operands are grouped.
    pub proof fn lemma_plus_associative(a: Purity, b: Purity, c: Purity)
        ensures
            a.plus(b).plus(c) == a.plus(b.plus(c)),
    {
    }

    /// [`plus`](Purity::plus) does not depend on the order of its operands.
    pub proof fn lemma_plus_commutative(a: Purity, b: Purity)
        ensures
            a.plus(b) == b.plus(a),
    {
    }

    /// The combination is pure exactly when both operands are.
    pub proof fn lemma_plus_pure(a: Purity, b: Purity)
        ensures
            a.plus(b) == Purity::Pure <==> a == Purity::Pure && b == Purity::Pure,
    {
    }
}

/// Three-valued conjunction: a known `false` on either side decides.
pub open spec fn and3(a: Value<bool>, b: Value<bool>) -> Value<bool> {
    match a {
        Value::Known(true) => b,
        Value::Known(false) => Value::Known(false),
        Value::Unknown => match b {
            Value::Known(false) => Value::Known(false),
            _ => Value::Unknown,
        },
    }
}

/// Three-valued disjunction: a known `true` on either side decides.
pub open spec fn or3(a: Value<bool>, b: Value<bool>) -> Value<bool> {
    match a {
        Value::Known(true) => Value::Known(true),
        Value::Known(false) => b,
        Value::Unknown => match b {
            Value::Known(true) => Value::Known(true),
            _ => Value::Unknown,
        },
    }
}

/// Three-valued negation.
pub open spec fn not3(a: Value<bool>) -> Value<bool> {
    match a {
        Value::Known(b) => Value::Known(!b),
        Value::Unknown => Value::Unknown,
    }
}

impl Value<bool> {
    /// Three-valued conjunction.
    pub fn and(self, other: Value<bool>) -> (r: Value<bool>)
        ensures
            r == and3(self, other),
    {
        match self {
            Value::Known(true) => other,
            Value::Known(false) => Value::Known(false),
            Value::Unknown => match other {
                Value::Known(false) => Value::Known(false),
                _ => Value::Unknown,
            },
        }
    }

    /// Three-valued disjunction.
    pub fn or(self, other: Value<bool>) -> (r: Value<bool>)
        ensures
            r == or3(self, other),
    {
        match self {
            Value::Known(true) => Value::Known(true),
            Value::Known(false) => other,
            Value::Unknown => match other {
                Value::Known(true) => Value::Known(true),
                _ => Value::Unknown,
            },
        }
    }

    /// Three-valued negation.
    pub fn not(self) -> (r: Value<bool>)
        ensures
            r == not3(self),
    {
        match self {
            Value::Known(b) => Value::Known(!b),
            Value::Unknown => Value::Unknown,
        }
    }
}

impl<T> Value<T> {
    /// Whether the value is known.
    pub fn is_known(&self) -> (r: bool)
        ensures
            r == (*self is Known),
    {
        match self {
            Value::Known(_) => true,
            Value::Unknown => false,
        }
    }

    /// Whether the value is unknown.
    pub fn is_unknown(&self) -> (r: bool)
        ensures
            r == (*self is Unknown),
    {
        match self {
            Value::Known(_) => false,
            Value::Unknown => true,
        }
    }
}

/// The type both branches agree on, if they do.
pub open spec fn unified(lt: Value<Type>, rt: Value<Type>) -> Value<Type> {
    if lt == rt {
        lt
    } else {
        Value::Unknown
    }
}

/// Merges the types of two branches: equal known types stay, anything else is unknown.
pub fn and(lt: Value<Type>, rt: Value<Type>) -> (r: Value<Type>)
    ensures
        r == unified(lt, rt),
{
    match (lt, rt) {
        (Value::Known(a), Value::Known(b)) => {
            if a == b {
                Value::Known(a)
            } else {
                Value::Unknown
            }
        },
        (Value::Unknown, Value::Unknown) => Value::Unknown,
        _ => Value::Unknown,
    }
}

/// Whether a value of this type can be a string once `+` has coerced it.
pub open spec fn can_be_str(ty: Value<Type>) -> bool {
    match ty {
        Value::Known(Type::Bool) | Value::Known(Type::Null) | Value::Known(Type::Num) | Value::Known(
            Type::Undefined,
        ) => false,
        _ => true,
    }
}

/// Return if the node is possibly a string.
pub fn may_be_str(ty: Value<Type>) -> (r: bool)
    ensures
        r == can_be_str(ty),
{
    match ty {
        Value::Known(Type::Bool) | Value::Known(Type::Null) | Value::Known(Type::Num) | Value::Known(
            Type::Undefined,
        ) => false,
        Value::Known(Type::Obj) | Value::Known(Type::Str) | Value::Unknown => true,
        Value::Known(Type::Symbol) => true,
    }
}

} // verus!
