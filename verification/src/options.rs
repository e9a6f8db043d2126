//! What a type check of a program is configured with.

use vstd::prelude::*;

verus! {

/// The configuration of a type check.
#[derive(Debug)]
pub struct Config {
    /// Should we generate .d.ts?
    declaration: bool,
    /// Directory to store .d.ts files.
    declaration_dir: String,
    pub rule: Rule,
    /// The built-in libraries to load, by name.
    pub libs: Vec<String>,
}

/// What a module exports: once for values, once for types.
#[derive(Debug, Clone, Copy, PartialEq, Eq)]
pub struct Exports<T> {
    pub vars: T,
    pub types: T,
}

/// The checks that can be switched on.
#[derive(Debug, Clone, Copy, PartialEq, Eq, Structural)]
pub struct Rule {
    pub no_implicit_any: bool,
    pub no_implicit_this: bool,
    pub always_strict: bool,
    pub strict_null_checks: bool,
    pub strict_function_types: bool,
    pub allow_unreachable_code: bool,
    pub allow_unused_labels: bool,
    pub no_fallthrough_cases_in_switch: bool,
    pub no_implicit_returns: bool,
    pub suppress_excess_property_errors: bool,
    pub suppress_implicit_any_index_errors: bool,
    pub no_strict_generic_checks: bool,
    pub no_unused_locals: bool,
    pub no_unused_parameters: bool,
}

impl Rule {
    /// The rule with every check switched off.
    pub open spec fn none() -> Rule {
        Rule {
            no_implicit_any: false,
            no_implicit_this: false,
            always_strict: false,
            strict_null_checks: false,
            strict_function_types: false,
            allow_unreachable_code: false,
            allow_unused_labels: false,
            no_fallthrough_cases_in_switch: false,
            no_implicit_returns: false,
            suppress_excess_property_errors: false,
            suppress_implicit_any_index_errors: false,
            no_strict_generic_checks: false,
            no_unused_locals: false,
            no_unused_parameters: false,
        }
    }
}

impl Default for Rule {
    fn default() -> (r: Rule)
        ensures
            r == Rule::none(),
    {
        Rule {
            no_implicit_any: false,
            no_implicit_this: false,
            always_strict: false,
            strict_null_checks: false,
            strict_function_types: false,
            allow_unreachable_code: false,
            allow_unused_labels: false,
            no_fallthrough_cases_in_switch: false,
            no_implicit_returns: false,
            suppress_excess_property_errors: false,
            suppress_implicit_any_index_errors: false,
            no_strict_generic_checks: false,
            no_unused_locals: false,
            no_unused_parameters: false,
        }
    }
}

impl Config {
    /// A configuration.
    pub fn new(declaration: bool, declaration_dir: String, rule: Rule, libs: Vec<String>) -> (r:
        Config)
        ensures
            r.declaration() == declaration,
            r.declaration_dir() == declaration_dir,
            r.rules() == rule,
            r.libraries() == libs,
    {
        Config { declaration, declaration_dir, rule, libs }
    }

    /// The checks that are switched on.
    pub closed spec fn rules(&self) -> Rule {
        self.rule
    }

    /// The built-in libraries to load.
    pub closed spec fn libraries(&self) -> Vec<String> {
        self.libs
    }

    /// Whether declaration files are generated.
    pub closed spec fn declaration(&self) -> bool {
        self.declaration
    }

    /// The directory that declaration files go to.
    pub closed spec fn declaration_dir(&self) -> String {
        self.declaration_dir
    }

    /// Whether declaration files are generated.
    pub fn emits_declarations(&self) -> (r: bool)
        ensures
            r == self.declaration(),
    {
        self.declaration
    }

    /// The directory that declaration files go to.
    pub fn declarations_go_to(&self) -> (r: &String)
        ensures
            *r == self.declaration_dir(),
    {
        &self.declaration_dir
    }
}

} // verus!
