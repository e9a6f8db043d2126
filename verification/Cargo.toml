[package]
name = "ecma_simplify"
version = "0.1.0"
edition = "2021"
publish = false

[dependencies]
fxhash = "0.2"
unicode-xid = "0.2"
scoped-tls = "1"
chashmap = "2"
swc_atoms = "*"
swc_common = "*"
swc_ecma_ast = "*"
swc_ecma_parser = "*"
swc_ecma_visit = "*"
