[package]
name = "ra_batch"
version = "0.1.0"
edition = "2021"
publish = false

[dependencies]
anyhow = "1"
ra_ap_hir = "=0.0.330"
ra_ap_ide = "=0.0.330"
ra_ap_load-cargo = "=0.0.330"
ra_ap_paths = "=0.0.330"
ra_ap_project_model = "=0.0.330"
ra_ap_syntax = "=0.0.330"
ra_ap_vfs = "=0.0.330"
# The engine is written against salsa 0.26.1; 0.26.2 adds a trait item that
# its span crate does not provide.
salsa = "=0.26.1"
salsa-macro-rules = "=0.26.1"
salsa-macros = "=0.26.1"
# The engine's lexer needs the Unicode version of unicode-properties 0.1.4.
unicode-ident = "=1.0.22"

[dev-dependencies]
ra_ap_test_fixture = "=0.0.330"
