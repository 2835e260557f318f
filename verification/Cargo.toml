[package]
name = "tplmin"
version = "0.1.0"
edition = "2021"
publish = false

[dependencies]
swc_common = "*"
swc_html_ast = "*"
swc_html_parser = "*"
swc_html_minifier = "*"
swc_html_codegen = "*"
swc_css_ast = "*"
swc_css_parser = "*"
swc_css_codegen = "*"
swc_ecma_ast = "*"
swc_ecma_parser = "*"
swc_ecma_codegen = "*"
swc_ecma_visit = "*"
