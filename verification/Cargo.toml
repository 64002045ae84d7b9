[package]
name = "aviutl2_typst"
version = "0.1.0"
edition = "2021"
publish = false

[dependencies]
lru = "*"
typst = "*"
typst-kit = "*"
typst-layout = "*"
typst-render = "*"
codespan-reporting = "*"
aviutl2 = "*"
windows = "*"
