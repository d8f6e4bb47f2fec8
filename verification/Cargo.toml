[package]
name = "ext_anydoc"
version = "0.2.4"
edition = "2021"
publish = false

[dependencies]
anydoc = "=0.2.4"
ext-php-rs = "=0.16.4"
