[package]
name = "constmuck"
version = "1.1.0"
edition = "2021"
publish = false

[dependencies]
bytemuck = { version = "1", features = ["min_const_generics"] }
const_panic = { version = "0.2", default-features = false, features = ["non_basic"] }
typewit = "1"
