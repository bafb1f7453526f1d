[package]
name = "il2cpp_runtime"
version = "0.1.0"
edition = "2021"
publish = false

[dependencies]
bad64 = "=0.13.0"
binread = "=2.2.0"
byteorder = "=1.5.0"
capstone = "=0.14.0"
object = "=0.32.2"
thiserror = "=1.0.69"
