[package]
name = "file_manager"
version = "0.1.0"
edition = "2021"
publish = false

[dependencies]
dirs = "*"
winapi = { version = "0.3", features = ["objbase", "combaseapi", "shobjidl_core", "objidl", "wtypesbase", "winerror", "guiddef", "minwindef", "winbase"] }
