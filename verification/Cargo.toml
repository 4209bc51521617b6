[package]
name = "proc_mem"
version = "0.1.0"
edition = "2021"
publish = false

[dependencies]
winapi = { version = "0.3", features = ["handleapi", "memoryapi", "minwindef", "processthreadsapi", "tlhelp32", "winnt"] }
