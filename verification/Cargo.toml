[package]
name = "winapi_mon"
version = "0.1.0"
edition = "2021"
publish = false

[dependencies]
anyhow = "=1.0.104"
detour = { version = "=0.8.1", default-features = false }
tracing = "=0.1.44"
tracing-subscriber = "=0.3.23"
ansi_term = "=0.12.1"
widestring = "=1.2.1"
nameof = "=1.3.0"
winapi = { version = "=0.3.9", features = ["basetsd", "consoleapi", "fileapi", "libloaderapi", "memoryapi", "minwinbase", "minwindef", "ntdef", "processthreadsapi", "synchapi", "winbase", "wincon", "windef", "winnt", "winuser"] }
