[package]
name = "pprof"
version = "0.1.0"
edition = "2021"
publish = false

[dependencies]
findshlibs = "=0.10.2"
backtrace = "=0.3.76"
smallvec = "=1.16.2"
once_cell = "=1.21.4"
parking_lot = "=0.12.5"
log = "=0.4.34"
windows-sys = { version = "=0.61.2", features = ["Win32_Foundation", "Win32_System_Diagnostics_Debug", "Win32_System_Diagnostics_ToolHelp", "Win32_System_Threading"] }
