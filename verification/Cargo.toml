[package]
name = "dynamic_launcher"
version = "1.0.0"
edition = "2021"
publish = false

[dependencies]
chrono = "=0.4.45"
eframe = { version = "=0.33.3", default-features = false, features = ["default_fonts", "glow", "x11"] }
webbrowser = "=1.2.6"
winapi = { version = "=0.3.9", features = ["minwindef", "handleapi", "minwinbase", "processthreadsapi", "shellapi", "synchapi", "sysinfoapi", "tlhelp32", "winbase", "winnt", "winreg", "winuser"] }
