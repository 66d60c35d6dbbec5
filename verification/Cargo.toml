[package]
name = "evox2_control"
version = "2.5.1"
edition = "2021"
publish = false

[dependencies]
serde = { version = "=1.0.229", features = ["derive"] }
serde_json = "=1.0.154"
clap = { version = "=4.6.7", features = ["derive"] }
chrono = { version = "=0.4.45", default-features = false, features = ["clock"] }
winapi = { version = "=0.3.9", features = ["minwindef", "windef", "winerror", "winnt", "winreg", "handleapi", "fileapi", "ioapiset", "errhandlingapi", "processthreadsapi", "securitybaseapi", "synchapi", "libloaderapi", "sysinfoapi", "shellapi", "winuser", "consoleapi", "wincon", "winbase", "shlobj", "stringapiset", "winnls", "accctrl", "aclapi", "commdlg"] }
eframe = { version = "*", default-features = false, features = ["default_fonts", "glow", "x11"] }
image = { version = "*", default-features = false, features = ["png"] }
raw-window-handle = "0.6"
