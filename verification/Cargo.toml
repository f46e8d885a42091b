[package]
name = "mirrored_alloc"
version = "0.1.0"
edition = "2021"
publish = false

[dependencies]
libc = "0.2"
nix = { version = "0.29", features = ["feature", "fs", "mman", "time"] }
num-integer = "0.1"
winapi = { version = "0.3", features = ["errhandlingapi", "handleapi", "memoryapi", "sysinfoapi", "winbase", "winnt"] }
