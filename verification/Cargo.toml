[package]
name = "gpm"
version = "0.1.0"
edition = "2021"
publish = false

[dependencies]
tui-input = "*"
ratatui = "*"
tui-tree-widget = "*"
confy = "*"
directories = "*"
serde = { version = "*", features = ["derive"] }
