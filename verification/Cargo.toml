[package]
name = "duplicate_file_finder"
version = "0.1.0"
edition = "2021"
publish = false

[dependencies]
crossterm = "*"
ratatui = "*"
ratatui-spinner = "*"
