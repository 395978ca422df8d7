[package]
name = "dotfiles_sync"
version = "0.1.0"
edition = "2021"
publish = false

[dependencies]
crossterm = "0.27"
git2 = "0.18"
ratatui = "0.26"
