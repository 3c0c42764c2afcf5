[package]
name = "task_pool_options"
version = "0.1.0"
edition = "2021"
publish = false

[dependencies]
bevy_tasks = { version = "=0.19.1", features = ["multi_threaded"] }
