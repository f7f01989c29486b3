[package]
name = "faculty_site"
version = "0.1.0"
edition = "2021"
publish = false

[dependencies]
handlebars = "*"
tiny_http = "*"
dotenv = "*"
env_logger = "*"
log = "*"
