[package]
name = "toolbox"
version = "0.1.0"
edition = "2021"
publish = false

[dependencies]
base64 = "=0.22.1"
fontdb = "=0.24.0"
image = "=0.25.10"
image-webp = "=0.2.4"
kmeans_colors = { version = "=0.7.1", features = ["palette_color"] }
libwebp-sys2 = "=0.2.0"
oxipng = { version = "10", default-features = false, features = ["parallel"] }
palette = "=0.7.7"
pdf-inspector = "=1.25.2"
rayon = "=1.12.0"
resvg = "=0.49.0"
serde = { version = "=1.0.229", features = ["derive"] }
serde_json = "=1.0.154"
thiserror = "=2.0.21"
