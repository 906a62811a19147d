[package]
name = "push_dispatch"
version = "0.1.0"
edition = "2021"
publish = false

[dependencies]
serde_json = "1"
expo_push_notification_client = "*"
lambda_http = "*"
supabase_rs = "*"
dotenv = "*"
tokio = { version = "1", features = ["macros", "rt"] }
