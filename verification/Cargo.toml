[package]
name = "valihuuto"
version = "0.1.0"
edition = "2021"
publish = false

[dependencies]
chrono = "0.4"
regex = "1"
rss = "2"
serde_json = "1"
urlencoding = "2"
serde = { version = "1", features = ["derive"] }
tokio = { version = "1", features = ["macros", "rt-multi-thread", "time"] }
reqwest = { version = "*", default-features = false, features = ["json", "rustls-tls"] }
dotenv = "0.15"
lambda_runtime = "*"
aws_lambda_events = { version = "*", default-features = false, features = ["eventbridge"] }
aws-config = "1"
aws-sdk-sqs = "1"
aws-sdk-dynamodb = "1"
