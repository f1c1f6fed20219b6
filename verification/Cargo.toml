[package]
name = "clipboard_macos"
version = "0.1.0"
edition = "2021"
publish = false

[dependencies]
objc2 = "0.5"
objc2-app-kit = { version = "0.2", features = ["NSPasteboard", "NSPasteboardItem"] }
objc2-foundation = { version = "0.2", features = ["NSArray", "NSData", "NSDictionary", "NSString"] }
