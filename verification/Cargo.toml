[package]
name = "ios_file_dialog"
version = "0.1.0"
edition = "2021"
publish = false

[dependencies]
objc2 = "=0.5.3"
objc2-foundation = { version = "=0.2.2", features = ["NSArray", "NSString", "NSThread", "NSURL", "dispatch"] }
objc2-ui-kit = { version = "=0.2.2", features = ["UIApplication", "UIDocumentPickerViewController", "UIViewController", "UIWindow", "block2"] }
objc2-uniform-type-identifiers = { version = "=0.2.2", features = ["UTType"] }
