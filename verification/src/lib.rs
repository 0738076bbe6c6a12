//! The decision-making core of SnapDrop, a screenshot and drag-to-drop tool.

pub mod audio;
pub mod canvas;
pub mod capture;
pub mod capture_flow;
pub mod clipboard;
pub mod commands;
pub mod debuglog;
pub mod dragdrop;
pub mod editor;
pub mod encoding;
pub mod filename;
pub mod history;
pub mod hotkey;
pub mod lifecycle;
pub mod monitors;
pub mod native_thumb;
pub mod notifier;
pub mod ocr;
pub mod overlay;
pub mod scene;
pub mod settings;
pub mod text;
pub mod thumbnail;
pub mod toolbar;
pub mod tray;
pub mod video_recording;
