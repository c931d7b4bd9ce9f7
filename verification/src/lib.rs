pub mod text;
pub mod pinyin_conv;
pub mod pinyin_laws;
pub mod language;
pub mod language_laws;
pub mod config;
pub mod transcription;
pub mod cursor;
pub mod app;
pub mod app_laws;
pub mod keys;
pub mod ui;
pub mod image_source;
pub mod translation;
pub mod ltengine;
pub mod single_instance;
pub mod ocr;
pub mod processing;
