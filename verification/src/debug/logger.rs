//! Logging settings: levels, formats and log rotation.
use vstd::prelude::*;

verus! {

/// Log levels, from least to most severe.
#[derive(Debug, Clone, Copy, PartialEq, Eq, PartialOrd, Hash, Structural)]
pub enum LogLevel {
    /// Trace
    Trace,
    /// Debug
    Debug,
    /// Info
    Info,
    /// Warning
    Warn,
    /// Error
    Error,
    /// Fatal
    Fatal,
}

/// Log rotation configuration.
#[derive(Debug, Clone, Copy)]
pub struct LogRotationConfig {
    /// Maximum file size in bytes
    pub max_file_size: u64,
    /// Maximum number of backup files
    pub max_backup_files: u32,
    /// Rotation interval in seconds
    pub rotation_interval: u64,
    /// Compress rotated files
    pub enable_compression: bool,
}

/// Log formats.
#[derive(Debug, Clone, PartialEq)]
pub enum LogFormat {
    /// Plain text
    Text,
    /// JSON
    Json,
    /// CSV
    Csv,
    /// A format string of the user's
    Custom(String),
}

impl Default for LogRotationConfig {
    /// Rotation at 10 MiB or every 24 hours, keeping five compressed
    /// backups.
    fn default() -> (c: Self)
        ensures
            c.max_file_size == 10 * 1024 * 1024,
            c.max_backup_files == 5,
            c.rotation_interval == 24 * 60 * 60,
            c.enable_compression,
    {
        LogRotationConfig {
            max_file_size: 10 * 1024 * 1024,
            max_backup_files: 5,
            rotation_interval: 24 * 60 * 60,
            enable_compression: true,
        }
    }
}

impl LogLevel {
    /// The level as it is written in log lines.
    pub fn to_string(&self) -> (s: String)
        ensures
            s@ == (match *self {
                LogLevel::Trace => "TRACE"@,
                LogLevel::Debug => "DEBUG"@,
                LogLevel::Info => "INFO"@,
                LogLevel::Warn => "WARN"@,
                LogLevel::Error => "ERROR"@,
                LogLevel::Fatal => "FATAL"@,
            }),
    {
        match self {
            LogLevel::Trace => "TRACE".to_string(),
            LogLevel::Debug => "DEBUG".to_string(),
            LogLevel::Info => "INFO".to_string(),
            LogLevel::Warn => "WARN".to_string(),
            LogLevel::Error => "ERROR".to_string(),
            LogLevel::Fatal => "FATAL".to_string(),
        }
    }
}

} // verus!
