//! Profiler settings.
use vstd::prelude::*;

verus! {

/// Profiler configuration.
#[derive(Debug, Clone, Copy)]
pub struct ProfilerConfig {
    /// Enable profiling
    pub enable_profiling: bool,
    /// Profiling interval in milliseconds
    pub profiling_interval: u64,
    /// Enable CPU profiling
    pub enable_cpu_profiling: bool,
    /// Enable memory profiling
    pub enable_memory_profiling: bool,
    /// Enable I/O profiling
    pub enable_io_profiling: bool,
    /// Enable render profiling
    pub enable_render_profiling: bool,
    /// Output format
    pub output_format: ProfilerOutputFormat,
}

/// Profiler output formats.
#[derive(Debug, Clone, Copy, PartialEq, Eq, Structural)]
pub enum ProfilerOutputFormat {
    /// Plain text
    Text,
    /// JSON
    Json,
    /// CSV
    Csv,
    /// HTML
    Html,
}

impl Default for ProfilerConfig {
    /// Profiling off, sampling every second when on, every kind of
    /// profiling enabled, as text.
    fn default() -> (c: Self)
        ensures
            !c.enable_profiling,
            c.profiling_interval == 1000,
            c.enable_cpu_profiling,
            c.enable_memory_profiling,
            c.enable_io_profiling,
            c.enable_render_profiling,
            c.output_format == ProfilerOutputFormat::Text,
    {
        ProfilerConfig {
            enable_profiling: false,
            profiling_interval: 1000,
            enable_cpu_profiling: true,
            enable_memory_profiling: true,
            enable_io_profiling: true,
            enable_render_profiling: true,
            output_format: ProfilerOutputFormat::Text,
        }
    }
}

} // verus!
