//! Configuration values the capture and conversion components consume.
//!
//! Loading and persisting the configuration file is the surrounding
//! application's job; the core only reads these plain values.

use vstd::prelude::*;

verus! {

/// A setting that either keeps its built-in default or carries a custom
/// value.
#[derive(Clone, Debug)]
pub enum Opt<T> {
    Default,
    Custom(T),
}

/// Which image files a capture leaves behind: the compressed format only,
/// the raw format only, or both.
#[derive(PartialEq, Eq, Structural, Clone, Copy, Debug)]
pub enum ImageFormat {
    Png,
    Tga,
    Both,
}

/// The user-facing settings: destination folder, output format, and whether
/// the tool registers itself to run at startup.
#[derive(Clone, Debug)]
pub struct Config {
    pub save_folder: Opt<String>,
    pub image_format: ImageFormat,
    pub enable_startup: bool,
}

impl Default for Config {
    /// Out of the box: default folder, compressed output only, no startup
    /// registration.
    fn default() -> (c: Config)
        ensures
            c.save_folder is Default,
            c.image_format is Png,
            !c.enable_startup,
    {
        Config { save_folder: Opt::Default, image_format: ImageFormat::Png, enable_startup: false }
    }
}

/// Whether a freshly written raw capture is handed to the conversion
/// pipeline: always, except when the configured output is raw-only.
pub fn should_enqueue_conversion(format: &ImageFormat) -> (r: bool)
    ensures
        r <==> !(format is Tga),
{
    match format {
        ImageFormat::Tga => false,
        _ => true,
    }
}

/// Whether the raw source file is kept after a successful transcode: only
/// when both formats are configured.
pub fn preserve_raw(format: &ImageFormat) -> (r: bool)
    ensures
        r <==> format is Both,
{
    match format {
        ImageFormat::Both => true,
        _ => false,
    }
}

} // verus!
