//! The configuration of a batch, made from named command-line options, and
//! the rules that every configuration is held to.

use crate::target::{dimension_in_range, valid_dimensions, ThumbnailSpec, MAX_DIMENSION, MIN_DIMENSION};
use vstd::prelude::*;

verus! {

/// Why a configuration was refused.
#[derive(Clone, Copy, Debug, PartialEq, Eq, Structural)]
pub enum ConfigError {
    /// The command line does not have the four expected words.
    Usage,
    /// The width is not a decimal number.
    WidthNotNumber,
    /// The height is not a decimal number.
    HeightNotNumber,
    /// The width is outside the accepted range.
    WidthOutOfRange,
    /// The height is outside the accepted range.
    HeightOutOfRange,
    /// The height is larger than the width.
    HeightExceedsWidth,
    /// Source and destination are the same directory.
    SameDirectory,
    /// The source is not an existing directory.
    SourceDirMissing,
    /// The destination is not an existing directory.
    DestDirMissing,
}

impl ConfigError {
    /// The message shown to the user.
    pub open spec fn text(self) -> Seq<char> {
        match self {
            ConfigError::Usage => "Usage: crabbythumb width height source_dir dest_dir"@,
            ConfigError::WidthNotNumber => "Width must be a number"@,
            ConfigError::HeightNotNumber => "Height must be a number"@,
            ConfigError::WidthOutOfRange => "Width must be between 100 to 200 pixels"@,
            ConfigError::HeightOutOfRange => "Height must be between 100 to 200 pixels"@,
            ConfigError::HeightExceedsWidth => "Width must be greater than or equal to height."@,
            ConfigError::SameDirectory => "Source dir and dest dir must be different."@,
            ConfigError::SourceDirMissing => "Source dir must exist."@,
            ConfigError::DestDirMissing => "Dest dir must exist."@,
        }
    }

    /// The message shown to the user.
    pub fn message(self) -> (m: &'static str)
        ensures
            m@ == self.text(),
    {
        match self {
            ConfigError::Usage => "Usage: crabbythumb width height source_dir dest_dir",
            ConfigError::WidthNotNumber => "Width must be a number",
            ConfigError::HeightNotNumber => "Height must be a number",
            ConfigError::WidthOutOfRange => "Width must be between 100 to 200 pixels",
            ConfigError::HeightOutOfRange => "Height must be between 100 to 200 pixels",
            ConfigError::HeightExceedsWidth => "Width must be greater than or equal to height.",
            ConfigError::SameDirectory => "Source dir and dest dir must be different.",
            ConfigError::SourceDirMissing => "Source dir must exist.",
            ConfigError::DestDirMissing => "Dest dir must exist.",
        }
    }
}

/// The first rule that the given settings break, if any. The rules are tried
/// in this order: width in range, height in range, height at most the width,
/// two different directories, the source exists, the destination exists.
pub open spec fn config_fault(
    width: u32,
    height: u32,
    source_dir: Seq<char>,
    dest_dir: Seq<char>,
    source_is_dir: bool,
    dest_is_dir: bool,
) -> Option<ConfigError> {
    if !dimension_in_range(width) {
        Some(ConfigError::WidthOutOfRange)
    } else if !dimension_in_range(height) {
        Some(ConfigError::HeightOutOfRange)
    } else if height > width {
        Some(ConfigError::HeightExceedsWidth)
    } else if source_dir == dest_dir {
        Some(ConfigError::SameDirectory)
    } else if !source_is_dir {
        Some(ConfigError::SourceDirMissing)
    } else if !dest_is_dir {
        Some(ConfigError::DestDirMissing)
    } else {
        None
    }
}

/// Finds the first rule that the given settings break.
///
/// `source_is_dir` and `dest_is_dir` say whether each path names an existing
/// directory; the caller asks the file system.
pub fn check_settings(
    width: u32,
    height: u32,
    source_dir: &String,
    dest_dir: &String,
    source_is_dir: bool,
    dest_is_dir: bool,
) -> (fault: Option<ConfigError>)
    ensures
        fault == config_fault(width, height, source_dir@, dest_dir@, source_is_dir, dest_is_dir),
        fault is None ==> valid_dimensions(width, height),
{
    if width < MIN_DIMENSION || width > MAX_DIMENSION {
        Some(ConfigError::WidthOutOfRange)
    } else if height < MIN_DIMENSION || height > MAX_DIMENSION {
        Some(ConfigError::HeightOutOfRange)
    } else if height > width {
        Some(ConfigError::HeightExceedsWidth)
    } else if *source_dir == *dest_dir {
        Some(ConfigError::SameDirectory)
    } else if !source_is_dir {
        Some(ConfigError::SourceDirMissing)
    } else if !dest_is_dir {
        Some(ConfigError::DestDirMissing)
    } else {
        None
    }
}

/// The options of the command line, as the user gave them.
#[derive(Clone, Debug)]
pub struct Args {
    /// Thumbnail image width.
    pub width: u32,
    /// Thumbnail image height.
    pub height: u32,
    /// Source directory containing the pictures.
    pub source_dir: String,
    /// Destination directory for the thumbnails.
    pub dest_dir: String,
}

/// A checked configuration.
#[derive(Clone, Debug)]
pub struct Config {
    pub width: u32,
    pub height: u32,
    pub source_dir: String,
    pub dest_dir: String,
}

/// What a configuration holds.
pub struct ConfigView {
    pub width: u32,
    pub height: u32,
    pub source_dir: Seq<char>,
    pub dest_dir: Seq<char>,
}

impl View for Args {
    type V = ConfigView;

    open spec fn view(&self) -> ConfigView {
        ConfigView {
            width: self.width,
            height: self.height,
            source_dir: self.source_dir@,
            dest_dir: self.dest_dir@,
        }
    }
}

impl View for Config {
    type V = ConfigView;

    open spec fn view(&self) -> ConfigView {
        ConfigView {
            width: self.width,
            height: self.height,
            source_dir: self.source_dir@,
            dest_dir: self.dest_dir@,
        }
    }
}

impl Config {
    /// Checks the options and makes the configuration.
    ///
    /// `source_is_dir` and `dest_is_dir` say whether each path names an
    /// existing directory. The options are accepted exactly when they break
    /// no rule; the configuration then holds them unchanged. Otherwise the
    /// message of the first broken rule is returned.
    pub fn build(args: Args, source_is_dir: bool, dest_is_dir: bool) -> (r: Result<
        Config,
        &'static str,
    >)
        ensures
            match config_fault(
                args.width,
                args.height,
                args.source_dir@,
                args.dest_dir@,
                source_is_dir,
                dest_is_dir,
            ) {
                Some(fault) => r matches Err(message) && message@ == fault.text(),
                None => r matches Ok(config) && config@ == args@,
            },
            r matches Ok(config) ==> valid_dimensions(config.width, config.height),
    {
        match check_settings(
            args.width,
            args.height,
            &args.source_dir,
            &args.dest_dir,
            source_is_dir,
            dest_is_dir,
        ) {
            Some(fault) => Err(fault.message()),
            None => Ok(
                Config {
                    width: args.width,
                    height: args.height,
                    source_dir: args.source_dir,
                    dest_dir: args.dest_dir,
                },
            ),
        }
    }

    /// The target size that this configuration asks for, or `None` where its
    /// dimensions are not valid.
    pub fn thumbnail_spec(&self) -> (r: Option<ThumbnailSpec>)
        ensures
            r is Some <==> valid_dimensions(self.width, self.height),
            r matches Some(spec) ==> spec.target_width() == self.width && spec.target_height()
                == self.height,
    {
        ThumbnailSpec::new(self.width, self.height)
    }
}

} // verus!
