//! Fixed-size thumbnails from a directory of pictures.
//!
//! The crate holds the rules of the thumbnail pipeline: which files of a
//! directory are pictures, how a camera's orientation tag is read and
//! turned into a rotation, how the centred crop is planned, and how the
//! outcome of each file of a batch is collected.
//!
//! It reads and writes no file. A caller lists the directory and hands over
//! the names, reads each picture and hands over its bytes, and writes the
//! bytes of each thumbnail where it wants them. Decoding, turning, cutting,
//! resizing and encoding are the work of the `image` crate, and the
//! orientation tag is found by the `exif` crate; what is taken on trust of
//! either is stated where it is called, in `picture` and in `orientation`.

use crate::config::{check_settings, config_fault, ConfigError, ConfigView};
use crate::decimal::{parse_u32, parse_u32_spec};
use crate::target::{valid_dimensions, ThumbnailSpec};
use vstd::prelude::*;

pub mod config;
pub mod crop;
pub mod decimal;
pub mod orientation;
pub mod picture;
pub mod run;
pub mod scan;
pub mod target;
pub mod thumb;

verus! {

/// A checked configuration, made from the words of a command line.
#[derive(Clone)]
pub struct Config {
    pub width: u32,
    pub height: u32,
    pub source_dir: String,
    pub dest_dir: String,
}

impl View for Config {
    type V = ConfigView;

    open spec fn view(&self) -> ConfigView {
        ConfigView {
            width: self.width,
            height: self.height,
            source_dir: self.source_dir@,
            dest_dir: self.dest_dir@,
        }
    }
}

/// The first rule that the words of a command line break, if any.
///
/// There must be five words: the program's name, the width, the height, the
/// source directory and the destination directory. Width and height must be
/// decimal numbers, the width is read first. After that the settings are held
/// to the rules of `config_fault`.
pub open spec fn words_fault(words: Seq<Seq<char>>, source_is_dir: bool, dest_is_dir: bool)
    -> Option<ConfigError> {
    if words.len() != 5 {
        Some(ConfigError::Usage)
    } else {
        match parse_u32_spec(words[1]) {
            None => Some(ConfigError::WidthNotNumber),
            Some(width) => match parse_u32_spec(words[2]) {
                None => Some(ConfigError::HeightNotNumber),
                Some(height) => config_fault(
                    width,
                    height,
                    words[3],
                    words[4],
                    source_is_dir,
                    dest_is_dir,
                ),
            },
        }
    }
}

/// The configuration that five accepted words denote.
pub open spec fn words_config(words: Seq<Seq<char>>) -> ConfigView
    recommends
        words.len() == 5,
        parse_u32_spec(words[1]) is Some,
        parse_u32_spec(words[2]) is Some,
{
    ConfigView {
        width: parse_u32_spec(words[1])->0,
        height: parse_u32_spec(words[2])->0,
        source_dir: words[3],
        dest_dir: words[4],
    }
}

impl Config {
    /// Reads the words of a command line and makes the configuration.
    ///
    /// `source_is_dir` and `dest_is_dir` say whether the fourth and the fifth
    /// word name an existing directory; where there are no such words they are
    /// not looked at. The words are accepted exactly when they break no rule,
    /// and the configuration then holds what they denote. Otherwise the
    /// message of the first broken rule is returned.
    pub fn build(args: &[String], source_is_dir: bool, dest_is_dir: bool) -> (r: Result<
        Config,
        &'static str,
    >)
        ensures
            match words_fault(args.deep_view(), source_is_dir, dest_is_dir) {
                Some(fault) => r matches Err(message) && message@ == fault.text(),
                None => r matches Ok(config) && config@ == words_config(args.deep_view()),
            },
            r matches Ok(config) ==> valid_dimensions(config.width, config.height),
    {
        if args.len() != 5 {
            return Err(ConfigError::Usage.message());
        }
        let width: u32 = match parse_u32(args[1].as_str()) {
            Some(number) => number,
            None => {
                return Err(ConfigError::WidthNotNumber.message());
            },
        };
        let height: u32 = match parse_u32(args[2].as_str()) {
            Some(number) => number,
            None => {
                return Err(ConfigError::HeightNotNumber.message());
            },
        };
        match check_settings(width, height, &args[3], &args[4], source_is_dir, dest_is_dir) {
            Some(fault) => Err(fault.message()),
            None => Ok(
                Config { width, height, source_dir: args[3].clone(), dest_dir: args[4].clone() },
            ),
        }
    }

    /// The target size that this configuration asks for, or `None` where its
    /// dimensions are not valid.
    pub fn thumbnail_spec(&self) -> (r: Option<ThumbnailSpec>)
        ensures
            r is Some <==> valid_dimensions(self.width, self.height),
            r matches Some(spec) ==> spec.target_width() == self.width && spec.target_height()
                == self.height,
    {
        ThumbnailSpec::new(self.width, self.height)
    }
}

} // verus!
