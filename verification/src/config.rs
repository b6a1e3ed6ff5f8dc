//! The configuration that every line of a batch is processed with.

use crate::text::chars_of;
use vstd::prelude::*;

verus! {

/// The formats a raster can be written in.
#[derive(Clone, Copy, Debug, PartialEq, Eq, Structural)]
pub enum OutputFormat {
    Jpg,
    Png,
    Bmp,
}

impl OutputFormat {
    /// The file extension of the format, without the dot.
    pub open spec fn extension_spec(self) -> Seq<char> {
        match self {
            OutputFormat::Jpg => seq!['j', 'p', 'g'],
            OutputFormat::Png => seq!['p', 'n', 'g'],
            OutputFormat::Bmp => seq!['b', 'm', 'p'],
        }
    }

    /// The file extension of the format, as text.
    pub fn extension(self) -> (ext: &'static str)
        ensures
            ext@ == self.extension_spec(),
    {
        proof {
            reveal_strlit("jpg");
            reveal_strlit("png");
            reveal_strlit("bmp");
        }
        let ext = match self {
            OutputFormat::Jpg => "jpg",
            OutputFormat::Png => "png",
            OutputFormat::Bmp => "bmp",
        };
        assert(ext@ =~= self.extension_spec());
        ext
    }

    /// The format that `name` is the extension of, if it is one.
    pub fn from_name(name: &str) -> (format: Option<OutputFormat>)
        ensures
            match format {
                Some(format) => name@ == format.extension_spec(),
                None => forall|format: OutputFormat| name@ != format.extension_spec(),
            },
    {
        let chars = chars_of(name);
        if chars.len() != 3 {
            return None;
        }
        let format = if chars[0] == 'j' && chars[1] == 'p' && chars[2] == 'g' {
            OutputFormat::Jpg
        } else if chars[0] == 'p' && chars[1] == 'n' && chars[2] == 'g' {
            OutputFormat::Png
        } else if chars[0] == 'b' && chars[1] == 'm' && chars[2] == 'p' {
            OutputFormat::Bmp
        } else {
            return None;
        };
        assert(name@ =~= format.extension_spec());
        Some(format)
    }
}

/// Output format, square crop and optional side length, fixed for a whole batch.
#[derive(Clone, Copy, Debug, PartialEq, Eq, Structural)]
pub struct ProcessingArguments {
    pub format: OutputFormat,
    pub square: bool,
    pub resize: Option<u32>,
}

} // verus!
