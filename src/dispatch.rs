use vstd::prelude::*;

use crate::formats::texts;

verus! {

/// The formats that the configuration loader reads by itself.
#[derive(Debug, Clone, Copy, PartialEq, Eq, Structural)]
pub enum NativeFormat {
    Toml,
    Json,
    Yaml,
    Ini,
    Ron,
    Json5,
}

/// A format chosen by file extension: one of the loader's own, or one that
/// this library adds.
#[derive(Debug, Clone, Copy, PartialEq, Eq, Structural)]
pub enum FormatWrapper {
    Enum(NativeFormat),
    Ason,
    Hcl,
    Hjson,
    Properties,
    YamlNg,
}

/// Why no format could be chosen for a file.
#[derive(Debug)]
pub enum FormatError {
    /// There was no file extension found.
    NoExtensionFound,
    /// The file format is not supported.
    UnsupportedFormat(String),
}

/// The format that an extension selects, if any.
pub open spec fn format_choice(ext: Seq<char>) -> Option<FormatWrapper> {
    if ext == "toml"@ {
        Some(FormatWrapper::Enum(NativeFormat::Toml))
    } else if ext == "json"@ {
        Some(FormatWrapper::Enum(NativeFormat::Json))
    } else if ext == "ron"@ {
        Some(FormatWrapper::Enum(NativeFormat::Ron))
    } else if ext == "json5"@ {
        Some(FormatWrapper::Enum(NativeFormat::Json5))
    } else if ext == "ini"@ {
        Some(FormatWrapper::Enum(NativeFormat::Ini))
    } else if ext == "hjson"@ {
        Some(FormatWrapper::Hjson)
    } else if ext == "properties"@ {
        Some(FormatWrapper::Properties)
    } else if ext == "yaml_ng"@ || ext == "yaml"@ || ext == "yml"@ {
        Some(FormatWrapper::YamlNg)
    } else if ext == "hcl"@ {
        Some(FormatWrapper::Hcl)
    } else if ext == "ason"@ {
        Some(FormatWrapper::Ason)
    } else {
        None
    }
}

/// `r` is what choosing a format for the extension `ext` gives.
pub open spec fn chosen_for(ext: Seq<char>, r: Result<FormatWrapper, FormatError>) -> bool {
    match format_choice(ext) {
        Some(f) => r == Ok::<FormatWrapper, FormatError>(f),
        None => r is Err && r->Err_0 is UnsupportedFormat && r->Err_0->UnsupportedFormat_0@ == ext,
    }
}

/// The extension of a path, as `std::path::Path::extension` finds it.
pub uninterp spec fn path_extension(file: Seq<char>) -> Option<Seq<char>>;

/// Relies on `std::path::Path::extension`: the part of the file name after
/// its last `.`, if there is one. The extension of a `&str` path is valid
/// UTF-8, so the lossy conversion keeps it whole.
#[verifier::external_body]
fn extension_of(file: &str) -> (r: Option<String>)
    ensures
        match r {
            Some(e) => path_extension(file@) == Some(e@),
            None => path_extension(file@) is None,
        },
{
    match std::path::Path::new(file).extension() {
        Some(e) => Some(e.to_string_lossy().to_string()),
        None => None,
    }
}

/// The extensions under which the loader looks for a file of one of its
/// own formats.
pub open spec fn native_extensions(f: NativeFormat) -> Seq<Seq<char>> {
    match f {
        NativeFormat::Toml => seq!["toml"@],
        NativeFormat::Json => seq!["json"@],
        NativeFormat::Yaml => seq!["yaml"@, "yml"@],
        NativeFormat::Ini => seq!["ini"@],
        NativeFormat::Ron => seq!["ron"@],
        NativeFormat::Json5 => seq!["json5"@],
    }
}

/// Relies on `config::FileStoredFormat::file_extensions` of
/// `config::FileFormat`, which lists a fixed set of extensions per format.
#[verifier::external_body]
fn loader_extensions(f: NativeFormat) -> (r: Vec<&'static str>)
    ensures
        texts(r@) == native_extensions(f),
{
    let format = match f {
        NativeFormat::Toml => config::FileFormat::Toml,
        NativeFormat::Json => config::FileFormat::Json,
        NativeFormat::Yaml => config::FileFormat::Yaml,
        NativeFormat::Ini => config::FileFormat::Ini,
        NativeFormat::Ron => config::FileFormat::Ron,
        NativeFormat::Json5 => config::FileFormat::Json5,
    };
    config::FileStoredFormat::file_extensions(&format).to_vec()
}

fn text_is(s: &String, lit: &str) -> (r: bool)
    ensures
        r == (s@ == lit@),
{
    let t = String::from_str(lit);
    *s == t
}

/// Chooses the format that the extension `ext` (without its `.`) selects.
pub fn format_for_extension(ext: String) -> (r: Result<FormatWrapper, FormatError>)
    ensures
        chosen_for(ext@, r),
{
    if text_is(&ext, "toml") {
        Ok(FormatWrapper::Enum(NativeFormat::Toml))
    } else if text_is(&ext, "json") {
        Ok(FormatWrapper::Enum(NativeFormat::Json))
    } else if text_is(&ext, "ron") {
        Ok(FormatWrapper::Enum(NativeFormat::Ron))
    } else if text_is(&ext, "json5") {
        Ok(FormatWrapper::Enum(NativeFormat::Json5))
    } else if text_is(&ext, "ini") {
        Ok(FormatWrapper::Enum(NativeFormat::Ini))
    } else if text_is(&ext, "hjson") {
        Ok(FormatWrapper::Hjson)
    } else if text_is(&ext, "properties") {
        Ok(FormatWrapper::Properties)
    } else if text_is(&ext, "yaml_ng") || text_is(&ext, "yaml") || text_is(&ext, "yml") {
        Ok(FormatWrapper::YamlNg)
    } else if text_is(&ext, "hcl") {
        Ok(FormatWrapper::Hcl)
    } else if text_is(&ext, "ason") {
        Ok(FormatWrapper::Ason)
    } else {
        Err(FormatError::UnsupportedFormat(ext))
    }
}

/// Chooses a format for a file by its extension.
pub fn by_file_extension(file: &str) -> (r: Result<FormatWrapper, FormatError>)
    ensures
        match path_extension(file@) {
            None => r == Err::<FormatWrapper, FormatError>(FormatError::NoExtensionFound),
            Some(ext) => chosen_for(ext, r),
        },
{
    match extension_of(file) {
        None => Err(FormatError::NoExtensionFound),
        Some(ext) => format_for_extension(ext),
    }
}

impl FormatWrapper {
    /// The file extensions of the chosen format.
    pub fn file_extensions(&self) -> (r: Vec<&'static str>)
        ensures
            texts(r@) == match *self {
                FormatWrapper::Enum(f) => native_extensions(f),
                FormatWrapper::Ason => seq!["ason"@],
                FormatWrapper::Hcl => seq!["hcl"@],
                FormatWrapper::Hjson => seq!["hjson"@],
                FormatWrapper::Properties => seq!["properties"@],
                FormatWrapper::YamlNg => seq!["yaml"@, "yml"@, "yaml_ng"@],
            },
    {
        match self {
            FormatWrapper::Enum(f) => loader_extensions(*f),
            FormatWrapper::Ason => crate::formats::Ason.file_extensions(),
            FormatWrapper::Hcl => crate::formats::Hcl.file_extensions(),
            FormatWrapper::Hjson => crate::formats::Hjson.file_extensions(),
            FormatWrapper::Properties => crate::formats::Properties.file_extensions(),
            FormatWrapper::YamlNg => crate::formats::YamlNg.file_extensions(),
        }
    }
}

impl FormatError {
    /// A message that says why no format was chosen.
    pub fn message(&self) -> (r: String)
        ensures
            r@ == match self {
                FormatError::NoExtensionFound => "No file extension found"@,
                FormatError::UnsupportedFormat(ext) => "Unsupported file format: "@ + ext@,
            },
    {
        match self {
            FormatError::NoExtensionFound => String::from_str("No file extension found"),
            FormatError::UnsupportedFormat(ext) => {
                let mut out = String::from_str("Unsupported file format: ");
                out.append(ext.as_str());
                out
            },
        }
    }
}

} // verus!
