use vstd::prelude::*;

verus! {

/// An extension, already lower-cased, of one of the supported raster formats.
pub open spec fn is_supported(ext: Seq<char>) -> bool {
    ext == "png"@ || ext == "jpg"@ || ext == "jpeg"@
}

/// What `str::to_lowercase` makes of a string.
pub uninterp spec fn lower_of(s: Seq<char>) -> Seq<char>;

/// Relies on `str::to_lowercase`: its result depends on the characters alone.
#[verifier::external_body]
fn lowercase(s: &str) -> (r: String)
    ensures
        r@ == lower_of(s@),
{
    s.to_lowercase()
}

/// What a directory walk learned of one entry of a directory.
/// `extension` is absent where the name has none or it is not UTF-8;
/// `canonical` is absent where the path could not be resolved.
#[derive(Clone, Debug)]
pub struct EntryInfo {
    pub path: String,
    pub is_dir: bool,
    pub is_file: bool,
    pub extension: Option<String>,
    pub canonical: Option<String>,
}

/// The canonical path of an entry that is an eligible image file, else nothing.
pub open spec fn canonical_if_image(e: EntryInfo) -> Option<String> {
    if e.is_file && e.extension is Some && is_supported(lower_of(e.extension->Some_0@)) {
        e.canonical
    } else {
        None
    }
}

/// Whether an extension that is already lower-cased names a supported format.
pub fn is_supported_lowered(lowered: &str) -> (r: bool)
    ensures
        r == is_supported(lowered@),
{
    let s = lowered.to_owned();
    s == "png".to_owned() || s == "jpg".to_owned() || s == "jpeg".to_owned()
}

/// Whether an extension names a supported format, in any case.
pub fn is_image_extension(ext: &str) -> (r: bool)
    ensures
        r == is_supported(lower_of(ext@)),
{
    let lowered = lowercase(ext);
    is_supported_lowered(lowered.as_str())
}

/// The canonical path of the entry if it is a regular file with a supported
/// extension; exclusion is a normal outcome, not an error.
pub fn get_canonical_path_if_image(entry: &EntryInfo) -> (r: Option<String>)
    ensures
        r == canonical_if_image(*entry),
{
    if !entry.is_file {
        return None;
    }
    match &entry.extension {
        None => None,
        Some(ext) => {
            if is_image_extension(ext.as_str()) {
                entry.canonical.clone()
            } else {
                None
            }
        },
    }
}

} // verus!
