//! Which paths denote images: a path is an image file when its extension is
//! one of seven names, in any letter case.

use vstd::prelude::*;
use crate::paths::{extension, path_extension, path_file_name};
use crate::text::{chars_of, lowered, to_ascii_lower};

verus! {

/// The seven extensions of supported images, in lower case.
pub open spec fn is_supported_name(name: Seq<char>) -> bool {
    ||| name == "jpg"@
    ||| name == "jpeg"@
    ||| name == "png"@
    ||| name == "gif"@
    ||| name == "bmp"@
    ||| name == "tiff"@
    ||| name == "webp"@
}

/// Whether `ext`, taken without regard to letter case, is the extension of
/// a supported image.
pub open spec fn is_image_extension_spec(ext: Seq<char>) -> bool {
    is_supported_name(lowered(ext))
}

/// Whether `path` denotes a supported image: it has an extension, and the
/// extension is a supported one.
pub open spec fn is_image_path(path: Seq<char>) -> bool {
    match path_extension(path) {
        Some(ext) => is_image_extension_spec(ext),
        None => false,
    }
}

/// Whether the lower-case form of `ext` is `name`.
fn lowered_equals(ext: &Vec<char>, name: &str) -> (r: bool)
    ensures
        r == (lowered(ext@) == name@),
{
    let name_chars = chars_of(name);
    if ext.len() != name_chars.len() {
        return false;
    }
    let mut i: usize = 0;
    while i < ext.len()
        invariant
            i <= ext.len(),
            ext.len() == name_chars.len(),
            name_chars@ == name@,
            forall|j: int| 0 <= j < i ==> lowered(ext@)[j] == name@[j],
        decreases ext.len() - i,
    {
        if to_ascii_lower(ext[i]) != name_chars[i] {
            return false;
        }
        i += 1;
    }
    assert(lowered(ext@) =~= name@);
    true
}

/// Whether `ext` is the extension of a supported image, in any letter case.
pub fn is_image_extension(ext: &str) -> (r: bool)
    ensures
        r == is_image_extension_spec(ext@),
{
    let chars = chars_of(ext);
    lowered_equals(&chars, "jpg") || lowered_equals(&chars, "jpeg") || lowered_equals(
        &chars,
        "png",
    ) || lowered_equals(&chars, "gif") || lowered_equals(&chars, "bmp") || lowered_equals(
        &chars,
        "tiff",
    ) || lowered_equals(&chars, "webp")
}

/// Whether `path` denotes a supported image. A path without an extension
/// does not.
pub fn is_image_file(path: &str) -> (r: bool)
    ensures
        r == is_image_path(path@),
{
    match extension(path) {
        Some(ext) => is_image_extension(ext.as_str()),
        None => false,
    }
}

/// A path known to denote a supported image.
pub struct ImageFileRef {
    path: String,
}

impl View for ImageFileRef {
    type V = Seq<char>;

    closed spec fn view(&self) -> Seq<char> {
        self.path@
    }
}

impl ImageFileRef {
    #[verifier::type_invariant]
    spec fn denotes_image(self) -> bool {
        is_image_path(self.path@) && path_file_name(self.path@) is Some
    }

    /// The reference to `path`, where `path` denotes a supported image.
    pub fn new(path: &str) -> (r: Option<ImageFileRef>)
        ensures
            r is Some == is_image_path(path@),
            r matches Some(file) ==> file@ == path@,
    {
        match extension(path) {
            Some(ext) => {
                if is_image_extension(ext.as_str()) {
                    Some(ImageFileRef { path: String::from_str(path) })
                } else {
                    None
                }
            },
            None => None,
        }
    }

    /// The path as text. It denotes a supported image and has a file name.
    pub fn as_str(&self) -> (s: &str)
        ensures
            s@ == self@,
            is_image_path(self@),
            path_file_name(self@) is Some,
    {
        proof {
            use_type_invariant(self);
        }
        self.path.as_str()
    }
}

/// The paths that a sequence of references holds.
pub open spec fn paths_of(files: Seq<ImageFileRef>) -> Seq<Seq<char>> {
    files.map_values(|f: ImageFileRef| f@)
}

/// Letter case does not matter: two extensions that differ only in the case
/// of their ASCII letters are both supported or both not.
pub proof fn lemma_case_insensitive(a: Seq<char>, b: Seq<char>)
    requires
        lowered(a) == lowered(b),
    ensures
        is_image_extension_spec(a) == is_image_extension_spec(b),
{
}

/// Each of the seven names is a supported extension as it stands.
pub proof fn lemma_names_supported()
    ensures
        is_image_extension_spec("jpg"@),
        is_image_extension_spec("jpeg"@),
        is_image_extension_spec("png"@),
        is_image_extension_spec("gif"@),
        is_image_extension_spec("bmp"@),
        is_image_extension_spec("tiff"@),
        is_image_extension_spec("webp"@),
{
    reveal_strlit("jpg");
    reveal_strlit("jpeg");
    reveal_strlit("png");
    reveal_strlit("gif");
    reveal_strlit("bmp");
    reveal_strlit("tiff");
    reveal_strlit("webp");
    assert(lowered("jpg"@) =~= "jpg"@);
    assert(lowered("jpeg"@) =~= "jpeg"@);
    assert(lowered("png"@) =~= "png"@);
    assert(lowered("gif"@) =~= "gif"@);
    assert(lowered("bmp"@) =~= "bmp"@);
    assert(lowered("tiff"@) =~= "tiff"@);
    assert(lowered("webp"@) =~= "webp"@);
}

} // verus!
