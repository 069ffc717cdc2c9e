//! Expansion of the inputs given on the command line into the image files
//! to work on.

use vstd::prelude::*;
use crate::matcher::{is_image_path, paths_of, ImageFileRef};
use crate::text::chars_of;

verus! {

/// What a given input stands for.
#[derive(Clone, Copy, Debug, PartialEq, Eq, Structural)]
pub enum InputSpec {
    /// A single file.
    FilePath,
    /// A directory, to be walked with everything below it.
    DirectoryPath,
    /// A pattern with wildcards, to be expanded against the file system.
    GlobPattern,
}

/// Why the inputs give nothing to work on.
#[derive(Clone, Copy, Debug, PartialEq, Eq, Structural)]
pub enum InputError {
    /// No input was given at all.
    NoInputs,
    /// The inputs were expanded and no image is among them.
    NoImages,
}

/// What `path` stands for: a directory where the file system says so, else
/// a glob pattern where it holds a `*`, else a single file.
pub open spec fn classify_spec(path: Seq<char>, is_dir: bool) -> InputSpec {
    if is_dir {
        InputSpec::DirectoryPath
    } else if path.contains('*') {
        InputSpec::GlobPattern
    } else {
        InputSpec::FilePath
    }
}

/// The text of each string of a sequence.
pub open spec fn texts(entries: Seq<String>) -> Seq<Seq<char>> {
    entries.map_values(|e: String| e@)
}

/// Those of `entries` that denote supported images, in their order and as
/// often as they occur.
pub open spec fn images_of(entries: Seq<Seq<char>>) -> Seq<Seq<char>> {
    entries.filter(|p: Seq<char>| is_image_path(p))
}

/// The places in `entries` of those that denote supported images, rising.
pub open spec fn image_indices(entries: Seq<Seq<char>>) -> Seq<int>
    decreases entries.len(),
{
    if entries.len() == 0 {
        Seq::empty()
    } else {
        let before = image_indices(entries.drop_last());
        if is_image_path(entries.last()) {
            before.push(entries.len() - 1)
        } else {
            before
        }
    }
}

/// The indices of the images name the images: there is one for each image
/// kept, each lies within the entries and points at the image in its
/// place, and they rise.
pub proof fn lemma_indices_name_the_images(entries: Seq<Seq<char>>)
    ensures
        image_indices(entries).len() == images_of(entries).len(),
        forall|k: int|
            0 <= k < image_indices(entries).len() ==> {
                &&& 0 <= #[trigger] image_indices(entries)[k] < entries.len()
                &&& entries[image_indices(entries)[k]] == images_of(entries)[k]
            },
        forall|j: int, k: int|
            0 <= j < k < image_indices(entries).len() ==> image_indices(entries)[j]
                < image_indices(entries)[k],
    decreases entries.len(),
{
    if entries.len() == 0 {
        lemma_images_of_none();
        assert(entries =~= Seq::empty());
    } else {
        let before = entries.drop_last();
        lemma_indices_name_the_images(before);
        lemma_images_of_one_more(before, entries.last());
        assert(before.push(entries.last()) =~= entries);
    }
}

/// No entries hold no images.
proof fn lemma_images_of_none()
    ensures
        images_of(Seq::empty()) == Seq::<Seq<char>>::empty(),
{
    reveal(Seq::filter);
}

/// One more entry adds itself to the images where it denotes one.
proof fn lemma_images_of_one_more(entries: Seq<Seq<char>>, entry: Seq<char>)
    ensures
        images_of(entries.push(entry)) == if is_image_path(entry) {
            images_of(entries).push(entry)
        } else {
            images_of(entries)
        },
{
    entries.lemma_filter_push(entry, |p: Seq<char>| is_image_path(p));
}

/// What the input `path` stands for; `is_dir` says whether a directory is
/// at that path.
pub fn classify(path: &str, is_dir: bool) -> (r: InputSpec)
    ensures
        r == classify_spec(path@, is_dir),
{
    if is_dir {
        return InputSpec::DirectoryPath;
    }
    let chars = chars_of(path);
    let mut i: usize = 0;
    while i < chars.len()
        invariant
            !is_dir,
            i <= chars.len(),
            chars@ == path@,
            forall|j: int| 0 <= j < i ==> chars@[j] != '*',
        decreases chars.len() - i,
    {
        if chars[i] == '*' {
            return InputSpec::GlobPattern;
        }
        i += 1;
    }
    InputSpec::FilePath
}

impl InputError {
    /// A few words that name the fault.
    pub fn message(&self) -> (r: String)
        ensures
            r@ == match *self {
                InputError::NoInputs => "no inputs"@,
                InputError::NoImages => "no valid images found"@,
            },
    {
        match self {
            InputError::NoInputs => String::from_str("no inputs"),
            InputError::NoImages => String::from_str("no valid images found"),
        }
    }
}

/// Collects the image files that the inputs expand to, input by input.
pub struct InputExpander {
    found: Vec<ImageFileRef>,
}

impl View for InputExpander {
    type V = Seq<Seq<char>>;

    closed spec fn view(&self) -> Seq<Seq<char>> {
        paths_of(self.found@)
    }
}

impl InputExpander {
    /// Starts an expansion of `inputs`. There has to be at least one.
    pub fn begin(inputs: &Vec<String>) -> (r: Result<InputExpander, InputError>)
        ensures
            match r {
                Ok(expander) => inputs.len() > 0 && expander@ == Seq::<Seq<char>>::empty(),
                Err(e) => inputs.len() == 0 && e == InputError::NoInputs,
            },
    {
        if inputs.len() == 0 {
            Err(InputError::NoInputs)
        } else {
            Ok(InputExpander { found: Vec::new() })
        }
    }

    /// Keeps `path` where it denotes an image, and says whether it did.
    fn keep_if_image(&mut self, path: &str) -> (kept: bool)
        ensures
            kept == is_image_path(path@),
            final(self)@ == if kept {
                old(self)@.push(path@)
            } else {
                old(self)@
            },
    {
        match ImageFileRef::new(path) {
            Some(file) => {
                self.found.push(file);
                true
            },
            None => false,
        }
    }

    /// Takes an input that is a single file: it is kept where it denotes an
    /// image and passed over where it does not. The result says which.
    pub fn add_file(&mut self, path: &str) -> (kept: bool)
        ensures
            kept == is_image_path(path@),
            final(self)@ == old(self)@ + images_of(seq![path@]),
    {
        proof {
            lemma_images_of_none();
            lemma_images_of_one_more(Seq::empty(), path@);
        }
        self.keep_if_image(path)
    }

    /// Takes what a directory walk or a glob expansion found: the entries
    /// that denote images are kept, in the order given. The result holds
    /// the places of the kept entries in `entries`, so that a caller can
    /// keep beside each what it knows of it.
    pub fn add_listing(&mut self, entries: &Vec<String>) -> (kept: Vec<usize>)
        ensures
            final(self)@ == old(self)@ + images_of(texts(entries@)),
            kept@.map_values(|i: usize| i as int) == image_indices(texts(entries@)),
    {
        let ghost before = self@;
        let mut kept: Vec<usize> = Vec::new();
        proof {
            lemma_images_of_none();
            assert(texts(entries@.take(0)) =~= Seq::<Seq<char>>::empty());
            assert(kept@.map_values(|i: usize| i as int) =~= image_indices(
                texts(entries@.take(0)),
            ));
        }
        let mut i: usize = 0;
        while i < entries.len()
            invariant
                i <= entries.len(),
                self@ == before + images_of(texts(entries@.take(i as int))),
                kept@.map_values(|i: usize| i as int) == image_indices(
                    texts(entries@.take(i as int)),
                ),
            decreases entries.len() - i,
        {
            let ghost seen = texts(entries@.take(i as int));
            let ghost places = kept@.map_values(|i: usize| i as int);
            let entry = entries[i].as_str();
            proof {
                assert(texts(entries@.take(i + 1)) =~= seen.push(entry@));
                assert(seen.push(entry@).drop_last() =~= seen);
                lemma_images_of_one_more(seen, entry@);
            }
            if self.keep_if_image(entry) {
                kept.push(i);
                assert(kept@.map_values(|i: usize| i as int) =~= places.push(i as int));
            }
            i += 1;
        }
        assert(entries@.take(entries.len() as int) =~= entries@);
        kept
    }

    /// Ends the expansion: the image files found, in the order of the
    /// inputs. There has to be at least one.
    pub fn finish(self) -> (r: Result<Vec<ImageFileRef>, InputError>)
        ensures
            match r {
                Ok(files) => paths_of(files@) == self@ && files.len() > 0,
                Err(e) => self@.len() == 0 && e == InputError::NoImages,
            },
    {
        if self.found.len() == 0 {
            Err(InputError::NoImages)
        } else {
            Ok(self.found)
        }
    }
}

} // verus!
