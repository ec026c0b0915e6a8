use vstd::prelude::*;

verus! {

/// The I/O error that a failed read of a font file reports.
#[verifier::external_type_specification]
#[verifier::external_body]
pub struct ExIoError(std::io::Error);

/// A font to load: the family name it is registered under and the path of
/// its file.
pub struct LoaderFontData {
    pub name: String,
    pub path: String,
}

/// The mathematical value of a [`LoaderFontData`].
pub struct FontDescriptor {
    pub name: Seq<char>,
    pub path: Seq<char>,
}

impl View for LoaderFontData {
    type V = FontDescriptor;

    open spec fn view(&self) -> FontDescriptor {
        FontDescriptor { name: self.name@, path: self.path@ }
    }
}

/// Why loading a list of fonts stopped.
pub enum LoadFontError {
    /// Nothing exists at this path.
    FileNotFound(String),
    /// Something exists at `path`, but reading it failed with `source`.
    FileReadError { path: String, source: std::io::Error },
}

impl LoadFontError {
    /// The path of the font that could not be loaded.
    pub open spec fn path_view(&self) -> Seq<char> {
        match self {
            LoadFontError::FileNotFound(p) => p@,
            LoadFontError::FileReadError { path, .. } => path@,
        }
    }

    /// The path of the font that could not be loaded.
    pub fn path(&self) -> (r: &String)
        ensures
            r@ == self.path_view(),
    {
        match self {
            LoadFontError::FileNotFound(p) => p,
            LoadFontError::FileReadError { path, .. } => path,
        }
    }
}

} // verus!
