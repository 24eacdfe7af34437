use vstd::prelude::*;

verus! {

/// Why building a parser configuration failed.
#[derive(Clone, Copy, Debug, PartialEq, Eq, Structural)]
pub enum BuildError {
    /// No file path was supplied; it is required.
    MissingFilePath,
}

/// The validated configuration a studio-file parser is opened with: the
/// path of the container file and, optionally, the authentication cookie
/// the remote API calls need. The driver expands the path and opens the
/// file.
pub struct ParserConfig {
    pub file_path: String,
    pub roblosecurity: Option<String>,
}

/// Builder for a parser configuration with optional authentication.
pub struct StudioParserBuilder {
    file_path: Option<String>,
    roblosecurity: Option<String>,
}

impl Default for StudioParserBuilder {
    /// An empty builder: nothing set yet.
    fn default() -> (r: StudioParserBuilder)
        ensures
            r.spec_file_path() is None,
            r.spec_roblosecurity() is None,
    {
        StudioParserBuilder { file_path: None, roblosecurity: None }
    }
}

impl StudioParserBuilder {
    /// The file path set so far.
    pub closed spec fn spec_file_path(&self) -> Option<String> {
        self.file_path
    }

    /// The authentication cookie set so far.
    pub closed spec fn spec_roblosecurity(&self) -> Option<String> {
        self.roblosecurity
    }

    /// An empty builder: nothing set yet.
    pub fn new() -> (r: StudioParserBuilder)
        ensures
            r.spec_file_path() is None,
            r.spec_roblosecurity() is None,
    {
        Self::default()
    }

    /// Sets the path of the container file to parse.
    pub fn file_path(self, path: String) -> (r: StudioParserBuilder)
        ensures
            r.spec_file_path() == Some(path),
            r.spec_roblosecurity() == self.spec_roblosecurity(),
    {
        StudioParserBuilder { file_path: Some(path), roblosecurity: self.roblosecurity }
    }

    /// Sets the authentication cookie for the remote API. Required for
    /// metadata validation and re-uploading.
    pub fn roblosecurity(self, roblosecurity: String) -> (r: StudioParserBuilder)
        ensures
            r.spec_roblosecurity() == Some(roblosecurity),
            r.spec_file_path() == self.spec_file_path(),
    {
        StudioParserBuilder { file_path: self.file_path, roblosecurity: Some(roblosecurity) }
    }

    /// Validates the builder: a configuration exactly when a file path was
    /// set, carrying both fields over; otherwise the missing-path error.
    pub fn build(self) -> (r: Result<ParserConfig, BuildError>)
        ensures
            self.spec_file_path() is Some ==> r is Ok && r->Ok_0.file_path
                == self.spec_file_path()->0 && r->Ok_0.roblosecurity
                == self.spec_roblosecurity(),
            self.spec_file_path() is None ==> r == Err::<ParserConfig, BuildError>(
                BuildError::MissingFilePath,
            ),
    {
        match self.file_path {
            Some(file_path) => Ok(
                ParserConfig { file_path, roblosecurity: self.roblosecurity },
            ),
            None => Err(BuildError::MissingFilePath),
        }
    }
}

} // verus!
