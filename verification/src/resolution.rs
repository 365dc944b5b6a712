//! What the node-style resolver makes of a module, and the made-up places
//! that anchor its relative resolution.

use vstd::prelude::*;

verus! {

/// How a resolved module is to be treated.
#[derive(Clone, Copy, Debug, PartialEq, Eq, Structural)]
pub enum NodeModuleKind {
    /// A standard module.
    Esm,
    /// A CommonJS module.
    CommonJs,
    /// A module built into the runtime, which has no file.
    BuiltIn,
}

/// A resolved module: its URL, how it is to be treated, and the path of the
/// file that the URL names, where it names one.
#[derive(Debug, PartialEq, Eq)]
pub struct NodeResolution {
    pub kind: NodeModuleKind,
    pub url: String,
    pub file_path: Option<String>,
}

pub struct NodeResolutionView {
    pub kind: NodeModuleKind,
    pub url: Seq<char>,
    pub file_path: Option<Seq<char>>,
}

impl View for NodeResolution {
    type V = NodeResolutionView;

    open spec fn view(&self) -> NodeResolutionView {
        NodeResolutionView {
            kind: self.kind,
            url: self.url@,
            file_path: self.file_path.deep_view(),
        }
    }
}

impl DeepView for NodeResolution {
    type V = NodeResolutionView;

    open spec fn deep_view(&self) -> NodeResolutionView {
        self@
    }
}

impl NodeResolutionView {
    /// Whether the module is loaded through the CommonJS loader.
    pub open spec fn is_commonjs(self) -> bool {
        self.kind == NodeModuleKind::CommonJs
    }
}

impl NodeResolution {
    /// Whether the module is loaded through the CommonJS loader.
    pub fn is_commonjs(&self) -> (res: bool)
        ensures
            res == self@.is_commonjs(),
    {
        match self.kind {
            NodeModuleKind::CommonJs => true,
            _ => false,
        }
    }

    /// The module's URL.
    pub fn into_url(self) -> (res: String)
        ensures
            res@ == self@.url,
    {
        self.url
    }
}

/// A module location that need not exist: the `file:` URL of a directory
/// and, where one is needed, a file name below it. Its only use is to say
/// relative to where something is resolved.
#[derive(Debug, PartialEq, Eq)]
pub struct Referrer {
    pub directory: String,
    pub file: Option<String>,
}

/// What the URL library makes of the path of a directory: its `file:` URL,
/// or nothing where the path has none, as one that is not absolute.
pub uninterp spec fn directory_url(path: Seq<char>) -> Option<Seq<char>>;

/// The `file:` URL of a directory, where its path has one.
///
/// Calls `deno_ast::ModuleSpecifier::from_directory_path`, which is the URL
/// library's `Url::from_directory_path`. Trusted: the result is what that
/// function makes of the path, as text, and depends on the path alone.
#[verifier::external_body]
pub(crate) fn directory_specifier(path: &str) -> (res: Option<String>)
    ensures
        res.deep_view() == directory_url(path@),
{
    match deno_ast::ModuleSpecifier::from_directory_path(path) {
        Ok(url) => Some(String::from(url)),
        Err(()) => None,
    }
}

pub struct ReferrerView {
    pub directory: Seq<char>,
    pub file: Option<Seq<char>>,
}

impl View for Referrer {
    type V = ReferrerView;

    open spec fn view(&self) -> ReferrerView {
        ReferrerView { directory: self.directory@, file: self.file.deep_view() }
    }
}

/// A collaborator's outcome that is a resolved module.
pub open spec fn resolution_view(outcome: Result<NodeResolution, String>) -> Result<
    NodeResolutionView,
    Seq<char>,
> {
    match outcome {
        Ok(resolution) => Ok(resolution@),
        Err(text) => Err(text@),
    }
}

/// A collaborator's outcome that is a resolved module, or none.
pub open spec fn optional_resolution_view(
    outcome: Result<Option<NodeResolution>, String>,
) -> Result<Option<NodeResolutionView>, Seq<char>> {
    match outcome {
        Ok(resolution) => Ok(resolution.deep_view()),
        Err(text) => Err(text@),
    }
}

/// A collaborator's outcome that is a text.
pub open spec fn text_view(outcome: Result<String, String>) -> Result<Seq<char>, Seq<char>> {
    match outcome {
        Ok(value) => Ok(value@),
        Err(text) => Err(text@),
    }
}

} // verus!
