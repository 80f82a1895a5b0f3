//! What can stop the viewer before its first frame, and how it ends.

use vstd::prelude::*;
use crate::source::ShaderAssets;

verus! {

/// A text that the viewer reads from disk while it starts.
#[derive(Debug, Clone, Copy, PartialEq, Eq)]
pub enum Asset {
    /// The vertex shader.
    VertexShader,
    /// The text put before every fragment shader.
    FragmentPreamble,
    /// The text put after every fragment shader.
    FragmentPostamble,
    /// The default fragment shader.
    DefaultShader,
    /// The fragment shader named on the command line.
    UserShader,
}

/// An error that ends the process before the render loop begins.
#[derive(Debug, PartialEq, Eq)]
pub enum FatalStartupError {
    /// A text that startup needs could not be read; the second field says
    /// why.
    UnreadableAsset(Asset, String),
    /// The default shader did not compile; the field is the compiler's
    /// diagnostic text.
    DefaultShaderFailed(String),
    /// The file watcher could not be set up; the field says why.
    WatcherFailed(String),
}

impl FatalStartupError {
    /// The text that came with the failure.
    pub open spec fn detail(self) -> String {
        match self {
            FatalStartupError::UnreadableAsset(_, reason) => reason,
            FatalStartupError::DefaultShaderFailed(diagnostic) => diagnostic,
            FatalStartupError::WatcherFailed(reason) => reason,
        }
    }

    /// The text to show the operator before the process ends.
    pub fn diagnostic(&self) -> (text: &String)
        ensures
            *text == self.detail(),
    {
        match self {
            FatalStartupError::UnreadableAsset(_, reason) => reason,
            FatalStartupError::DefaultShaderFailed(diagnostic) => diagnostic,
            FatalStartupError::WatcherFailed(reason) => reason,
        }
    }
}

/// The result of reading a text file: its contents, or why it could not be
/// read.
pub type ReadResult = Result<String, String>;

/// What `load_assets` returns for the three reads.
pub open spec fn assets_of(vertex: ReadResult, preamble: ReadResult, postamble: ReadResult) -> Result<
    ShaderAssets,
    FatalStartupError,
> {
    match (vertex, preamble, postamble) {
        (Err(reason), _, _) => Err(FatalStartupError::UnreadableAsset(Asset::VertexShader, reason)),
        (Ok(_), Err(reason), _) => Err(
            FatalStartupError::UnreadableAsset(Asset::FragmentPreamble, reason),
        ),
        (Ok(_), Ok(_), Err(reason)) => Err(
            FatalStartupError::UnreadableAsset(Asset::FragmentPostamble, reason),
        ),
        (Ok(vertex), Ok(preamble), Ok(postamble)) => Ok(
            ShaderAssets { vertex, preamble, postamble },
        ),
    }
}

/// Gathers the three fixed shader texts. All of them are required: the first
/// that could not be read, in the order vertex shader, preamble, postamble,
/// is a fatal error.
pub fn load_assets(vertex: ReadResult, preamble: ReadResult, postamble: ReadResult) -> (loaded:
    Result<ShaderAssets, FatalStartupError>)
    ensures
        loaded == assets_of(vertex, preamble, postamble),
{
    match vertex {
        Err(reason) => Err(FatalStartupError::UnreadableAsset(Asset::VertexShader, reason)),
        Ok(vertex) => match preamble {
            Err(reason) => Err(FatalStartupError::UnreadableAsset(Asset::FragmentPreamble, reason)),
            Ok(preamble) => match postamble {
                Err(reason) => Err(
                    FatalStartupError::UnreadableAsset(Asset::FragmentPostamble, reason),
                ),
                Ok(postamble) => Ok(ShaderAssets { vertex, preamble, postamble }),
            },
        },
    }
}

/// The fragment source for a shader that startup cannot do without: the text
/// that was read, wrapped in preamble and postamble. A shader that could not
/// be read is a fatal error that names `asset`.
pub fn startup_fragment(assets: &ShaderAssets, asset: Asset, body: ReadResult) -> (source: Result<
    String,
    FatalStartupError,
>)
    ensures
        match body {
            Ok(text) => source matches Ok(wrapped) && wrapped@ == assets.fragment(text@),
            Err(reason) => source == Err::<String, FatalStartupError>(
                FatalStartupError::UnreadableAsset(asset, reason),
            ),
        },
{
    match body {
        Ok(text) => Ok(assets.wrap(text.as_str())),
        Err(reason) => Err(FatalStartupError::UnreadableAsset(asset, reason)),
    }
}

/// The default program must exist before anything is drawn: a default shader
/// that did not compile is a fatal error that carries the diagnostic text.
pub fn require_default<P>(compiled: Result<P, String>) -> (program: Result<P, FatalStartupError>)
    ensures
        program == match compiled {
            Ok(built) => Ok::<P, FatalStartupError>(built),
            Err(diagnostic) => Err(FatalStartupError::DefaultShaderFailed(diagnostic)),
        },
{
    match compiled {
        Ok(built) => Ok(built),
        Err(diagnostic) => Err(FatalStartupError::DefaultShaderFailed(diagnostic)),
    }
}

/// The file watcher must be attached before the loop begins: a watcher that
/// could not be set up is a fatal error that carries the reason. One that
/// was set up is handed through.
pub fn require_watcher<W>(attached: Result<W, String>) -> (watching: Result<W, FatalStartupError>)
    ensures
        watching == match attached {
            Ok(watcher) => Ok::<W, FatalStartupError>(watcher),
            Err(reason) => Err(FatalStartupError::WatcherFailed(reason)),
        },
{
    match attached {
        Ok(watcher) => Ok(watcher),
        Err(reason) => Err(FatalStartupError::WatcherFailed(reason)),
    }
}

/// The exit code of the process: zero after the window was closed, one after
/// a fatal startup error.
pub open spec fn exit_code_of(ended: Result<(), FatalStartupError>) -> i32 {
    match ended {
        Ok(_) => 0,
        Err(_) => 1,
    }
}

/// The exit code of the process for the way the run ended.
pub fn exit_code(ended: &Result<(), FatalStartupError>) -> (code: i32)
    ensures
        code == exit_code_of(*ended),
        code == 0 <==> *ended is Ok,
{
    match ended {
        Ok(_) => 0,
        Err(_) => 1,
    }
}

} // verus!
