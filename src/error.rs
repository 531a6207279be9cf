use vstd::prelude::*;

verus! {

/// Why resolving the language server binary stopped.
#[derive(Debug)]
pub enum ResolveError {
    /// 32-bit x86 hosts have no published build.
    UnsupportedPlatform,
    /// The latest release has no asset of the expected name.
    AssetNotFound { asset_name: String },
    /// The release index could not be queried or had no qualifying release.
    ReleaseNotFound { reason: String },
    /// Downloading or unpacking the asset failed.
    DownloadFailed { reason: String },
    /// The working directory could not be listed for cleanup.
    DirectoryListFailed { reason: String },
}

/// A `ResolveError` with its text as character sequences.
pub enum ErrorModel {
    UnsupportedPlatform,
    AssetNotFound(Seq<char>),
    ReleaseNotFound(Seq<char>),
    DownloadFailed(Seq<char>),
    DirectoryListFailed(Seq<char>),
}

impl View for ResolveError {
    type V = ErrorModel;

    open spec fn view(&self) -> ErrorModel {
        match self {
            ResolveError::UnsupportedPlatform => ErrorModel::UnsupportedPlatform,
            ResolveError::AssetNotFound { asset_name } => ErrorModel::AssetNotFound(asset_name@),
            ResolveError::ReleaseNotFound { reason } => ErrorModel::ReleaseNotFound(reason@),
            ResolveError::DownloadFailed { reason } => ErrorModel::DownloadFailed(reason@),
            ResolveError::DirectoryListFailed { reason } => ErrorModel::DirectoryListFailed(
                reason@,
            ),
        }
    }
}

/// The human-readable text of an error.
pub open spec fn spec_message(e: ErrorModel) -> Seq<char> {
    match e {
        ErrorModel::UnsupportedPlatform => "unsupported platform x86"@,
        ErrorModel::AssetNotFound(name) => "no asset found matching \""@ + name + "\""@,
        ErrorModel::ReleaseNotFound(reason) => reason,
        ErrorModel::DownloadFailed(reason) => "failed to download file: "@ + reason,
        ErrorModel::DirectoryListFailed(reason) => "failed to list working directory "@ + reason,
    }
}

impl ResolveError {
    /// The message shown to the user for this error.
    pub fn message(&self) -> (r: String)
        ensures
            r@ == spec_message(self@),
    {
        match self {
            ResolveError::UnsupportedPlatform => String::from_str("unsupported platform x86"),
            ResolveError::AssetNotFound { asset_name } => {
                let mut m = String::from_str("no asset found matching \"");
                m.append(asset_name.as_str());
                m.append("\"");
                m
            },
            ResolveError::ReleaseNotFound { reason } => reason.clone(),
            ResolveError::DownloadFailed { reason } => {
                let mut m = String::from_str("failed to download file: ");
                m.append(reason.as_str());
                m
            },
            ResolveError::DirectoryListFailed { reason } => {
                let mut m = String::from_str("failed to list working directory ");
                m.append(reason.as_str());
                m
            },
        }
    }
}

} // verus!
