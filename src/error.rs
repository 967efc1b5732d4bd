use vstd::prelude::*;
use vstd::string::*;

verus! {

/// Every way an operation of the library can fail.
#[derive(Debug, Clone, Copy, PartialEq, Eq, Structural)]
pub enum PlaylistError {
    /// The variable that names the base directory is not set.
    EnvMissing,
    /// The registry file could not be created.
    FileCreateFailed,
    /// The registry file could not be read.
    FileReadFailed,
    /// The registry file could not be written, or its text could not be produced.
    FileWriteFailed,
    /// The registry text is not a JSON object of strings.
    ParseFailed,
    /// The text given as a URL does not parse as one.
    InvalidUrl,
    /// The URL parses but has no domain name as its host.
    NoDomain,
    /// The URL's domain is not one of the allowed ones.
    DomainNotAllowed,
    /// A playlist of that name is already registered.
    AlreadyExists,
    /// No playlist of that name is registered.
    NotFound,
    /// The downloader could not be started to update itself.
    UpdateCheckFailed,
    /// The downloader could not be started for a playlist.
    DownloadLaunchFailed,
}

/// The text `before`, then `value`, then `after`.
pub open spec fn around(before: Seq<char>, value: Seq<char>, after: Seq<char>) -> Seq<char> {
    before + value + after
}

/// The one line that tells the user of `e`, for the playlist `name` at `url`.
pub open spec fn message_spec(e: PlaylistError, name: Seq<char>, url: Seq<char>) -> Seq<char> {
    match e {
        PlaylistError::EnvMissing => "`HAENG_PATH` is not set"@,
        PlaylistError::FileCreateFailed => "Couldn't create the playlists file"@,
        PlaylistError::FileReadFailed => "Couldn't read the playlists file"@,
        PlaylistError::FileWriteFailed => "Couldn't write the playlists file"@,
        PlaylistError::ParseFailed => "Couldn't parse the playlists file"@,
        PlaylistError::InvalidUrl => around("`"@, url, "` is not a valid URL"@),
        PlaylistError::NoDomain => around("`"@, url, "` is an invalid URL, expected a domain name"@),
        PlaylistError::DomainNotAllowed => around("`"@, url, "` is not a \"youtube.com\" URL"@),
        PlaylistError::AlreadyExists => around("Playlist `"@, name, "` already exists"@),
        PlaylistError::NotFound => around("Playlist `"@, name, "` not found"@),
        PlaylistError::UpdateCheckFailed => "There was an error while updating YT-DLP"@,
        PlaylistError::DownloadLaunchFailed => "There was an error running YT-DLP"@,
    }
}

/// `before`, then `value`, then `after`, as one string.
fn surround(before: &str, value: &str, after: &str) -> (r: String)
    ensures
        r@ == around(before@, value@, after@),
{
    let mut s = String::from_str(before);
    s.append(value);
    s.append(after);
    s
}

impl PlaylistError {
    /// The one line that tells the user of this error, for the playlist
    /// `name` at `url`.
    pub fn message(&self, name: &str, url: &str) -> (r: String)
        ensures
            r@ == message_spec(*self, name@, url@),
    {
        match self {
            PlaylistError::EnvMissing => String::from_str("`HAENG_PATH` is not set"),
            PlaylistError::FileCreateFailed => String::from_str("Couldn't create the playlists file"),
            PlaylistError::FileReadFailed => String::from_str("Couldn't read the playlists file"),
            PlaylistError::FileWriteFailed => String::from_str("Couldn't write the playlists file"),
            PlaylistError::ParseFailed => String::from_str("Couldn't parse the playlists file"),
            PlaylistError::InvalidUrl => surround("`", url, "` is not a valid URL"),
            PlaylistError::NoDomain => surround("`", url, "` is an invalid URL, expected a domain name"),
            PlaylistError::DomainNotAllowed => surround("`", url, "` is not a \"youtube.com\" URL"),
            PlaylistError::AlreadyExists => surround("Playlist `", name, "` already exists"),
            PlaylistError::NotFound => surround("Playlist `", name, "` not found"),
            PlaylistError::UpdateCheckFailed => String::from_str(
                "There was an error while updating YT-DLP",
            ),
            PlaylistError::DownloadLaunchFailed => String::from_str("There was an error running YT-DLP"),
        }
    }
}

} // verus!
