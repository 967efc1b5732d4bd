use crate::error::PlaylistError;
use crate::registry::{entries_map, names_unique, Registry};
use crate::url_check::{url_verdict, validate_url};
use vstd::prelude::*;

verus! {

/// What adding `url` under `name` to a registry holding `m` gives: the URL is
/// judged first, then the name must be new.
pub open spec fn add_verdict(m: Map<Seq<char>, Seq<char>>, name: Seq<char>, url: Seq<char>) -> Result<
    (),
    PlaylistError,
> {
    match url_verdict(url) {
        Err(e) => Err(e),
        Ok(()) => if m.contains_key(name) {
            Err(PlaylistError::AlreadyExists)
        } else {
            Ok(())
        },
    }
}

/// Adding a name that is already tracked, with a URL that passes the checks,
/// fails as a duplicate (`add_playlist` then leaves the registry as it was).
pub proof fn lemma_duplicate_rejected(m: Map<Seq<char>, Seq<char>>, name: Seq<char>, url: Seq<char>)
    requires
        m.contains_key(name),
        url_verdict(url) is Ok,
    ensures
        add_verdict(m, name, url) == Err::<(), PlaylistError>(PlaylistError::AlreadyExists),
{
}

/// Tracks `url` under `name`, once the URL has been checked and the name found
/// to be new. On failure the registry is left as it was.
pub fn add_playlist(playlists: &mut Registry, name: &str, url: &str) -> (r: Result<(), PlaylistError>)
    requires
        old(playlists).wf(),
    ensures
        final(playlists).wf(),
        r == add_verdict(old(playlists)@, name@, url@),
        r is Ok ==> final(playlists)@ == old(playlists)@.insert(name@, url@),
        r is Err ==> final(playlists)@ == old(playlists)@,
{
    validate_url(url)?;
    if playlists.contains(name) {
        return Err(PlaylistError::AlreadyExists);
    }
    playlists.insert_new(name, url);
    Ok(())
}

/// Stops tracking `name`. Returns the URL it had, or `None` where it was not
/// tracked; that is no error, and the registry is then left as it was.
pub fn remove_playlist(playlists: &mut Registry, name: &str) -> (r: Option<String>)
    requires
        old(playlists).wf(),
    ensures
        final(playlists).wf(),
        final(playlists)@ == old(playlists)@.remove(name@),
        r is Some <==> old(playlists)@.contains_key(name@),
        r matches Some(u) ==> u@ == old(playlists)@[name@],
        !old(playlists)@.contains_key(name@) ==> final(playlists)@ == old(playlists)@,
{
    let r = playlists.remove(name);
    assert(!old(playlists)@.contains_key(name@) ==> old(playlists)@.remove(name@) =~= old(
        playlists,
    )@);
    r
}

/// Every tracked playlist exactly once, as (name, URL) pairs, for display.
pub fn view_playlists(playlists: &Registry) -> (r: Vec<(String, String)>)
    requires
        playlists.wf(),
    ensures
        names_unique(r@),
        entries_map(r@) == playlists@,
{
    playlists.entries()
}

/// The URL tracked under `name`.
pub fn get_url_from_playlists(playlists: &Registry, name: &str) -> (r: Result<
    String,
    PlaylistError,
>)
    requires
        playlists.wf(),
    ensures
        r is Ok <==> playlists@.contains_key(name@),
        r matches Ok(u) ==> u@ == playlists@[name@],
        r matches Err(e) ==> e == PlaylistError::NotFound,
{
    match playlists.get(name) {
        Some(u) => Ok(u),
        None => Err(PlaylistError::NotFound),
    }
}

} // verus!
