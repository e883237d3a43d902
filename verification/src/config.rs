//! The configuration records of the tool: which playlists it knows, which
//! sources each destination synchronizes from, and where the platform
//! credential lives.  Reading and writing the configuration file, and every
//! interactive prompt, happen outside this crate; the operations here are the
//! rules applied to the records themselves.

use vstd::prelude::*;

verus! {

/// The options of the configuration command.
pub struct ConfigArgs {
    /// Identifier of a playlist to add to the configuration, empty for none.
    pub add: String,
    /// Identifier of a playlist to remove from the configuration, empty for
    /// none.
    pub remove: String,
    /// Whether to list all configured playlists.
    pub list: bool,
    /// Whether to reset the configuration to its default values.
    pub reset: bool,
    /// Path of the credential file for the platform, if it is to be set.
    pub oauth2_json: Option<String>,
}

/// One step a configuration invocation performs.  The surrounding program
/// carries each step out (prompting, fetching the playlist title, persisting
/// the file); which steps run, with which values and in which order, is
/// decided here.
pub enum ConfigAction {
    /// Reset the configuration to its default values (after confirmation);
    /// nothing else runs in the same invocation.
    Reset,
    /// Record `path` as the credential file path.
    SetOauthPath { path: String },
    /// Add the playlist `id`, with a title fetched from the platform and
    /// sources chosen by the user.
    AddPlaylist { id: String },
    /// Remove every playlist whose identifier is `id`.
    RemovePlaylist { id: String },
    /// List the configured playlists.
    List,
}

/// The steps requested by `args`, in the order the tool applies them: a
/// reset stands alone, and otherwise the credential path is set first, then
/// a playlist is added, one is removed, and the configuration is listed,
/// each only when asked for.
pub open spec fn planned_actions(args: ConfigArgs) -> Seq<ConfigAction> {
    if args.reset {
        seq![ConfigAction::Reset]
    } else {
        (match args.oauth2_json {
            Some(path) => seq![ConfigAction::SetOauthPath { path }],
            None => Seq::empty(),
        }) + (if args.add@.len() > 0 {
            seq![ConfigAction::AddPlaylist { id: args.add }]
        } else {
            Seq::empty()
        }) + (if args.remove@.len() > 0 {
            seq![ConfigAction::RemovePlaylist { id: args.remove }]
        } else {
            Seq::empty()
        }) + (if args.list {
            seq![ConfigAction::List]
        } else {
            Seq::empty()
        })
    }
}

/// One configured playlist.
pub struct Playlist {
    /// The platform-assigned identifier of the playlist.
    pub id: String,
    /// The display title of the playlist.
    pub title: String,
    /// The playlists this one synchronizes from, in order, or `None` when it
    /// is not a destination.
    pub sync_from: Option<Vec<String>>,
}

/// The stored configuration: an optional credential path and the list of
/// configured playlists.
pub struct Config {
    /// Path of the credential file for the platform, if one is configured.
    pub oauth2_json: Option<String>,
    /// The configured playlists, in the order they were added.
    pub playlists: Vec<Playlist>,
}

impl Default for Config {
    /// A fresh configuration: no credential path and no playlists.
    fn default() -> (c: Self)
        ensures
            c.oauth2_json is None,
            c.playlists@ == Seq::<Playlist>::empty(),
    {
        Config { playlists: Vec::new(), oauth2_json: None }
    }
}

/// The playlists of `ps` whose identifier is not `id`, in order.
pub open spec fn without_id(ps: Seq<Playlist>, id: Seq<char>) -> Seq<Playlist>
    decreases ps.len(),
{
    if ps.len() == 0 {
        Seq::empty()
    } else {
        let rest = without_id(ps.drop_last(), id);
        if ps.last().id@ == id {
            rest
        } else {
            rest.push(ps.last())
        }
    }
}

/// Whether some entry of `ids` spells the identifier `id`.
pub open spec fn contains_string(ids: Seq<String>, id: Seq<char>) -> bool {
    exists|i: int| 0 <= i < ids.len() && ids[i]@ == id
}

/// Whether `p` names `id` among the playlists it synchronizes from.
pub open spec fn syncs_from(p: Playlist, id: Seq<char>) -> bool {
    match p.sync_from {
        Some(ids) => contains_string(ids@, id),
        None => false,
    }
}

/// Whether `p` may serve as a source for the playlist `id`: it is not that
/// playlist itself, and it does not already synchronize from it, which would
/// create a cycle.
pub open spec fn eligible_source(p: Playlist, id: Seq<char>) -> bool {
    p.id@ != id && !syncs_from(p, id)
}

/// The identifier and title of every playlist of `ps` that may serve as a
/// source for `id`, in configuration order.
pub open spec fn eligible_choices(ps: Seq<Playlist>, id: Seq<char>) -> Seq<(String, String)>
    decreases ps.len(),
{
    if ps.len() == 0 {
        Seq::empty()
    } else {
        let rest = eligible_choices(ps.drop_last(), id);
        if eligible_source(ps.last(), id) {
            rest.push((ps.last().id, ps.last().title))
        } else {
            rest
        }
    }
}

/// The playlists of `ps` whose identifier is `id`, in order.
pub open spec fn with_id(ps: Seq<Playlist>, id: Seq<char>) -> Seq<Playlist>
    decreases ps.len(),
{
    if ps.len() == 0 {
        Seq::empty()
    } else {
        let rest = with_id(ps.drop_last(), id);
        if ps.last().id@ == id {
            rest.push(ps.last())
        } else {
            rest
        }
    }
}

fn string_vec_contains(ids: &Vec<String>, id: &String) -> (r: bool)
    ensures
        r == contains_string(ids@, id@),
{
    let mut i: usize = 0;
    while i < ids.len()
        invariant
            i <= ids@.len(),
            forall|k: int| 0 <= k < i ==> ids@[k]@ != id@,
        decreases ids@.len() - i,
    {
        if ids[i] == *id {
            return true;
        }
        i = i + 1;
    }
    false
}

fn is_eligible_source(p: &Playlist, id: &String) -> (r: bool)
    ensures
        r == eligible_source(*p, id@),
{
    if p.id == *id {
        return false;
    }
    match &p.sync_from {
        Some(ids) => !string_vec_contains(ids, id),
        None => true,
    }
}

/// The playlists the user may pick as sources for `playlist_id`: every
/// configured playlist except the target itself and those that already
/// synchronize from it.  Each is reported as its identifier and title, in
/// configuration order.
pub fn eligible_sync_sources(cfg: &Config, playlist_id: &str) -> (r: Vec<(String, String)>)
    ensures
        r@ == eligible_choices(cfg.playlists@, playlist_id@),
{
    let target: String = playlist_id.to_owned();
    let mut r: Vec<(String, String)> = Vec::new();
    let mut i: usize = 0;
    while i < cfg.playlists.len()
        invariant
            i <= cfg.playlists@.len(),
            target@ == playlist_id@,
            r@ == eligible_choices(cfg.playlists@.take(i as int), playlist_id@),
        decreases cfg.playlists@.len() - i,
    {
        proof {
            assert(cfg.playlists@.take(i + 1).drop_last() =~= cfg.playlists@.take(i as int));
            assert(cfg.playlists@.take(i + 1).last() == cfg.playlists@[i as int]);
        }
        let p = &cfg.playlists[i];
        if is_eligible_source(p, &target) {
            r.push((p.id.clone(), p.title.clone()));
        }
        i = i + 1;
    }
    proof {
        assert(cfg.playlists@.take(cfg.playlists@.len() as int) =~= cfg.playlists@);
    }
    r
}

/// Narrows the configured playlists to those one sync invocation applies to:
/// all of them, or only the single playlist the caller named.
pub fn select_playlists_to_sync(playlists: Vec<Playlist>, playlist_id: &Option<String>) -> (r:
    Vec<Playlist>)
    ensures
        playlist_id is None ==> r@ == playlists@,
        playlist_id matches Some(pid) ==> r@ == with_id(playlists@, pid@),
{
    match playlist_id {
        None => playlists,
        Some(pid) => {
            let mut pending = playlists;
            let mut r: Vec<Playlist> = Vec::new();
            let ghost orig: Seq<Playlist> = pending@;
            let ghost mut k: int = 0;
            while pending.len() > 0
                invariant
                    0 <= k <= orig.len(),
                    pending@ == orig.skip(k),
                    r@ == with_id(orig.take(k), pid@),
                decreases pending@.len(),
            {
                proof {
                    assert(orig.take(k + 1).drop_last() =~= orig.take(k));
                    assert(orig.take(k + 1).last() == orig[k]);
                    assert(orig.skip(k)[0] == orig[k]);
                    assert(orig.skip(k).remove(0) =~= orig.skip(k + 1));
                }
                let p = pending.remove(0);
                if p.id == *pid {
                    r.push(p);
                }
                proof {
                    k = k + 1;
                }
            }
            proof {
                assert(orig.take(orig.len() as int) =~= orig);
            }
            r
        },
    }
}

impl ConfigArgs {
    /// The steps this invocation performs, in order.
    pub fn requested_actions(self) -> (r: Vec<ConfigAction>)
        ensures
            r@ == planned_actions(self),
    {
        let ConfigArgs { add, remove, list, reset, oauth2_json } = self;
        let mut r: Vec<ConfigAction> = Vec::new();
        if reset {
            r.push(ConfigAction::Reset);
            proof {
                assert(r@ =~= planned_actions(self));
            }
            return r;
        }
        match oauth2_json {
            Some(path) => r.push(ConfigAction::SetOauthPath { path }),
            None => (),
        }
        if !add.as_str().is_empty() {
            r.push(ConfigAction::AddPlaylist { id: add });
        }
        if !remove.as_str().is_empty() {
            r.push(ConfigAction::RemovePlaylist { id: remove });
        }
        if list {
            r.push(ConfigAction::List);
        }
        proof {
            assert(r@ =~= planned_actions(self));
        }
        r
    }
}

impl Playlist {
    /// Builds a configuration record from a fetched title and the chosen
    /// source identifiers; an empty choice is stored as no source list.
    pub fn new(id: String, title: String, sync_from: Vec<String>) -> (p: Playlist)
        ensures
            p.id == id,
            p.title == title,
            sync_from@.len() == 0 ==> p.sync_from is None,
            sync_from@.len() > 0 ==> p.sync_from == (Some(sync_from)),
    {
        let sync_from = if sync_from.is_empty() {
            None
        } else {
            Some(sync_from)
        };
        Playlist { id, title, sync_from }
    }
}

impl Config {
    /// Appends a playlist to the configuration, leaving the rest unchanged.
    pub fn add_playlist(&mut self, playlist: Playlist) -> (r: &Self)
        ensures
            final(self).playlists@ == old(self).playlists@.push(playlist),
            final(self).oauth2_json == old(self).oauth2_json,
            *r == *final(self),
    {
        self.playlists.push(playlist);
        self
    }

    /// Removes every playlist whose identifier is `id`, keeping the order of
    /// the rest.
    pub fn remove_playlist(&mut self, id: &str) -> (r: &Self)
        ensures
            final(self).playlists@ == without_id(old(self).playlists@, id@),
            final(self).oauth2_json == old(self).oauth2_json,
            *r == *final(self),
    {
        let id_owned: String = id.to_owned();
        let mut pending: Vec<Playlist> = Vec::new();
        core::mem::swap(&mut pending, &mut self.playlists);
        let ghost orig: Seq<Playlist> = pending@;
        let ghost mut k: int = 0;
        while pending.len() > 0
            invariant
                0 <= k <= orig.len(),
                pending@ == orig.skip(k),
                self.playlists@ == without_id(orig.take(k), id_owned@),
                self.oauth2_json == old(self).oauth2_json,
                id_owned@ == id@,
            decreases pending@.len(),
        {
            proof {
                assert(orig.take(k + 1).drop_last() =~= orig.take(k));
                assert(orig.take(k + 1).last() == orig[k]);
                assert(orig.skip(k)[0] == orig[k]);
                assert(orig.skip(k).remove(0) =~= orig.skip(k + 1));
            }
            let p = pending.remove(0);
            if !(p.id == id_owned) {
                self.playlists.push(p);
            }
            proof {
                k = k + 1;
            }
        }
        proof {
            assert(orig.take(orig.len() as int) =~= orig);
        }
        self
    }

    /// Sets (or clears) the credential file path, leaving the playlists
    /// unchanged.
    pub fn set_oauth_path(&mut self, oauth2_json: Option<String>)
        ensures
            final(self).oauth2_json == oauth2_json,
            final(self).playlists@ == old(self).playlists@,
    {
        self.oauth2_json = oauth2_json;
    }
}

} // verus!
