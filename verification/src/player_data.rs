//! The shared tables of the player and the operations that change them.

use crate::model::{
    has_id, index_of_id, lemma_appended_wf, lemma_index_unique, lemma_playlist_iff_owner,
    lemma_purged_wf, lemma_same_tables_wf, lemma_without_track_wf, PlayerView,
};
use crate::scope::{lemma_key_injective, GuildChannelID};
use crate::track::TrackInfo;
use std::collections::{HashMap, HashSet};
use vstd::prelude::*;

verus! {

broadcast use vstd::std_specs::hash::group_hash_axioms;

/// The tables that every command and every listener works on.
#[derive(Debug)]
pub struct PlayerData {
    /// The scopes whose call already has the two track listeners, so that
    /// the play command can run many times without attaching them again.
    call_global_event_handler_added: HashSet<u128>,
    /// The scope of each queued track: a listener is told the track's
    /// identifier and nothing else.
    track_2_channel: HashMap<u128, GuildChannelID>,
    /// The queue of each scope as it is shown; the call's own queue cannot
    /// be listed.
    playlist: HashMap<u128, Vec<TrackInfo>>,
}

impl View for PlayerData {
    type V = PlayerView;

    closed spec fn view(&self) -> PlayerView {
        PlayerView {
            handlers: Set::new(
                |s: GuildChannelID| self.call_global_event_handler_added@.contains(s.spec_key()),
            ),
            owners: self.track_2_channel@,
            playlists: Map::new(
                |s: GuildChannelID| self.playlist@.contains_key(s.spec_key()),
                |s: GuildChannelID| self.playlist@[s.spec_key()]@,
            ),
        }
    }
}

/// Finds the place of the track `id` in a playlist that holds it.
fn position_of(tracks: &Vec<TrackInfo>, id: u128) -> (k: usize)
    requires
        has_id(tracks@, id),
    ensures
        k < tracks@.len(),
        tracks@[k as int].id == id,
{
    let ghost w = index_of_id(tracks@, id);
    let n: usize = tracks.len();
    let mut k: usize = 0;
    while tracks[k].id != id
        invariant
            0 <= k <= w < tracks@.len() == n,
            tracks@[w].id == id,
        decreases w - k,
    {
        k += 1;
    }
    k
}

impl Default for PlayerData {
    fn default() -> (data: Self)
        ensures
            data@ == PlayerView::empty(),
            data.wf(),
    {
        PlayerData::new()
    }
}

impl PlayerData {
    /// The tables agree with one another.
    pub open spec fn wf(&self) -> bool {
        self@.wf()
    }

    /// Empty tables.
    pub fn new() -> (data: Self)
        ensures
            data@ == PlayerView::empty(),
            data.wf(),
    {
        let data = PlayerData {
            call_global_event_handler_added: HashSet::new(),
            track_2_channel: HashMap::new(),
            playlist: HashMap::new(),
        };
        assert(data@.handlers =~= Set::empty());
        assert(data@.owners =~= Map::empty());
        assert(data@.playlists =~= Map::empty());
        data
    }

    /// Tells whether the listeners of `scope` are recorded as attached.
    pub fn has_handlers(&self, scope: GuildChannelID) -> (res: bool)
        ensures
            res == self@.handlers.contains(scope),
    {
        let key = scope.key();
        self.call_global_event_handler_added.contains(&key)
    }

    /// Records the listeners of `scope` as attached. The answer tells
    /// whether they have to be attached now: it is `false` where they were
    /// recorded before, and the tables then stay as they are.
    pub fn register_handlers(&mut self, scope: GuildChannelID) -> (newly: bool)
        requires
            old(self).wf(),
        ensures
            final(self).wf(),
            newly == !old(self)@.handlers.contains(scope),
            final(self)@ == old(self)@.registered(scope),
    {
        let key = scope.key();
        let newly = self.call_global_event_handler_added.insert(key);
        proof {
            assert forall|s: GuildChannelID| s.spec_key() == key implies s == scope by {
                lemma_key_injective(s, scope);
            }
            assert(self@.handlers =~= old(self)@.handlers.insert(scope));
            assert(self@.playlists =~= old(self)@.playlists);
            lemma_same_tables_wf(old(self)@, self@);
        }
        newly
    }

    /// The scope that owns the track `track_id`, if any does.
    pub fn owner_of(&self, track_id: u128) -> (res: Option<GuildChannelID>)
        ensures
            match res {
                Some(scope) => self@.owned_by(track_id, scope),
                None => !self@.owners.contains_key(track_id),
            },
    {
        match self.track_2_channel.get(&track_id) {
            Some(scope) => Some(*scope),
            None => None,
        }
    }

    /// The playlist of `scope`, front first; `None` where it has none.
    pub fn queue(&self, scope: GuildChannelID) -> (res: Option<&Vec<TrackInfo>>)
        ensures
            match res {
                Some(tracks) => self@.playlists.contains_key(scope) && tracks@
                    == self@.playlists[scope],
                None => !self@.playlists.contains_key(scope),
            },
    {
        let key = scope.key();
        self.playlist.get(&key)
    }

    /// Puts `track` at the end of the playlist of `scope` and records
    /// `scope` as its owner. A track whose identifier is already owned is
    /// refused, and the tables then stay as they are.
    pub fn append_track(&mut self, scope: GuildChannelID, track: TrackInfo) -> (added: bool)
        requires
            old(self).wf(),
        ensures
            final(self).wf(),
            added == !old(self)@.owners.contains_key(track.id),
            final(self)@ == old(self)@.arrived(scope, track),
    {
        if self.track_2_channel.contains_key(&track.id) {
            return false;
        }
        let ghost before = self@;
        let key = scope.key();
        let id = track.id;
        let mut tracks = match self.playlist.remove(&key) {
            Some(tracks) => tracks,
            None => Vec::new(),
        };
        assert(tracks@ =~= before.playlist(scope));
        tracks.push(track);
        self.playlist.insert(key, tracks);
        self.track_2_channel.insert(id, scope);
        proof {
            assert forall|s: GuildChannelID| s.spec_key() == key implies s == scope by {
                lemma_key_injective(s, scope);
            }
            let after = before.appended(scope, track);
            assert(self@.handlers =~= after.handlers);
            assert(self@.playlists =~= after.playlists);
            lemma_appended_wf(before, scope, track);
        }
        true
    }

    /// Takes the front track off the playlist of `scope` and hands it out;
    /// it is no longer owned, and a playlist that is left empty leaves the
    /// table. Where `scope` has no playlist there is nothing to skip: the
    /// answer is `None` and the tables stay as they are.
    pub fn skip(&mut self, scope: GuildChannelID) -> (skipped: Option<TrackInfo>)
        requires
            old(self).wf(),
        ensures
            final(self).wf(),
            final(self)@ == old(self)@.skipped(scope),
            final(self)@.playlists.contains_key(scope) ==> final(self)@.owned_by(
                final(self)@.playlists[scope][0].id,
                scope,
            ),
            match skipped {
                Some(track) => old(self)@.playlists.contains_key(scope) && track == old(
                    self,
                )@.playlists[scope][0],
                None => !old(self)@.playlists.contains_key(scope) && final(self)@ == old(self)@,
            },
    {
        let ghost before = self@;
        let key = scope.key();
        proof {
            assert forall|s: GuildChannelID| s.spec_key() == key implies s == scope by {
                lemma_key_injective(s, scope);
            }
        }
        match self.playlist.remove(&key) {
            None => {
                assert(self@.handlers =~= before.handlers);
                assert(self@.playlists =~= before.playlists);
                None
            },
            Some(tracks) => {
                let mut tracks = tracks;
                assert(before.playlists.contains_key(scope));
                assert(before.holds(scope, 0));
                let first = tracks.remove(0);
                self.track_2_channel.remove(&first.id);
                if tracks.len() > 0 {
                    self.playlist.insert(key, tracks);
                }
                proof {
                    let after = before.without_track(scope, 0);
                    assert(self@.handlers =~= after.handlers);
                    assert(self@.playlists =~= after.playlists);
                    lemma_without_track_wf(before, scope, 0);
                    if after.playlists.contains_key(scope) {
                        assert(after.holds(scope, 0));
                    }
                }
                Some(first)
            },
        }
    }

    /// The queued descriptor of a track that has started to play, with the
    /// scope that owns it; `None` for a track that is not owned.
    pub fn track_started(&self, track_id: u128) -> (res: Option<(GuildChannelID, &TrackInfo)>)
        requires
            self.wf(),
        ensures
            match res {
                Some((scope, track)) => self@.owned_by(track_id, scope) && track.id == track_id
                    && *track == self@.playlists[scope][index_of_id(
                    self@.playlists[scope],
                    track_id,
                )],
                None => !self@.owners.contains_key(track_id),
            },
    {
        let scope = match self.track_2_channel.get(&track_id) {
            Some(scope) => *scope,
            None => {
                return None;
            },
        };
        let key = scope.key();
        assert(self@.owners.contains_key(track_id));
        assert(self@.playlists.contains_key(scope));
        match self.playlist.get(&key) {
            Some(tracks) => {
                let k = position_of(tracks, track_id);
                proof {
                    lemma_index_unique(self@, scope, k as int);
                }
                Some((scope, &tracks[k]))
            },
            None => {
                // An owned track is queued with its owner: this is never reached.
                proof {
                    assert(false);
                }
                None
            },
        }
    }

    /// A track has come to its end: it leaves its owner's playlist and is
    /// no longer owned; a playlist that is left empty leaves the table. The
    /// answer is the scope that owned it. For a track that is not owned the
    /// answer is `None` and the tables stay as they are.
    pub fn track_ended(&mut self, track_id: u128) -> (owner: Option<GuildChannelID>)
        requires
            old(self).wf(),
        ensures
            final(self).wf(),
            final(self)@ == old(self)@.ended(track_id),
            match owner {
                Some(scope) => old(self)@.owned_by(track_id, scope),
                None => !old(self)@.owners.contains_key(track_id) && final(self)@ == old(self)@,
            },
    {
        let ghost before = self@;
        let scope = match self.track_2_channel.get(&track_id) {
            Some(scope) => *scope,
            None => {
                return None;
            },
        };
        let key = scope.key();
        proof {
            assert forall|s: GuildChannelID| s.spec_key() == key implies s == scope by {
                lemma_key_injective(s, scope);
            }
            assert(before.owners.contains_key(track_id));
            assert(before.playlists.contains_key(scope));
        }
        match self.playlist.remove(&key) {
            Some(tracks) => {
                let mut tracks = tracks;
                let k = position_of(&tracks, track_id);
                proof {
                    assert(before.holds(scope, k as int));
                    lemma_index_unique(before, scope, k as int);
                }
                tracks.remove(k);
                self.track_2_channel.remove(&track_id);
                if tracks.len() > 0 {
                    self.playlist.insert(key, tracks);
                }
                proof {
                    let after = before.without_track(scope, k as int);
                    assert(self@.handlers =~= after.handlers);
                    assert(self@.playlists =~= after.playlists);
                    lemma_without_track_wf(before, scope, k as int);
                }
            },
            None => {
                // An owned track is queued with its owner: this is never reached.
                proof {
                    assert(false);
                }
            },
        }
        Some(scope)
    }

    /// Clears everything of `scope`: its listeners' record, its playlist and
    /// the ownership of every track it owns. The answer tells whether its
    /// listeners were recorded as attached.
    pub fn purge(&mut self, scope: GuildChannelID) -> (had_handlers: bool)
        requires
            old(self).wf(),
        ensures
            final(self).wf(),
            final(self)@ == old(self)@.purged(scope),
            had_handlers == old(self)@.handlers.contains(scope),
    {
        let ghost before = self@;
        let key = scope.key();
        proof {
            assert forall|s: GuildChannelID| s.spec_key() == key implies s == scope by {
                lemma_key_injective(s, scope);
            }
            lemma_playlist_iff_owner(before, scope);
        }
        let had_handlers = self.call_global_event_handler_added.remove(&key);
        match self.playlist.remove(&key) {
            Some(tracks) => {
                let ghost handlers = self.call_global_event_handler_added@;
                let ghost playlists = self.playlist@;
                let mut i: usize = 0;
                while i < tracks.len()
                    invariant
                        i <= tracks.len(),
                        self.call_global_event_handler_added@ == handlers,
                        self.playlist@ == playlists,
                        forall|id: u128| #[trigger]
                            self.track_2_channel@.contains_key(id) <==> (
                            before.owners.contains_key(id) && !has_id(tracks@.take(i as int), id)),
                        forall|id: u128| #[trigger]
                            self.track_2_channel@.contains_key(id) ==> self.track_2_channel@[id]
                                == before.owners[id],
                    decreases tracks.len() - i,
                {
                    let ghost seen = tracks@.take(i as int);
                    let ghost more = tracks@.take(i + 1);
                    let gone = tracks[i].id;
                    self.track_2_channel.remove(&gone);
                    proof {
                        assert forall|id: u128| #[trigger]
                            has_id(more, id) <==> (has_id(seen, id) || id == gone) by {
                            if has_id(more, id) {
                                let j = index_of_id(more, id);
                                if j < i {
                                    assert(seen[j].id == id);
                                }
                            }
                            if has_id(seen, id) {
                                let j = index_of_id(seen, id);
                                assert(more[j].id == id);
                            }
                            if id == gone {
                                assert(more[i as int].id == id);
                            }
                        }
                    }
                    i += 1;
                }
                proof {
                    assert(tracks@.take(i as int) =~= tracks@);
                    let after = before.purged(scope);
                    assert forall|id: u128| #[trigger]
                        before.owners.contains_key(id) implies (has_id(tracks@, id)
                        <==> before.owners[id] == scope) by {
                        if has_id(tracks@, id) {
                            let j = index_of_id(tracks@, id);
                            assert(before.holds(scope, j));
                            assert(before.owned_by(before.playlists[scope][j].id, scope));
                        }
                    }
                    assert(self@.owners =~= after.owners);
                    assert(self@.handlers =~= after.handlers);
                    assert(self@.playlists =~= after.playlists);
                }
            },
            None => {
                proof {
                    let after = before.purged(scope);
                    assert forall|id: u128| #[trigger]
                        before.owners.contains_key(id) implies before.owners[id] != scope by {
                        if before.owners[id] == scope {
                            assert(before.owned_by(id, scope));
                        }
                    }
                    assert(self@.owners =~= after.owners);
                    assert(self@.handlers =~= after.handlers);
                    assert(self@.playlists =~= after.playlists);
                }
            },
        }
        proof {
            lemma_purged_wf(before, scope);
        }
        had_handlers
    }
}

} // verus!
