//! The tables of the player as mathematical values, and how each operation
//! changes them.

use crate::scope::GuildChannelID;
use crate::track::TrackInfo;
use vstd::prelude::*;

verus! {

/// The three tables: which scopes have their listeners attached, which scope
/// owns each track, and the playlist of each scope.
pub struct PlayerView {
    pub handlers: Set<GuildChannelID>,
    pub owners: Map<u128, GuildChannelID>,
    pub playlists: Map<GuildChannelID, Seq<TrackInfo>>,
}

/// Some track of `tracks` has the identifier `id`.
pub open spec fn has_id(tracks: Seq<TrackInfo>, id: u128) -> bool {
    exists|i: int| 0 <= i < tracks.len() && (#[trigger] tracks[i]).id == id
}

/// The place of a track with the identifier `id` in `tracks`.
pub open spec fn index_of_id(tracks: Seq<TrackInfo>, id: u128) -> int {
    choose|i: int| 0 <= i < tracks.len() && (#[trigger] tracks[i]).id == id
}

impl PlayerView {
    /// No table holds anything.
    pub open spec fn empty() -> PlayerView {
        PlayerView { handlers: Set::empty(), owners: Map::empty(), playlists: Map::empty() }
    }

    /// The playlist of `scope`; empty where it has none.
    pub open spec fn playlist(self, scope: GuildChannelID) -> Seq<TrackInfo> {
        if self.playlists.contains_key(scope) {
            self.playlists[scope]
        } else {
            Seq::empty()
        }
    }

    /// `scope` has a playlist with a track at place `i`.
    pub open spec fn holds(self, scope: GuildChannelID, i: int) -> bool {
        self.playlists.contains_key(scope) && 0 <= i < self.playlists[scope].len()
    }

    /// `id` is owned, and `scope` is its owner.
    pub open spec fn owned_by(self, id: u128, scope: GuildChannelID) -> bool {
        self.owners.contains_key(id) && self.owners[id] == scope
    }

    /// The tables agree: no playlist is empty; every queued track is owned by
    /// the scope whose playlist holds it; every owned track is queued in its
    /// owner's playlist; and no playlist holds an identifier twice.
    pub open spec fn wf(self) -> bool {
        &&& forall|s: GuildChannelID| #[trigger]
            self.playlists.contains_key(s) ==> self.playlists[s].len() > 0
        &&& forall|s: GuildChannelID, i: int| #[trigger]
            self.holds(s, i) ==> self.owned_by(self.playlists[s][i].id, s)
        &&& forall|id: u128| #[trigger]
            self.owners.contains_key(id) ==> self.playlists.contains_key(self.owners[id])
                && has_id(self.playlists[self.owners[id]], id)
        &&& forall|s: GuildChannelID, i: int, j: int|
            #![trigger self.holds(s, i), self.holds(s, j)]
            self.holds(s, i) && self.holds(s, j) && i != j ==> self.playlists[s][i].id
                != self.playlists[s][j].id
    }

    /// The listeners of `scope` are recorded as attached.
    pub open spec fn registered(self, scope: GuildChannelID) -> PlayerView {
        PlayerView { handlers: self.handlers.insert(scope), ..self }
    }

    /// `track` is put at the end of the playlist of `scope`, which becomes
    /// its owner.
    pub open spec fn appended(self, scope: GuildChannelID, track: TrackInfo) -> PlayerView {
        PlayerView {
            handlers: self.handlers,
            owners: self.owners.insert(track.id, scope),
            playlists: self.playlists.insert(scope, self.playlist(scope).push(track)),
        }
    }

    /// A track arrives for `scope`: it is appended unless its identifier is
    /// already owned.
    pub open spec fn arrived(self, scope: GuildChannelID, track: TrackInfo) -> PlayerView {
        if self.owners.contains_key(track.id) {
            self
        } else {
            self.appended(scope, track)
        }
    }

    /// The tracks of `tracks` arrive for `scope`, one after the other.
    pub open spec fn arrived_all(self, scope: GuildChannelID, tracks: Seq<TrackInfo>) -> PlayerView
        decreases tracks.len(),
    {
        if tracks.len() == 0 {
            self
        } else {
            self.arrived_all(scope, tracks.drop_last()).arrived(scope, tracks.last())
        }
    }

    /// Those of `tracks` that are appended when they arrive for `scope` one
    /// after the other, in the order of their arrival.
    pub open spec fn accepted(self, scope: GuildChannelID, tracks: Seq<TrackInfo>) -> Seq<
        TrackInfo,
    >
        decreases tracks.len(),
    {
        if tracks.len() == 0 {
            Seq::empty()
        } else if self.arrived_all(scope, tracks.drop_last()).owners.contains_key(
            tracks.last().id,
        ) {
            self.accepted(scope, tracks.drop_last())
        } else {
            self.accepted(scope, tracks.drop_last()).push(tracks.last())
        }
    }

    /// The playlist of `scope` becomes `rest`; an empty one leaves the table.
    pub open spec fn with_playlist(
        self,
        scope: GuildChannelID,
        rest: Seq<TrackInfo>,
    ) -> Map<GuildChannelID, Seq<TrackInfo>> {
        if rest.len() == 0 {
            self.playlists.remove(scope)
        } else {
            self.playlists.insert(scope, rest)
        }
    }

    /// The track at place `i` of the playlist of `scope` leaves both tables.
    pub open spec fn without_track(self, scope: GuildChannelID, i: int) -> PlayerView {
        PlayerView {
            handlers: self.handlers,
            owners: self.owners.remove(self.playlists[scope][i].id),
            playlists: self.with_playlist(scope, self.playlists[scope].remove(i)),
        }
    }

    /// The front track of `scope` is skipped; nothing changes where `scope`
    /// has no playlist.
    pub open spec fn skipped(self, scope: GuildChannelID) -> PlayerView {
        if self.playlists.contains_key(scope) {
            self.without_track(scope, 0)
        } else {
            self
        }
    }

    /// The track `id` has come to its end; nothing changes where it is not
    /// owned.
    pub open spec fn ended(self, id: u128) -> PlayerView {
        if self.owners.contains_key(id) {
            self.without_track(self.owners[id], index_of_id(self.playlists[self.owners[id]], id))
        } else {
            self
        }
    }

    /// Everything of `scope` leaves the three tables.
    pub open spec fn purged(self, scope: GuildChannelID) -> PlayerView {
        PlayerView {
            handlers: self.handlers.remove(scope),
            owners: Map::new(
                |id: u128| self.owners.contains_key(id) && self.owners[id] != scope,
                |id: u128| self.owners[id],
            ),
            playlists: self.playlists.remove(scope),
        }
    }

    /// No table holds an entry for `scope`.
    pub open spec fn free_of(self, scope: GuildChannelID) -> bool {
        &&& !self.handlers.contains(scope)
        &&& !self.playlists.contains_key(scope)
        &&& forall|id: u128| #[trigger] self.owners.contains_key(id) ==> self.owners[id] != scope
    }
}

/// In agreeing tables a track identifier has one place in a playlist.
pub proof fn lemma_index_unique(v: PlayerView, scope: GuildChannelID, i: int)
    requires
        v.wf(),
        v.holds(scope, i),
    ensures
        index_of_id(v.playlists[scope], v.playlists[scope][i].id) == i,
{
    let tracks = v.playlists[scope];
    let id = tracks[i].id;
    let j = index_of_id(tracks, id);
    assert(0 <= j < tracks.len() && tracks[j].id == id);
    assert(v.holds(scope, j));
}

/// Agreement is a matter of the ownership table and the playlists alone.
pub proof fn lemma_same_tables_wf(v: PlayerView, w: PlayerView)
    requires
        v.wf(),
        w.owners == v.owners,
        w.playlists == v.playlists,
    ensures
        w.wf(),
{
    assert forall|s: GuildChannelID, i: int| #[trigger] w.holds(s, i) implies w.owned_by(
        w.playlists[s][i].id,
        s,
    ) by {
        assert(v.holds(s, i));
        assert(v.owned_by(v.playlists[s][i].id, s));
    }
    assert forall|s: GuildChannelID, i: int, j: int|
        #![trigger w.holds(s, i), w.holds(s, j)]
        w.holds(s, i) && w.holds(s, j) && i != j implies w.playlists[s][i].id
        != w.playlists[s][j].id by {
        assert(v.holds(s, i) && v.holds(s, j));
    }
}

/// Appending a track whose identifier is not yet owned keeps the tables in
/// agreement.
pub proof fn lemma_appended_wf(v: PlayerView, scope: GuildChannelID, track: TrackInfo)
    requires
        v.wf(),
        !v.owners.contains_key(track.id),
    ensures
        v.appended(scope, track).wf(),
{
    let w = v.appended(scope, track);
    let old_len = v.playlist(scope).len() as int;
    assert forall|s: GuildChannelID, i: int| #[trigger] w.holds(s, i) implies w.owned_by(
        w.playlists[s][i].id,
        s,
    ) by {
        if s == scope && i == old_len {
        } else {
            assert(v.holds(s, i));
        }
    }
    assert forall|id: u128| #[trigger] w.owners.contains_key(id) implies w.playlists.contains_key(
        w.owners[id],
    ) && has_id(w.playlists[w.owners[id]], id) by {
        if id == track.id {
            assert(w.playlists[scope][old_len].id == id);
        } else {
            let s = v.owners[id];
            let i = index_of_id(v.playlists[s], id);
            assert(w.playlists[s][i].id == id);
        }
    }
    assert forall|s: GuildChannelID, i: int, j: int|
        #![trigger w.holds(s, i), w.holds(s, j)]
        w.holds(s, i) && w.holds(s, j) && i != j implies w.playlists[s][i].id
        != w.playlists[s][j].id by {
        if s == scope {
            if i == old_len {
                assert(v.holds(s, j));
            } else if j == old_len {
                assert(v.holds(s, i));
            } else {
                assert(v.holds(s, i) && v.holds(s, j));
            }
        } else {
            assert(v.holds(s, i) && v.holds(s, j));
        }
    }
}

/// Taking a queued track out of both tables keeps them in agreement.
pub proof fn lemma_without_track_wf(v: PlayerView, scope: GuildChannelID, k: int)
    requires
        v.wf(),
        v.holds(scope, k),
    ensures
        v.without_track(scope, k).wf(),
{
    let w = v.without_track(scope, k);
    let tracks = v.playlists[scope];
    let gone = tracks[k].id;
    let rest = tracks.remove(k);
    assert(v.owned_by(gone, scope));
    assert forall|s: GuildChannelID, i: int| #[trigger] w.holds(s, i) implies w.owned_by(
        w.playlists[s][i].id,
        s,
    ) by {
        if s == scope {
            let i0 = if i < k { i } else { i + 1 };
            assert(rest[i] == tracks[i0]);
            assert(v.holds(s, i0));
            assert(v.holds(s, k));
        } else {
            assert(v.holds(s, i));
            assert(v.owned_by(v.playlists[s][i].id, s));
        }
    }
    assert forall|id: u128| #[trigger] w.owners.contains_key(id) implies w.playlists.contains_key(
        w.owners[id],
    ) && has_id(w.playlists[w.owners[id]], id) by {
        let s = v.owners[id];
        let i = index_of_id(v.playlists[s], id);
        assert(v.holds(s, i));
        if s == scope {
            assert(i != k);
            let i1 = if i < k { i } else { i - 1 };
            assert(rest[i1] == tracks[i]);
            assert(w.playlists[s][i1].id == id);
        } else {
            assert(w.playlists[s][i].id == id);
        }
    }
    assert forall|s: GuildChannelID, i: int, j: int|
        #![trigger w.holds(s, i), w.holds(s, j)]
        w.holds(s, i) && w.holds(s, j) && i != j implies w.playlists[s][i].id
        != w.playlists[s][j].id by {
        if s == scope {
            let i0 = if i < k { i } else { i + 1 };
            let j0 = if j < k { j } else { j + 1 };
            assert(rest[i] == tracks[i0]);
            assert(rest[j] == tracks[j0]);
            assert(v.holds(s, i0) && v.holds(s, j0));
        } else {
            assert(v.holds(s, i) && v.holds(s, j));
        }
    }
}

/// When an owned track ends, its entry and nothing else leaves the tables:
/// it is no longer owned and no longer queued, the tracks queued around it
/// keep their order, a playlist that held it alone leaves the table, and
/// the listeners, the other owners and the other playlists stay as they
/// are.
pub proof fn lemma_ended_removes_exactly(v: PlayerView, id: u128)
    requires
        v.wf(),
        v.owners.contains_key(id),
    ensures
        ({
            let s = v.owners[id];
            let k = index_of_id(v.playlists[s], id);
            let w = v.ended(id);
            &&& w.wf()
            &&& w.handlers == v.handlers
            &&& w.owners == v.owners.remove(id)
            &&& 0 <= k < v.playlists[s].len() && v.playlists[s][k].id == id
            &&& w.playlist(s) == v.playlists[s].remove(k)
            &&& !has_id(w.playlist(s), id)
            &&& w.playlists.contains_key(s) <==> v.playlists[s].len() > 1
            &&& forall|o: GuildChannelID|
                o != s ==> w.playlists.contains_key(o) == v.playlists.contains_key(o)
                    && #[trigger] w.playlist(o) == v.playlist(o)
        }),
{
    let s = v.owners[id];
    let tracks = v.playlists[s];
    let k = index_of_id(tracks, id);
    let w = v.ended(id);
    assert(has_id(tracks, id));
    assert(v.holds(s, k));
    lemma_without_track_wf(v, s, k);
    let rest = tracks.remove(k);
    assert(w.playlist(s) =~= rest);
    if has_id(rest, id) {
        let j = index_of_id(rest, id);
        let j0 = if j < k { j } else { j + 1 };
        assert(rest[j] == tracks[j0]);
        assert(v.holds(s, j0));
    }
}

/// Purging a scope keeps the tables in agreement.
pub proof fn lemma_purged_wf(v: PlayerView, scope: GuildChannelID)
    requires
        v.wf(),
    ensures
        v.purged(scope).wf(),
{
    let w = v.purged(scope);
    assert forall|s: GuildChannelID, i: int| #[trigger] w.holds(s, i) implies w.owned_by(
        w.playlists[s][i].id,
        s,
    ) by {
        assert(v.holds(s, i));
        assert(v.owned_by(v.playlists[s][i].id, s));
    }
    assert forall|s: GuildChannelID, i: int, j: int|
        #![trigger w.holds(s, i), w.holds(s, j)]
        w.holds(s, i) && w.holds(s, j) && i != j implies w.playlists[s][i].id
        != w.playlists[s][j].id by {
        assert(v.holds(s, i) && v.holds(s, j));
    }
}

/// A scope has a playlist exactly when it owns at least one track.
pub proof fn lemma_playlist_iff_owner(v: PlayerView, scope: GuildChannelID)
    requires
        v.wf(),
    ensures
        v.playlists.contains_key(scope) <==> exists|id: u128| #[trigger] v.owned_by(id, scope),
{
    if v.playlists.contains_key(scope) {
        assert(v.holds(scope, 0));
        assert(v.owned_by(v.playlists[scope][0].id, scope));
    }
}

/// A purge leaves no entry for the scope in any table, and a second purge
/// right after the first changes nothing.
pub proof fn lemma_purge_idempotent(v: PlayerView, scope: GuildChannelID)
    ensures
        v.purged(scope).free_of(scope),
        v.purged(scope).purged(scope) == v.purged(scope),
{
    let w = v.purged(scope);
    let x = w.purged(scope);
    assert(x.handlers =~= w.handlers);
    assert(x.owners =~= w.owners);
    assert(x.playlists =~= w.playlists);
}

/// A purge touches nothing of another scope.
pub proof fn lemma_purge_isolated(v: PlayerView, scope: GuildChannelID, other: GuildChannelID)
    requires
        other != scope,
    ensures
        v.purged(scope).handlers.contains(other) == v.handlers.contains(other),
        v.purged(scope).playlists.contains_key(other) == v.playlists.contains_key(other),
        v.purged(scope).playlist(other) == v.playlist(other),
        forall|id: u128| v.owned_by(id, other) <==> v.purged(scope).owned_by(id, other),
{
}

/// Whatever tracks arrive for a scope, its playlist grows at its end by
/// those that are appended, in the order of their arrival; the tables stay
/// in agreement and no other playlist changes.
pub proof fn lemma_arrivals_append_in_order(
    v: PlayerView,
    scope: GuildChannelID,
    tracks: Seq<TrackInfo>,
)
    requires
        v.wf(),
    ensures
        v.arrived_all(scope, tracks).wf(),
        v.arrived_all(scope, tracks).playlist(scope) == v.playlist(scope) + v.accepted(
            scope,
            tracks,
        ),
        v.arrived_all(scope, tracks).handlers == v.handlers,
        forall|o: GuildChannelID|
            o != scope ==> #[trigger] v.arrived_all(scope, tracks).playlist(o) == v.playlist(o),
    decreases tracks.len(),
{
    if tracks.len() == 0 {
        assert(v.playlist(scope) + v.accepted(scope, tracks) =~= v.playlist(scope));
    } else {
        let front = tracks.drop_last();
        let last = tracks.last();
        lemma_arrivals_append_in_order(v, scope, front);
        let mid = v.arrived_all(scope, front);
        if !mid.owners.contains_key(last.id) {
            lemma_appended_wf(mid, scope, last);
            let end = mid.appended(scope, last);
            assert(end.playlist(scope) =~= v.playlist(scope) + v.accepted(scope, tracks));
            assert forall|o: GuildChannelID| o != scope implies #[trigger] end.playlist(o)
                == v.playlist(o) by {
                assert(end.playlist(o) == mid.playlist(o));
            }
        }
    }
}

/// Tracks with fresh, pairwise distinct identifiers that arrive for a scope
/// stand at the end of its playlist in the order of their arrival, and the
/// tables stay in agreement.
pub proof fn lemma_arrivals_keep_order(
    v: PlayerView,
    scope: GuildChannelID,
    tracks: Seq<TrackInfo>,
)
    requires
        v.wf(),
        forall|i: int| 0 <= i < tracks.len() ==> !v.owners.contains_key((#[trigger] tracks[i]).id),
        forall|i: int, j: int|
            0 <= i < j < tracks.len() ==> (#[trigger] tracks[i]).id != (#[trigger] tracks[j]).id,
    ensures
        v.arrived_all(scope, tracks).wf(),
        v.arrived_all(scope, tracks).playlist(scope) == v.playlist(scope) + tracks,
        v.arrived_all(scope, tracks).owners.dom() == v.owners.dom().union(
            tracks.map_values(|t: TrackInfo| t.id).to_set(),
        ),
    decreases tracks.len(),
{
    let ids = tracks.map_values(|t: TrackInfo| t.id);
    if tracks.len() == 0 {
        assert(v.playlist(scope) + tracks =~= v.playlist(scope));
        assert(v.owners.dom().union(ids.to_set()) =~= v.owners.dom());
    } else {
        let front = tracks.drop_last();
        let last = tracks.last();
        let front_ids = front.map_values(|t: TrackInfo| t.id);
        assert forall|i: int| 0 <= i < front.len() implies !v.owners.contains_key(
            (#[trigger] front[i]).id,
        ) by {
            assert(front[i] == tracks[i]);
        }
        assert forall|i: int, j: int| 0 <= i < j < front.len() implies (#[trigger] front[i]).id != (
        #[trigger] front[j]).id by {
            assert(front[i] == tracks[i] && front[j] == tracks[j]);
        }
        lemma_arrivals_keep_order(v, scope, front);
        let mid = v.arrived_all(scope, front);
        assert(!mid.owners.contains_key(last.id)) by {
            if front_ids.to_set().contains(last.id) {
                let i = choose|i: int| 0 <= i < front_ids.len() && front_ids[i] == last.id;
                assert(front[i] == tracks[i]);
                assert(tracks[tracks.len() - 1] == last);
            }
            assert(tracks[tracks.len() - 1] == last);
        }
        lemma_appended_wf(mid, scope, last);
        let end = mid.appended(scope, last);
        assert(end.playlist(scope) =~= v.playlist(scope) + tracks) by {
            assert(front.push(last) =~= tracks);
        }
        assert(end.owners.dom() =~= v.owners.dom().union(ids.to_set())) by {
            assert forall|id: u128| ids.to_set().contains(id) <==> (front_ids.to_set().contains(id)
                || id == last.id) by {
                if ids.to_set().contains(id) {
                    let i = choose|i: int| 0 <= i < ids.len() && ids[i] == id;
                    if i < front.len() {
                        assert(front_ids[i] == id);
                    }
                }
                if front_ids.to_set().contains(id) {
                    let i = choose|i: int| 0 <= i < front_ids.len() && front_ids[i] == id;
                    assert(ids[i] == id);
                }
                if id == last.id {
                    assert(ids[tracks.len() - 1] == id);
                }
            }
        }
    }
}

} // verus!
