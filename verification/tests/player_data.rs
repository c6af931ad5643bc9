use taxer::control::{nuke, on_track_ended, on_track_started, PlayMode};
use taxer::player_data::PlayerData;
use taxer::scope::GuildChannelID;
use taxer::track::TrackInfo;

fn scope(guild_id: u64, channel_id: u64) -> GuildChannelID {
    GuildChannelID { guild_id, channel_id }
}

fn track(id: u128, title: &str) -> TrackInfo {
    TrackInfo {
        id,
        url: format!("https://example.org/{}", id),
        formats: None,
        duration_in_sec: 61,
        title: title.to_string(),
        thumbnail: Some(format!("pic{}", id)),
        artist: Some("Artist".to_string()),
        uploader: None,
    }
}

fn ids(data: &PlayerData, s: GuildChannelID) -> Option<Vec<u128>> {
    data.queue(s).map(|tracks| tracks.iter().map(|t| t.id).collect())
}

#[test]
fn playlist_keeps_the_order_of_arrival() {
    let s = scope(1, 2);
    let mut data = PlayerData::new();
    for id in [5u128, 3, 9, 1] {
        assert!(data.append_track(s, track(id, "t")));
    }
    assert_eq!(ids(&data, s), Some(vec![5, 3, 9, 1]));
    for id in [5u128, 3, 9, 1] {
        assert_eq!(data.owner_of(id), Some(s));
    }
}

#[test]
fn playlist_exists_exactly_while_the_scope_owns_a_track() {
    let s = scope(1, 2);
    let o = scope(1, 3);
    let mut data = PlayerData::default();
    assert!(data.queue(s).is_none());
    assert_eq!(data.owner_of(7), None);
    assert!(data.append_track(s, track(7, "t")));
    assert!(data.queue(s).is_some());
    assert!(data.queue(o).is_none());
    assert_eq!(data.owner_of(7), Some(s));
    assert_eq!(data.track_ended(7), Some(s));
    assert!(data.queue(s).is_none());
    assert_eq!(data.owner_of(7), None);
}

#[test]
fn an_owned_identifier_is_refused() {
    let s = scope(1, 2);
    let o = scope(9, 9);
    let mut data = PlayerData::new();
    assert!(data.append_track(s, track(7, "first")));
    assert!(!data.append_track(s, track(7, "again")));
    assert!(!data.append_track(o, track(7, "elsewhere")));
    assert_eq!(ids(&data, s), Some(vec![7]));
    assert_eq!(data.queue(s).map(|t| t[0].title.clone()), Some("first".to_string()));
    assert!(data.queue(o).is_none());
    assert_eq!(data.owner_of(7), Some(s));
}

#[test]
fn scopes_of_one_guild_are_kept_apart() {
    let a = scope(1, 2);
    let b = scope(1, 3);
    let c = scope(2, 1);
    let mut data = PlayerData::new();
    assert!(data.append_track(a, track(1, "a")));
    assert!(data.append_track(b, track(2, "b")));
    assert!(data.append_track(c, track(3, "c")));
    assert_eq!(ids(&data, a), Some(vec![1]));
    assert_eq!(ids(&data, b), Some(vec![2]));
    assert_eq!(ids(&data, c), Some(vec![3]));
    assert_eq!(a.key(), (1u128 << 64) + 2);
    assert_eq!(GuildChannelID::from((1, 2)), a);
    assert_eq!(<(u64, u64)>::from(a), (1, 2));
    assert_eq!(scope(u64::MAX, u64::MAX).key(), u128::MAX);
}

#[test]
fn skip_takes_the_front_track() {
    let s = scope(1, 2);
    let mut data = PlayerData::new();
    data.append_track(s, track(1, "one"));
    data.append_track(s, track(2, "two"));
    let skipped = data.skip(s).map(|t| (t.id, t.title));
    assert_eq!(skipped, Some((1, "one".to_string())));
    assert_eq!(ids(&data, s), Some(vec![2]));
    assert_eq!(data.owner_of(1), None);
    assert_eq!(data.owner_of(2), Some(s));
    assert_eq!(data.skip(s).map(|t| t.id), Some(2));
    assert!(data.queue(s).is_none());
    assert_eq!(data.owner_of(2), None);
}

#[test]
fn skip_on_an_empty_playlist_changes_nothing() {
    let s = scope(1, 2);
    let o = scope(1, 3);
    let mut data = PlayerData::new();
    data.append_track(o, track(4, "other"));
    data.register_handlers(s);
    assert!(data.skip(s).is_none());
    assert!(data.queue(s).is_none());
    assert_eq!(ids(&data, o), Some(vec![4]));
    assert_eq!(data.owner_of(4), Some(o));
    assert!(data.has_handlers(s));
    assert!(!data.has_handlers(o));
}

#[test]
fn end_of_track_removes_that_track_only() {
    let s = scope(1, 2);
    let mut data = PlayerData::new();
    for id in [1u128, 2, 3] {
        data.append_track(s, track(id, "t"));
    }
    assert_eq!(data.track_ended(2), Some(s));
    assert_eq!(ids(&data, s), Some(vec![1, 3]));
    assert_eq!(data.owner_of(2), None);
    assert_eq!(data.owner_of(1), Some(s));
    assert_eq!(data.owner_of(3), Some(s));
    assert_eq!(data.track_ended(2), None);
    assert_eq!(ids(&data, s), Some(vec![1, 3]));
    assert_eq!(data.track_ended(3), Some(s));
    assert_eq!(data.track_ended(1), Some(s));
    assert!(data.queue(s).is_none());
}

#[test]
fn end_of_the_last_track_removes_the_playlist() {
    let s = scope(1, 2);
    let mut data = PlayerData::new();
    data.append_track(s, track(1, "t"));
    assert_eq!(on_track_ended(&mut data, PlayMode::End, 1), Some(s));
    assert!(data.queue(s).is_none());
    assert_eq!(data.owner_of(1), None);
}

#[test]
fn pause_and_play_never_clean_up() {
    let s = scope(1, 2);
    let mut data = PlayerData::new();
    data.append_track(s, track(1, "t"));
    assert_eq!(on_track_ended(&mut data, PlayMode::Play, 1), None);
    assert_eq!(on_track_ended(&mut data, PlayMode::Pause, 1), None);
    assert_eq!(ids(&data, s), Some(vec![1]));
    assert_eq!(data.owner_of(1), Some(s));
    assert_eq!(on_track_ended(&mut data, PlayMode::Stop, 99), None);
    assert_eq!(ids(&data, s), Some(vec![1]));
    assert_eq!(on_track_ended(&mut data, PlayMode::Errored, 1), Some(s));
    assert!(data.queue(s).is_none());
}

#[test]
fn started_track_is_announced_in_its_scope() {
    let s = scope(1, 2);
    let mut data = PlayerData::new();
    data.append_track(s, track(1, "One (Official Video)"));
    data.append_track(s, track(2, "Two"));
    let (owner, card) = on_track_started(&data, PlayMode::Play, 2).unwrap();
    assert_eq!(owner, s);
    assert_eq!(card.author, "Now playing");
    assert_eq!(card.title, "Two");
    assert_eq!(card.description, "Artist | 00:01:01");
    assert_eq!(card.url, "https://example.org/2");
    assert_eq!(card.thumbnail, Some("pic2".to_string()));
    let (_, first) = on_track_started(&data, PlayMode::Play, 1).unwrap();
    assert_eq!(first.title, "One");
    assert!(on_track_started(&data, PlayMode::Pause, 2).is_none());
    assert!(on_track_started(&data, PlayMode::End, 2).is_none());
    assert!(on_track_started(&data, PlayMode::Play, 3).is_none());
    assert_eq!(data.track_started(2).map(|(o, t)| (o, t.id)), Some((s, 2)));
    assert!(data.track_started(3).is_none());
}

#[test]
fn listeners_are_registered_once() {
    let s = scope(1, 2);
    let mut data = PlayerData::new();
    assert!(!data.has_handlers(s));
    assert!(data.register_handlers(s));
    assert!(!data.register_handlers(s));
    assert!(data.has_handlers(s));
    assert!(!data.has_handlers(scope(1, 3)));
}

#[test]
fn nuke_twice_is_nuke_once() {
    let s = scope(1, 2);
    let o = scope(3, 4);
    let mut data = PlayerData::new();
    data.register_handlers(s);
    data.register_handlers(o);
    for id in [1u128, 2, 3] {
        data.append_track(s, track(id, "t"));
    }
    data.append_track(o, track(10, "other"));
    let plan = nuke(&mut data, s);
    assert!(plan.detach_listeners);
    assert_eq!(plan.temp_dir, "/tmp/taxer/1");
    for _ in 0..2 {
        assert!(!data.has_handlers(s));
        assert!(data.queue(s).is_none());
        for id in [1u128, 2, 3] {
            assert_eq!(data.owner_of(id), None);
        }
        assert!(data.has_handlers(o));
        assert_eq!(ids(&data, o), Some(vec![10]));
        assert_eq!(data.owner_of(10), Some(o));
        let again = nuke(&mut data, s);
        assert!(!again.detach_listeners);
        assert_eq!(again.temp_dir, "/tmp/taxer/1");
    }
}

#[test]
fn nuke_of_an_unknown_scope_is_harmless() {
    let mut data = PlayerData::new();
    assert!(!data.purge(scope(5, 5)));
    assert!(data.queue(scope(5, 5)).is_none());
    let plan = nuke(&mut data, scope(5, 6));
    assert!(!plan.detach_listeners);
    assert_eq!(plan.temp_dir, "/tmp/taxer/5");
}
