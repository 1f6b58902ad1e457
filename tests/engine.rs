use vleer_search::hydrate::{
    album_from_row, batch_request, empty_batch, fetch_batch, song_from_row, songs_batch, AlbumRow, ArtistRow,
    BatchRows, SongRow,
};
use vleer_search::models::{ItemKind, SearchResultItem};
use vleer_search::results::{assemble, PostFilter};

fn row(id: &str, name: &str, artist: Option<&str>, album: Option<&str>, isrc: &str) -> SongRow {
    SongRow {
        id: id.to_string(),
        name: name.to_string(),
        image: format!("https://img/{}", id),
        duration: Some(125),
        disc_number: None,
        track_number: Some(3),
        isrc: Some(isrc.to_string()),
        date: None,
        artist_names: artist.map(|s| s.to_string()),
        album_names: album.map(|s| s.to_string()),
    }
}

fn no_filter() -> PostFilter {
    PostFilter { artist: None, album: None, isrc: None, upc: None }
}

fn ids(v: &[&str]) -> Vec<String> {
    v.iter().map(|s| s.to_string()).collect()
}

fn song_ids(items: &[SearchResultItem]) -> Vec<String> {
    items
        .iter()
        .map(|i| match i {
            SearchResultItem::Song(s) => s.id.clone(),
            _ => panic!("not a song"),
        })
        .collect()
}

#[test]
fn empty_id_set_needs_no_query_and_hydrates_to_nothing() {
    assert!(batch_request(Some(ItemKind::Song), &vec![]).is_none());
    assert!(batch_request(None, &ids(&["a"])).is_none());
    let req = batch_request(Some(ItemKind::Album), &ids(&["a", "b"])).unwrap();
    assert_eq!(req.kind, ItemKind::Album);
    assert_eq!(req.ids, ids(&["a", "b"]));
    let b = fetch_batch(BatchRows::Songs(vec![]));
    assert!(b.songs.is_empty() && b.artists.is_empty() && b.albums.is_empty());
}

#[test]
fn song_row_defaults_and_guard() {
    let s = song_from_row(row("s1", "Yesterday", Some("Beatles"), Some("Help!"), "GBAYE0601498")).unwrap();
    assert_eq!(s.disc_number, 1);
    assert_eq!(s.track_number, 3);
    assert_eq!(s.duration, 125);
    assert_eq!(s.date, "");
    assert_eq!(s.cover, "https://img/s1");
    assert!(song_from_row(row("s2", "x", Some(""), Some("A"), "i")).is_none());
    assert!(song_from_row(row("s3", "x", Some("B"), None, "i")).is_none());
}

#[test]
fn album_guard_needs_artists() {
    let r = AlbumRow {
        id: "al1".to_string(),
        name: "Help!".to_string(),
        image: "img".to_string(),
        date: None,
        track_count: None,
        upc: Some("0077774".to_string()),
        label: None,
        artist_names: None,
    };
    assert!(album_from_row(r).is_none());
}

#[test]
fn orphaned_songs_never_reach_results() {
    let batch = songs_batch(vec![
        row("s1", "One", Some("A"), Some("X"), "i1"),
        row("s2", "Two", None, Some("X"), "i2"),
        row("s3", "Three", Some("C"), Some(""), "i3"),
    ]);
    assert_eq!(batch.len(), 1);
    let b = fetch_batch(BatchRows::Songs(vec![
        row("s1", "One", Some("A"), Some("X"), "i1"),
        row("s2", "Two", None, Some("X"), "i2"),
    ]));
    let r = assemble(Some(ItemKind::Song), &ids(&["s2", "s1"]), &b, &no_filter(), 2);
    assert_eq!(song_ids(&r.items), ids(&["s1"]));
    assert_eq!(r.total, 2);
}

#[test]
fn yesterday_scenario_rank_order_and_isrc_filter() {
    let b = fetch_batch(BatchRows::Songs(vec![
        row("s2", "Yesterday Tomorrow", Some("Someone"), Some("Days"), "QZABC2400002"),
        row("s1", "Yesterday", Some("Beatles"), Some("Help!"), "GBAYE0601498"),
    ]));
    let ranked = ids(&["s1", "s2"]);
    let r = assemble(Some(ItemKind::Song), &ranked, &b, &no_filter(), 2);
    assert_eq!(song_ids(&r.items), ids(&["s1", "s2"]));
    let f = PostFilter { isrc: Some("qzabc2400002".to_string()), ..no_filter() };
    let r = assemble(Some(ItemKind::Song), &ranked, &b, &f, 2);
    assert_eq!(song_ids(&r.items), ids(&["s2"]));
    assert_eq!(r.total, 2);
}

#[test]
fn page_follows_rank_and_total_is_passed_through() {
    let b = fetch_batch(BatchRows::Songs(vec![
        row("a", "A", Some("X"), Some("Y"), "1"),
        row("b", "B", Some("X"), Some("Y"), "2"),
        row("c", "C", Some("X"), Some("Y"), "3"),
    ]));
    let r = assemble(Some(ItemKind::Song), &ids(&["c", "missing", "a"]), &b, &no_filter(), 57);
    assert_eq!(song_ids(&r.items), ids(&["c", "a"]));
    assert_eq!(r.total, 57);
    assert!(r.items.len() <= 3);
    let r = assemble(None, &ids(&["a"]), &b, &no_filter(), 57);
    assert!(r.items.is_empty());
}

#[test]
fn substring_filters_apply_per_kind() {
    let b = fetch_batch(BatchRows::Artists(vec![
        ArtistRow { id: "a1".to_string(), name: "The Beatles".to_string(), image: "i".to_string() },
        ArtistRow { id: "a2".to_string(), name: "Queen".to_string(), image: "i".to_string() },
    ]));
    let f = PostFilter { artist: Some("beat".to_string()), ..no_filter() };
    let r = assemble(Some(ItemKind::Artist), &ids(&["a2", "a1"]), &b, &f, 2);
    assert_eq!(r.items.len(), 1);
    match &r.items[0] {
        SearchResultItem::Artist(a) => assert_eq!(a.name, "The Beatles"),
        _ => panic!("expected an artist"),
    }
    let songs = fetch_batch(BatchRows::Songs(vec![row("s", "S", Some("Queen, Bowie"), Some("Hot Space"), "i")]));
    let f = PostFilter { album: Some("space".to_string()), ..no_filter() };
    assert_eq!(assemble(Some(ItemKind::Song), &ids(&["s"]), &songs, &f, 1).items.len(), 1);
    let f = PostFilter { album: Some("night".to_string()), ..no_filter() };
    assert_eq!(assemble(Some(ItemKind::Song), &ids(&["s"]), &songs, &f, 1).items.len(), 0);
}

#[test]
fn upc_filter_on_albums() {
    let rows = vec![
        AlbumRow {
            id: "al1".to_string(),
            name: "Help!".to_string(),
            image: "img".to_string(),
            date: Some("1965-08-06".to_string()),
            track_count: Some(14),
            upc: Some("0077774".to_string()),
            label: Some("Parlophone".to_string()),
            artist_names: Some("The Beatles".to_string()),
        },
        AlbumRow {
            id: "al2".to_string(),
            name: "Other".to_string(),
            image: "img".to_string(),
            date: None,
            track_count: None,
            upc: None,
            label: None,
            artist_names: Some("Someone".to_string()),
        },
    ];
    let b = fetch_batch(BatchRows::Albums(rows));
    let f = PostFilter { upc: Some("0077774".to_string()), ..no_filter() };
    let r = assemble(Some(ItemKind::Album), &ids(&["al2", "al1"]), &b, &f, 2);
    assert_eq!(r.items.len(), 1);
    match &r.items[0] {
        SearchResultItem::Album(a) => {
            assert_eq!(a.id, "al1");
            assert_eq!(a.track_count, 14);
            assert_eq!(a.record_label, Some("Parlophone".to_string()));
        }
        _ => panic!("expected an album"),
    }
    assert!(empty_batch().albums.is_empty());
}
