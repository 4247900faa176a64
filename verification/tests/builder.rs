use transmission::torrentbuilder::finish_build;
use transmission::{Error, TorrentBuilder};

#[test]
fn new_builder_is_blank() {
    let b = TorrentBuilder::new();
    assert!(b.comment.is_none());
    assert!(b.trackers.is_empty());
    assert_eq!(b.file, "");
    assert!(b.output_file.is_none());
    assert!(b.webseeds.is_none());
    assert!(!b.is_private);
}

#[test]
fn builder_setters_store_their_values() {
    let b = TorrentBuilder::new()
        .set_file("./archive.tar")
        .set_output_file("./archive")
        .set_comment("Test torrent")
        .add_tracker("udp://tracker.opentrackr.org:1337")
        .set_tracker("udp://tracker.example.com:80");
    assert_eq!(b.file, "./archive.tar");
    assert_eq!(b.output_file.as_deref(), Some("./archive"));
    assert_eq!(b.comment.as_deref(), Some("Test torrent"));
    assert_eq!(
        b.trackers,
        vec![
            String::from("udp://tracker.opentrackr.org:1337"),
            String::from("udp://tracker.example.com:80"),
        ]
    );
}

#[test]
fn set_trackers_replaces_existing() {
    let b = TorrentBuilder::new()
        .add_tracker("udp://old.example.org:1")
        .set_trackers(vec!["udp://a.example.org:1", "udp://b.example.org:2"]);
    assert_eq!(
        b.trackers,
        vec![String::from("udp://a.example.org:1"), String::from("udp://b.example.org:2")]
    );
}

#[test]
fn webseeds_accumulate_and_replace() {
    let b = TorrentBuilder::new()
        .add_webseed("http://seed.example.org/a")
        .set_webseed("http://seed.example.org/b");
    assert_eq!(
        b.webseeds,
        Some(vec![
            String::from("http://seed.example.org/a"),
            String::from("http://seed.example.org/b"),
        ])
    );
    let b = b.set_webseeds(vec!["http://seed.example.org/c"]);
    assert_eq!(b.webseeds, Some(vec![String::from("http://seed.example.org/c")]));
}

#[test]
fn plan_for_hello_file() {
    let b = TorrentBuilder::new()
        .set_file("hello.txt")
        .add_tracker("udp://tracker.example.org:1337");
    let p = b.prepare();
    assert_eq!(p.source, "hello.txt");
    assert_eq!(p.output_path, "hello.txt.torrent");
    assert_eq!(p.comment, "");
    assert!(!p.is_private);
    assert_eq!(p.trackers.len(), 1);
    assert_eq!(p.trackers[0].tier, 0);
    assert_eq!(p.trackers[0].id, 0);
    assert_eq!(p.trackers[0].announce, "udp://tracker.example.org:1337/announce");
    assert_eq!(p.trackers[0].scrape, "udp://tracker.example.org:1337/scrape");
}

#[test]
fn plan_keeps_tracker_list_and_output_file() {
    let b = TorrentBuilder::new()
        .set_file("./data.bin")
        .set_output_file("./out/data")
        .set_comment("three trackers")
        .set_trackers(vec![
            "udp://a.example.org:1",
            "udp://b.example.org:2",
            "udp://c.example.org:3",
        ]);
    let p = b.prepare();
    assert_eq!(p.output_path, "./out/data.torrent");
    assert_eq!(p.comment, "three trackers");
    assert_eq!(p.trackers.len(), 3);
    for (i, url) in
        ["udp://a.example.org:1", "udp://b.example.org:2", "udp://c.example.org:3"]
            .iter()
            .enumerate()
    {
        assert_eq!(p.trackers[i].tier, i as i32);
        assert_eq!(p.trackers[i].id, i as u32);
        assert_eq!(p.trackers[i].announce, format!("{}/announce", url));
        assert_eq!(p.trackers[i].scrape, format!("{}/scrape", url));
    }
}

#[test]
fn finish_build_outcomes() {
    assert_eq!(
        finish_build(0, String::from("hello.txt.torrent")),
        Ok(String::from("hello.txt.torrent"))
    );
    assert_eq!(finish_build(1, String::from("x.torrent")), Err(Error::MakeMetaUrl));
    assert_eq!(finish_build(2, String::from("x.torrent")), Err(Error::MakeMetaCancelled));
    assert_eq!(finish_build(3, String::from("x.torrent")), Err(Error::IOError));
    assert_eq!(finish_build(4, String::from("x.torrent")), Err(Error::IOError));
    assert_eq!(finish_build(9, String::from("x.torrent")), Err(Error::Unknown));
}
