use youtube_scheduler::{
    create_default_metadata, expand_tilde, stamp_schedule, Args, Timestamp, VideoMetadata,
};

fn files() -> Vec<String> {
    vec!["videos/first clip.mp4".to_string(), "/tmp/second.final.mkv".to_string(), "third".to_string()]
}

#[test]
fn default_metadata_uses_file_stems() {
    let lines = vec!["one".to_string(), "two".to_string()];
    let m = create_default_metadata(&files(), &lines);
    let titles: Vec<&str> = m.iter().map(|e| e.title.as_str()).collect();
    assert_eq!(titles, vec!["first clip", "second.final", "third"]);
    for e in &m {
        assert!(lines.contains(&e.description));
        assert_eq!(e.tags, vec!["gaming".to_string()]);
        assert_eq!(e.category_id, "20");
        assert_eq!(e.privacy_status, "private");
        assert_eq!(e.scheduled_start_time, None);
    }
}

#[test]
fn default_metadata_without_descriptions() {
    let m = create_default_metadata(&files(), &Vec::new());
    assert_eq!(m.len(), 3);
    assert!(m.iter().all(|e| e.description.is_empty()));
    assert!(create_default_metadata(&Vec::new(), &Vec::new()).is_empty());
}

fn entry(title: &str) -> VideoMetadata {
    VideoMetadata {
        title: title.to_string(),
        description: "d".to_string(),
        tags: vec![],
        category_id: "22".to_string(),
        privacy_status: "public".to_string(),
        scheduled_start_time: None,
    }
}

#[test]
fn stamping_sets_time_and_privacy() {
    let mut m = vec![entry("a"), entry("b"), entry("c")];
    let schedule = vec![
        Timestamp::from_unix(1704110400).unwrap(),
        Timestamp::new(1704117600, 500_000_000).unwrap(),
    ];
    stamp_schedule(&mut m, &schedule);
    assert_eq!(m[0].scheduled_start_time.as_deref(), Some("2024-01-01T12:00:00+00:00"));
    assert_eq!(m[1].scheduled_start_time.as_deref(), Some("2024-01-01T14:00:00.500+00:00"));
    assert_eq!(m[0].privacy_status, "private");
    assert_eq!(m[0].title, "a");
    assert_eq!(m[0].category_id, "22");
    assert_eq!(m[2].scheduled_start_time, None);
    assert_eq!(m[2].privacy_status, "public");
}

#[test]
fn stamping_the_earliest_second() {
    let mut m = vec![entry("a")];
    stamp_schedule(&mut m, &vec![Timestamp::from_unix(-8334601228800).unwrap()]);
    assert!(m[0].scheduled_start_time.as_deref().unwrap().starts_with("-262143-01-01T00:00:00"));
}

#[test]
fn tilde_expands_to_home() {
    assert_eq!(expand_tilde("~/.tokens.json", Some("/home/me")), "/home/me/.tokens.json");
    assert_eq!(expand_tilde("~/.tokens.json", None), "~/.tokens.json");
    assert_eq!(expand_tilde("~user/x", Some("/home/me")), "~user/x");
    assert_eq!(expand_tilde("/etc/x", Some("/home/me")), "/etc/x");
    assert_eq!(expand_tilde("~", Some("/home/me")), "~");
}

#[test]
fn args_getters() {
    let args = Args {
        videos: "a.mp4,b.mp4".to_string(),
        interval: "2h".to_string(),
        oauth_config: "~/.client_secrets.json".to_string(),
        metadata: None,
        start_time: Some("2024-01-01T12:00:00Z".to_string()),
        timestamp_file: None,
        dry_run: true,
    };
    assert_eq!(args.videos(), "a.mp4,b.mp4");
    assert_eq!(args.interval(), "2h");
    assert_eq!(args.oauth_config(), "~/.client_secrets.json");
    assert_eq!(args.start_time().map(|s| s.as_str()), Some("2024-01-01T12:00:00Z"));
    assert_eq!(args.timestamp_file(), None);
    assert!(args.dry_run());
}
