use wallpaper::{download_image, Action, Download, Error, ImageUrl, PathKind, Platform, Reply};

fn sunset() -> Download {
    let url = ImageUrl::parse("https://example.com/images/sunset.jpg").unwrap();
    Download::begin(Platform::Unix, Some("/home/alice/.cache".to_string()), &url).unwrap()
}

#[test]
fn download_starts_by_looking_at_the_directory() {
    let d = sunset();
    assert_eq!(d.action(), Action::ProbeDirectory);
    assert_eq!(d.url(), "https://example.com/images/sunset.jpg");
    assert_eq!(d.directory(), "/home/alice/.cache");
    assert_eq!(d.path(), "/home/alice/.cache/sunset.jpg");
    assert_eq!(d.finished(), None);
    assert_eq!(d.notice(), None);
}

#[test]
fn existing_directory_leads_straight_to_the_request() {
    let d = sunset().advance(Reply::Probed(PathKind::Directory)).unwrap();
    assert_eq!(d.action(), Action::Request);
    assert_eq!(d.notice(), None);
    let d = d.advance(Reply::Responded(200)).unwrap();
    assert_eq!(d.action(), Action::Store);
    assert_eq!(d.finished(), None);
    let d = d.advance(Reply::Stored).unwrap();
    assert_eq!(d.action(), Action::Finish);
    assert_eq!(d.finished(), Some("/home/alice/.cache/sunset.jpg"));
    assert_eq!(d.notice(), None);
}

#[test]
fn missing_directory_is_created_before_the_request() {
    let d = sunset().advance(Reply::Probed(PathKind::Missing)).unwrap();
    assert_eq!(d.action(), Action::CreateDirectory);
    assert_eq!(d.notice(), None);
    let d = d.advance(Reply::Created).unwrap();
    assert_eq!(d.action(), Action::Request);
    assert_eq!(d.notice(), Some("/home/alice/.cache dir created successfully!".to_string()));
    let d = d.advance(Reply::Responded(204)).unwrap().advance(Reply::Stored).unwrap();
    assert_eq!(d.finished(), Some("/home/alice/.cache/sunset.jpg"));
    assert_eq!(d.notice(), Some("/home/alice/.cache dir created successfully!".to_string()));
}

#[test]
fn path_taken_by_a_file_is_a_filesystem_error() {
    let r = sunset().advance(Reply::Probed(PathKind::Other));
    assert_eq!(
        r,
        Err(Error::FilesystemError {
            path: "/home/alice/.cache".to_string(),
            detail: "already exists and is not a directory".to_string(),
        })
    );
}

#[test]
fn failed_probe_is_a_filesystem_error() {
    let r = sunset().advance(Reply::DiskFailed("permission denied".to_string()));
    assert_eq!(
        r,
        Err(Error::FilesystemError {
            path: "/home/alice/.cache".to_string(),
            detail: "permission denied".to_string(),
        })
    );
}

#[test]
fn failed_creation_is_a_filesystem_error() {
    let d = sunset().advance(Reply::Probed(PathKind::Missing)).unwrap();
    let r = d.advance(Reply::DiskFailed("read-only file system".to_string()));
    assert_eq!(
        r,
        Err(Error::FilesystemError {
            path: "/home/alice/.cache".to_string(),
            detail: "read-only file system".to_string(),
        })
    );
}

#[test]
fn not_found_is_a_network_error_and_no_file_is_asked_for() {
    let d = sunset().advance(Reply::Probed(PathKind::Directory)).unwrap();
    assert_eq!(d.action(), Action::Request);
    let r = d.advance(Reply::Responded(404));
    assert_eq!(
        r,
        Err(Error::NetworkError {
            url: "https://example.com/images/sunset.jpg".to_string(),
            status: Some(404),
            detail: String::new(),
        })
    );
}

#[test]
fn only_the_two_hundreds_are_success() {
    for status in [0u16, 100, 199, 300, 301, 304, 400, 404, 500, 503, 999, u16::MAX] {
        let d = sunset().advance(Reply::Probed(PathKind::Directory)).unwrap();
        assert!(matches!(
            d.advance(Reply::Responded(status)),
            Err(Error::NetworkError { status: Some(s), .. }) if s == status
        ));
    }
    for status in [200u16, 201, 204, 206, 299] {
        let d = sunset().advance(Reply::Probed(PathKind::Directory)).unwrap();
        assert_eq!(d.advance(Reply::Responded(status)).unwrap().action(), Action::Store);
    }
}

#[test]
fn failed_request_is_a_network_error() {
    let d = sunset().advance(Reply::Probed(PathKind::Directory)).unwrap();
    let r = d.advance(Reply::NetworkFailed("connection refused".to_string()));
    assert_eq!(
        r,
        Err(Error::NetworkError {
            url: "https://example.com/images/sunset.jpg".to_string(),
            status: None,
            detail: "connection refused".to_string(),
        })
    );
}

#[test]
fn failed_write_is_a_filesystem_error_on_the_file() {
    let d = sunset()
        .advance(Reply::Probed(PathKind::Directory))
        .unwrap()
        .advance(Reply::Responded(200))
        .unwrap();
    let r = d.advance(Reply::DiskFailed("no space left on device".to_string()));
    assert_eq!(
        r,
        Err(Error::FilesystemError {
            path: "/home/alice/.cache/sunset.jpg".to_string(),
            detail: "no space left on device".to_string(),
        })
    );
}

#[test]
fn broken_transfer_is_a_network_error() {
    let d = sunset()
        .advance(Reply::Probed(PathKind::Directory))
        .unwrap()
        .advance(Reply::Responded(200))
        .unwrap();
    let r = d.advance(Reply::NetworkFailed("connection reset".to_string()));
    assert_eq!(
        r,
        Err(Error::NetworkError {
            url: "https://example.com/images/sunset.jpg".to_string(),
            status: None,
            detail: "connection reset".to_string(),
        })
    );
}

#[test]
fn reply_to_another_action_changes_nothing() {
    let replies = || {
        vec![
            Reply::Created,
            Reply::Responded(200),
            Reply::Stored,
            Reply::NetworkFailed("x".to_string()),
        ]
    };
    for reply in replies() {
        assert_eq!(sunset().advance(reply), Ok(sunset()));
    }
    let asked = || sunset().advance(Reply::Probed(PathKind::Directory)).unwrap();
    for reply in [
        Reply::Probed(PathKind::Missing),
        Reply::Created,
        Reply::Stored,
        Reply::DiskFailed("x".to_string()),
    ] {
        assert_eq!(asked().advance(reply), Ok(asked()));
    }
    let creating = || sunset().advance(Reply::Probed(PathKind::Missing)).unwrap();
    for reply in [
        Reply::Probed(PathKind::Directory),
        Reply::Responded(200),
        Reply::Stored,
        Reply::NetworkFailed("x".to_string()),
    ] {
        assert_eq!(creating().advance(reply), Ok(creating()));
    }
    let storing = || asked().advance(Reply::Responded(200)).unwrap();
    for reply in [Reply::Probed(PathKind::Other), Reply::Created, Reply::Responded(404)] {
        assert_eq!(storing().advance(reply), Ok(storing()));
    }
}

#[test]
fn finished_download_stays_finished() {
    let done = || {
        sunset()
            .advance(Reply::Probed(PathKind::Directory))
            .unwrap()
            .advance(Reply::Responded(200))
            .unwrap()
            .advance(Reply::Stored)
            .unwrap()
    };
    for reply in [
        Reply::Probed(PathKind::Other),
        Reply::Created,
        Reply::Responded(500),
        Reply::Stored,
        Reply::DiskFailed("x".to_string()),
        Reply::NetworkFailed("x".to_string()),
    ] {
        assert_eq!(done().advance(reply), Ok(done()));
    }
}

#[test]
fn second_download_of_a_url_writes_the_same_file() {
    let run = |probe: PathKind| {
        let mut d = sunset().advance(Reply::Probed(probe)).unwrap();
        if d.action() == Action::CreateDirectory {
            d = d.advance(Reply::Created).unwrap();
        }
        let d = d.advance(Reply::Responded(200)).unwrap().advance(Reply::Stored).unwrap();
        d.finished().map(|p| p.to_string())
    };
    let first = run(PathKind::Missing);
    let second = run(PathKind::Directory);
    assert_eq!(first, Some("/home/alice/.cache/sunset.jpg".to_string()));
    assert_eq!(first, second);
}

#[test]
fn malformed_url_starts_no_download() {
    let url = ImageUrl::parse("mailto:alice@example.com").unwrap();
    let r = Download::begin(Platform::Unix, Some("/home/alice/.cache".to_string()), &url);
    assert!(matches!(r, Err(Error::MalformedUrl { .. })));
    let r = Download::begin(Platform::Unix, None, &url);
    assert_eq!(r, Err(Error::NoCacheDirectory));
}

#[test]
fn trailing_slash_downloads_to_wallpaper() {
    let url = ImageUrl::parse("https://example.com/random/").unwrap();
    let d = Download::begin(Platform::Windows, None, &url).unwrap();
    assert_eq!(d.directory(), "C:\\wallpapers");
    assert_eq!(d.path(), "C:\\wallpapers\\wallpaper");
}

#[test]
fn download_image_uses_the_cache_directory_of_the_user() {
    let url = ImageUrl::parse("https://example.com/images/sunset.jpg").unwrap();
    let dir = dirs::cache_dir().and_then(|p| p.to_str().map(|s| s.to_string()));
    assert_eq!(
        download_image(Platform::Unix, &url),
        Download::begin(Platform::Unix, dir.clone(), &url)
    );
    assert_eq!(
        download_image(Platform::Windows, &url),
        Download::begin(Platform::Windows, dir, &url)
    );
}
