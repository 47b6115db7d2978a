use screenshot_geotag::correlate::correlate;
use screenshot_geotag::correlate::find_extension_dot;
use screenshot_geotag::correlate::image_extension;
use screenshot_geotag::correlate::image_sidecar_path;
use screenshot_geotag::correlate::str_eq;
use screenshot_geotag::correlate::FileEvent;
use screenshot_geotag::correlate::PathKind;
use screenshot_geotag::position::Position;
use screenshot_geotag::store::PositionStore;
use screenshot_geotag::store::SharedPositionStore;
use screenshot_geotag::telemetry::supervisor_step;
use screenshot_geotag::telemetry::LinkAction;
use screenshot_geotag::telemetry::LinkEvent;
use screenshot_geotag::telemetry::LinkState;
use screenshot_geotag::telemetry::BACKOFF_MILLIS;
use screenshot_geotag::telemetry::DISPATCH_TICK_MILLIS;

fn pos(lat: f64, lon: f64) -> Position {
    Position::new(lat.to_bits(), lon.to_bits())
}

fn created(path: &str, kind: PathKind) -> FileEvent {
    FileEvent::Created { path: path.to_string(), kind }
}

#[test]
fn read_after_each_write_returns_that_write() {
    let mut store = PositionStore::new();
    let first = pos(1.5, -2.5);
    store.write(first);
    assert_eq!(store.read(), first);
    let second = pos(47.449, -122.309);
    store.write(second);
    assert_eq!(store.read(), second);
    // The pair is replaced as one value: both fields come from the second write.
    assert_eq!(store.read().latitude_bits, 47.449f64.to_bits());
    assert_eq!(store.read().longitude_bits, (-122.309f64).to_bits());
}

#[test]
fn a_read_between_two_writes_observes_the_earlier_one_whole() {
    let mut store = PositionStore::new();
    let writes: Vec<Position> = (0..8).map(|k| pos(k as f64, -(k as f64))).collect();
    for (k, p) in writes.iter().enumerate() {
        store.write(*p);
        // A read after the k-th write and before the next returns exactly
        // the k-th pair, both fields together.
        assert_eq!(store.read(), writes[k]);
    }
}

#[test]
fn shared_store_last_write_wins() {
    let store = SharedPositionStore::new();
    store.write(pos(10.0, 20.0));
    store.write(pos(30.0, 40.0));
    let got = store.read();
    assert_eq!(got.latitude_bits, 30.0f64.to_bits());
    assert_eq!(got.longitude_bits, 40.0f64.to_bits());
}

#[test]
fn default_snapshot_is_zero_zero() {
    let store = PositionStore::new();
    let got = store.read();
    assert_eq!(f64::from_bits(got.latitude_bits), 0.0);
    assert_eq!(f64::from_bits(got.longitude_bits), 0.0);
    let shared = SharedPositionStore::new();
    let got = shared.read();
    assert_eq!(f64::from_bits(got.latitude_bits), 0.0);
    assert_eq!(f64::from_bits(got.longitude_bits), 0.0);
    assert_eq!(Position::default(), Position::new(0, 0));
}

#[test]
fn extension_filter_accepts_exactly_the_image_extensions() {
    let p = pos(1.0, 2.0);
    for (path, expected) in [
        ("a.png", Some("a.geo")),
        ("a.jpg", Some("a.geo")),
        ("a.jpeg", Some("a.geo")),
        ("a.PNG", None),
        ("a.Png", None),
        ("a.JPG", None),
        ("notes.txt", None),
        ("noextension", None),
        (".hidden", None),
        ("a.", None),
        ("shot.tar.png", Some("shot.tar.geo")),
    ] {
        let r = correlate(&created(path, PathKind::File), p);
        match expected {
            Some(target) => {
                let rec = r.expect(path);
                assert_eq!(rec.sidecar_path, target);
                assert_eq!(rec.position, p);
            }
            None => assert!(r.is_none(), "{} must be ignored", path),
        }
    }
}

#[test]
fn extension_lookup_respects_directories_and_hidden_files() {
    assert_eq!(find_extension_dot("a.png"), Some(1));
    assert_eq!(find_extension_dot("dir.d/file"), None);
    assert_eq!(find_extension_dot("dir/.hidden"), None);
    assert_eq!(find_extension_dot("dir\\.hidden"), None);
    assert_eq!(find_extension_dot("dir/a.b.c"), Some(7));
    assert_eq!(image_sidecar_path("C:\\shots\\IMG.png").as_deref(), Some("C:\\shots\\IMG.geo"));
    assert_eq!(image_sidecar_path("shots/IMG.png").as_deref(), Some("shots/IMG.geo"));
    assert_eq!(image_sidecar_path("shots/IMG"), None);
}

#[test]
fn non_file_creation_is_ignored() {
    let p = pos(1.0, 2.0);
    assert!(correlate(&created("a.png", PathKind::NotFile), p).is_none());
    assert!(correlate(&created("a.png", PathKind::Inaccessible), p).is_none());
}

#[test]
fn errors_and_foreign_events_are_ignored() {
    let p = pos(1.0, 2.0);
    assert!(correlate(&FileEvent::WatchError, p).is_none());
    assert!(correlate(&FileEvent::Other, p).is_none());
}

#[test]
fn reconnect_retries_until_success_then_dispatches() {
    let failures = 3;
    let mut state = LinkState::Disconnected;
    let mut attempts = 0;
    for _ in 0..failures {
        assert_eq!(state, LinkState::Disconnected);
        attempts += 1;
        let (next, action) = supervisor_step(state, LinkEvent::ConnectFailed);
        assert_eq!(next, LinkState::Disconnected);
        assert_eq!(action, LinkAction::BackoffThenConnect);
        state = next;
    }
    assert_eq!(state, LinkState::Disconnected);
    attempts += 1;
    let (next, action) = supervisor_step(state, LinkEvent::ConnectSucceeded);
    assert_eq!(next, LinkState::Connected);
    assert_eq!(action, LinkAction::Dispatch);
    assert_eq!(attempts, failures + 1);
}

#[test]
fn dispatch_failure_leads_back_to_backed_off_reconnect() {
    let (state, action) = supervisor_step(LinkState::Connected, LinkEvent::DispatchSucceeded);
    assert_eq!(state, LinkState::Connected);
    assert_eq!(action, LinkAction::Dispatch);
    let (state, action) = supervisor_step(state, LinkEvent::DispatchFailed);
    assert_eq!(state, LinkState::Disconnected);
    assert_eq!(action, LinkAction::BackoffThenConnect);
    assert_eq!(BACKOFF_MILLIS, 5000);
    assert_eq!(DISPATCH_TICK_MILLIS, 100);
}

#[test]
fn second_creation_carries_the_latest_snapshot() {
    let event = created("a.png", PathKind::File);
    let first = correlate(&event, pos(1.0, 2.0)).unwrap();
    let second = correlate(&event, pos(3.0, 4.0)).unwrap();
    // Same target file both times: the record overwrites, it never accumulates.
    assert_eq!(first.sidecar_path, second.sidecar_path);
    assert_eq!(second.position, pos(3.0, 4.0));
}

#[test]
fn jpg_screenshot_is_paired_with_the_current_snapshot() {
    let store = SharedPositionStore::new();
    store.write(pos(47.449, -122.309));
    let snapshot = store.read();
    let rec = correlate(&created("IMG_01.jpg", PathKind::File), snapshot).unwrap();
    assert_eq!(rec.sidecar_path, "IMG_01.geo");
    let text = format!(
        "{},{}",
        f64::from_bits(rec.position.latitude_bits),
        f64::from_bits(rec.position.longitude_bits)
    );
    assert_eq!(text, "47.449,-122.309");
}

#[test]
fn text_file_creation_produces_no_sidecar() {
    let store = SharedPositionStore::new();
    store.write(pos(47.449, -122.309));
    let r = correlate(&created("notes.txt", PathKind::File), store.read());
    assert!(r.is_none());
    // The store is untouched and the correlator goes on watching.
    assert_eq!(store.read(), pos(47.449, -122.309));
}

#[test]
fn string_equality_is_exact() {
    assert!(str_eq("png", "png"));
    assert!(!str_eq("png", "PNG"));
    assert!(!str_eq("png", "pn"));
    assert!(!str_eq("", "p"));
    assert!(str_eq("", ""));
    assert!(image_extension("jpeg"));
    assert!(!image_extension("gif"));
}
