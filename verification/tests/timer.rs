use openlaps::catalog::find_nearest;
use openlaps::display::pretty_duration;
use openlaps::geometry::{Coord, Line};
use openlaps::timer::{Lap, LapType, Session, Track};

// Coordinates are fixed-point integers; the values below carry one decimal
// of the course coordinates, so 2.1 is written 21.

#[test]
fn timer_test_lap() {
    let lap = Lap::new(LapType::Out, 0);
    assert_eq!(lap.number(), LapType::Out);
    assert_eq!(lap.points().len(), 0);
}

#[test]
fn lib_test_lap() {
    let lap = Lap::new(LapType::Out, 0);
    assert_eq!(lap.number(), LapType::Out);
    assert_eq!(lap.points().len(), 0);
}

#[test]
fn test_session() {
    let sf_line = Line {
        start: Coord { x: 21, y: 10 },
        end: Coord { x: 26, y: 40 },
    };
    let track = Track::new("Sonoma".to_string(), (21, 10), (26, 40));

    let session = Session::new(track);
    assert_eq!(session.laps().len(), 0);

    let mut lap = session.start(0);
    assert_eq!(lap.number(), LapType::Out);

    lap.add_point(10, 10, 1);
    assert!(!lap.intersects(sf_line)); // No intersection

    lap.add_point(20, 20, 2);
    assert!(!lap.intersects(sf_line)); // No intersection

    lap.add_point(30, 30, 3);
    assert!(lap.intersects(sf_line)); // Intersection

    // Move to the next lap since we crossed start/finish
    lap = lap.next_lap(4);
    assert!(matches!(lap.number(), LapType::Lap(1)));

    lap.add_point(40, 40, 5);
    assert!(!lap.intersects(sf_line)); // No intersection
}

#[test]
fn timer_test_track() {
    let sf_line = Line {
        start: Coord { x: 10, y: 10 },
        end: Coord { x: 20, y: 20 },
    };
    let track = Track::new("Sonoma".to_string(), (10, 10), (20, 20));
    assert_eq!(track.name(), &"Sonoma".to_string());
    assert_eq!(track.start_finish().start, sf_line.start);
    assert_eq!(track.start_finish().end, sf_line.end);
}

#[test]
fn lib_test_track() {
    let track = Track::new("Sonoma".to_string(), (10, 10), (20, 20));
    assert_eq!(track.name(), &"Sonoma".to_string());
    assert_eq!(track.start_finish().start, Coord { x: 10, y: 10 });
    assert_eq!(track.start_finish().end, Coord { x: 20, y: 20 });
}

#[test]
fn track_test_track() {
    let t = Track::new("A test track".to_string(), (10, 10), (20, 20));
    assert_eq!(t.name(), &"A test track".to_string());
    assert_eq!(t.start_finish().start, Coord { x: 10, y: 10 });
    assert_eq!(t.start_finish().end, Coord { x: 20, y: 20 });
}

// The crossing test is decided by the segment formed by the lap's last two
// points: one clearly non-intersecting, one intersecting, and one
// collinear/touching case, plus the under-two-points case.
#[test]
fn crossing_between_consecutive_samples() {
    let boundary = Line {
        start: Coord { x: 0, y: 0 },
        end: Coord { x: 100, y: 0 },
    };

    // Fewer than two points: never a crossing.
    let mut lap = Lap::new(LapType::Out, 0);
    assert!(!lap.intersects(boundary));
    lap.add_point(10, 10, 1);
    assert!(!lap.intersects(boundary));

    // Both recent points on the same side: no crossing.
    lap.add_point(20, 20, 2);
    assert!(!lap.intersects(boundary));

    // The last two points straddle the boundary: crossing.
    lap.add_point(20, -20, 3);
    assert!(lap.intersects(boundary));

    // Collinear with the boundary and overlapping it: counts as a crossing.
    let mut flat = Lap::new(LapType::Out, 0);
    flat.add_point(50, 0, 1);
    flat.add_point(60, 0, 2);
    assert!(flat.intersects(boundary));

    // Touching the boundary exactly at an endpoint: counts as a crossing.
    let mut touch = Lap::new(LapType::Out, 0);
    touch.add_point(100, 0, 1);
    touch.add_point(150, 50, 2);
    assert!(touch.intersects(boundary));
}

// Lap numbering advances by exactly one per seal, from Out, and the count of
// sealed laps equals the number of seals however many points each lap held.
#[test]
fn lap_numbering_and_count() {
    let track = Track::new("t".to_string(), (20, 0), (20, 20));
    let mut session = Session::new(track);
    let mut lap = session.start(0);

    // First lap: several points before the crossing pair.
    lap.add_point(10, 5, 1);
    lap.add_point(12, 6, 2);
    lap.add_point(10, 10, 3);
    lap.add_point(30, 10, 4);
    assert!(session.is_lap_complete(&lap));
    lap = session.add_lap(lap, 4);
    assert_eq!(session.current_lap_number(), 1);
    assert_eq!(lap.number(), LapType::Lap(1));

    // Second lap: the carried point plus one appended point cross back.
    lap.add_point(10, 10, 5);
    assert!(session.is_lap_complete(&lap));
    lap = session.add_lap(lap, 5);
    assert_eq!(session.current_lap_number(), 2);
    assert_eq!(lap.number(), LapType::Lap(2));

    // Third lap.
    lap.add_point(30, 10, 6);
    lap = match session.try_add_lap(lap, 6) {
        Ok(next) => next,
        Err(_) => panic!("seal was rejected"),
    };
    assert_eq!(session.current_lap_number(), 3);
    assert_eq!(lap.number(), LapType::Lap(3));

    let laps = session.laps();
    assert_eq!(laps[0].number(), LapType::Out);
    assert_eq!(laps[1].number(), LapType::Lap(1));
    assert_eq!(laps[2].number(), LapType::Lap(2));
}

// Sealing a lap with fewer than two points is rejected: the session is
// unchanged and the lap is handed back rather than lost.
#[test]
fn seal_rejects_short_lap() {
    let track = Track::new("t".to_string(), (20, 0), (20, 20));
    let mut session = Session::new(track);

    let empty = session.start(0);
    match session.try_add_lap(empty, 1) {
        Ok(_) => panic!("an empty lap must not seal"),
        Err(rejected) => {
            assert_eq!(rejected.number(), LapType::Out);
            assert_eq!(rejected.points().len(), 0);
        }
    }
    assert_eq!(session.current_lap_number(), 0);

    let mut single = session.start(0);
    single.add_point(10, 10, 1);
    match session.try_add_lap(single, 2) {
        Ok(_) => panic!("a one-point lap must not seal"),
        Err(rejected) => assert_eq!(rejected.points().len(), 1),
    }
    assert_eq!(session.current_lap_number(), 0);

    // A lap whose classification is not the one the session expects next is
    // rejected too.
    let mut wrong = Lap::new(LapType::Lap(5), 0);
    wrong.add_point(10, 10, 1);
    wrong.add_point(30, 10, 2);
    assert!(session.try_add_lap(wrong, 3).is_err());
    assert_eq!(session.current_lap_number(), 0);
}

// Sealing hands the single newest point over to the next lap and keeps the
// earlier points in the sealed lap.
#[test]
fn seal_carries_over_newest_point() {
    let mut lap = Lap::new(LapType::Out, 0);
    lap.add_point(1, 1, 1);
    lap.add_point(2, 2, 2);
    lap.add_point(3, 3, 3);
    let next = lap.next_lap(9);
    assert_eq!(next.number(), LapType::Lap(1));
    assert_eq!(next.points().len(), 1);
    assert_eq!(next.points()[0].coord(), (3, 3));
    assert_eq!(next.points()[0].at(), 3);
    assert_eq!(lap.points().len(), 2);
    assert_eq!(lap.points()[1].coord(), (2, 2));
}

#[test]
fn finish_marks_last_lap_as_inlap() {
    let track = Track::new("t".to_string(), (20, 0), (20, 20));
    let mut session = Session::new(track);

    // Finishing with no sealed laps is a no-op.
    session.finish();
    assert_eq!(session.current_lap_number(), 0);

    let mut lap = session.start(0);
    lap.add_point(10, 10, 1);
    lap.add_point(30, 10, 2);
    let _ = session.add_lap(lap, 2);
    session.finish();
    assert_eq!(session.current_lap_number(), 1);
    assert_eq!(session.laps()[0].number(), LapType::In);
}

#[test]
fn lap_elapsed_time() {
    let lap = Lap::new(LapType::Out, 100);
    assert_eq!(lap.time(1_600), 1_500);
    assert_eq!(lap.time(100), 0);
    // A clock reading from before the lap started reports zero.
    assert_eq!(lap.time(50), 0);
}

#[test]
fn lap_copy_is_exact() {
    let mut lap = Lap::new(LapType::Out, 7);
    lap.add_point(4, 5, 8);
    lap.add_point(6, 7, 9);
    let dup = lap.copy();
    assert_eq!(dup.number(), lap.number());
    assert_eq!(dup.points().len(), 2);
    assert_eq!(dup.points()[0].coord(), (4, 5));
    assert_eq!(dup.points()[1].coord(), (6, 7));
    assert_eq!(dup.time(107), lap.time(107));
}

// The nearest-track lookup, with the course coordinates carried at one
// decimal of precision in the fixed-point values.
#[test]
fn find_nearest_prefers_closest_track() {
    let mut tracks: Vec<Track> = Vec::new();
    assert!(find_nearest(&tracks, 80, 80).is_none());

    tracks.push(Track::new("A test track".to_string(), (10, 10), (20, 20)));
    tracks.push(Track::new("One Magnitude".to_string(), (100, 100), (101, 101)));
    tracks.push(Track::new("Distant Track".to_string(), (1000, 1000), (1001, 1001)));
    let t = find_nearest(&tracks, 80, 80).unwrap();
    assert_eq!(t.name(), &"One Magnitude".to_string());

    tracks.push(Track::new("Just a bit closer".to_string(), (90, 90), (91, 91)));
    let t = find_nearest(&tracks, 80, 80).unwrap();
    assert_eq!(t.name(), &"Just a bit closer".to_string());
}

#[test]
fn find_nearest_first_wins_on_tie() {
    let mut tracks: Vec<Track> = Vec::new();
    tracks.push(Track::new("east".to_string(), (10, 0), (11, 0)));
    tracks.push(Track::new("west".to_string(), (-10, 0), (-11, 0)));
    // Both start/finish origins are equally far from the origin: the
    // earlier entry is chosen.
    let t = find_nearest(&tracks, 0, 0).unwrap();
    assert_eq!(t.name(), &"east".to_string());
}

#[test]
fn pretty_duration_formats_clock() {
    assert_eq!(pretty_duration(0), "00:00.0");
    assert_eq!(pretty_duration(61_500), "01:01.5");
    assert_eq!(pretty_duration(125_340), "02:05.3");
    assert_eq!(pretty_duration(3_599_900), "59:59.9");
    // Minutes wrap at an hour.
    assert_eq!(pretty_duration(3_600_000), "00:00.0");
    assert_eq!(pretty_duration(999), "00:00.9");
}
