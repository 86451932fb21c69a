//! The lap-timing core: a `Lap` is an append-only sequence of timestamped
//! points with a classification, a `Track` carries the start/finish segment,
//! and a `Session` owns the list of sealed laps and drives lap transitions.
//!
//! A crossing is detected between consecutive samples: the segment formed by
//! a lap's last two points is tested against the start/finish segment.
//! Sealing a lap sets its end instant, appends it to the session's lap list,
//! and produces the next open lap, carrying over the single newest point.
//!
//! Timestamps are plain millisecond counts supplied by the caller, so every
//! transition here is a pure function of its arguments.

use vstd::prelude::*;

use crate::geometry::{Coord, Line, spec_segments_intersect};

verus! {

/// Classification of a lap within a session: the out-lap before the first
/// crossing of the start/finish line, a numbered flying lap, or the terminal
/// in-lap that never completes a crossing.
#[derive(Clone, Copy, Debug, PartialEq, Eq, Structural)]
pub enum LapType {
    Out,
    In,
    Lap(u16),
}

/// A single positional sample: a fixed-point coordinate and the millisecond
/// instant at which it was captured. Immutable once created.
#[derive(Clone, Copy, Debug, PartialEq, Eq, Structural)]
pub struct Point {
    pub coord: Coord,
    pub time: u64,
}

impl Point {
    /// Creates a point at the given coordinates and capture instant.
    pub fn new(lat: i32, long: i32, at: u64) -> (p: Point)
        ensures
            p == (Point { coord: Coord { x: lat, y: long }, time: at }),
    {
        Point { coord: Coord { x: lat, y: long }, time: at }
    }

    /// The point's coordinates as a (latitude, longitude) pair.
    pub fn coord(&self) -> (r: (i32, i32))
        ensures
            r == (self.coord.x, self.coord.y),
    {
        (self.coord.x, self.coord.y)
    }

    /// The instant at which the point was captured.
    pub fn at(&self) -> (r: u64)
        ensures
            r == self.time,
    {
        self.time
    }
}

/// The mathematical model of a `Lap`.
pub ghost struct LapModel {
    pub lap_type: LapType,
    pub points: Seq<Point>,
    pub start_time: u64,
    pub end_time: u64,
}

/// The classification that follows `t` when a lap is sealed: the out-lap is
/// followed by lap 1, lap n by lap n + 1, and the in-lap is terminal.
pub open spec fn spec_next_type(t: LapType) -> LapType {
    match t {
        LapType::Out => LapType::Lap(1),
        LapType::Lap(n) => LapType::Lap((n + 1) as u16),
        LapType::In => LapType::In,
    }
}

/// Whether sealing a lap of classification `t` can advance without the lap
/// counter wrapping.
pub open spec fn spec_type_can_advance(t: LapType) -> bool {
    t matches LapType::Lap(n) ==> n < 0xFFFF
}

/// Whether the segment formed by the lap's last two points intersects
/// `boundary`; false when fewer than two points exist.
pub open spec fn spec_lap_crosses(l: LapModel, boundary: Line) -> bool {
    &&& l.points.len() >= 2
    &&& spec_segments_intersect(
        Line {
            start: l.points[l.points.len() - 2].coord,
            end: l.points[l.points.len() - 1].coord,
        },
        boundary,
    )
}

/// The lap as stored in the session once sealed at instant `at`: its end
/// instant is set and its newest point has been handed to the next lap.
pub open spec fn spec_sealed_lap(l: LapModel, at: u64) -> LapModel {
    LapModel {
        lap_type: l.lap_type,
        points: l.points.drop_last(),
        start_time: l.start_time,
        end_time: at,
    }
}

/// The next open lap produced by sealing `l` at instant `at`: the advanced
/// classification, seeded with the single newest point of the sealed lap.
pub open spec fn spec_next_lap(l: LapModel, at: u64) -> LapModel {
    LapModel {
        lap_type: spec_next_type(l.lap_type),
        points: seq![l.points.last()],
        start_time: at,
        end_time: at,
    }
}

/// An ordered, append-only sequence of timestamped points plus a lap
/// classification and start/end instants.
pub struct Lap {
    lap_type: LapType,
    points: Vec<Point>,
    start_time: u64,
    end_time: u64,
}

impl View for Lap {
    type V = LapModel;

    closed spec fn view(&self) -> LapModel {
        LapModel {
            lap_type: self.lap_type,
            points: self.points@,
            start_time: self.start_time,
            end_time: self.end_time,
        }
    }
}

impl Lap {
    /// Creates an empty lap whose start and end instants are both `at`.
    pub fn new(lap_type: LapType, at: u64) -> (l: Lap)
        ensures
            l@ == (LapModel { lap_type, points: Seq::<Point>::empty(), start_time: at, end_time: at }),
    {
        Lap { lap_type, points: Vec::new(), start_time: at, end_time: at }
    }

    /// An exact duplicate of the lap.
    pub fn copy(&self) -> (l: Lap)
        ensures
            l@ == self@,
    {
        Lap {
            lap_type: self.lap_type,
            points: vstd::slice::slice_to_vec(self.points.as_slice()),
            start_time: self.start_time,
            end_time: self.end_time,
        }
    }

    /// Appends a point with the supplied capture instant and returns the
    /// just-added point. Nothing else about the lap changes.
    pub fn add_point(&mut self, lat: i32, long: i32, at: u64) -> (p: Point)
        ensures
            p == (Point { coord: Coord { x: lat, y: long }, time: at }),
            final(self)@ == (LapModel { points: old(self)@.points.push(p), ..old(self)@ }),
    {
        let point = Point::new(lat, long, at);
        self.points.push(point);
        point
    }

    /// Whether the segment formed by the lap's last two points intersects
    /// `line`; false when fewer than two points exist.
    pub fn intersects(&self, line: Line) -> (r: bool)
        ensures
            r == spec_lap_crosses(self@, line),
    {
        if self.points.len() < 2 {
            return false;
        }
        let start = self.points[self.points.len() - 2];
        let end = self.points[self.points.len() - 1];
        let prev_line = Line { start: start.coord, end: end.coord };
        crate::geometry::segments_intersect(&prev_line, &line)
    }

    /// Seals this lap at instant `at` and creates the next lap: this lap's
    /// end instant is set and its newest point moves over to seed the next
    /// lap, whose classification is advanced per `spec_next_type`.
    ///
    /// Sealing a lap with fewer than two points is a programming-contract
    /// violation, excluded here; `Session::try_add_lap` is the checked entry.
    pub fn next_lap(&mut self, at: u64) -> (next: Lap)
        requires
            old(self)@.points.len() >= 2,
            spec_type_can_advance(old(self)@.lap_type),
        ensures
            final(self)@ == spec_sealed_lap(old(self)@, at),
            next@ == spec_next_lap(old(self)@, at),
    {
        let lap_type = match self.lap_type {
            LapType::Out => LapType::Lap(1),
            LapType::Lap(num) => LapType::Lap(num + 1),
            LapType::In => LapType::In,
        };
        let carried = match self.points.pop() {
            Some(p) => p,
            None => unreached(),
        };
        let mut points: Vec<Point> = Vec::new();
        points.push(carried);
        self.end_time = at;
        proof {
            assert(points@ =~= seq![old(self)@.points.last()]);
        }
        Lap { lap_type, points, start_time: at, end_time: at }
    }

    /// Milliseconds elapsed in the lap at instant `now`, zero if `now` is
    /// before the lap's start.
    pub fn time(&self, now: u64) -> (r: u64)
        ensures
            r == if now >= self@.start_time {
                now - self@.start_time
            } else {
                0
            },
    {
        if now >= self.start_time {
            now - self.start_time
        } else {
            0
        }
    }

    /// The lap's points, in arrival order.
    pub fn points(&self) -> (r: &Vec<Point>)
        ensures
            r@ == self@.points,
    {
        &self.points
    }

    /// The lap's classification.
    pub fn number(&self) -> (r: LapType)
        ensures
            r == self@.lap_type,
    {
        self.lap_type
    }
}

/// A sector boundary on a track: the segments where the sector begins and
/// ends.
#[derive(Clone, Copy, Debug, PartialEq, Eq, Structural)]
pub struct Sector {
    pub start: Line,
    pub end: Line,
}

impl Sector {
    /// Creates a new sector bounded by the two segments.
    pub fn new(start: Line, end: Line) -> (s: Sector)
        ensures
            s == (Sector { start, end }),
    {
        Sector { start, end }
    }
}

/// The mathematical model of a `Track`.
pub ghost struct TrackModel {
    pub name: Seq<char>,
    pub start_finish: Line,
    pub sectors: Seq<Sector>,
}

/// A static course definition: a name, the start/finish segment, and an
/// ordered list of sector boundaries. Fixed for the lifetime of a session.
pub struct Track {
    name: String,
    start_finish: Line,
    sectors: Vec<Sector>,
}

impl View for Track {
    type V = TrackModel;

    closed spec fn view(&self) -> TrackModel {
        TrackModel { name: self.name@, start_finish: self.start_finish, sectors: self.sectors@ }
    }
}

impl Track {
    /// Creates a track whose start/finish segment runs from `sf_start` to
    /// `sf_end`, with no sectors.
    pub fn new(name: String, sf_start: (i32, i32), sf_end: (i32, i32)) -> (t: Track)
        ensures
            t@ == (TrackModel {
                name: name@,
                start_finish: Line {
                    start: Coord { x: sf_start.0, y: sf_start.1 },
                    end: Coord { x: sf_end.0, y: sf_end.1 },
                },
                sectors: Seq::<Sector>::empty(),
            }),
    {
        Track {
            name,
            start_finish: Line {
                start: Coord { x: sf_start.0, y: sf_start.1 },
                end: Coord { x: sf_end.0, y: sf_end.1 },
            },
            sectors: Vec::new(),
        }
    }

    /// The track's name.
    pub fn name(&self) -> (r: &String)
        ensures
            r@ == self@.name,
    {
        &self.name
    }

    /// The start/finish segment.
    pub fn start_finish(&self) -> (r: Line)
        ensures
            r == self@.start_finish,
    {
        self.start_finish
    }

    /// Appends a sector boundary to the track.
    pub fn add_sector(&mut self, sector: Sector)
        ensures
            final(self)@ == (TrackModel { sectors: old(self)@.sectors.push(sector), ..old(self)@ }),
    {
        self.sectors.push(sector);
    }

    /// An exact duplicate of the track.
    pub fn copy(&self) -> (t: Track)
        ensures
            t@ == self@,
    {
        Track {
            name: self.name.clone(),
            start_finish: self.start_finish,
            sectors: vstd::slice::slice_to_vec(self.sectors.as_slice()),
        }
    }
}

/// The mathematical model of a `Session`.
pub ghost struct SessionModel {
    pub track: TrackModel,
    pub laps: Seq<LapModel>,
}

/// The classification a sealed lap holds at position `i` of a session's lap
/// list: the out-lap first, then lap 1, lap 2, and so on.
pub open spec fn spec_lap_type_at(i: int) -> LapType {
    if i == 0 {
        LapType::Out
    } else {
        LapType::Lap(i as u16)
    }
}

/// The classification the currently-open lap must hold: `Out` before any lap
/// has been sealed, and lap n once n laps have been sealed.
pub open spec fn spec_expected_type(s: SessionModel) -> LapType {
    spec_lap_type_at(s.laps.len() as int)
}

/// Session well-formedness: the sealed-lap list carries the out-lap followed
/// by laps numbered 1, 2, ... in order, and the lap counter has not wrapped.
pub open spec fn spec_session_wf(s: SessionModel) -> bool {
    &&& s.laps.len() <= 0xFFFF
    &&& forall|i: int|
        0 <= i < s.laps.len() ==> (#[trigger] s.laps[i].lap_type) == spec_lap_type_at(i)
}

/// The session that results from sealing open lap `l` at instant `at`.
pub open spec fn spec_session_after_seal(s: SessionModel, l: LapModel, at: u64) -> SessionModel {
    SessionModel { track: s.track, laps: s.laps.push(spec_sealed_lap(l, at)) }
}

/// One continuous timing run against a single track: the track and the
/// append-only list of sealed laps.
pub struct Session {
    track: Track,
    laps: Vec<Lap>,
}

impl View for Session {
    type V = SessionModel;

    closed spec fn view(&self) -> SessionModel {
        SessionModel { track: self.track@, laps: self.laps@.map_values(|l: Lap| l@) }
    }
}

impl Session {
    /// Creates a session on `track` with an empty lap list.
    pub fn new(track: Track) -> (s: Session)
        ensures
            s@ == (SessionModel { track: track@, laps: Seq::<LapModel>::empty() }),
            spec_session_wf(s@),
    {
        let s = Session { track, laps: Vec::new() };
        proof {
            assert(s@.laps =~= Seq::<LapModel>::empty());
        }
        s
    }

    /// Starts the timer: produces the fresh out-lap, open at instant `at`.
    /// Call once per session.
    pub fn start(&self, at: u64) -> (l: Lap)
        ensures
            l@ == (LapModel {
                lap_type: LapType::Out,
                points: Seq::<Point>::empty(),
                start_time: at,
                end_time: at,
            }),
    {
        Lap::new(LapType::Out, at)
    }

    /// Whether the open lap `lap` has just completed a lap of this session's
    /// track: its last two points straddle the start/finish segment.
    pub fn is_lap_complete(&self, lap: &Lap) -> (r: bool)
        ensures
            r == spec_lap_crosses(lap@, self@.track.start_finish),
    {
        lap.intersects(self.track.start_finish())
    }

    /// Seals `lap` into the session at instant `at` and returns the next
    /// open lap. Ownership of the sealed lap transfers to the session.
    ///
    /// Sealing a lap with fewer than two points, or one whose classification
    /// is not the one the session expects, is a programming-contract
    /// violation, excluded here; `try_add_lap` is the checked entry.
    pub fn add_lap(&mut self, lap: Lap, at: u64) -> (next: Lap)
        requires
            spec_session_wf(old(self)@),
            old(self)@.laps.len() < 0xFFFF,
            lap@.points.len() >= 2,
            lap@.lap_type == spec_expected_type(old(self)@),
        ensures
            final(self)@ == spec_session_after_seal(old(self)@, lap@, at),
            next@ == spec_next_lap(lap@, at),
            spec_session_wf(final(self)@),
            next@.lap_type == spec_expected_type(final(self)@),
    {
        let ghost old_model = self@;
        let ghost lap_model = lap@;
        let mut lap = lap;
        let next = lap.next_lap(at);
        self.laps.push(lap);
        proof {
            assert(self@.laps =~= old_model.laps.push(spec_sealed_lap(lap_model, at)));
            assert forall|i: int|
                0 <= i < self@.laps.len() implies (#[trigger] self@.laps[i].lap_type)
                == spec_lap_type_at(i) by {
                if i < old_model.laps.len() {
                    assert(old_model.laps[i].lap_type == spec_lap_type_at(i));
                }
            }
        }
        next
    }

    /// The checked seal: rejects a lap with fewer than two points, one whose
    /// classification does not match the session's expectation, or a session
    /// whose lap counter is exhausted. On rejection the session is unchanged
    /// and the lap is handed back to the caller in the `Err` variant.
    pub fn try_add_lap(&mut self, lap: Lap, at: u64) -> (r: Result<Lap, Lap>)
        requires
            spec_session_wf(old(self)@),
        ensures
            spec_session_wf(final(self)@),
            match r {
                Ok(next) => {
                    &&& old(self)@.laps.len() < 0xFFFF
                    &&& lap@.points.len() >= 2
                    &&& lap@.lap_type == spec_expected_type(old(self)@)
                    &&& final(self)@ == spec_session_after_seal(old(self)@, lap@, at)
                    &&& next@ == spec_next_lap(lap@, at)
                },
                Err(rejected) => {
                    &&& !(old(self)@.laps.len() < 0xFFFF && lap@.points.len() >= 2
                        && lap@.lap_type == spec_expected_type(old(self)@))
                    &&& rejected@ == lap@
                    &&& final(self)@ == old(self)@
                },
            },
    {
        let expected = if self.laps.len() == 0 {
            LapType::Out
        } else {
            LapType::Lap(self.laps.len() as u16)
        };
        if self.laps.len() >= 0xFFFF || lap.points.len() < 2 || !(lap.number() == expected) {
            return Err(lap);
        }
        Ok(self.add_lap(lap, at))
    }

    /// Marks the last sealed lap as the in-lap; terminal. A no-op when no
    /// lap has been sealed yet.
    pub fn finish(&mut self)
        ensures
            old(self)@.laps.len() == 0 ==> final(self)@ == old(self)@,
            old(self)@.laps.len() > 0 ==> final(self)@ == (SessionModel {
                track: old(self)@.track,
                laps: old(self)@.laps.update(
                    old(self)@.laps.len() - 1,
                    LapModel { lap_type: LapType::In, ..old(self)@.laps.last() },
                ),
            }),
    {
        let ghost old_model = self@;
        match self.laps.pop() {
            None => {
                proof {
                    assert(self@ == old_model);
                }
            },
            Some(mut last) => {
                last.lap_type = LapType::In;
                self.laps.push(last);
                proof {
                    assert(self@.laps =~= old_model.laps.update(
                        old_model.laps.len() - 1,
                        LapModel { lap_type: LapType::In, ..old_model.laps.last() },
                    ));
                }
            },
        }
    }

    /// The sealed laps, in the order they were completed.
    pub fn laps(&self) -> (r: &Vec<Lap>)
        ensures
            r@.map_values(|l: Lap| l@) == self@.laps,
    {
        &self.laps
    }

    /// The number of sealed laps; the display reads "Lap N" from this count.
    pub fn current_lap_number(&self) -> (r: usize)
        ensures
            r == self@.laps.len(),
    {
        self.laps.len()
    }
}

/// Lap numbering across a well-formed session is strictly increasing by
/// exactly one: the list starts at the out-lap, the sealed lap at position i
/// carries number i, consecutive sealed laps differ by exactly one, and no
/// classification ever repeats.
pub proof fn lemma_lap_numbering(s: SessionModel)
    requires
        spec_session_wf(s),
    ensures
        s.laps.len() > 0 ==> s.laps[0].lap_type == LapType::Out,
        forall|i: int| 1 <= i < s.laps.len() ==> (#[trigger] s.laps[i].lap_type) == LapType::Lap(
            i as u16,
        ),
        forall|i: int, j: int|
            0 <= i < j < s.laps.len() ==> (#[trigger] s.laps[i].lap_type) != (
            #[trigger] s.laps[j].lap_type),
        forall|i: int|
            1 <= i < s.laps.len() ==> #[trigger] spec_next_type(s.laps[i - 1].lap_type)
                == s.laps[i].lap_type,
{
    assert forall|i: int, j: int| 0 <= i < j < s.laps.len() implies (
    #[trigger] s.laps[i].lap_type) != (#[trigger] s.laps[j].lap_type) by {
        assert(s.laps[i].lap_type == spec_lap_type_at(i));
        assert(s.laps[j].lap_type == spec_lap_type_at(j));
    }
    assert forall|i: int| 1 <= i < s.laps.len() implies #[trigger] spec_next_type(
        s.laps[i - 1].lap_type,
    ) == s.laps[i].lap_type by {
        assert(s.laps[i - 1].lap_type == spec_lap_type_at(i - 1));
        assert(s.laps[i].lap_type == spec_lap_type_at(i));
    }
}

/// Sealing adds exactly one lap to the session, however many points the
/// sealed lap carried: two open laps of the same classification but
/// different point counts leave the session with the same lap count. Since a
/// new session starts empty, the count after k seals is exactly k.
pub proof fn lemma_seal_count(s: SessionModel, l1: LapModel, l2: LapModel, at1: u64, at2: u64)
    requires
        l1.lap_type == l2.lap_type,
    ensures
        spec_session_after_seal(s, l1, at1).laps.len() == s.laps.len() + 1,
        spec_session_after_seal(s, l1, at1).laps.len() == spec_session_after_seal(
            s,
            l2,
            at2,
        ).laps.len(),
{
}

} // verus!
