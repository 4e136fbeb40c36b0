use std::cell::Cell;
use std::rc::Rc;

use dav1d::DecodeErrorKind;
use dav1d::Dav1dError;
use dav1d::FrameRecord;
use dav1d::Picture;
use dav1d::PullStatus;
use dav1d::SubmitStatus;
use dav1d::Submission;

const AGAIN: i32 = -11;
const FAULT: i32 = -22;

fn blank() -> FrameRecord {
    FrameRecord {
        data: [0, 0, 0],
        stride: [0, 0],
        width: 0,
        height: 0,
        layout: 0,
        bpc: 0,
        hbd: 0,
        timestamp: i64::MIN,
        duration: 0,
    }
}

/// A scripted engine: a unit whose first byte is 0xFF is refused; a unit
/// whose first byte is 0xEE yields one picture and then a fault; every other
/// unit is one frame whose width and height are its next two big-endian
/// 16-bit fields, ready once `delay` units have been taken in.
struct FakeEngine {
    delay: usize,
    taken: usize,
    ready: Vec<FrameRecord>,
    fault_pending: bool,
}

impl FakeEngine {
    fn new(delay: usize) -> FakeEngine {
        FakeEngine { delay, taken: 0, ready: Vec::new(), fault_pending: false }
    }

    fn send(&mut self, data: &[u8]) -> i32 {
        if data.first() == Some(&0xFF) {
            return FAULT;
        }
        self.taken += 1;
        let w = i32::from(u16::from_be_bytes([data[1], data[2]]));
        let h = i32::from(u16::from_be_bytes([data[3], data[4]]));
        self.ready.push(FrameRecord { width: w, height: h, timestamp: self.taken as i64, ..blank() });
        if data[0] == 0xEE {
            self.fault_pending = true;
        }
        0
    }

    fn get_picture(&mut self) -> (i32, FrameRecord) {
        if self.taken < self.delay {
            return (AGAIN, blank());
        }
        if !self.ready.is_empty() {
            return (0, self.ready.remove(0));
        }
        if self.fault_pending {
            self.fault_pending = false;
            return (FAULT, blank());
        }
        (AGAIN, blank())
    }
}

fn submit(engine: &mut FakeEngine, data: &[u8]) -> Result<Vec<Picture>, Dav1dError> {
    let mut s = Submission::start(engine.send(data));
    while s.wants_picture() {
        let (ret, record) = engine.get_picture();
        s.on_picture(ret, AGAIN, Picture::new(record));
    }
    s.finish()
}

fn unit(tag: u8, w: u16, h: u16) -> Vec<u8> {
    let mut v = vec![tag];
    v.extend_from_slice(&w.to_be_bytes());
    v.extend_from_slice(&h.to_be_bytes());
    v
}

#[test]
fn pull_codes_are_classified() {
    assert_eq!(dav1d::session::classify_pull(0, AGAIN), PullStatus::Produced);
    assert_eq!(dav1d::session::classify_pull(AGAIN, AGAIN), PullStatus::NeedMoreData);
    assert_eq!(dav1d::session::classify_pull(FAULT, AGAIN), PullStatus::Fault);
    assert_eq!(dav1d::session::classify_pull(1, AGAIN), PullStatus::Fault);
}

#[test]
fn single_frame_unit_gives_one_picture() {
    let mut engine = FakeEngine::new(1);
    let pics = submit(&mut engine, &unit(1, 640, 360)).unwrap();
    assert_eq!(pics.len(), 1);
    assert_eq!(pics[0].width(), 640);
    assert_eq!(pics[0].height(), 360);
}

#[test]
fn refused_unit_is_ingestion_rejected() {
    let mut engine = FakeEngine::new(1);
    let err = submit(&mut engine, &[0xFF, 0, 0, 0, 0]).unwrap_err();
    assert_eq!(err.kind(), DecodeErrorKind::IngestionRejected);
    assert_eq!(err.name(), "Data can't be consumed");
    assert_eq!(err, Dav1dError::ingestion_rejected());
}

#[test]
fn refused_unit_pulls_nothing() {
    let s: Submission<Picture> = Submission::start(FAULT);
    assert!(!s.wants_picture());
    assert_eq!(s.status(), SubmitStatus::Rejected);
    assert!(s.finish().is_err());
}

#[test]
fn engine_with_delay_answers_on_third_unit() {
    let mut engine = FakeEngine::new(3);
    assert_eq!(submit(&mut engine, &unit(1, 16, 16)).unwrap().len(), 0);
    assert_eq!(submit(&mut engine, &unit(1, 32, 32)).unwrap().len(), 0);
    let pics = submit(&mut engine, &unit(1, 64, 64)).unwrap();
    assert_eq!(pics.len(), 3);
    assert_eq!(pics[0].width(), 16);
    assert_eq!(pics[2].height(), 64);
    assert_eq!(pics[0].timestamp(), Some(1));
}

#[test]
fn fault_during_drain_discards_pictures() {
    let mut engine = FakeEngine::new(1);
    let err = submit(&mut engine, &unit(0xEE, 8, 8)).unwrap_err();
    assert_eq!(err.kind(), DecodeErrorKind::DecodeFault);
    assert_eq!(err.name(), "Invalid data");
}

#[test]
fn submit_after_full_drain_yields_nothing() {
    let mut engine = FakeEngine::new(1);
    assert_eq!(submit(&mut engine, &unit(1, 8, 8)).unwrap().len(), 1);
    let mut s: Submission<Picture> = Submission::start(0);
    let (ret, record) = engine.get_picture();
    assert!(!s.on_picture(ret, AGAIN, Picture::new(record)));
    assert_eq!(s.status(), SubmitStatus::Complete);
    assert_eq!(s.finish().unwrap().len(), 0);
}

#[test]
fn pictures_come_out_in_emission_order() {
    let mut s = Submission::start(0);
    assert!(s.on_picture(0, AGAIN, 'a'));
    assert!(s.on_picture(0, AGAIN, 'b'));
    assert!(!s.on_picture(AGAIN, AGAIN, 'z'));
    assert_eq!(s.finish().unwrap(), vec!['a', 'b']);
}

struct Counted(Rc<Cell<usize>>);

impl Drop for Counted {
    fn drop(&mut self) {
        self.0.set(self.0.get() + 1);
    }
}

#[test]
fn every_frame_handed_over_is_released_once() {
    let released = Rc::new(Cell::new(0));
    let mut s = Submission::start(0);
    assert!(s.on_picture(0, AGAIN, Counted(released.clone())));
    assert!(s.on_picture(0, AGAIN, Counted(released.clone())));
    assert!(!s.on_picture(FAULT, AGAIN, Counted(released.clone())));
    assert_eq!(released.get(), 1);
    assert!(s.finish().is_err());
    assert_eq!(released.get(), 3);
}

#[test]
fn kept_pictures_are_released_when_dropped() {
    let released = Rc::new(Cell::new(0));
    let mut s = Submission::start(0);
    assert!(s.on_picture(0, AGAIN, Counted(released.clone())));
    assert!(!s.on_picture(AGAIN, AGAIN, Counted(released.clone())));
    let kept = s.finish().ok().unwrap();
    assert_eq!(released.get(), 1);
    drop(kept);
    assert_eq!(released.get(), 2);
}

#[test]
fn error_constructors() {
    let e = Dav1dError::decode_fault();
    assert_eq!(e.kind(), DecodeErrorKind::DecodeFault);
    assert_eq!(e.name(), "Invalid data");
    assert_ne!(e, Dav1dError::ingestion_rejected());
}
