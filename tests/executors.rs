use assert_repro::range_delete::{Action, Event, Fault, Phase, RangeDelete};
use std::collections::BTreeMap;

/// An in-memory store that panics on a lookup or delete while an iterator
/// is open.
struct MemStore {
    data: BTreeMap<Vec<u8>, Vec<u8>>,
    cursor: Option<Vec<Vec<u8>>>,
    deletes: Vec<Vec<u8>>,
}

impl MemStore {
    fn with_keys(keys: &[&[u8]]) -> MemStore {
        let mut data = BTreeMap::new();
        for k in keys {
            data.insert(k.to_vec(), b"v".to_vec());
        }
        MemStore { data, cursor: None, deletes: Vec::new() }
    }

    fn open(&mut self, start: &[u8]) {
        assert!(self.cursor.is_none());
        let mut rest: Vec<Vec<u8>> = self.data.range(start.to_vec()..).map(|(k, _)| k.clone()).collect();
        rest.reverse();
        self.cursor = Some(rest);
    }

    fn perform(&mut self, a: &Action) -> Event {
        match a {
            Action::Advance => match self.cursor.as_mut().unwrap().pop() {
                Some(k) => Event::Item(k),
                None => Event::Exhausted,
            },
            Action::CloseIterator => {
                self.cursor.take().unwrap();
                Event::Closed
            }
            Action::Confirm(k) => {
                assert!(self.cursor.is_none(), "lookup while an iterator is open");
                if self.data.contains_key(k) { Event::Found } else { Event::NotFound }
            }
            Action::Delete(k) => {
                assert!(self.cursor.is_none(), "delete while an iterator is open");
                self.data.remove(k);
                self.deletes.push(k.clone());
                Event::Deleted
            }
            Action::Done(_) => unreachable!(),
        }
    }

    fn range_delete(&mut self, start: &[u8], limit: usize) -> Result<(usize, RangeDelete), Fault> {
        self.open(start);
        let (mut rd, mut a) = RangeDelete::new(limit);
        loop {
            if let Action::Done(n) = a {
                return Ok((n, rd));
            }
            let ev = self.perform(&a);
            a = rd.step(ev)?;
        }
    }
}

#[test]
fn range_delete_removes_collected_keys() {
    let mut s = MemStore::with_keys(&[b"a", b"b", b"c", b"d", b"e"]);
    let (n, rd) = s.range_delete(b"b", 3).unwrap();
    assert_eq!(n, 3);
    assert_eq!(rd.phase, Phase::Finished);
    assert_eq!(rd.keys, vec![b"b".to_vec(), b"c".to_vec(), b"d".to_vec()]);
    assert_eq!(s.deletes, rd.keys);
    assert_eq!(s.data.keys().cloned().collect::<Vec<_>>(), vec![b"a".to_vec(), b"e".to_vec()]);
}

#[test]
fn range_delete_stops_when_iterator_runs_out() {
    let mut s = MemStore::with_keys(&[b"a", b"b", b"c"]);
    let (n, _) = s.range_delete(b"b", 10).unwrap();
    assert_eq!(n, 2);
    assert_eq!(s.data.len(), 1);
}

#[test]
fn range_delete_of_nothing() {
    let mut s = MemStore::with_keys(&[b"a"]);
    assert_eq!(s.range_delete(b"z", 4).unwrap().0, 0);
    assert_eq!(s.range_delete(b"a", 0).unwrap().0, 0);
    assert_eq!(s.data.len(), 1);
}

#[test]
fn range_delete_first_action() {
    let (rd, a) = RangeDelete::new(2);
    assert_eq!(a, Action::Advance);
    assert_eq!(rd.phase, Phase::Collecting);
    let (rd, a) = RangeDelete::new(0);
    assert_eq!(a, Action::CloseIterator);
    assert_eq!(rd.phase, Phase::Closing);
}

#[test]
fn range_delete_faults() {
    let (mut rd, _) = RangeDelete::new(2);
    assert_eq!(rd.step(Event::Found), Err(Fault::UnexpectedEvent));
    assert_eq!(rd.step(Event::Item(b"k".to_vec())), Ok(Action::Advance));
    assert_eq!(rd.step(Event::Exhausted), Ok(Action::CloseIterator));
    assert_eq!(rd.step(Event::Deleted), Err(Fault::UnexpectedEvent));
    assert_eq!(rd.step(Event::Closed), Ok(Action::Confirm(b"k".to_vec())));
    let mut truncated = RangeDelete { limit: rd.limit, keys: rd.keys.clone(), next: rd.next, phase: rd.phase };
    assert_eq!(rd.step(Event::NotFound), Err(Fault::MissingKey));
    assert_eq!(rd.phase, Phase::Failed);
    assert_eq!(rd.step(Event::Closed), Err(Fault::UnexpectedEvent));
    assert_eq!(truncated.step(Event::FoundTruncated), Err(Fault::TruncatedValue));
}

#[test]
fn range_delete_confirms_then_deletes_in_order() {
    let (mut rd, _) = RangeDelete::new(2);
    assert_eq!(rd.step(Event::Item(b"x".to_vec())), Ok(Action::Advance));
    assert_eq!(rd.step(Event::Item(b"y".to_vec())), Ok(Action::CloseIterator));
    assert_eq!(rd.step(Event::Closed), Ok(Action::Confirm(b"x".to_vec())));
    assert_eq!(rd.step(Event::Found), Ok(Action::Delete(b"x".to_vec())));
    assert_eq!(rd.step(Event::Deleted), Ok(Action::Confirm(b"y".to_vec())));
    assert_eq!(rd.step(Event::Found), Ok(Action::Delete(b"y".to_vec())));
    assert_eq!(rd.step(Event::Deleted), Ok(Action::Done(2)));
}
