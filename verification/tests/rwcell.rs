use worker_pool::outcome::TryAcquire;
use worker_pool::rwcell::RwCell;

#[test]
fn rw_many_readers_share_the_lock() {
    let mut cell = RwCell::new(vec![1, 2, 3]);
    assert_eq!(cell.try_read(), TryAcquire::Acquired);
    assert_eq!(cell.try_read(), TryAcquire::Acquired);
    assert_eq!(cell.try_read(), TryAcquire::Acquired);
    assert_eq!(cell.readers, 3);
    assert_eq!(cell.read_snapshot(), vec![1, 2, 3]);
    cell.release_read();
    cell.release_read();
    cell.release_read();
}

#[test]
fn rw_writer_blocks_until_all_readers_release() {
    let mut cell = RwCell::new(vec![1, 2, 3]);
    assert_eq!(cell.try_read(), TryAcquire::Acquired);
    assert_eq!(cell.try_read(), TryAcquire::Acquired);
    // An exclusive request while shared holders are active must wait.
    assert_eq!(cell.try_write(), TryAcquire::WouldBlock);
    cell.release_read();
    // One shared holder remains, so the writer still waits.
    assert_eq!(cell.try_write(), TryAcquire::WouldBlock);
    cell.release_read();
    assert_eq!(cell.try_write(), TryAcquire::Acquired);
}

#[test]
fn rw_reader_blocks_while_writer_is_active() {
    let mut cell = RwCell::new(vec![1, 2, 3]);
    assert_eq!(cell.try_write(), TryAcquire::Acquired);
    assert_eq!(cell.try_read(), TryAcquire::WouldBlock);
    cell.release_write();
    assert_eq!(cell.try_read(), TryAcquire::Acquired);
}

#[test]
fn rw_reader_sees_value_before_or_after_write() {
    let mut cell = RwCell::new(vec![1, 2, 3]);
    // A reader before the write sees the whole old value.
    assert_eq!(cell.try_read(), TryAcquire::Acquired);
    assert_eq!(cell.read_snapshot(), vec![1, 2, 3]);
    cell.release_read();
    // The writer appends while it alone holds the lock.
    assert_eq!(cell.try_write(), TryAcquire::Acquired);
    cell.push(4);
    cell.release_write();
    // A reader after the write sees the whole new value.
    assert_eq!(cell.try_read(), TryAcquire::Acquired);
    assert_eq!(cell.read_snapshot(), vec![1, 2, 3, 4]);
    cell.release_read();
}

#[test]
fn rw_writer_overwrites_in_place() {
    let mut cell = RwCell::new(vec![0]);
    assert_eq!(cell.try_write(), TryAcquire::Acquired);
    cell.write_at(0, 42);
    assert_eq!(cell.read_at(0), 42);
    assert_eq!(cell.len(), 1);
    cell.release_write();
    assert_eq!(cell.try_read(), TryAcquire::Acquired);
    assert_eq!(cell.read_snapshot(), vec![42]);
    cell.release_read();
}

#[test]
fn rw_poisoned_lock_refuses_readers_and_writers() {
    let mut cell = RwCell::new(vec![1, 2, 3]);
    assert_eq!(cell.try_write(), TryAcquire::Acquired);
    // The exclusive holder terminates abnormally.
    cell.poison_write();
    assert_eq!(cell.try_write(), TryAcquire::Poisoned);
    assert_eq!(cell.try_read(), TryAcquire::Poisoned);
    assert_eq!(cell.try_write(), TryAcquire::Poisoned);
}
