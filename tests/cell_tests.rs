use concurrency::cell::{GuardedCell, LockError};

#[test]
fn lock_then_write_changes_value() {
    let mut m = GuardedCell::new(5);
    assert_eq!(m.try_lock(1), Ok(()));
    m.set(1, 6);
    assert_eq!(*m.get(1), 6);
    m.unlock(1, false);
    assert!(!m.is_locked());
    assert_eq!(m.try_lock(2), Ok(()));
    assert_eq!(*m.get(2), 6);
}

#[test]
fn second_holder_must_wait() {
    let mut m = GuardedCell::new(0u32);
    assert_eq!(m.try_lock(1), Ok(()));
    assert_eq!(m.try_lock(2), Err(LockError::WouldBlock));
    assert!(m.is_locked());
    m.unlock(1, false);
    assert_eq!(m.try_lock(2), Ok(()));
}

#[test]
fn abnormal_release_poisons_the_cell() {
    let mut m = GuardedCell::new(0u32);
    assert_eq!(m.try_lock(1), Ok(()));
    m.set(1, 3);
    m.unlock(1, true);
    assert!(m.is_poisoned());
    assert_eq!(m.try_lock(2), Err(LockError::Poisoned));
    assert_eq!(m.try_lock(1), Err(LockError::Poisoned));
}

#[test]
fn interleaved_increments_lose_no_update() {
    // ten workers, stepped round-robin: lock, read, write read + 1, unlock
    let n: u64 = 10;
    let mut m = GuardedCell::new(100u64);
    let mut phase = vec![0u8; n as usize];
    let mut local = vec![0u64; n as usize];
    while phase.iter().any(|p| *p < 4) {
        for i in 0..n {
            let k = i as usize;
            match phase[k] {
                0 => {
                    if m.try_lock(i).is_ok() {
                        phase[k] = 1;
                    }
                }
                1 => {
                    local[k] = *m.get(i);
                    phase[k] = 2;
                }
                2 => {
                    m.set(i, local[k] + 1);
                    phase[k] = 3;
                }
                3 => {
                    m.unlock(i, false);
                    phase[k] = 4;
                }
                _ => {}
            }
        }
    }
    assert_eq!(m.try_lock(0), Ok(()));
    assert_eq!(*m.get(0), 110);
}
