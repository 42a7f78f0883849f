use preview1_adapter::registry::{Registry, Stream, StreamKind};

#[test]
fn indices_are_used_again_last_closed_first() {
    let mut registry: Registry<&str> = Registry::new();
    assert_eq!(registry.len(), 0);
    assert!(registry.can_create());
    assert_eq!(registry.create("a"), 0);
    assert_eq!(registry.create("b"), 1);
    assert_eq!(registry.create("c"), 2);
    assert_eq!(registry.create("d"), 3);
    assert_eq!(*registry.get(2), "c");
    registry.close(1);
    registry.close(3);
    assert!(!registry.is_used(1));
    assert!(!registry.is_used(3));
    assert!(registry.is_used(0));
    assert!(!registry.is_used(4));
    assert_eq!(registry.create("e"), 3);
    assert_eq!(registry.create("f"), 1);
    assert_eq!(registry.create("g"), 4);
    assert_eq!(*registry.get(0), "a");
    assert_eq!(*registry.get(1), "f");
    assert_eq!(*registry.get(2), "c");
    assert_eq!(*registry.get(3), "e");
    assert_eq!(*registry.get(4), "g");
    assert_eq!(registry.len(), 5);
    registry.set(2, "h");
    assert_eq!(*registry.get(2), "h");
    registry.close(2);
    registry.close(0);
    registry.close(4);
    assert_eq!(registry.create("i"), 4);
    assert_eq!(registry.create("j"), 0);
    assert_eq!(registry.create("k"), 2);
    assert_eq!(registry.create("l"), 5);
}

#[test]
fn no_two_values_share_an_index() {
    let mut registry: Registry<u32> = Registry::new();
    let mut live: Vec<(u32, u32)> = Vec::new();
    let mut seed = 99u32;
    for round in 0..3000u32 {
        seed = seed.wrapping_mul(1664525).wrapping_add(1013904223);
        if (seed >> 20) % 5 < 3 || live.is_empty() {
            let index = registry.create(round);
            assert!(live.iter().all(|(other, _)| *other != index));
            live.push((index, round));
        } else {
            let at = (seed >> 8) as usize % live.len();
            let (index, _) = live.remove(at);
            registry.close(index);
            assert!(!registry.is_used(index));
        }
        for (index, value) in live.iter() {
            assert_eq!(registry.get(*index), value);
        }
    }
}

#[test]
fn streams_move_on() {
    assert_eq!(Stream::read(3), Stream { fd: 3, kind: StreamKind::Read });
    assert_eq!(Stream::write(3), Stream { fd: 3, kind: StreamKind::Write });
    assert_eq!(Stream::append(3), Stream { fd: 3, kind: StreamKind::Append });
    assert_eq!(Stream::read_at(3, 10).moved(5), Stream { fd: 3, kind: StreamKind::ReadAt(15) });
    assert_eq!(Stream::write_at(4, 10).moved(0), Stream { fd: 4, kind: StreamKind::WriteAt(10) });
    assert_eq!(Stream::write_at(4, u64::MAX).moved(2), Stream { fd: 4, kind: StreamKind::WriteAt(1) });
    assert_eq!(Stream::read(3).moved(9), Stream::read(3));
    assert_eq!(Stream::append(3).moved(9), Stream::append(3));
}
