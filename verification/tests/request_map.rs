use sage_core::request_map::RequestMap;

#[test]
fn ids_start_at_zero_and_count_up() {
    let mut map: RequestMap<&str> = RequestMap::new();
    assert_eq!(map.len(), 0);
    assert_eq!(map.insert("a"), Ok(0));
    assert_eq!(map.insert("b"), Ok(1));
    assert_eq!(map.insert("c"), Ok(2));
    assert_eq!(map.len(), 3);
    assert!(map.contains(0) && map.contains(1) && map.contains(2));
    assert!(!map.contains(3));
}

#[test]
fn remove_detaches_the_sink_once() {
    let mut map: RequestMap<String> = RequestMap::new();
    let id = map.insert("sink".to_string()).unwrap();
    assert_eq!(map.remove(id), Some("sink".to_string()));
    assert_eq!(map.remove(id), None);
    assert!(!map.contains(id));
    assert_eq!(map.len(), 0);
}

#[test]
fn remove_of_an_id_never_assigned_is_none() {
    let mut map: RequestMap<u8> = RequestMap::new();
    assert_eq!(map.remove(17), None);
    assert_eq!(map.insert(1), Ok(0));
    assert_eq!(map.remove(17), None);
    assert_eq!(map.len(), 1);
}

#[test]
fn a_freed_id_is_not_reused_before_the_cursor_wraps() {
    let mut map: RequestMap<u8> = RequestMap::new();
    assert_eq!(map.insert(0), Ok(0));
    assert_eq!(map.insert(0), Ok(1));
    assert_eq!(map.remove(0), Some(0));
    assert_eq!(map.insert(0), Ok(2));
}

#[test]
fn live_ids_are_never_assigned_twice() {
    let mut map: RequestMap<u32> = RequestMap::new();
    let mut live = std::collections::HashSet::new();
    let mut seed: u32 = 12345;
    for round in 0..200_000u32 {
        seed = seed.wrapping_mul(1664525).wrapping_add(1013904223);
        if seed % 3 != 0 || live.is_empty() {
            match map.insert(round) {
                Ok(id) => assert!(live.insert(id), "id {id} handed out while live"),
                Err(_) => assert_eq!(live.len(), 65536),
            }
        } else {
            let id = *live.iter().next().unwrap();
            live.remove(&id);
            assert!(map.remove(id).is_some());
        }
        assert_eq!(map.len(), live.len());
    }
}

#[test]
fn full_table_hands_the_sink_back() {
    let mut map: RequestMap<u32> = RequestMap::new();
    for expected in 0..=u16::MAX {
        assert_eq!(map.insert(u32::from(expected)), Ok(expected));
    }
    assert_eq!(map.len(), 65536);
    assert_eq!(map.insert(99), Err(99));
    assert_eq!(map.len(), 65536);
    assert_eq!(map.remove(40_000), Some(40_000));
    assert_eq!(map.insert(7), Ok(40_000));
    assert_eq!(map.insert(8), Err(8));
}

#[test]
fn the_cursor_wraps_and_skips_live_ids() {
    let mut map: RequestMap<u32> = RequestMap::new();
    for expected in 0..=u16::MAX {
        assert_eq!(map.insert(0), Ok(expected));
    }
    for id in 0..=u16::MAX {
        if id != 0 && id != 1 && id != 3 {
            assert!(map.remove(id).is_some());
        }
    }
    // The cursor has wrapped to 0; ids 0, 1 and 3 are still live.
    assert_eq!(map.insert(0), Ok(2));
    assert_eq!(map.insert(0), Ok(4));
    assert_eq!(map.insert(0), Ok(5));
}

#[test]
fn clear_drops_every_sink() {
    let mut map: RequestMap<std::rc::Rc<()>> = RequestMap::new();
    let sink = std::rc::Rc::new(());
    for _ in 0..3 {
        map.insert(sink.clone()).unwrap();
    }
    assert_eq!(std::rc::Rc::strong_count(&sink), 4);
    map.clear();
    assert_eq!(std::rc::Rc::strong_count(&sink), 1);
    assert_eq!(map.len(), 0);
    assert_eq!(map.insert(sink.clone()), Ok(3));
}
