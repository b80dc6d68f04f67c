use file_revlog::window::{RevisionId, RevisionSummary, WindowCache};

fn rev(id: u64) -> RevisionSummary {
    RevisionSummary {
        id: RevisionId { value: id },
        hash_short: format!("{id:07x}"),
        author: String::from("ada"),
        timestamp: 1_600_000_000 + id,
        message: format!("change {id}"),
    }
}

#[test]
fn empty_cache_always_needs_data() {
    let w = WindowCache::new();
    assert!(w.needs_data(0, 0));
    assert!(w.needs_data(5, 100));
}

#[test]
fn fresh_window_serves_every_covered_position() {
    let mut w = WindowCache::new();
    w.set_items(10, vec![rev(1), rev(2), rev(3), rev(4), rev(5)], 100);
    for pos in 10..15 {
        assert!(!w.needs_data(pos, 100));
    }
}

#[test]
fn positions_outside_window_need_data() {
    let mut w = WindowCache::new();
    w.set_items(10, vec![rev(1), rev(2), rev(3)], 100);
    assert!(w.needs_data(9, 100));
    assert!(w.needs_data(13, 100));
}

#[test]
fn changed_total_needs_data_even_inside_window() {
    let mut w = WindowCache::new();
    w.set_items(10, vec![rev(1), rev(2), rev(3)], 100);
    assert!(w.needs_data(11, 101));
    assert!(w.needs_data(11, 99));
}

#[test]
fn get_at_maps_logical_positions() {
    let mut w = WindowCache::new();
    w.set_items(10, vec![rev(7), rev(8)], 50);
    assert_eq!(w.get_at(10).map(|s| s.id.value), Some(7));
    assert_eq!(w.get_at(11).map(|s| s.id.value), Some(8));
    assert!(w.get_at(9).is_none());
    assert!(w.get_at(12).is_none());
    assert_eq!(w.start_index(), 10);
    assert_eq!(w.len(), 2);
}

#[test]
fn clear_drops_the_slice() {
    let mut w = WindowCache::new();
    w.set_items(0, vec![rev(1)], 1);
    assert!(!w.needs_data(0, 1));
    w.clear();
    assert!(w.needs_data(0, 1));
    assert_eq!(w.len(), 0);
}
