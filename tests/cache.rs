use llama_core::cache::CacheLayout;

#[test]
fn later_position_keeps_earlier_entry() {
    let layout = CacheLayout { n_layers: 2, seq_len: 3, kv_dim: 2 };
    let mut cache = vec![0i32; 12];
    layout.write_entry(&mut cache, 1, 0, &[1, 2]);
    layout.write_entry(&mut cache, 1, 1, &[3, 4]);
    assert_eq!(layout.read_entry(&cache, 1, 0), vec![1, 2]);
    assert_eq!(layout.read_entry(&cache, 1, 1), vec![3, 4]);
    assert_eq!(cache, vec![0, 0, 0, 0, 0, 0, 1, 2, 3, 4, 0, 0]);
}

#[test]
fn entry_offsets() {
    let layout = CacheLayout { n_layers: 2, seq_len: 3, kv_dim: 2 };
    assert_eq!(layout.offset(0, 0), 0);
    assert_eq!(layout.offset(0, 2), 4);
    assert_eq!(layout.offset(1, 0), 6);
    assert_eq!(layout.offset(1, 2), 10);
}

#[test]
fn last_entry_is_written_in_place() {
    let layout = CacheLayout { n_layers: 1, seq_len: 2, kv_dim: 3 };
    let mut cache = vec![9u8; 6];
    layout.write_entry(&mut cache, 0, 1, &[1, 2, 3]);
    assert_eq!(cache, vec![9, 9, 9, 1, 2, 3]);
}

#[test]
fn empty_entries_start_at_zero() {
    let layout = CacheLayout { n_layers: 3, seq_len: 4, kv_dim: 0 };
    assert_eq!(layout.offset(2, 3), 0);
    let mut cache: Vec<i32> = vec![];
    layout.write_entry(&mut cache, 2, 3, &[]);
    assert!(layout.read_entry(&cache, 2, 3).is_empty());
}
