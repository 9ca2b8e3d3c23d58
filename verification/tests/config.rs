use virtio_balloon::config::{copy_from, num_pages, VirtioBalloonConfig};

fn words(a: u32, b: u32) -> Vec<u8> {
    let mut bytes = a.to_ne_bytes().to_vec();
    bytes.extend_from_slice(&b.to_ne_bytes());
    bytes
}

#[test]
fn default_config_is_zero() {
    let config = VirtioBalloonConfig::default();
    assert_eq!(config, VirtioBalloonConfig { num_pages: 0, actual: 0 });
    assert_eq!(config.to_bytes(), vec![0u8; 8]);
}

#[test]
fn config_is_laid_out_in_field_order() {
    let config = VirtioBalloonConfig { num_pages: 0x0102_0304, actual: 0xa0b0_c0d0 };
    assert_eq!(config.to_bytes(), words(0x0102_0304, 0xa0b0_c0d0));
}

#[test]
fn full_read_gives_the_space() {
    let config = VirtioBalloonConfig { num_pages: 0x1122_3344, actual: 7 };
    let mut data = [0xffu8; 8];
    config.read_config(0, &mut data);
    assert_eq!(data.to_vec(), words(0x1122_3344, 7));
}

#[test]
fn read_longer_than_the_space_leaves_the_rest() {
    let config = VirtioBalloonConfig { num_pages: 1, actual: 2 };
    let mut data = [0xeeu8; 12];
    config.read_config(0, &mut data);
    assert_eq!(data[..8].to_vec(), words(1, 2));
    assert_eq!(data[8..], [0xee; 4]);
}

#[test]
fn read_from_the_middle() {
    let config = VirtioBalloonConfig { num_pages: 1, actual: 0x0506_0708 };
    let mut data = [0u8; 4];
    config.read_config(4, &mut data);
    assert_eq!(data, 0x0506_0708u32.to_ne_bytes());
    let mut tail = [9u8; 3];
    config.read_config(7, &mut tail);
    assert_eq!(tail, [0x0506_0708u32.to_ne_bytes()[3], 9, 9]);
}

#[test]
fn read_past_the_end_changes_nothing() {
    let config = VirtioBalloonConfig { num_pages: 1, actual: 2 };
    let mut data = [0x5au8; 4];
    config.read_config(8, &mut data);
    assert_eq!(data, [0x5a; 4]);
    config.read_config(u64::MAX, &mut data);
    assert_eq!(data, [0x5a; 4]);
}

#[test]
fn empty_read() {
    let config = VirtioBalloonConfig { num_pages: 1, actual: 2 };
    let mut data: [u8; 0] = [];
    config.read_config(0, &mut data);
    assert!(data.is_empty());
}

#[test]
fn reads_compose() {
    let config = VirtioBalloonConfig { num_pages: 0xdead_beef, actual: 0x0bad_cafe };
    let mut whole = [0u8; 8];
    config.read_config(0, &mut whole);
    let mut first = [0u8; 3];
    let mut second = [0u8; 5];
    config.read_config(0, &mut first);
    config.read_config(3, &mut second);
    assert_eq!([first.to_vec(), second.to_vec()].concat(), whole.to_vec());
}

#[test]
fn copy_stops_at_the_shorter_end() {
    let mut data = [0u8; 3];
    copy_from(&[1, 2, 3, 4, 5], 1, &mut data);
    assert_eq!(data, [2, 3, 4]);
    copy_from(&[1, 2, 3, 4, 5], 4, &mut data);
    assert_eq!(data, [5, 3, 4]);
}

#[test]
fn space_determines_config() {
    let a = VirtioBalloonConfig { num_pages: 1, actual: 0 };
    let b = VirtioBalloonConfig { num_pages: 0, actual: 1 };
    assert_ne!(a.to_bytes(), b.to_bytes());
}

#[test]
fn config_is_read_only() {
    let mut config = VirtioBalloonConfig { num_pages: 3, actual: 4 };
    config.write_config(0, &[1, 2, 3, 4, 5, 6, 7, 8]);
    assert_eq!(config, VirtioBalloonConfig { num_pages: 3, actual: 4 });
}

#[test]
fn target_replaces_the_page_count_only() {
    let mut config = VirtioBalloonConfig { num_pages: 3, actual: 4 };
    config.set_num_pages(17);
    assert_eq!(config, VirtioBalloonConfig { num_pages: 17, actual: 4 });
}

#[test]
fn pages_fill_the_size() {
    assert_eq!(num_pages(0), 0);
    assert_eq!(num_pages(4095), 0);
    assert_eq!(num_pages(4096), 1);
    assert_eq!(num_pages(0x1000_0000), 0x1_0000);
    assert_eq!(num_pages(0xfff_ffff_ffff), 0xffff_ffff);
}

#[test]
fn page_count_keeps_the_low_bits() {
    assert_eq!(num_pages(0x1000_0000_0000), 0);
    assert_eq!(num_pages(0x1000_0000_3000), 3);
    assert_eq!(num_pages(u64::MAX), 0xffff_ffff);
}
