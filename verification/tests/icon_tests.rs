use m3u8dl_gui::icon::{largest_entry, window_icon_entry};

fn icon_file(sizes: &[(u32, u32)]) -> Vec<u8> {
    let mut dir = ico::IconDir::new(ico::ResourceType::Icon);
    for &(w, h) in sizes {
        let px = vec![200u8; (w * h * 4) as usize];
        let image = ico::IconImage::from_rgba_data(w, h, px);
        dir.add_entry(ico::IconDirEntry::encode(&image).unwrap());
    }
    let mut bytes: Vec<u8> = Vec::new();
    dir.write(&mut bytes).unwrap();
    bytes
}

#[test]
fn largest_entry_takes_the_last_longest() {
    assert_eq!(largest_entry(&vec![]), None);
    assert_eq!(largest_entry(&vec![(16, 16), (48, 48), (32, 32)]), Some(1));
    assert_eq!(largest_entry(&vec![(48, 16), (16, 48), (32, 32)]), Some(1));
    assert_eq!(largest_entry(&vec![(256, 256), (48, 48), (256, 256)]), Some(2));
}

#[test]
fn window_icon_is_the_largest_image() {
    let bytes = icon_file(&[(16, 16), (32, 32), (8, 8)]);
    assert_eq!(window_icon_entry(&bytes), Some(1));
    let bytes = icon_file(&[(32, 32), (16, 16), (32, 32)]);
    assert_eq!(window_icon_entry(&bytes), Some(2));
}

#[test]
fn window_icon_of_garbage_is_none() {
    assert!(window_icon_entry(&[1, 2, 3, 4]).is_none());
    assert!(window_icon_entry(&icon_file(&[])).is_none());
}
