use simple_fps::model_index::{push_index_data, push_index_for_sphere};

#[test]
fn northern_band_of_a_small_sphere() {
    let mut idx: Vec<u16> = Vec::new();
    push_index_data(4, 3, true, &mut idx);
    // Two rows of three cells, six indices each.
    assert_eq!(idx.len(), 36);
    // First row: the cells wind clockwise and the last column wraps.
    assert_eq!(
        &idx[0..18],
        &[1, 4, 5, 1, 5, 2, 2, 5, 6, 2, 6, 3, 3, 6, 4, 3, 4, 1]
    );
    // Second row continues one ring further down.
    assert_eq!(&idx[18..24], &[4, 7, 8, 4, 8, 5]);
}

#[test]
fn southern_band_is_offset_one_ring() {
    let mut idx: Vec<u16> = Vec::new();
    push_index_data(4, 3, false, &mut idx);
    // Rows one through one (the band between equator and south cap).
    assert_eq!(idx.len(), 18);
    // Same cell shapes as row one of the north, shifted by the ring
    // size.
    assert_eq!(&idx[0..6], &[4 + 3, 7 + 3, 8 + 3, 4 + 3, 8 + 3, 5 + 3]);
}

#[test]
fn file_variant_stops_short_of_the_equator() {
    let mut idx: Vec<u16> = Vec::new();
    push_index_for_sphere(4, 3, true, &mut idx);
    // One row only: the northern hemisphere minus the cap and the
    // equator row.
    assert_eq!(idx.len(), 18);
    assert_eq!(&idx[0..6], &[1, 4, 5, 1, 5, 2]);
}

#[test]
fn bands_append_to_existing_data() {
    let mut idx: Vec<u16> = vec![99];
    push_index_for_sphere(4, 3, false, &mut idx);
    assert_eq!(idx[0], 99);
    assert_eq!(idx.len(), 1 + 18);
}
