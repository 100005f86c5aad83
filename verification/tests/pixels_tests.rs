use stochos::pixels::{blend_byte, composite, row_bands, Band};

#[test]
fn blend_mixes_in_proportion_to_alpha() {
    assert_eq!(blend_byte(10, 200, 255), 200);
    assert_eq!(blend_byte(10, 200, 0), 10);
    assert_eq!(blend_byte(0, 255, 128), 128);
    assert_eq!(blend_byte(100, 200, 51), 120);
}

#[test]
fn composite_keeps_background_alpha() {
    let bg = vec![10, 20, 30, 40, 50, 60, 70, 80, 1, 2, 3, 4];
    let px = vec![200, 201, 202, 255, 9, 9, 9, 0, 255, 0, 255, 128];
    assert_eq!(composite(&bg, &px), vec![200, 201, 202, 40, 50, 60, 70, 80, 128, 0, 129, 4]);
    assert_eq!(composite(&vec![], &vec![]), vec![]);
}

#[test]
fn bands_cover_the_image_in_request_sized_pieces() {
    // Rows of 10 pixels are 40 bytes; 132 - 32 = 100 data bytes fit 2 rows.
    let bands = row_bands(10, 5, 132);
    assert_eq!(
        bands,
        vec![
            Band { y: 0, rows: 2, start: 0, end: 80 },
            Band { y: 2, rows: 2, start: 80, end: 160 },
            Band { y: 4, rows: 1, start: 160, end: 200 },
        ]
    );
    // A row larger than a request still goes whole, one per band.
    assert_eq!(row_bands(100, 2, 40).len(), 2);
    assert_eq!(row_bands(10, 0, 132), vec![]);
}
