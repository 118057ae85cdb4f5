use rtx::render::{check_render_request, tabulate, RenderError};

#[test]
fn zero_samples_refused() {
    assert_eq!(check_render_request(0, 4, 4), Err(RenderError::NoSamples));
    assert_eq!(check_render_request(0, 0, 0), Err(RenderError::NoSamples));
}

#[test]
fn empty_image_refused() {
    assert_eq!(check_render_request(1, 0, 4), Err(RenderError::EmptyImage));
    assert_eq!(check_render_request(16, 4, 0), Err(RenderError::EmptyImage));
}

#[test]
fn valid_request_accepted() {
    assert_eq!(check_render_request(1, 1, 1), Ok(()));
    assert_eq!(check_render_request(16, 640, 480), Ok(()));
    assert!(!RenderError::NoSamples.message().is_empty());
}

#[test]
fn image_has_height_rows_of_width_pixels() {
    let (w, h) = (7usize, 3usize);
    let img = tabulate(h, |y| tabulate(w, move |x| (x, y)));
    assert_eq!(img.len(), h);
    for (y, row) in img.iter().enumerate() {
        assert_eq!(row.len(), w);
        for (x, p) in row.iter().enumerate() {
            assert_eq!(*p, (x, y));
        }
    }
}

#[test]
fn tabulate_empty() {
    let v: Vec<u8> = tabulate(0, |_| 1u8);
    assert!(v.is_empty());
}
