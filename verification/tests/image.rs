use sticker_dispatch::image::{Decoded, Image};

fn loaded_image() -> Image<u32> {
    Image::Loaded { path: String::from("a.png"), data: vec![1, 2, 3], sticker: 5 }
}

fn errored_image() -> Image<u32> {
    Image::Errored { path: String::from("a.png"), error: String::from("no such file") }
}

fn is_loading(image: &Image<u32>, expected: &str) -> bool {
    match image {
        Image::Loading { path } => path == expected,
        _ => false,
    }
}

#[test]
fn none_is_absent() {
    let image: Image<u32> = Image::none();
    assert!(matches!(image, Image::Absent));
}

#[test]
fn loading_from_absent() {
    let mut image: Image<u32> = Image::none();
    image.loading(String::from("photo.png"));
    assert!(is_loading(&image, "photo.png"));
}

#[test]
fn loading_supersedes_a_load_in_flight() {
    let mut image: Image<u32> = Image::none();
    image.loading(String::from("first.png"));
    image.loading(String::from("second.jpg"));
    assert!(is_loading(&image, "second.jpg"));
}

#[test]
fn loading_replaces_a_loaded_image() {
    let mut image = loaded_image();
    image.loading(String::from("next.svg"));
    assert!(is_loading(&image, "next.svg"));
}

#[test]
fn loading_replaces_an_errored_image() {
    let mut image = errored_image();
    image.loading(String::from("next.svg"));
    assert!(is_loading(&image, "next.svg"));
}

#[test]
fn loading_takes_the_empty_path() {
    let mut image: Image<u32> = Image::none();
    image.loading(String::new());
    assert!(is_loading(&image, ""));
}

#[test]
fn loaded_with_a_decoded_file_becomes_loaded() {
    let mut image: Image<u32> = Image::none();
    image.loading(String::from("photo.png"));
    let taken =
        image.loaded(&String::from("photo.png"), Ok(Decoded { data: vec![9, 8, 7], sticker: 42 }));
    assert!(taken);
    match image {
        Image::Loaded { path, data, sticker } => {
            assert_eq!(path, "photo.png");
            assert_eq!(data, vec![9, 8, 7]);
            assert_eq!(sticker, 42);
        }
        _ => panic!("the image is not loaded"),
    }
}

#[test]
fn loaded_keeps_empty_bytes() {
    let mut image: Image<u32> = Image::none();
    image.loading(String::from("empty.png"));
    assert!(image.loaded(&String::from("empty.png"), Ok(Decoded { data: Vec::new(), sticker: 0 })));
    match image {
        Image::Loaded { path, data, sticker } => {
            assert_eq!(path, "empty.png");
            assert!(data.is_empty());
            assert_eq!(sticker, 0);
        }
        _ => panic!("the image is not loaded"),
    }
}

#[test]
fn loaded_with_a_failure_keeps_the_message() {
    let mut image: Image<u32> = Image::none();
    image.loading(String::from("missing.png"));
    let taken = image.loaded(
        &String::from("missing.png"),
        Err(String::from("No such file or directory (os error 2)")),
    );
    assert!(taken);
    match image {
        Image::Errored { path, error } => {
            assert_eq!(path, "missing.png");
            assert_eq!(error, "No such file or directory (os error 2)");
        }
        _ => panic!("the image is not errored"),
    }
}

#[test]
fn loaded_with_an_empty_message_is_errored() {
    let mut image: Image<u32> = Image::none();
    image.loading(String::from("odd.png"));
    assert!(image.loaded(&String::from("odd.png"), Err(String::new())));
    match image {
        Image::Errored { path, error } => {
            assert_eq!(path, "odd.png");
            assert_eq!(error, "");
        }
        _ => panic!("the image is not errored"),
    }
}

#[test]
fn late_result_of_a_superseded_load_is_not_taken() {
    let mut image: Image<u32> = Image::none();
    image.loading(String::from("first.png"));
    image.loading(String::from("second.png"));
    let taken =
        image.loaded(&String::from("first.png"), Ok(Decoded { data: vec![1, 1, 1], sticker: 1 }));
    assert!(!taken);
    assert!(is_loading(&image, "second.png"));
    assert!(image.loaded(&String::from("second.png"), Ok(Decoded { data: vec![2], sticker: 2 })));
    match image {
        Image::Loaded { path, data, sticker } => {
            assert_eq!(path, "second.png");
            assert_eq!(data, vec![2]);
            assert_eq!(sticker, 2);
        }
        _ => panic!("the image is not loaded"),
    }
}

#[test]
fn late_failure_of_a_superseded_load_is_not_taken() {
    let mut image: Image<u32> = Image::none();
    image.loading(String::from("first.png"));
    image.loading(String::from("second.png"));
    assert!(!image.loaded(&String::from("first.png"), Err(String::from("gone"))));
    assert!(is_loading(&image, "second.png"));
}

#[test]
fn result_without_a_load_is_not_taken() {
    let mut image: Image<u32> = Image::none();
    assert!(!image.loaded(&String::from("a.png"), Err(String::from("late"))));
    assert!(matches!(image, Image::Absent));
}

#[test]
fn result_for_a_loaded_image_is_not_taken() {
    let mut image = loaded_image();
    assert!(!image.loaded(&String::from("a.png"), Ok(Decoded { data: vec![7], sticker: 7 })));
    match image {
        Image::Loaded { path, data, sticker } => {
            assert_eq!(path, "a.png");
            assert_eq!(data, vec![1, 2, 3]);
            assert_eq!(sticker, 5);
        }
        _ => panic!("the image is not loaded"),
    }
}

#[test]
fn result_for_an_errored_image_is_not_taken() {
    let mut image = errored_image();
    assert!(!image.loaded(&String::from("a.png"), Err(String::from("second"))));
    match image {
        Image::Errored { path, error } => {
            assert_eq!(path, "a.png");
            assert_eq!(error, "no such file");
        }
        _ => panic!("the image is not errored"),
    }
}

#[test]
fn path_tag_is_compared_letter_for_letter() {
    let mut image: Image<u32> = Image::none();
    image.loading(String::from("Photo.png"));
    assert!(!image.loaded(&String::from("photo.png"), Err(String::from("other file"))));
    assert!(is_loading(&image, "Photo.png"));
}

#[test]
fn awaits_only_the_path_in_flight() {
    let mut image: Image<u32> = Image::none();
    assert!(!image.awaits(&String::from("a.png")));
    image.loading(String::from("a.png"));
    assert!(image.awaits(&String::from("a.png")));
    assert!(!image.awaits(&String::from("b.png")));
    assert!(!loaded_image().awaits(&String::from("a.png")));
    assert!(!errored_image().awaits(&String::from("a.png")));
}

#[test]
fn sticker_is_the_loaded_one() {
    let image = loaded_image();
    assert_eq!(*image.sticker(), 5);
}

#[test]
fn sticker_mut_changes_the_sticker_alone() {
    let mut image = loaded_image();
    *image.sticker_mut() = 6;
    match image {
        Image::Loaded { path, data, sticker } => {
            assert_eq!(path, "a.png");
            assert_eq!(data, vec![1, 2, 3]);
            assert_eq!(sticker, 6);
        }
        _ => panic!("the image is not loaded"),
    }
}

#[test]
fn clone_of_an_image_is_equal_in_every_field() {
    let image = loaded_image();
    match image.clone() {
        Image::Loaded { path, data, sticker } => {
            assert_eq!(path, "a.png");
            assert_eq!(data, vec![1, 2, 3]);
            assert_eq!(sticker, 5);
        }
        _ => panic!("the clone is not loaded"),
    }
}
