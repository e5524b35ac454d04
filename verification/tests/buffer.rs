use combiner::args::Args;
use combiner::buffer::FloatingImage;
use combiner::error::ImageDataErrors;

#[test]
fn a_new_buffer_is_empty_and_keeps_its_resolution_and_name() {
    let image = FloatingImage::new(3, 5, String::from("out.png"));
    assert_eq!(image.width(), 3);
    assert_eq!(image.height(), 5);
    assert_eq!(image.name(), "out.png");
    assert!(image.data().is_empty());
}

#[test]
fn data_of_the_declared_length_is_kept_unchanged() {
    let mut image = FloatingImage::new(2, 3, String::from("out.png"));
    let data: Vec<u8> = (0u8..24).collect();
    assert_eq!(image.set_data(data.clone()), Ok(()));
    assert_eq!(image.data(), &data);
    assert_eq!(image.width(), 2);
    assert_eq!(image.height(), 3);
    assert_eq!(image.name(), "out.png");
}

#[test]
fn shorter_data_is_refused() {
    let mut image = FloatingImage::new(2, 2, String::from("out.png"));
    assert_eq!(
        image.set_data(vec![0; 15]),
        Err(ImageDataErrors::BufferTooSmall)
    );
    assert!(image.data().is_empty());
}

#[test]
fn longer_data_is_refused() {
    let mut image = FloatingImage::new(2, 2, String::from("out.png"));
    assert_eq!(
        image.set_data(vec![0; 17]),
        Err(ImageDataErrors::BufferTooSmall)
    );
    assert!(image.data().is_empty());
}

#[test]
fn a_refused_assignment_leaves_earlier_data_in_place() {
    let mut image = FloatingImage::new(1, 1, String::from("out.png"));
    assert_eq!(image.set_data(vec![1, 2, 3, 4]), Ok(()));
    assert_eq!(
        image.set_data(vec![1, 2, 3]),
        Err(ImageDataErrors::BufferTooSmall)
    );
    assert_eq!(image.data(), &vec![1, 2, 3, 4]);
}

#[test]
fn a_buffer_without_pixels_takes_only_empty_data() {
    let mut image = FloatingImage::new(0, 7, String::from("out.png"));
    assert_eq!(
        image.set_data(vec![0; 4]),
        Err(ImageDataErrors::BufferTooSmall)
    );
    assert_eq!(image.set_data(Vec::new()), Ok(()));
}

#[test]
fn the_capacity_of_a_huge_resolution_does_not_wrap() {
    let mut image = FloatingImage::new(u32::MAX, u32::MAX, String::from("out.png"));
    assert_eq!(
        image.set_data(vec![0; 4]),
        Err(ImageDataErrors::BufferTooSmall)
    );
    let mut wide = FloatingImage::new(0x4000_0000, 4, String::from("out.png"));
    assert_eq!(
        wide.set_data(Vec::new()),
        Err(ImageDataErrors::BufferTooSmall)
    );
}

#[test]
fn args_are_read_off_the_argument_list() {
    let argv: Vec<String> = ["combiner", "a.png", "b.png", "out.png", "extra"]
        .iter()
        .map(|s| s.to_string())
        .collect();
    let args = Args::new(&argv);
    assert_eq!(args.image_1, "a.png");
    assert_eq!(args.image_2, "b.png");
    assert_eq!(args.output, "out.png");
}
