//! Opening images through the decode registry: the native codec's results
//! are registered under their file paths, and opening looks them up.

use autograph::imageio::ChannelDesc;
use autograph::imageio::Error;
use autograph::imageio::ImageInput;
use autograph::imageio::ImageSpec;
use autograph::imageio::ImageStore;

fn spec_2d(width: u32, height: u32, channel_names: &[&str]) -> ImageSpec {
    ImageSpec {
        width,
        height,
        depth: 1,
        channels: channel_names
            .iter()
            .map(|n| ChannelDesc { name: (*n).to_owned() })
            .collect(),
    }
}

/// The registry as it stands after the native codec has decoded the test
/// images.
fn test_images() -> ImageStore {
    let mut store = ImageStore::new();
    store.insert(
        "../test_images/tonberry.jpg".to_owned(),
        spec_2d(256, 256, &["R", "G", "B"]),
    );
    store.insert(
        "../test_images/kazeharu.png".to_owned(),
        spec_2d(512, 341, &["R", "G", "B", "A"]),
    );
    store.insert(
        "../test_images/cup.psd".to_owned(),
        spec_2d(640, 480, &["R", "G", "B", "A"]),
    );
    store.insert(
        "../test_images/cup.tif".to_owned(),
        spec_2d(640, 480, &["R", "G", "B"]),
    );
    store
}

#[test]
fn open_image() {
    let store = test_images();
    let img = ImageInput::open(&store, "../test_images/tonberry.jpg");
    assert!(img.is_ok());
}

#[test]
fn open_image_psd() {
    let store = test_images();
    let img = ImageInput::open(&store, "../test_images/cup.psd").unwrap();
    for ch in img.image_spec().channels() {
        println!("channel {:?}", ch);
    }
}

#[test]
fn open_image_tif() {
    let store = test_images();
    let img = ImageInput::open(&store, "../test_images/cup.tif").unwrap();
    for ch in img.image_spec().channels() {
        println!("channel {:?}", ch);
    }
}

#[test]
fn open_nonexistent_image() {
    let store = test_images();
    let img = ImageInput::open(&store, "../test_images/nonexistent.png");
    if let Err(ref e) = img {
        println!("{}", e.message());
    }
    assert!(img.is_err());
}

#[test]
fn open_yields_the_registered_description() {
    let store = test_images();
    let img = ImageInput::open(&store, "../test_images/kazeharu.png").unwrap();
    assert_eq!(img.width(), 512);
    assert_eq!(img.height(), 341);
    assert_eq!(img.depth(), 1);
    let names: Vec<&str> = img
        .image_spec()
        .channels()
        .iter()
        .map(|c| c.name.as_str())
        .collect();
    assert_eq!(names, vec!["R", "G", "B", "A"]);
}

#[test]
fn open_error_names_the_path() {
    let store = ImageStore::new();
    match ImageInput::open(&store, "../test_images/tonberry.jpg") {
        Err(Error::OpenError(path)) => assert_eq!(path, "../test_images/tonberry.jpg"),
        _ => panic!("open of an unregistered path must fail with an open error"),
    }
}
