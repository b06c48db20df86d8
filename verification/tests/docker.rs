//! Tests of the assets-directory selection over the container listing.

use benchmark_runner::docker::{get_assets_dir, Container, DockerError, InspectMount};

const IMAGE: &str = "benchmark-runner-benchmark-runner";

fn mount(source: &str, destination: &str) -> InspectMount {
    InspectMount {
        source: source.to_string(),
        destination: destination.to_string(),
    }
}

fn container(id: &str, image: &str, created_at: &str, mounts: Vec<InspectMount>) -> Container {
    Container {
        id: id.to_string(),
        image_name: image.to_string(),
        created_at: created_at.to_string(),
        mounts,
    }
}

#[test]
fn newest_matching_container_with_an_assets_mount_wins() {
    let containers = vec![
        container(
            "old",
            IMAGE,
            "2024-01-01 10:00:00",
            vec![mount("/srv/old-assets", "/assets")],
        ),
        container(
            "other",
            "unrelated-image",
            "2024-03-01 10:00:00",
            vec![mount("/srv/other", "/assets")],
        ),
        container(
            "new",
            IMAGE,
            "2024-02-01 10:00:00",
            vec![mount("/srv/new-assets", "/assets")],
        ),
    ];
    assert_eq!(get_assets_dir(containers).unwrap(), "/srv/new-assets");
}

#[test]
fn matching_container_without_an_assets_mount_is_skipped() {
    let containers = vec![
        container(
            "old",
            IMAGE,
            "2024-01-01 10:00:00",
            vec![mount("/srv/old-assets", "/assets")],
        ),
        container(
            "new",
            IMAGE,
            "2024-02-01 10:00:00",
            vec![mount("/srv/scratch", "/tmp")],
        ),
    ];
    assert_eq!(get_assets_dir(containers).unwrap(), "/srv/old-assets");
}

#[test]
fn first_assets_mount_of_the_chosen_container_decides() {
    let containers = vec![container(
        "one",
        IMAGE,
        "2024-01-01 10:00:00",
        vec![
            mount("/srv/scratch", "/tmp"),
            mount("/srv/assets-a", "/assets"),
            mount("/srv/assets-b", "/assets"),
        ],
    )];
    assert_eq!(get_assets_dir(containers).unwrap(), "/srv/assets-a");
}

#[test]
fn equal_timestamps_keep_the_listing_order() {
    let containers = vec![
        container(
            "first",
            IMAGE,
            "2024-01-01 10:00:00",
            vec![mount("/srv/first", "/assets")],
        ),
        container(
            "second",
            IMAGE,
            "2024-01-01 10:00:00",
            vec![mount("/srv/second", "/assets")],
        ),
    ];
    assert_eq!(get_assets_dir(containers).unwrap(), "/srv/first");
}

#[test]
fn listing_without_the_benchmark_image_reports_the_missing_image() {
    let containers = vec![container(
        "other",
        "unrelated-image",
        "2024-01-01 10:00:00",
        vec![mount("/srv/other", "/assets")],
    )];
    match get_assets_dir(containers) {
        Err(DockerError::Other(msg)) => assert_eq!(
            msg,
            "Could not find docker container with image name: benchmark-runner-benchmark-runner"
        ),
        _ => panic!("a listing without the image must fail"),
    }
}

#[test]
fn empty_listing_reports_the_missing_image() {
    assert!(matches!(
        get_assets_dir(Vec::new()),
        Err(DockerError::Other(_))
    ));
}
