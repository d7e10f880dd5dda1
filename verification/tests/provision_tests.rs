use playbook_tester::model::LocalImage;
use playbook_tester::provision::image_present;
use playbook_tester::provision::parse_image_listing;
use playbook_tester::provision::split_image_ref;

#[test]
fn split_keeps_repository_and_tag() {
    let (repo, tag) = split_image_ref("ubuntu:latest");
    assert_eq!(repo, "ubuntu");
    assert_eq!(tag, "latest");
}

#[test]
fn split_defaults_the_tag_to_latest() {
    let (repo, tag) = split_image_ref("ubuntu");
    assert_eq!(repo, "ubuntu");
    assert_eq!(tag, "latest");
}

#[test]
fn split_cuts_at_the_first_colon_only() {
    let (repo, tag) = split_image_ref("registry:5000/img:1.2");
    assert_eq!(repo, "registry");
    assert_eq!(tag, "5000/img:1.2");
}

#[test]
fn split_handles_a_path_shaped_repository() {
    let (repo, tag) = split_image_ref("mcr.microsoft.com/windows/servercore:ltsc2019");
    assert_eq!(repo, "mcr.microsoft.com/windows/servercore");
    assert_eq!(tag, "ltsc2019");
}

#[test]
fn listing_is_decoded_line_by_line() {
    let text = "REPOSITORY   TAG       IMAGE ID       CREATED        SIZE\n\
                ubuntu       latest    74f2314a03de   2 weeks ago    77.9MB\n\
                alpine       3.19      05455a08881e   3 weeks ago    7.38MB\n";
    let entries = parse_image_listing(text);
    assert_eq!(entries.len(), 2);
    assert_eq!(entries[0].repository, "ubuntu");
    assert_eq!(entries[0].tag, "latest");
    assert_eq!(entries[1].repository, "alpine");
    assert_eq!(entries[1].tag, "3.19");
}

#[test]
fn listing_header_and_short_lines_are_skipped() {
    let text = "REPOSITORY TAG IMAGE ID\nstray\n\nubuntu latest abc\n";
    let entries = parse_image_listing(text);
    assert_eq!(entries.len(), 1);
    assert_eq!(entries[0].repository, "ubuntu");
    assert_eq!(entries[0].tag, "latest");
}

#[test]
fn empty_listing_holds_no_entries() {
    assert_eq!(parse_image_listing("").len(), 0);
}

#[test]
fn present_image_is_found_by_repository_and_tag() {
    let inventory = vec![
        LocalImage { repository: "alpine".to_string(), tag: "3.19".to_string() },
        LocalImage { repository: "ubuntu".to_string(), tag: "latest".to_string() },
    ];
    assert!(image_present(&inventory, "ubuntu:latest"));
    assert!(image_present(&inventory, "ubuntu"));
    assert!(image_present(&inventory, "alpine:3.19"));
}

#[test]
fn absent_image_is_not_found() {
    let inventory = vec![
        LocalImage { repository: "ubuntu".to_string(), tag: "jammy".to_string() },
    ];
    assert!(!image_present(&inventory, "ubuntu:latest"));
    assert!(!image_present(&inventory, "ubuntu"));
    assert!(!image_present(&inventory, "debian:jammy"));
}
