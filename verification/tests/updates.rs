use clip_studio_presence::updates::{
    classify_release_reply, clean_version, version_is_newer, version_parts, GitHubRelease,
    ReleaseReply, UpdateCheckResult,
};

fn release(tag: &str, body: Option<&str>) -> GitHubRelease {
    GitHubRelease {
        tag_name: tag.to_string(),
        html_url: "https://github.com/example/releases/tag/x".to_string(),
        body: body.map(|b| b.to_string()),
    }
}

#[test]
fn tags_are_cleaned() {
    assert_eq!(clean_version(" v1.2.3 "), "1.2.3");
    assert_eq!(clean_version("vV2.0"), "2.0");
    assert_eq!(clean_version("release-1"), "release-1");
    assert_eq!(clean_version("v 1.0"), " 1.0");
    assert_eq!(clean_version(""), "");
}

#[test]
fn version_numbers_are_digit_runs() {
    assert_eq!(version_parts("1.2.3"), vec![1, 2, 3]);
    assert_eq!(version_parts("1.2.3-beta4"), vec![1, 2, 3, 4]);
    assert_eq!(version_parts("..007..x"), vec![7]);
    assert_eq!(version_parts("1.99999999999999999999.2"), vec![1, 2]);
    assert_eq!(version_parts("18446744073709551615"), vec![u64::MAX]);
    assert_eq!(version_parts("no digits"), Vec::<u64>::new());
}

#[test]
fn newer_versions_compare_number_by_number() {
    assert!(version_is_newer("1.10", "1.9"));
    assert!(!version_is_newer("1.9", "1.10"));
    assert!(version_is_newer("2", "1.99.99"));
    assert!(version_is_newer("1.2.1", "1.2"));
    assert!(!version_is_newer("1.2", "1.2.0"));
    assert!(!version_is_newer("1.2.0", "1.2"));
    assert!(!version_is_newer("0.1.0", "0.1.0"));
    assert!(!version_is_newer("", ""));
}

#[test]
fn newer_is_a_strict_order_on_examples() {
    let versions = ["0.1.0", "0.1.1", "0.2", "1.0.0", "1.0.0.1", "1.2"];
    for a in versions {
        assert!(!version_is_newer(a, a));
        for b in versions {
            if version_is_newer(a, b) {
                assert!(!version_is_newer(b, a));
            }
            for c in versions {
                if version_is_newer(a, b) && version_is_newer(b, c) {
                    assert!(version_is_newer(a, c));
                }
            }
        }
    }
}

#[test]
fn release_result_reports_update() {
    let r = UpdateCheckResult::from_release("0.1.0".to_string(), release("v0.2.0", Some("Fixes")));
    assert_eq!(r.current_version, "0.1.0");
    assert_eq!(r.latest_version.as_deref(), Some("0.2.0"));
    assert!(r.update_available);
    assert_eq!(r.release_url.as_deref(), Some("https://github.com/example/releases/tag/x"));
    assert_eq!(r.notes.as_deref(), Some("Fixes"));
    assert_eq!(r.message, "Version 0.2.0 is available on GitHub.");
}

#[test]
fn release_result_reports_up_to_date() {
    let r = UpdateCheckResult::from_release("0.2.0".to_string(), release("0.2", Some("  \n ")));
    assert!(!r.update_available);
    assert_eq!(r.notes, None);
    assert_eq!(r.message, "You're up to date on version 0.2.0.");
    let r = UpdateCheckResult::from_release("0.2.0".to_string(), release("v0.1", None));
    assert!(!r.update_available);
    assert_eq!(r.notes, None);
}

#[test]
fn no_releases_result() {
    let r = UpdateCheckResult::no_releases("0.1.0".to_string());
    assert_eq!(r.current_version, "0.1.0");
    assert_eq!(r.latest_version, None);
    assert!(!r.update_available);
    assert_eq!(r.release_url, None);
    assert_eq!(r.notes, None);
    assert_eq!(r.message, "No GitHub releases exist yet.");
}

#[test]
fn release_replies_are_classified() {
    assert_eq!(classify_release_reply(404), ReleaseReply::NoReleases);
    assert_eq!(classify_release_reply(200), ReleaseReply::Release);
    assert_eq!(classify_release_reply(299), ReleaseReply::Release);
    assert_eq!(classify_release_reply(403), ReleaseReply::Failed);
    assert_eq!(classify_release_reply(301), ReleaseReply::Failed);
    assert_eq!(classify_release_reply(199), ReleaseReply::Failed);
}

#[test]
fn appending_dot_zero_never_changes_a_comparison() {
    let versions = ["", "v", "1", "1.", "1.2", "v1.2.3", "0.9.10", "2.0-beta1", "10"];
    for a in versions {
        let padded = format!("{a}.0");
        assert!(!version_is_newer(&padded, a));
        assert!(!version_is_newer(a, &padded));
        for b in versions {
            assert_eq!(version_is_newer(&padded, b), version_is_newer(a, b));
            assert_eq!(version_is_newer(b, &padded), version_is_newer(b, a));
        }
    }
}
