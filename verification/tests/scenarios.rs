use s3nav::config::SavedProfile;
use s3nav::form::ConfigForm;
use s3nav::s3::{relative_key, Args, ConnectionParams};

#[test]
fn config_form_to_profile_trims_and_nullifies_empty() {
    let form = ConfigForm {
        name: "  prod ".into(),
        profile: "   ".into(),
        region: "eu-west-1".into(),
        endpoint_url: String::new(),
        bucket: "b/p".into(),
        field: 0,
        after_caret: 0,
    };
    let p = form.to_profile();
    assert_eq!(p.name, "prod");
    assert_eq!(p.profile, None);
    assert_eq!(p.region.as_deref(), Some("eu-west-1"));
    assert_eq!(p.endpoint_url, None);
    assert_eq!(p.bucket.as_deref(), Some("b/p"));
}

#[test]
fn config_form_from_profile_round_trips() {
    let original = SavedProfile {
        name: "prod".into(),
        profile: Some("prod-acct".into()),
        region: Some("eu-west-1".into()),
        endpoint_url: None,
        bucket: Some("my-bucket/data".into()),
    };
    let form = ConfigForm::from_profile(&original);
    // Absent optional fields become empty strings in the form.
    assert_eq!(form.name, "prod");
    assert_eq!(form.endpoint_url, "");
    assert_eq!(form.field, 0);
    // Editing nothing and saving reproduces the original profile.
    assert_eq!(form.to_profile(), original);
}

#[test]
fn connection_params_from_profile_maps_fields() {
    let p = SavedProfile {
        name: "x".into(),
        profile: Some("prod".into()),
        region: Some("eu-west-1".into()),
        endpoint_url: None,
        bucket: Some("b".into()),
    };
    let c = ConnectionParams::from_profile(&p);
    assert_eq!(c.profile.as_deref(), Some("prod"));
    assert_eq!(c.region.as_deref(), Some("eu-west-1"));
    assert_eq!(c.endpoint_url, None);
}

#[test]
fn connection_params_from_args_maps_fields() {
    let args = Args {
        region: Some("us-east-1".into()),
        profile: Some("dev".into()),
        endpoint_url: Some("http://localhost:9000".into()),
        bucket: Some("ignored".into()),
    };
    let c = ConnectionParams::from_args(&args);
    assert_eq!(c.profile.as_deref(), Some("dev"));
    assert_eq!(c.region.as_deref(), Some("us-east-1"));
    assert_eq!(c.endpoint_url.as_deref(), Some("http://localhost:9000"));
}

#[test]
fn summary_uses_values_when_present() {
    let c = ConnectionParams {
        profile: Some("dev".into()),
        region: Some("eu-west-1".into()),
        endpoint_url: Some("http://localhost:9000".into()),
    };
    assert_eq!(c.summary(), "http://localhost:9000 · eu-west-1 · dev");
}

#[test]
fn summary_falls_back_to_defaults_when_absent() {
    let c = ConnectionParams::default();
    assert_eq!(c.summary(), "AWS · default · default");
}

#[test]
fn relative_key_strips_prefix_and_skips_markers() {
    // Folder marker equal to the prefix has no file to write.
    assert_eq!(relative_key("foo/bar/", "foo/bar/"), None);
    // A nested "directory" placeholder is skipped too.
    assert_eq!(relative_key("foo/bar/", "foo/bar/baz/"), None);
    // A file directly in the folder keeps just its name.
    assert_eq!(
        relative_key("foo/bar/", "foo/bar/file.txt").as_deref(),
        Some("file.txt")
    );
    // A nested file keeps its relative subpath.
    assert_eq!(
        relative_key("foo/bar/", "foo/bar/baz/x.txt").as_deref(),
        Some("baz/x.txt")
    );
}
