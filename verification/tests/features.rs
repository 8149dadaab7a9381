use arcam::devcontainers::features::Feature as DevFeature;
use arcam::devcontainers::features::FeaturePath as DevFeaturePath;
use arcam::features::{git_clone, Feature, FeaturePath};

#[test]
fn features_feature_path_parse() {
    assert_eq!(FeaturePath::parse_cli("/feature/local"), Ok(FeaturePath::Local("/feature/local".to_string())));

    assert_eq!(FeaturePath::parse_cli("./feature/local"), Ok(FeaturePath::Local("./feature/local".to_string())));

    assert_eq!(
        FeaturePath::parse_cli("git+https://github.com/sandorex/config"),
        Ok(FeaturePath::Git { url: "https://github.com/sandorex/config".to_string(), tag: None })
    );

    assert_eq!(
        FeaturePath::parse_cli("git+https://github.com/sandorex/config#dev"),
        Ok(FeaturePath::Git { url: "https://github.com/sandorex/config".to_string(), tag: Some("dev".to_string()) })
    );

}

#[test]
fn feature_path_parse() {
    assert_eq!(DevFeaturePath::parse_cli("/feature/local"), Ok(DevFeaturePath::Local("/feature/local".to_string())));

    assert_eq!(DevFeaturePath::parse_cli("./feature/local"), Ok(DevFeaturePath::Local("./feature/local".to_string())));

    assert_eq!(
        DevFeaturePath::parse_cli("git://github.com/sandorex/config"),
        Ok(DevFeaturePath::Git { url: "github.com/sandorex/config".to_string(), tag: None })
    );

    assert_eq!(
        DevFeaturePath::parse_cli("git://github.com/sandorex/config#dev"),
        Ok(DevFeaturePath::Git { url: "github.com/sandorex/config".to_string(), tag: Some("dev".to_string()) })
    );

    assert_eq!(
        DevFeaturePath::parse_cli("git@github.com:sandorex/config.git"),
        Ok(DevFeaturePath::Git { url: "git@github.com:sandorex/config.git".to_string(), tag: None })
    );

    assert_eq!(
        DevFeaturePath::parse_cli("git@github.com:sandorex/config.git#v1.0"),
        Ok(DevFeaturePath::Git { url: "git@github.com:sandorex/config.git".to_string(), tag: Some("v1.0".to_string()) })
    );
}

#[test]
fn feature_path_invalid_uri() {
    assert_eq!(FeaturePath::parse_cli("https://example.com"), Err("Invalid URI for feature".to_string()));
    assert_eq!(DevFeaturePath::parse_cli("feature"), Err("Invalid URI for feature".to_string()));
    // a single dot is a local path for the first, not for the second
    assert!(FeaturePath::parse_cli(".hidden").is_ok());
    assert!(DevFeaturePath::parse_cli(".hidden").is_err());
}

#[test]
fn feature_path_text_reads_back() {
    let f = FeaturePath::Git { url: "https://example.com/repo".to_string(), tag: Some("v2".to_string()) };
    assert_eq!(f.describe(), "git+https://example.com/repo#v2");
    assert_eq!(FeaturePath::parse_cli(&f.describe()), Ok(f));
    let l = FeaturePath::Local("./feature".to_string());
    assert_eq!(FeaturePath::parse_cli(&l.describe()), Ok(l));
    // without a tag the text ends with '#', which reads back as an empty tag
    let n = FeaturePath::Git { url: "u".to_string(), tag: None };
    assert_eq!(n.describe(), "git+u#");
}

#[test]
fn feature_git_clone_command() {
    let c = git_clone("/tmp/x", "https://r", Some("dev"));
    assert_eq!(c.program, "git");
    assert_eq!(c.args, vec!["clone", "--depth", "1", "--branch", "dev", "--", "https://r", "/tmp/x"]);
    let c = git_clone("/tmp/x", "https://r", None);
    assert_eq!(c.args, vec!["clone", "--depth", "1", "--", "https://r", "/tmp/x"]);
}

#[test]
fn feature_cache_plan_encodes_url() {
    let f = FeaturePath::Git { url: "ab".to_string(), tag: Some("t".to_string()) };
    let plan = Feature::cache_plan(&f, "/tmp/cache", false);
    // "ab" is "YWI" and "t" is "dA" in URL-safe base64 without padding
    assert_eq!(plan.path, "/tmp/cache/YWI_dA");
    let clone = plan.clone.unwrap();
    assert_eq!(clone.args, vec!["clone", "--depth", "1", "--branch", "t", "--", "ab", "/tmp/cache/YWI_dA"]);
    let present = Feature::cache_plan(&f, "/tmp/cache", true);
    assert!(present.clone.is_none());
    let local = Feature::cache_plan(&FeaturePath::Local("./f".to_string()), "/tmp/cache", false);
    assert_eq!(local.path, "./f");
}

#[test]
fn dev_feature_cache_plan_encodes_url() {
    let f = DevFeaturePath::Git { url: "ab".to_string(), tag: None };
    let plan = DevFeature::cache_plan(&f, "/cache", "/tmp/t");
    // "ab" is "YWI=" in standard base64
    assert_eq!(plan.path, "/tmp/t/YWI=");
    let f = DevFeaturePath::Git { url: "ab".to_string(), tag: Some("t".to_string()) };
    let plan = DevFeature::cache_plan(&f, "/cache", "/tmp/t");
    assert_eq!(plan.path, "/cache/YWI=_dA==");
}

#[test]
fn feature_fetched_checks() {
    let f = FeaturePath::Local("./f".to_string());
    assert_eq!(Feature::fetched(f.clone(), "./f".to_string(), false, true), Err("Local feature does not exist at \"./f\"".to_string()));
    assert_eq!(Feature::fetched(f.clone(), "./f".to_string(), true, false), Err("Feature install script not found in \"./f\"".to_string()));
    let ok = Feature::fetched(f.clone(), "./f".to_string(), true, true).unwrap();
    assert_eq!(ok.command().program, "./f/install.sh");
}
