use cozyboot::errors::LaunchError;
use cozyboot::load::{parse_config, validate, RawConfig, RawScalar};

fn parse_detail(r: Result<cozyboot::config::Configuration, LaunchError>) -> String {
    match r {
        Err(LaunchError::ConfigParseError { detail }) => detail,
        Err(_) => panic!("wrong error variant"),
        Ok(_) => panic!("expected an error"),
    }
}

#[test]
fn full_document_parses() {
    let text = "[main]\n\
                kern_root = \"$(devroot)/kern\"\n\
                user_root = \"$(devroot)/user\"\n\
                \n\
                [bootargs]\n\
                quiet = \"1\"\n\
                root = \"/dev/vda\"\n\
                \n\
                [bin]\n\
                allow_32bit = true\n\
                allow_64bit = false\n";
    let c = parse_config(text).unwrap();
    assert_eq!(c.main.kern_root, "$(devroot)/kern");
    assert_eq!(c.main.user_root, "$(devroot)/user");
    assert_eq!(
        c.bootargs,
        vec![
            ("quiet".to_string(), "1".to_string()),
            ("root".to_string(), "/dev/vda".to_string()),
        ]
    );
    assert_eq!(c.bin.allow_32bit, Some(true));
    assert_eq!(c.bin.allow_universal, None);
    assert_eq!(c.bin.allow_64bit, Some(false));
}

#[test]
fn bootargs_come_in_declaration_order() {
    let text = "[main]\n\
                kern_root = \"/k\"\n\
                user_root = \"/u\"\n\
                [bootargs]\n\
                zeta = \"9\"\n\
                alpha = \"1\"\n\
                [bin]\n";
    let c = parse_config(text).unwrap();
    assert_eq!(
        c.bootargs,
        vec![
            ("zeta".to_string(), "9".to_string()),
            ("alpha".to_string(), "1".to_string()),
        ]
    );
}

#[test]
fn empty_bootargs_table_accepted() {
    let text = "[main]\n\
                kern_root = \"/k\"\n\
                user_root = \"/u\"\n\
                [bootargs]\n\
                [bin]\n";
    let c = parse_config(text).unwrap();
    assert!(c.bootargs.is_empty());
    assert_eq!(c.bin.allow_32bit, None);
}

#[test]
fn malformed_text_reports_parser_diagnostic() {
    let r = parse_config("[main\nkern_root = \"/k\"");
    let detail = parse_detail(r);
    assert!(!detail.is_empty());
}

#[test]
fn missing_user_root_reported() {
    let text = "[main]\n\
                kern_root = \"/k\"\n\
                [bootargs]\n\
                [bin]\n";
    let detail = parse_detail(parse_config(text));
    assert!(detail.contains("user_root"));
}

#[test]
fn missing_main_table_reported() {
    let text = "[bootargs]\n[bin]\n";
    let detail = parse_detail(parse_config(text));
    assert!(detail.contains("main"));
}

#[test]
fn non_string_kern_root_reported() {
    let text = "[main]\n\
                kern_root = 5\n\
                user_root = \"/u\"\n\
                [bootargs]\n\
                [bin]\n";
    let detail = parse_detail(parse_config(text));
    assert!(detail.contains("kern_root"));
}

#[test]
fn missing_bootargs_table_reported() {
    let text = "[main]\n\
                kern_root = \"/k\"\n\
                user_root = \"/u\"\n\
                [bin]\n";
    let detail = parse_detail(parse_config(text));
    assert!(detail.contains("bootargs"));
}

#[test]
fn non_string_bootarg_value_reported() {
    let text = "[main]\n\
                kern_root = \"/k\"\n\
                user_root = \"/u\"\n\
                [bootargs]\n\
                mem = 512\n\
                [bin]\n";
    let detail = parse_detail(parse_config(text));
    assert!(detail.contains("bootargs"));
}

#[test]
fn missing_bin_table_reported() {
    let text = "[main]\n\
                kern_root = \"/k\"\n\
                user_root = \"/u\"\n\
                [bootargs]\n";
    let detail = parse_detail(parse_config(text));
    assert!(detail.contains("bin"));
}

#[test]
fn non_boolean_bin_field_reported() {
    let text = "[main]\n\
                kern_root = \"/k\"\n\
                user_root = \"/u\"\n\
                [bootargs]\n\
                [bin]\n\
                allow_universal = \"yes\"\n";
    let detail = parse_detail(parse_config(text));
    assert!(detail.contains("allow_universal"));
}

fn good_raw() -> RawConfig {
    RawConfig {
        has_main: true,
        kern_root: RawScalar::Text("/k".to_string()),
        user_root: RawScalar::Text("/u".to_string()),
        has_bootargs: true,
        bootargs: vec![("a".to_string(), Some("1".to_string()))],
        has_bin: true,
        allow_32bit: RawScalar::Flag(true),
        allow_universal: RawScalar::Absent,
        allow_64bit: RawScalar::Absent,
    }
}

#[test]
fn validate_accepts_good_snapshot() {
    let c = validate(good_raw()).unwrap();
    assert_eq!(c.main.kern_root, "/k");
    assert_eq!(c.main.user_root, "/u");
    assert_eq!(c.bootargs, vec![("a".to_string(), "1".to_string())]);
    assert_eq!(c.bin.allow_32bit, Some(true));
    assert_eq!(c.bin.allow_universal, None);
    assert_eq!(c.bin.allow_64bit, None);
}

#[test]
fn validate_rejects_boolean_kern_root() {
    let mut raw = good_raw();
    raw.kern_root = RawScalar::Flag(true);
    let detail = parse_detail(validate(raw));
    assert_eq!(detail, "`main.kern_root` must be a string");
}

#[test]
fn validate_rejects_missing_bootarg_string() {
    let mut raw = good_raw();
    raw.bootargs = vec![("a".to_string(), None)];
    let detail = parse_detail(validate(raw));
    assert_eq!(detail, "`bootargs` values must be strings");
}
