use cozyboot::args::build;
use cozyboot::config::{BinSettings, Configuration, MainConfig, RuntimeOptions};

fn base_config() -> Configuration {
    Configuration {
        main: MainConfig {
            kern_root: "/opt/cozy/kern".to_string(),
            user_root: "/opt/cozy/user".to_string(),
        },
        bootargs: Vec::new(),
        bin: BinSettings { allow_32bit: None, allow_universal: None, allow_64bit: None },
    }
}

fn base_options() -> RuntimeOptions {
    RuntimeOptions {
        config_path_override: None,
        verbose: false,
        debug: false,
        boot_string: None,
    }
}

#[test]
fn minimal_config_gives_roots_only() {
    let args = build(&base_config(), &base_options());
    assert_eq!(
        args,
        vec![
            "--kern-root".to_string(),
            "/opt/cozy/kern".to_string(),
            "--user-root".to_string(),
            "/opt/cozy/user".to_string(),
        ]
    );
}

#[test]
fn full_config_fixed_order() {
    let mut c = base_config();
    c.bootargs = vec![
        ("quiet".to_string(), "1".to_string()),
        ("root".to_string(), "/dev/vda".to_string()),
    ];
    c.bin = BinSettings {
        allow_32bit: Some(true),
        allow_universal: Some(false),
        allow_64bit: Some(true),
    };
    let mut o = base_options();
    o.boot_string = Some("single".to_string());
    o.debug = true;
    let args = build(&c, &o);
    assert_eq!(
        args,
        vec![
            "--kern-root".to_string(),
            "/opt/cozy/kern".to_string(),
            "--user-root".to_string(),
            "/opt/cozy/user".to_string(),
            "--quiet=1".to_string(),
            "--root=/dev/vda".to_string(),
            "--allow-32bit".to_string(),
            "true".to_string(),
            "--allow-universal".to_string(),
            "false".to_string(),
            "--allow-64bit".to_string(),
            "true".to_string(),
            "--boot-string".to_string(),
            "single".to_string(),
            "--debug".to_string(),
        ]
    );
}

#[test]
fn bootargs_keep_declaration_order() {
    let mut c = base_config();
    c.bootargs = vec![
        ("a".to_string(), "1".to_string()),
        ("b".to_string(), "2".to_string()),
    ];
    let args = build(&c, &base_options());
    assert_eq!(args[4], "--a=1");
    assert_eq!(args[5], "--b=2");
    let pos_a = args.iter().position(|t| t == "--a=1").unwrap();
    let pos_b = args.iter().position(|t| t == "--b=2").unwrap();
    assert!(pos_a < pos_b);
}

#[test]
fn bootargs_reversed_declaration_kept() {
    let mut c = base_config();
    c.bootargs = vec![
        ("zeta".to_string(), "9".to_string()),
        ("alpha".to_string(), "1".to_string()),
    ];
    let args = build(&c, &base_options());
    assert_eq!(args[4], "--zeta=9");
    assert_eq!(args[5], "--alpha=1");
}

#[test]
fn builder_is_pure() {
    let mut c = base_config();
    c.bootargs = vec![("a".to_string(), "1".to_string())];
    c.bin.allow_64bit = Some(false);
    let mut o = base_options();
    o.boot_string = Some("x".to_string());
    let first = build(&c, &o);
    let second = build(&c, &o);
    assert_eq!(first, second);
}

#[test]
fn only_allow_32bit_present() {
    let mut c = base_config();
    c.bin.allow_32bit = Some(true);
    let args = build(&c, &base_options());
    let count = args.iter().filter(|t| t.as_str() == "--allow-32bit").count();
    assert_eq!(count, 1);
    let pos = args.iter().position(|t| t == "--allow-32bit").unwrap();
    assert_eq!(args[pos + 1], "true");
    assert!(!args.iter().any(|t| t == "--allow-universal"));
    assert!(!args.iter().any(|t| t == "--allow-64bit"));
}
