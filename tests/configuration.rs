use rustc_to_wasm_compiler::configuration::{
    decimal_string, Configuration, Debugging, Filename, Profile, StackSize,
    DEFAULT_SOURCE_FILENAME, OUTPUT_FILENAME, PROGRAM,
};
use rustc_to_wasm_compiler::configuration_builder::{ConfigurationBuilder, Field};

fn full(
    profile: Profile,
    debugging: Debugging,
    stack_size: StackSize,
    source: &str,
    filename: Filename,
) -> Configuration {
    ConfigurationBuilder::init()
        .profile(profile)
        .debugging(debugging)
        .stack_size(stack_size)
        .source(source.into())
        .filename(filename)
        .build()
        .unwrap()
}

fn args_of(config: &Configuration) -> Vec<String> {
    config.as_command("/tmp/a.src", "/tmp/b.out").args
}

#[test]
fn configuration_settings() {
    let config = ConfigurationBuilder::init()
        .debugging(Debugging::Disabled)
        .stack_size(StackSize::Unspecified)
        .profile(Profile::O0)
        .source("hi there!".into())
        .filename(Filename::Unspecified)
        .build()
        .unwrap();

    assert_eq!(config.debugging(), &Debugging::Disabled);
    assert_eq!(config.profile(), &Profile::O0);
    assert_eq!(config.source(), "hi there!");
}

#[test]
fn second_value_of_a_setter_wins() {
    let config = ConfigurationBuilder::init()
        .profile(Profile::O1)
        .debugging(Debugging::Enabled)
        .stack_size(StackSize::Configured(100))
        .source("first".into())
        .filename(Filename::Configured("a.rs".into()))
        .profile(Profile::O3)
        .debugging(Debugging::Disabled)
        .stack_size(StackSize::Unspecified)
        .source("second".into())
        .filename(Filename::Unspecified)
        .build()
        .unwrap();

    assert_eq!(config.profile(), &Profile::O3);
    assert_eq!(config.debugging(), &Debugging::Disabled);
    assert_eq!(config.source(), "second");
    assert_eq!(config.source_filename(), DEFAULT_SOURCE_FILENAME);
    assert_eq!(args_of(&config).len(), 6);
}

#[test]
fn setter_order_does_not_matter() {
    let forward = full(
        Profile::O2,
        Debugging::Enabled,
        StackSize::Configured(4096),
        "code",
        Filename::Configured("lib.rs".into()),
    );
    let backward = ConfigurationBuilder::init()
        .filename(Filename::Configured("lib.rs".into()))
        .source("code".into())
        .stack_size(StackSize::Configured(4096))
        .debugging(Debugging::Enabled)
        .profile(Profile::O2)
        .build()
        .unwrap();
    let shuffled = ConfigurationBuilder::init()
        .source("code".into())
        .profile(Profile::O2)
        .filename(Filename::Configured("lib.rs".into()))
        .debugging(Debugging::Enabled)
        .stack_size(StackSize::Configured(4096))
        .build()
        .unwrap();

    for config in [&backward, &shuffled] {
        assert_eq!(config.profile(), forward.profile());
        assert_eq!(config.debugging(), forward.debugging());
        assert_eq!(config.source(), forward.source());
        assert_eq!(config.source_filename(), "lib.rs");
        assert_eq!(args_of(config), args_of(&forward));
    }
}

#[test]
fn empty_builder_misses_every_field() {
    let err = ConfigurationBuilder::init().build().unwrap_err();
    assert_eq!(
        err.fields,
        vec![
            Field::Profile,
            Field::Debugging,
            Field::StackSize,
            Field::Source,
            Field::Filename
        ]
    );
}

#[test]
fn one_missing_field_is_named() {
    let err = ConfigurationBuilder::init()
        .profile(Profile::O0)
        .debugging(Debugging::Disabled)
        .stack_size(StackSize::Unspecified)
        .filename(Filename::Unspecified)
        .build()
        .unwrap_err();
    assert_eq!(err.fields, vec![Field::Source]);
}

#[test]
fn several_missing_fields_are_named_in_order() {
    let err = ConfigurationBuilder::init()
        .source("x".into())
        .debugging(Debugging::Enabled)
        .build()
        .unwrap_err();
    assert_eq!(
        err.fields,
        vec![Field::Profile, Field::StackSize, Field::Filename]
    );

    let err = ConfigurationBuilder::init()
        .profile(Profile::O1)
        .build()
        .unwrap_err();
    assert_eq!(
        err.fields,
        vec![
            Field::Debugging,
            Field::StackSize,
            Field::Source,
            Field::Filename
        ]
    );
}

#[test]
fn all_fields_set_builds() {
    let config = ConfigurationBuilder::init()
        .profile(Profile::O1)
        .debugging(Debugging::Disabled)
        .stack_size(StackSize::Unspecified)
        .source(String::new())
        .filename(Filename::Unspecified)
        .build();
    assert!(config.is_ok());
}

#[test]
fn arguments_in_order() {
    let config = full(
        Profile::O2,
        Debugging::Enabled,
        StackSize::Configured(32768),
        "fn f() {}",
        Filename::Unspecified,
    );
    let invocation = config.as_command("/tmp/a.src", "/tmp/b.out");
    assert_eq!(invocation.program, "rustc");
    assert_eq!(
        invocation.args,
        vec![
            "/tmp/a.src",
            "-Copt-level=2",
            "-g",
            "-Clink-args=-zstack-size=32768",
            "--target=wasm32-unknown-unknown",
            "--crate-type=cdylib",
            "-o",
            "/tmp/b.out",
        ]
    );
}

#[test]
fn debug_flag_omitted_when_disabled() {
    let config = full(
        Profile::O2,
        Debugging::Disabled,
        StackSize::Configured(32768),
        "",
        Filename::Unspecified,
    );
    let args = args_of(&config);
    assert_eq!(args.len(), 7);
    assert!(!args.iter().any(|a| a == "-g"));
    assert_eq!(args[2], "-Clink-args=-zstack-size=32768");
}

#[test]
fn stack_size_omitted_when_unspecified() {
    let config = full(
        Profile::O0,
        Debugging::Enabled,
        StackSize::Unspecified,
        "",
        Filename::Unspecified,
    );
    let args = args_of(&config);
    assert_eq!(args.len(), 7);
    assert!(!args.iter().any(|a| a.starts_with("-Clink-args")));
    assert_eq!(args[2], "-g");
}

#[test]
fn both_flags_omitted() {
    let config = full(
        Profile::O3,
        Debugging::Disabled,
        StackSize::Unspecified,
        "",
        Filename::Unspecified,
    );
    assert_eq!(
        args_of(&config),
        vec![
            "/tmp/a.src",
            "-Copt-level=3",
            "--target=wasm32-unknown-unknown",
            "--crate-type=cdylib",
            "-o",
            "/tmp/b.out",
        ]
    );
}

#[test]
fn each_profile_has_its_flag() {
    let levels = [
        (Profile::O0, "-Copt-level=0"),
        (Profile::O1, "-Copt-level=1"),
        (Profile::O2, "-Copt-level=2"),
        (Profile::O3, "-Copt-level=3"),
    ];
    for (profile, flag) in levels {
        let config = full(
            profile,
            Debugging::Disabled,
            StackSize::Unspecified,
            "",
            Filename::Unspecified,
        );
        assert_eq!(args_of(&config)[1], flag);
    }
}

#[test]
fn small_stack_size_is_rendered() {
    let config = full(
        Profile::O3,
        Debugging::Disabled,
        StackSize::Configured(2_u32.pow(4)),
        "",
        Filename::Unspecified,
    );
    assert_eq!(args_of(&config)[2], "-Clink-args=-zstack-size=16");
}

#[test]
fn decimal_rendering() {
    assert_eq!(decimal_string(0), "0");
    assert_eq!(decimal_string(7), "7");
    assert_eq!(decimal_string(10), "10");
    assert_eq!(decimal_string(32768), "32768");
    assert_eq!(decimal_string(1_000_000), "1000000");
    assert_eq!(decimal_string(u32::MAX), "4294967295");
}

#[test]
fn source_filename_default_and_configured() {
    let default = full(
        Profile::O0,
        Debugging::Disabled,
        StackSize::Unspecified,
        "",
        Filename::Unspecified,
    );
    assert_eq!(default.source_filename(), "rustc-to-wasm-source.rs");
    let named = full(
        Profile::O0,
        Debugging::Disabled,
        StackSize::Unspecified,
        "",
        Filename::Configured("lib.rs".into()),
    );
    assert_eq!(named.source_filename(), "lib.rs");
    assert_eq!(OUTPUT_FILENAME, "rustc-to-wasm-out.wasm");
    assert_eq!(PROGRAM, "rustc");
}
