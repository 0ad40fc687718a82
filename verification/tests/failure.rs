use build_assert::error::Error;
use build_assert::expand::{Expansion, Origin};
use build_assert::failure::{
    build_error, build_error_symbol, symbol_invocation, to_decimal, Build, Failure, Profile, Site,
};

fn site() -> Site {
    Site { file: "src/lib.rs".to_string(), line: 338, column: 5 }
}

#[test]
fn decimal_of_small_and_large_numbers() {
    assert_eq!(to_decimal(0), "0");
    assert_eq!(to_decimal(7), "7");
    assert_eq!(to_decimal(10), "10");
    assert_eq!(to_decimal(1234567890), "1234567890");
    assert_eq!(to_decimal(u32::MAX), "4294967295");
    for n in [9u32, 99, 100, 101, 65535, 1000000] {
        assert_eq!(to_decimal(n), n.to_string());
    }
}

#[test]
fn site_text_names_file_line_and_column() {
    assert_eq!(site().assembly_text(), "build error at src/lib.rs:338:5");
}

#[test]
fn debug_build_panics_with_the_message() {
    for no_asm in [false, true] {
        let build = Build { profile: Profile::Debug, no_asm };
        assert_eq!(
            build_error(build, "assertion failed: false", &site(), "sym"),
            Failure::Panic("assertion failed: false".to_string())
        );
    }
}

#[test]
fn release_build_stops_the_assembler() {
    let build = Build { profile: Profile::Release, no_asm: false };
    assert_eq!(
        build_error(build, "assertion failed: false", &site(), "sym"),
        Failure::Assembly("build error at src/lib.rs:338:5".to_string())
    );
}

#[test]
fn release_build_without_assembly_stops_the_linker() {
    let build = Build { profile: Profile::Release, no_asm: true };
    assert_eq!(
        build_error(build, "assertion failed: false", &site(), "__build_error_impl"),
        Failure::Link("__build_error_impl".to_string())
    );
}

#[test]
fn symbol_comes_from_the_variable_or_the_default() {
    assert_eq!(
        build_error_symbol(Ok("hello".to_string()), Some("hello".to_string())),
        Ok("hello".to_string())
    );
    assert_eq!(
        build_error_symbol(Err("not found".to_string()), None),
        Ok("__build_error_impl".to_string())
    );
    assert_eq!(
        build_error_symbol(Ok("1x".to_string()), None),
        Err(Error::Value("1x".to_string()))
    );
}

#[test]
fn symbol_is_what_its_invocation_expands_to() {
    let invocation = symbol_invocation();
    assert_eq!(invocation.name, "BUILD_ERROR_SYM");
    assert_eq!(
        invocation.resolve(Err("not found".to_string()), None),
        Ok(Expansion {
            ident: "__build_error_impl".to_string(),
            origin: Origin::Default,
            apply_to: None
        })
    );
    assert_eq!(
        symbol_invocation()
            .resolve(Ok("hello".to_string()), Some("hello".to_string()))
            .map(|e| e.ident),
        build_error_symbol(Ok("hello".to_string()), Some("hello".to_string()))
    );
}

#[test]
fn profiles_go_by_their_names() {
    assert_eq!(Profile::from_name("debug"), Some(Profile::Debug));
    assert_eq!(Profile::from_name("release"), Some(Profile::Release));
    for name in ["", "Debug", "debug ", "dev", "bench", "releases"] {
        assert_eq!(Profile::from_name(name), None, "{name}");
    }
    for profile in [Profile::Debug, Profile::Release] {
        assert_eq!(Profile::from_name(profile.name()), Some(profile));
    }
    assert_eq!(Profile::Debug.name(), "debug");
    assert_eq!(Profile::Release.name(), "release");
}
