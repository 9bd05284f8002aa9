use watersim::config::{read_config, ConfigError, ConfigKey};

#[test]
fn parses_a_complete_config() {
    let text = b"shader_dir shaders\ngrid_size 4\nscale 0.5\nspeed 0.01\nnum_params 3\n";
    let c = read_config(text).unwrap();
    assert_eq!(c.shader_dir, b"shaders".to_vec());
    assert_eq!(c.grid_size, 4);
    assert_eq!(c.scale_micro, 500_000);
    assert_eq!(c.speed_micro, 10_000);
    assert_eq!(c.num_params, 3);
}

#[test]
fn key_order_does_not_matter() {
    let text = b"num_params 7\nspeed 2\nscale 1.25\ngrid_size 16\nshader_dir a/b";
    let c = read_config(text).unwrap();
    assert_eq!(c.shader_dir, b"a/b".to_vec());
    assert_eq!(c.grid_size, 16);
    assert_eq!(c.scale_micro, 1_250_000);
    assert_eq!(c.speed_micro, 2_000_000);
    assert_eq!(c.num_params, 7);
}

#[test]
fn tabs_and_extra_spaces_separate_tokens() {
    let text = b"shader_dir\t s \ngrid_size  1\nscale 1\nspeed 1\nnum_params 0\n";
    let c = read_config(text).unwrap();
    assert_eq!(c.shader_dir, b"s".to_vec());
    assert_eq!(c.num_params, 0);
}

#[test]
fn empty_line_is_fatal() {
    let text = b"shader_dir s\n\ngrid_size 1\nscale 1\nspeed 1\nnum_params 0\n";
    assert_eq!(read_config(text), Err(ConfigError::EmptyLine(1)));
}

#[test]
fn missing_value_is_fatal() {
    let text = b"shader_dir s\ngrid_size\n";
    assert_eq!(read_config(text), Err(ConfigError::MissingValue(1)));
}

#[test]
fn third_token_is_fatal() {
    let text = b"shader_dir s extra\n";
    assert_eq!(read_config(text), Err(ConfigError::ExtraToken(0)));
}

#[test]
fn unknown_key_is_fatal() {
    let text = b"shader_dir s\ncolour blue\n";
    assert_eq!(read_config(text), Err(ConfigError::UnknownKey(1)));
}

#[test]
fn duplicate_key_is_fatal() {
    let text = b"grid_size 1\ngrid_size 2\n";
    assert_eq!(read_config(text), Err(ConfigError::DuplicateKey(ConfigKey::GridSize)));
}

#[test]
fn each_missing_key_is_reported() {
    assert_eq!(read_config(b""), Err(ConfigError::MissingKey(ConfigKey::ShaderDir)));
    assert_eq!(
        read_config(b"shader_dir s\n"),
        Err(ConfigError::MissingKey(ConfigKey::GridSize))
    );
    assert_eq!(
        read_config(b"shader_dir s\ngrid_size 1\n"),
        Err(ConfigError::MissingKey(ConfigKey::Scale))
    );
    assert_eq!(
        read_config(b"shader_dir s\ngrid_size 1\nscale 1\n"),
        Err(ConfigError::MissingKey(ConfigKey::Speed))
    );
    assert_eq!(
        read_config(b"shader_dir s\ngrid_size 1\nscale 1\nspeed 1\n"),
        Err(ConfigError::MissingKey(ConfigKey::NumParams))
    );
}

#[test]
fn non_numeric_grid_size_is_fatal() {
    let text = b"grid_size abc\n";
    assert_eq!(read_config(text), Err(ConfigError::BadValue(ConfigKey::GridSize)));
}

#[test]
fn grid_size_beyond_u32_is_fatal() {
    let text = b"grid_size 4294967296\n";
    assert_eq!(read_config(text), Err(ConfigError::BadValue(ConfigKey::GridSize)));
}

#[test]
fn grid_size_at_u32_max_parses() {
    let text = b"shader_dir s\ngrid_size 4294967295\nscale 1\nspeed 1\nnum_params 0\n";
    assert_eq!(read_config(text).unwrap().grid_size, u32::MAX);
}

#[test]
fn decimals_parse_exactly_into_micro_units() {
    let cases: &[(&[u8], u64)] = &[
        (b"2", 2_000_000),
        (b"0.000001", 1),
        (b"1.5", 1_500_000),
        (b"0.25", 250_000),
        (b"10.000000", 10_000_000),
        (b"0.0", 0),
    ];
    for (tok, micro) in cases {
        let mut text = b"shader_dir s\ngrid_size 1\nscale ".to_vec();
        text.extend_from_slice(tok);
        text.extend_from_slice(b"\nspeed 1\nnum_params 0\n");
        let c = read_config(&text).unwrap();
        assert_eq!(c.scale_micro, *micro, "token {:?}", tok);
    }
}

#[test]
fn bad_decimals_are_fatal() {
    for tok in [
        &b"1.2345678"[..], // more than six fractional digits
        b".5",             // no integer part
        b"1.",             // no fractional digit after the dot
        b"1.2.3",          // a second dot
        b"-1",             // no sign accepted
        b"1e3",            // no exponent accepted
    ] {
        let mut text = b"shader_dir s\ngrid_size 1\nscale ".to_vec();
        text.extend_from_slice(tok);
        text.extend_from_slice(b"\nspeed 1\nnum_params 0\n");
        assert_eq!(
            read_config(&text),
            Err(ConfigError::BadValue(ConfigKey::Scale)),
            "token {:?}",
            tok
        );
    }
}

#[test]
fn windows_line_endings_are_tolerated() {
    let text = b"shader_dir s\r\ngrid_size 2\r\nscale 1\r\nspeed 1\r\nnum_params 0\r\n";
    let c = read_config(text).unwrap();
    assert_eq!(c.grid_size, 2);
    assert_eq!(c.shader_dir, b"s".to_vec());
}
