use mover_config::{compose_diagnostic, parse_config, validate_config, MoverConfig};

fn parse_config_str(input: &str) -> Result<MoverConfig, String> {
    println!("testing config:\n{}", input);
    let result = parse_config(input);
    match result {
        Ok(ref cfg) => println!("result: success: {:?}\n", cfg),
        Err(ref e) => println!("result: error: {}\n", e),
    }
    result
}

#[test]
fn test_config_invalid() {
    /* Basic JSON parsing cases, including location information. */
    assert_eq!(
        parse_config_str(r#""#).err().unwrap(),
        "failed to parse config: EOF while parsing a \
         value at line 1 column 0"
    );
    assert_eq!(
        parse_config_str(r#"{"#).err().unwrap(),
        "failed to parse config: EOF while parsing an \
         object at line 1 column 1"
    );

    /* Missing parameters */
    assert!(parse_config_str(r#"{"nMaxObjectSize":123}"#)
        .err()
        .unwrap()
        .starts_with("failed to parse config: missing field `nMaxTransfers`"));
    assert!(parse_config_str(r#"{"nMaxTransfers":456}"#)
        .err()
        .unwrap()
        .starts_with("failed to parse config: missing field `nMaxObjectSize`"));

    /* Bad type */
    assert!(parse_config_str(r#"{"nMaxObjectSize":"123","nMaxTransfers":3}"#)
        .err()
        .unwrap()
        .starts_with(
            "failed to parse config: invalid type: string \"123\", \
             expected u64"
        ));

    /* Post-serde validation */
    assert!(parse_config_str(r#"{"nMaxObjectSize":10,"nMaxTransfers":0}"#)
        .err()
        .unwrap()
        .starts_with("failed to parse config: nMaxTransfers cannot be zero"));

    assert!(parse_config_str(r#"{"nMaxObjectSize":0,"nMaxTransfers":0}"#)
        .err()
        .unwrap()
        .starts_with("failed to parse config: nMaxTransfers cannot be zero"));

    assert!(parse_config_str(r#"{"nMaxObjectSize":0,"nMaxTransfers":10}"#)
        .err()
        .unwrap()
        .starts_with("failed to parse config: nMaxObjectSize cannot be zero"));
}

#[test]
fn test_config_basic() {
    assert_eq!(
        parse_config_str(r#"{"nMaxObjectSize":19,"nMaxTransfers":20}"#),
        Ok(MoverConfig {
            mc_nmax_transfers: 20,
            mc_nmax_object_size: 19
        })
    );
}

#[test]
fn test_config_whitespace_and_extra_fields() {
    /* Whitespace is insignificant and unrecognized fields are ignored. */
    let input = "{\n    \"nMaxTransfers\": 8,\n    \"nMaxObjectSize\": 1099511627776,\n    \"comment\": \"ignored\"\n}";
    assert_eq!(
        parse_config(input),
        Ok(MoverConfig {
            mc_nmax_transfers: 8,
            mc_nmax_object_size: 1099511627776
        })
    );
}

#[test]
fn test_config_largest_values() {
    let input = r#"{"nMaxTransfers":4294967295,"nMaxObjectSize":18446744073709551615}"#;
    assert_eq!(
        parse_config(input),
        Ok(MoverConfig {
            mc_nmax_transfers: 4294967295,
            mc_nmax_object_size: 18446744073709551615
        })
    );
}

#[test]
fn test_config_transfers_out_of_range() {
    /* One past u32::MAX: structurally a number, but not a u32. */
    assert!(parse_config(r#"{"nMaxTransfers":4294967296,"nMaxObjectSize":1}"#)
        .err()
        .unwrap()
        .starts_with("failed to parse config: invalid value: integer `4294967296`, expected u32"));
}

#[test]
fn test_config_transfers_wrong_type() {
    assert!(parse_config(r#"{"nMaxTransfers":"5","nMaxObjectSize":1}"#)
        .err()
        .unwrap()
        .starts_with("failed to parse config: invalid type: string \"5\", expected u32"));
    assert!(parse_config(r#"{"nMaxTransfers":null,"nMaxObjectSize":1}"#)
        .err()
        .unwrap()
        .starts_with("failed to parse config: invalid type: null, expected u32"));
    assert!(parse_config(r#"{"nMaxTransfers":true,"nMaxObjectSize":1}"#)
        .err()
        .unwrap()
        .starts_with("failed to parse config: invalid type: boolean `true`, expected u32"));
}

#[test]
fn test_config_negative_size() {
    assert!(parse_config(r#"{"nMaxTransfers":3,"nMaxObjectSize":-1}"#)
        .err()
        .unwrap()
        .starts_with("failed to parse config: invalid value: integer `-1`, expected u64"));
}

#[test]
fn test_config_not_an_object() {
    /* A document without the required fields at top level: the first entry
     * of the field table is reported missing. */
    assert!(parse_config(r#"[1,2]"#)
        .err()
        .unwrap()
        .starts_with("failed to parse config: missing field `nMaxTransfers`"));
    assert!(parse_config(r#"{}"#)
        .err()
        .unwrap()
        .starts_with("failed to parse config: missing field `nMaxTransfers`"));
}

#[test]
fn test_config_syntax_error_position() {
    assert_eq!(
        parse_config("{\"nMaxTransfers\": 1,}").err().unwrap(),
        "failed to parse config: trailing comma at line 1 column 21"
    );
}

#[test]
fn test_validate_config_rules() {
    /* The validator itself: identity on valid candidates, first rule in
     * declaration order otherwise. */
    let good = MoverConfig {
        mc_nmax_transfers: 1,
        mc_nmax_object_size: 1,
    };
    assert_eq!(validate_config(good), Ok(good));
    assert_eq!(
        validate_config(MoverConfig {
            mc_nmax_transfers: 0,
            mc_nmax_object_size: 7
        })
        .err()
        .unwrap(),
        "nMaxTransfers cannot be zero"
    );
    assert_eq!(
        validate_config(MoverConfig {
            mc_nmax_transfers: 7,
            mc_nmax_object_size: 0
        })
        .err()
        .unwrap(),
        "nMaxObjectSize cannot be zero"
    );
    assert_eq!(
        validate_config(MoverConfig {
            mc_nmax_transfers: 0,
            mc_nmax_object_size: 0
        })
        .err()
        .unwrap(),
        "nMaxTransfers cannot be zero"
    );
}

#[test]
fn test_compose_diagnostic_prefix() {
    assert_eq!(
        compose_diagnostic("something broke"),
        "failed to parse config: something broke"
    );
    assert_eq!(compose_diagnostic(""), "failed to parse config: ");
}
