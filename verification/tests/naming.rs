use movey::naming::{is_name_valid, is_version_valid, slug_with_suffix, slugify_package_name, validate_name_and_version};

#[test]
fn slugify_package_name_works() {
    let package_names = [
        "ABIStruct",
        "AccountExample",
        "ERC20DecimalsMock",
        "DPNFramework",
        "aptETH",
        "DotAptTLD",
        "SVGNFT",
        "CounterCrossCall",
        "@EastAgile/test_move_package",
    ];
    let converted_name = package_names.map(|name| slugify_package_name(name));
    let expected_name = [
        "abi-struct",
        "account-example",
        "erc20-decimals-mock",
        "dpn-framework",
        "apt-eth",
        "dot-apt-tld",
        "svgnft",
        "counter-cross-call",
        "east-agile-test-move-package",
    ];
    for i in 0..9 {
        assert_eq!(
            converted_name[i], expected_name[i],
            "{} is not equal to {}",
            converted_name[i], expected_name[i]
        )
    }
}

#[test]
fn slug_with_suffix_adds_a_hyphen_and_the_suffix() {
    assert_eq!(slug_with_suffix("move-stdlib", "x7Ka"), "move-stdlib-x7Ka");
}

#[test]
fn package_names_of_letters_digits_hyphens_and_underscores_are_valid() {
    assert!(is_name_valid("MoveStdlib"));
    assert!(is_name_valid("move-std_lib2"));
    assert!(is_name_valid("a--b__c"));
    assert!(!is_name_valid("bad name"));
    assert!(!is_name_valid("-leading"));
    assert!(!is_name_valid("trailing_"));
    assert!(!is_name_valid(""));
}

#[test]
fn versions_must_be_semantic_versions() {
    assert!(is_version_valid("1.5.0"));
    assert!(is_version_valid("0.0.1-alpha.1"));
    assert!(!is_version_valid("1.0"));
    assert!(!is_version_valid("latest"));
}

#[test]
fn validate_name_and_version_accepts_a_valid_pair() {
    assert!(validate_name_and_version("MoveStdlib", "1.5.0").is_empty());
}

#[test]
fn validate_name_and_version_gives_both_hints_in_order() {
    let hints = validate_name_and_version("bad name", "1.0");
    assert_eq!(
        hints,
        vec![
            "Package name should only contain alphanumeric characters connected by hyphens or underscores",
            "Package version should adhere to semantic versioning (see https://semver.org)",
        ]
    );
    let only_version = validate_name_and_version("good-name", "v1");
    assert_eq!(
        only_version,
        vec!["Package version should adhere to semantic versioning (see https://semver.org)"]
    );
}
