//! The library's identifier validation, held against the SDK's own.

use aurora_workspace_demo::account::AccountId;
use std::str::FromStr;
use workspaces::AccountId as SdkAccountId;

#[test]
fn validation_agrees_with_the_sdk() {
    let cases = [
        "aurora.test.near",
        "owner.test.near",
        "prover.test.near",
        "newowner.test.near",
        "a0",
        "0.0",
        "a-b_c.d0",
        "",
        "a",
        ".a",
        "a.",
        "a..b",
        "a__b",
        "A.b",
        "owner@test",
        "own er",
        "-ab",
        "ab-",
    ];
    for id in cases {
        assert_eq!(
            AccountId::parse(id).is_ok(),
            SdkAccountId::from_str(id).is_ok(),
            "the two validators disagree on {id:?}"
        );
    }
}

#[test]
fn length_bounds_agree_with_the_sdk() {
    let max = "a".repeat(64);
    assert!(AccountId::parse(&max).is_ok());
    assert!(SdkAccountId::from_str(&max).is_ok());
    let too_long = "a".repeat(65);
    assert!(AccountId::parse(&too_long).is_err());
    assert!(SdkAccountId::from_str(&too_long).is_err());
}
