use infra_engine::container_registry::RepositoryNamingRule;
use infra_engine::container_registry::check_repository_naming_rules;

struct TestCase {
    input: String,
    expected: Option<Vec<RepositoryNamingRule>>,
}

#[test]
fn test_scaleway_container_registry_repository_naming_rules() {
    // setup:
    let test_cases = vec![
        TestCase {
            input: "abc".to_string(),
            expected: Some(vec![RepositoryNamingRule::MinLengthNotReached { min_length: 4 }]),
        },
        TestCase {
            input: "abcd".to_string(),
            expected: None,
        },
        TestCase {
            input: "abcdefghijklmnopqrstuvwxyzabcdefghijklmnopqrstuvwxyzabc".to_string(),
            expected: Some(vec![RepositoryNamingRule::MaxLengthReached { max_length: 54 }]),
        },
        TestCase {
            input: "abcdefghijklmnopqrstuvwxyzabcdefghijklmnopqrstuvwxyzab".to_string(),
            expected: None,
        },
        TestCase {
            input: "abc_def_ghi_jkl_mno_pqr_stu_vwx_yz".to_string(),
            expected: Some(vec![RepositoryNamingRule::AlphaNumericCharsDashesPeriodsOnly]),
        },
        TestCase {
            input: "a_d".to_string(),
            expected: Some(vec![
                RepositoryNamingRule::MinLengthNotReached { min_length: 4 },
                RepositoryNamingRule::AlphaNumericCharsDashesPeriodsOnly,
            ]),
        },
        TestCase {
            input: "abc_def_ghi_jkl_mno_pqr_stu_vwx_yz@abc_def_ghi_jkl_mno_pqr_stu_vwx_yz"
                .to_string(),
            expected: Some(vec![
                RepositoryNamingRule::MaxLengthReached { max_length: 54 },
                RepositoryNamingRule::AlphaNumericCharsDashesPeriodsOnly,
            ]),
        },
        TestCase {
            input: "abc-def.ghi-jkl.mno-pqr-stu-vwx-yz".to_string(),
            expected: None,
        },
        TestCase {
            input: "abc-def.ghi-jkl.mno-123-stu-vwx-yz".to_string(),
            expected: None,
        },
        TestCase {
            input: "abc-def-ghi-jkl-mno-pqr-stu-vwx-yz".to_string(),
            expected: None,
        },
        TestCase {
            input: "abc.def.ghi.jkl.mno.pqr.stu.vwx.yz".to_string(),
            expected: None,
        },
    ];

    for tc in test_cases {
        // execute:
        let result = check_repository_naming_rules(tc.input);

        // verify:
        assert_eq!(tc.expected, result);
    }
}
