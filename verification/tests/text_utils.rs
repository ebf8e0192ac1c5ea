use sol_analyzer::names::{contains_name, contains_substr, names_equal, push_unique, text_is};
use sol_analyzer::parser::SolidityParser;
use sol_analyzer::scanner::{matches_pattern, str_ends_with, FileScanner};

#[test]
fn substring_search_finds_inner_tokens() {
    assert!(contains_substr("_getVaultStorage", "get"));
    assert!(contains_substr("_getVaultStorage", "Storage"));
    assert!(!contains_substr("_getVault", "Storage"));
    assert!(contains_substr("abc", ""));
    assert!(!contains_substr("", "a"));
    assert!(contains_substr("aaab", "aab"));
}

#[test]
fn name_list_insertion_deduplicates() {
    let mut names: Vec<String> = Vec::new();
    push_unique(&mut names, "total".to_string());
    push_unique(&mut names, "bal".to_string());
    push_unique(&mut names, "total".to_string());
    assert_eq!(names, vec!["total".to_string(), "bal".to_string()]);
    assert!(contains_name(&names, &"bal".to_string()));
    assert!(!contains_name(&names, &"missing".to_string()));
    assert!(text_is(&"public".to_string(), "public"));
    assert!(!text_is(&"public".to_string(), "private"));
    assert!(names_equal(
        &vec!["a".to_string(), "b".to_string()],
        &vec!["a".to_string(), "b".to_string()]
    ));
    assert!(!names_equal(&vec!["a".to_string()], &vec!["b".to_string()]));
}

#[test]
fn storage_location_comment_is_parsed_and_trimmed() {
    let loc = SolidityParser::parse_storage_location_comment(
        " @custom:storage-location erc7201:openzeppelin.storage.ERC20  ",
    );
    assert_eq!(loc, Some("erc7201:openzeppelin.storage.ERC20".to_string()));
    assert_eq!(
        SolidityParser::parse_storage_location_comment(" just a note "),
        None
    );
    assert_eq!(
        SolidityParser::parse_storage_location_comment("@custom:storage-location   "),
        None
    );
}

#[test]
fn exclusion_patterns_match_like_an_ignore_file() {
    assert!(matches_pattern("src/lib/Token.sol", "lib/*"));
    assert!(matches_pattern("test/MyTest.sol", "*Test.sol"));
    assert!(!matches_pattern("test/MyTest.ts", "*Test.sol"));
    assert!(matches_pattern("x/Test/Helpers.sol", "Test*.sol"));
    assert!(matches_pattern("exact/path.sol", "path.sol"));
    assert!(!matches_pattern("other.sol", "lib/*"));
    assert!(str_ends_with("a/b.sol", ".sol"));
    assert!(!str_ends_with("a/b.solx", ".sol"));
}

#[test]
fn scanner_drops_comment_and_empty_lines() {
    let scanner = FileScanner::new(
        "./contracts".to_string(),
        vec![
            "# ignore the mocks".to_string(),
            "".to_string(),
            "mocks/*".to_string(),
            "*Test.sol".to_string(),
        ],
    );
    assert_eq!(scanner.exclusions.len(), 2);
    assert!(scanner.should_exclude("contracts/mocks/Fake.sol"));
    assert!(scanner.should_exclude("contracts/TokenTest.sol"));
    assert!(!scanner.should_exclude("contracts/Token.sol"));
}

#[test]
fn interface_names_resolve_by_stripping_the_prefix() {
    let known = vec!["Token".to_string(), "Vault".to_string()];
    assert_eq!(
        sol_analyzer::extcalls::resolve_contract_from_type(&"IToken".to_string(), &known),
        Some("Token".to_string())
    );
    assert_eq!(
        sol_analyzer::extcalls::resolve_contract_from_type(&"Vault".to_string(), &known),
        Some("Vault".to_string())
    );
    assert_eq!(
        sol_analyzer::extcalls::resolve_contract_from_type(&"IUnknown".to_string(), &known),
        None
    );
    // a lone `I` or a lower-case second letter is not interface-shaped
    assert_eq!(
        sol_analyzer::extcalls::resolve_contract_from_type(&"Ix".to_string(), &known),
        None
    );
}
