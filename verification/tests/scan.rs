use yara::native::{
    CallbackResult, CALLBACK_MSG_RULE_MATCHING, ERROR_CALLBACK_ERROR, ERROR_SCAN_TIMEOUT, ERROR_SUCCESS,
};
use yara::matches::NativeMatch;
use yara::rules::NativeRule;
use yara::string::NativeString;
use yara::{Engine, Match, Rule, Rules, ScanError, Yara, YrString};

const FILE_1_CONTENT: &[u8; 5] = b"Test1";
const MSG_RULE_NOT_MATCHING: i32 = 2;
const MSG_SCAN_FINISHED: i32 = 3;
const MSG_IMPORT_MODULE: i32 = 4;

fn native_match(base: i64, offset: i64, length: i32) -> NativeMatch {
    NativeMatch { base, offset, length }
}

fn text_rule<'a>(name: &'a str, matches: Vec<NativeMatch>) -> NativeRule<'a> {
    NativeRule { identifier: name, strings: vec![NativeString { identifier: "$text", matches }] }
}

fn with_rules<T>(run: fn(&Rules) -> T) -> T {
    let mut engine = Engine::new();
    let mut yara = Yara::create(&mut engine, ERROR_SUCCESS).unwrap();
    let result = {
        let rules = yara.load_rules(ERROR_SUCCESS, 0x5000).unwrap();
        run(&rules)
    };
    assert!(engine.release(yara));
    result
}

#[test]
fn test_scan_file_with_non_matching_rule() {
    let mut engine = Engine::new();
    let mut yara = Yara::create(&mut engine, ERROR_SUCCESS).unwrap();
    let mut compiler = yara.new_compiler(ERROR_SUCCESS, 0x1000).unwrap();

    // The engine compiles the rule `not_match`, which looks for "RANDOM TEXT",
    // without a diagnostic.
    match compiler.add_rules_str_with_namespace("yara-scan", Vec::new()) {
        Ok(_) => {}
        Err(_) => assert!(false),
    };

    let rules = compiler.compile_rules(ERROR_SUCCESS, 0x2000).expect("Should have compiled rules");

    // On the five bytes of the file the rule does not match.
    let mut scan = rules.scan_file(Ok(FILE_1_CONTENT.len() as u64), 0).unwrap();
    assert_eq!(scan.on_message(MSG_RULE_NOT_MATCHING, None), CallbackResult::Continue);
    assert_eq!(scan.on_message(MSG_SCAN_FINISHED, None), CallbackResult::Continue);
    let scan_results = scan.finish(ERROR_SUCCESS);
    assert!(scan_results.is_ok());
    let scan_results = scan_results.unwrap();
    assert_eq!(scan_results.len(), 0);
}

#[test]
fn test_scan_file_with_matching_rule() {
    let mut engine = Engine::new();
    let mut yara = Yara::create(&mut engine, ERROR_SUCCESS).unwrap();
    let mut compiler = yara.new_compiler(ERROR_SUCCESS, 0x1000).unwrap();

    // The engine compiles the rule `matches_the_test_file`, which looks for
    // "Test1", without a diagnostic.
    match compiler.add_rules_str_with_namespace("yara-scan", Vec::new()) {
        Ok(_) => {}
        Err(_) => assert!(false),
    };

    let rules = compiler.compile_rules(ERROR_SUCCESS, 0x2000).expect("Should have compiled rules");

    // On the five bytes of the file the rule matches at the start.
    let mut scan = rules.scan_file(Ok(FILE_1_CONTENT.len() as u64), 0).unwrap();
    let shown = text_rule("matches_the_test_file", vec![native_match(0, 0, 5)]);
    assert_eq!(scan.on_message(CALLBACK_MSG_RULE_MATCHING, Some(&shown)), CallbackResult::Continue);
    assert_eq!(scan.on_message(MSG_SCAN_FINISHED, None), CallbackResult::Continue);
    let scan_results = scan.finish(ERROR_SUCCESS);

    println!("{:#?}", scan_results);

    assert!(scan_results.is_ok());
    let scan_results = scan_results.unwrap();
    assert_eq!(scan_results.len(), 1);
    let matching_rule = &scan_results[0];
    assert_eq!(matching_rule.identifier, "matches_the_test_file");
    assert_eq!(matching_rule.strings.len(), 1);
    assert_eq!(matching_rule.strings[0].identifier, "$text");
    assert_eq!(matching_rule.strings[0].matches, vec![Match { offset: 0, length: 5 }]);
    for string in &matching_rule.strings {
        for location in &string.matches {
            assert!(location.offset + location.length <= FILE_1_CONTENT.len() as u64);
        }
    }
}

#[test]
fn locate_accepts_a_record_inside_the_content() {
    assert_eq!(native_match(0, 3, 2).locate(5), Some(Match { offset: 3, length: 2 }));
    assert_eq!(native_match(4, 3, 2).locate(9), Some(Match { offset: 7, length: 2 }));
    assert_eq!(native_match(0, 5, 0).locate(5), Some(Match { offset: 5, length: 0 }));
    assert_eq!(native_match(-2, 3, 4).locate(5), Some(Match { offset: 1, length: 4 }));
}

#[test]
fn locate_refuses_a_record_outside_the_content() {
    assert_eq!(native_match(0, 3, 3).locate(5), None);
    assert_eq!(native_match(0, -1, 1).locate(5), None);
    assert_eq!(native_match(-4, 3, 1).locate(5), None);
    assert_eq!(native_match(0, 0, -1).locate(5), None);
    assert_eq!(native_match(0, 6, 0).locate(5), None);
}

#[test]
fn locate_does_not_wrap_around() {
    assert_eq!(native_match(i64::MAX, i64::MAX, 1).locate(u64::MAX), Some(Match {
        offset: 2 * (i64::MAX as u64),
        length: 1,
    }));
    assert_eq!(native_match(i64::MAX, i64::MAX, 2).locate(u64::MAX), None);
    assert_eq!(native_match(i64::MAX, i64::MAX, i32::MAX).locate(u64::MAX), None);
    assert_eq!(native_match(i64::MAX, 1, i32::MAX).locate(u64::MAX), Some(Match {
        offset: 1 << 63,
        length: i32::MAX as u64,
    }));
    assert_eq!(native_match(i64::MIN, i64::MIN, 0).locate(u64::MAX), None);
    assert_eq!(native_match(i64::MIN, i64::MAX, 1).locate(0), None);
}

#[test]
fn locate_all_keeps_the_order() {
    let raw = vec![native_match(0, 4, 1), native_match(0, 0, 2), native_match(1, 1, 1)];
    assert_eq!(
        yara::matches::locate_all(&raw, 5),
        Some(vec![
            Match { offset: 4, length: 1 },
            Match { offset: 0, length: 2 },
            Match { offset: 2, length: 1 },
        ])
    );
    assert_eq!(yara::matches::locate_all(&Vec::new(), 0), Some(Vec::new()));
}

#[test]
fn locate_all_refuses_the_list_for_one_bad_record() {
    let raw = vec![native_match(0, 4, 1), native_match(0, 4, 2), native_match(0, 0, 1)];
    assert_eq!(yara::matches::locate_all(&raw, 5), None);
}

#[test]
fn string_copy_out_copies_name_and_locations() {
    let shown = NativeString { identifier: "$a", matches: vec![native_match(0, 1, 2), native_match(0, 3, 2)] };
    assert_eq!(
        shown.copy_out(5),
        Some(YrString {
            identifier: String::from("$a"),
            matches: vec![Match { offset: 1, length: 2 }, Match { offset: 3, length: 2 }],
        })
    );
    assert_eq!(shown.copy_out(4), None);
}

#[test]
fn rule_copy_out_leaves_out_strings_that_were_not_found() {
    let shown = NativeRule {
        identifier: "r",
        strings: vec![
            NativeString { identifier: "$a", matches: Vec::new() },
            NativeString { identifier: "$b", matches: vec![native_match(0, 2, 1)] },
            NativeString { identifier: "$c", matches: Vec::new() },
            NativeString { identifier: "$d", matches: vec![native_match(0, 0, 1), native_match(0, 9, 1)] },
        ],
    };
    assert_eq!(
        shown.copy_out(10),
        Some(Rule {
            identifier: String::from("r"),
            strings: vec![
                YrString { identifier: String::from("$b"), matches: vec![Match { offset: 2, length: 1 }] },
                YrString {
                    identifier: String::from("$d"),
                    matches: vec![Match { offset: 0, length: 1 }, Match { offset: 9, length: 1 }],
                },
            ],
        })
    );
    assert_eq!(shown.copy_out(9), None);
}

#[test]
fn rule_without_strings_is_copied_with_none() {
    let shown = NativeRule { identifier: "always", strings: Vec::new() };
    assert_eq!(shown.copy_out(0), Some(Rule { identifier: String::from("always"), strings: Vec::new() }));
}

#[test]
fn scan_mem_plans_a_scan_of_the_buffer() {
    with_rules(|rules| {
        let scan = rules.scan_mem(FILE_1_CONTENT, 7);
        assert_eq!(scan.rules(), 0x5000);
        assert_eq!(scan.rules(), rules.handle());
        assert_eq!(scan.timeout(), 7);
        assert_eq!(scan.limit(), 5);
        assert_eq!(scan.finish(ERROR_SUCCESS), Ok(Vec::new()));
    });
}

#[test]
fn scan_file_plans_a_scan_of_the_file() {
    with_rules(|rules| {
        let scan = rules.scan_file(Ok(1 << 40), u16::MAX).unwrap();
        assert_eq!(scan.rules(), 0x5000);
        assert_eq!(scan.timeout(), 65535);
        assert_eq!(scan.limit(), 1 << 40);
    });
}

#[test]
fn scan_file_reports_a_file_that_cannot_be_opened() {
    with_rules(|rules| {
        assert_eq!(rules.scan_file(Err(Some(2)), 0).err(), Some(ScanError::Io { os_error: Some(2) }));
        assert_eq!(rules.scan_file(Err(None), 0).err(), Some(ScanError::Io { os_error: None }));
    });
}

#[test]
fn scan_collects_rules_in_the_order_of_their_messages() {
    with_rules(|rules| {
        let mut scan = rules.scan_mem(b"abcabc", 0);
        let second = text_rule("second", vec![native_match(0, 1, 1)]);
        let first = text_rule("first", vec![native_match(0, 0, 3), native_match(0, 3, 3)]);
        assert_eq!(scan.on_message(MSG_IMPORT_MODULE, None), CallbackResult::Continue);
        assert_eq!(scan.on_message(CALLBACK_MSG_RULE_MATCHING, Some(&second)), CallbackResult::Continue);
        assert_eq!(scan.on_message(MSG_RULE_NOT_MATCHING, Some(&first)), CallbackResult::Continue);
        assert_eq!(scan.on_message(CALLBACK_MSG_RULE_MATCHING, Some(&first)), CallbackResult::Continue);
        assert_eq!(scan.on_message(MSG_SCAN_FINISHED, None), CallbackResult::Continue);
        let outcome = scan.finish(ERROR_SUCCESS).unwrap();
        assert_eq!(outcome.len(), 2);
        assert_eq!(outcome[0].identifier, "second");
        assert_eq!(outcome[1].identifier, "first");
        assert_eq!(outcome[1].strings[0].matches, vec![Match { offset: 0, length: 3 }, Match {
            offset: 3,
            length: 3,
        }]);
    });
}

#[test]
fn scan_outcome_owns_its_data() {
    with_rules(|rules| {
        let mut scan = rules.scan_mem(FILE_1_CONTENT, 0);
        {
            let name = String::from("short_lived");
            let shown = text_rule(&name, vec![native_match(0, 0, 5)]);
            assert_eq!(scan.on_message(CALLBACK_MSG_RULE_MATCHING, Some(&shown)), CallbackResult::Continue);
        }
        let outcome = scan.finish(ERROR_SUCCESS).unwrap();
        assert_eq!(outcome[0].identifier, "short_lived");
    });
}

#[test]
fn scan_fails_on_a_record_outside_the_content() {
    with_rules(|rules| {
        let mut scan = rules.scan_mem(FILE_1_CONTENT, 0);
        let good = text_rule("good", vec![native_match(0, 0, 5)]);
        let bad = text_rule("bad", vec![native_match(0, 1, 5)]);
        assert_eq!(scan.on_message(CALLBACK_MSG_RULE_MATCHING, Some(&good)), CallbackResult::Continue);
        assert_eq!(scan.on_message(CALLBACK_MSG_RULE_MATCHING, Some(&bad)), CallbackResult::Error);
        assert_eq!(scan.on_message(CALLBACK_MSG_RULE_MATCHING, Some(&good)), CallbackResult::Error);
        assert_eq!(scan.on_message(MSG_SCAN_FINISHED, None), CallbackResult::Error);
        assert_eq!(scan.finish(ERROR_SUCCESS), Err(ScanError::Engine { cause: ERROR_CALLBACK_ERROR }));
    });
}

#[test]
fn scan_fails_on_a_matching_rule_that_is_not_shown() {
    with_rules(|rules| {
        let mut scan = rules.scan_mem(FILE_1_CONTENT, 0);
        assert_eq!(scan.on_message(CALLBACK_MSG_RULE_MATCHING, None), CallbackResult::Error);
        assert_eq!(scan.finish(ERROR_CALLBACK_ERROR), Err(ScanError::Engine { cause: 28 }));
    });
}

#[test]
fn scan_that_timed_out_gives_no_partial_outcome() {
    with_rules(|rules| {
        let mut scan = rules.scan_mem(FILE_1_CONTENT, 0);
        let shown = text_rule("found_before_the_timeout", vec![native_match(0, 0, 5)]);
        assert_eq!(scan.on_message(CALLBACK_MSG_RULE_MATCHING, Some(&shown)), CallbackResult::Continue);
        assert_eq!(scan.finish(ERROR_SCAN_TIMEOUT), Err(ScanError::Timeout));
    });
}

#[test]
fn scan_that_the_engine_stopped_gives_the_cause() {
    with_rules(|rules| {
        let mut scan = rules.scan_mem(FILE_1_CONTENT, 0);
        let shown = text_rule("found_before_the_error", vec![native_match(0, 0, 5)]);
        assert_eq!(scan.on_message(CALLBACK_MSG_RULE_MATCHING, Some(&shown)), CallbackResult::Continue);
        assert_eq!(scan.finish(4), Err(ScanError::Engine { cause: 4 }));
        assert_eq!(rules.scan_mem(FILE_1_CONTENT, 0).finish(-1), Err(ScanError::Engine { cause: -1 }));
    });
}

#[test]
fn scanning_twice_gives_equal_outcomes() {
    with_rules(|rules| {
        let shown = NativeRule {
            identifier: "twice",
            strings: vec![
                NativeString { identifier: "$a", matches: vec![native_match(0, 0, 1), native_match(0, 4, 1)] },
                NativeString { identifier: "$b", matches: Vec::new() },
            ],
        };
        let mut first = rules.scan_mem(FILE_1_CONTENT, 1);
        let mut second = rules.scan_mem(FILE_1_CONTENT, 30);
        for scan in [&mut first, &mut second] {
            assert_eq!(scan.on_message(MSG_RULE_NOT_MATCHING, None), CallbackResult::Continue);
            assert_eq!(scan.on_message(CALLBACK_MSG_RULE_MATCHING, Some(&shown)), CallbackResult::Continue);
        }
        let first = first.finish(ERROR_SUCCESS);
        let second = second.finish(ERROR_SUCCESS);
        assert!(first.is_ok());
        assert_eq!(first, second);
    });
}

#[test]
fn callback_results_have_the_codes_of_the_engine() {
    assert_eq!(CallbackResult::Continue.code(), 0);
    assert_eq!(CallbackResult::Abort.code(), 1);
    assert_eq!(CallbackResult::Error.code(), 2);
}

#[test]
fn scan_errors_come_from_the_status() {
    assert_eq!(ScanError::from_status(0), None);
    assert_eq!(ScanError::from_status(26), Some(ScanError::Timeout));
    assert_eq!(ScanError::from_status(28), Some(ScanError::Engine { cause: 28 }));
    assert_eq!(ScanError::from_status(1), Some(ScanError::Engine { cause: 1 }));
    assert_eq!(ScanError::from_status(i32::MIN), Some(ScanError::Engine { cause: i32::MIN }));
}

#[test]
fn rule_clone_is_equal() {
    let rule = Rule {
        identifier: String::from("r"),
        strings: vec![
            YrString { identifier: String::from("$a"), matches: vec![Match { offset: 2, length: 1 }] },
            YrString {
                identifier: String::from("$b"),
                matches: vec![Match { offset: 0, length: 1 }, Match { offset: 9, length: 1 }],
            },
        ],
    };
    let copy = rule.clone();
    assert_eq!(copy, rule);
    assert_eq!(copy.strings[1].clone(), rule.strings[1]);
    let bare = Rule { identifier: String::new(), strings: Vec::new() };
    assert_eq!(bare.clone(), bare);
}
