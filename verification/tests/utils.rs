use sol_contract_template::{
    calculate_data_stats, check_clock_reading, check_pda, find_data_account_pda,
    get_current_timestamp,
    safe_truncate, validate_data_length, validate_pda, validate_timestamp, ErrorCode, Pubkey,
    DATA_SEED, MAX_DATA_LENGTH,
};

fn key(fill: u8) -> Pubkey {
    Pubkey::new_from_array([fill; 32])
}

#[test]
fn test_validate_data_length() {
    assert!(validate_data_length("valid data").is_ok());

    assert!(validate_data_length("").is_err());

    let long_data = "x".repeat(MAX_DATA_LENGTH + 1);
    assert!(validate_data_length(&long_data).is_err());
}

#[test]
fn test_safe_truncate() {
    assert_eq!(safe_truncate("hello", 10), "hello");
    assert_eq!(safe_truncate("hello world", 5), "he...");
}

#[test]
fn validate_data_length_names_the_error() {
    assert_eq!(validate_data_length(""), Err(ErrorCode::DataEmpty));
    assert_eq!(validate_data_length(&"x".repeat(1001)), Err(ErrorCode::DataTooLong));
    assert_eq!(validate_data_length(&"x".repeat(1000)), Ok(()));
    assert_eq!(validate_data_length("x"), Ok(()));
}

#[test]
fn validate_data_length_counts_bytes_not_characters() {
    // 334 characters of three bytes each: 1002 bytes.
    let wide = "数".repeat(334);
    assert_eq!(wide.chars().count(), 334);
    assert_eq!(validate_data_length(&wide), Err(ErrorCode::DataTooLong));
    // 333 of them: 999 bytes.
    assert_eq!(validate_data_length(&"数".repeat(333)), Ok(()));
}

#[test]
fn validate_timestamp_wants_a_positive_time() {
    assert_eq!(validate_timestamp(1), Ok(1));
    assert_eq!(validate_timestamp(1_700_000_000), Ok(1_700_000_000));
    assert_eq!(validate_timestamp(i64::MAX), Ok(i64::MAX));
    assert_eq!(validate_timestamp(0), Err(ErrorCode::InvalidTimestamp));
    assert_eq!(validate_timestamp(-1), Err(ErrorCode::InvalidTimestamp));
    assert_eq!(validate_timestamp(i64::MIN), Err(ErrorCode::InvalidTimestamp));
}

#[test]
fn get_current_timestamp_without_a_ledger_clock() {
    // Outside the ledger there is no clock to read.
    match get_current_timestamp() {
        Ok(now) => assert!(now > 0),
        Err(kind) => assert_eq!(kind, ErrorCode::InvalidTimestamp),
    }
}

#[test]
fn check_clock_reading_for_each_reading() {
    assert_eq!(check_clock_reading(Some(1)), Ok(1));
    assert_eq!(check_clock_reading(Some(1_700_000_000)), Ok(1_700_000_000));
    assert_eq!(check_clock_reading(Some(i64::MAX)), Ok(i64::MAX));
    assert_eq!(check_clock_reading(Some(0)), Err(ErrorCode::InvalidTimestamp));
    assert_eq!(check_clock_reading(Some(-7)), Err(ErrorCode::InvalidTimestamp));
    assert_eq!(check_clock_reading(None), Err(ErrorCode::InvalidTimestamp));
}

#[test]
fn data_seed_spells_data() {
    assert_eq!(&DATA_SEED, b"data");
}

#[test]
fn find_data_account_pda_matches_the_host_derivation() {
    let program = key(7);
    for fill in [0u8, 1, 2, 42, 255] {
        let user = key(fill);
        let (address, bump) = find_data_account_pda(&user, &program).expect("an address");
        let host_program = anchor_lang::prelude::Pubkey::new_from_array(program.to_bytes());
        let (host_address, host_bump) = anchor_lang::prelude::Pubkey::find_program_address(
            &[b"data", &user.to_bytes()],
            &host_program,
        );
        assert_eq!(address.to_bytes(), host_address.to_bytes());
        assert_eq!(bump, host_bump);
        // The address is not the key it was derived from.
        assert_ne!(address, user);
    }
}

#[test]
fn find_data_account_pda_is_deterministic() {
    let program = key(9);
    let user = key(3);
    let first = find_data_account_pda(&user, &program);
    let second = find_data_account_pda(&user, &program);
    assert!(first.is_some());
    assert_eq!(first, second);
}

#[test]
fn find_data_account_pda_tells_owners_apart() {
    let program = key(9);
    let mut seen: Vec<Pubkey> = Vec::new();
    for fill in 0u8..32 {
        let (address, _) = find_data_account_pda(&key(fill), &program).expect("an address");
        assert!(!seen.contains(&address));
        seen.push(address);
    }
}

#[test]
fn find_data_account_pda_depends_on_the_program() {
    let user = key(3);
    let under_one = find_data_account_pda(&user, &key(1)).expect("an address");
    let under_two = find_data_account_pda(&user, &key(2)).expect("an address");
    assert_ne!(under_one.0, under_two.0);
}

#[test]
fn validate_pda_accepts_only_the_derived_address() {
    let program = key(7);
    let user = key(1);
    let other = key(2);
    let (address, _) = find_data_account_pda(&user, &program).expect("an address");
    let (other_address, _) = find_data_account_pda(&other, &program).expect("an address");
    assert_eq!(validate_pda(&address, &user, &program), Ok(()));
    assert_eq!(validate_pda(&other_address, &user, &program), Err(ErrorCode::Unauthorized));
    assert_eq!(validate_pda(&user, &user, &program), Err(ErrorCode::Unauthorized));
    assert_eq!(validate_pda(&address, &other, &program), Err(ErrorCode::Unauthorized));
    assert_eq!(validate_pda(&address, &user, &key(8)), Err(ErrorCode::Unauthorized));
}

#[test]
fn check_pda_compares_with_a_given_derivation() {
    let address = key(5);
    assert_eq!(check_pda(&address, Some((key(5), 254))), Ok(()));
    assert_eq!(check_pda(&address, Some((key(5), 0))), Ok(()));
    assert_eq!(check_pda(&address, Some((key(6), 254))), Err(ErrorCode::Unauthorized));
    assert_eq!(check_pda(&address, None), Err(ErrorCode::Unauthorized));
}

#[test]
fn safe_truncate_at_the_limit() {
    assert_eq!(safe_truncate("hello", 5), "hello");
    assert_eq!(safe_truncate("hello", 4), "h...");
    assert_eq!(safe_truncate("hello", 3), "...");
    assert_eq!(safe_truncate("hello", 2), "...");
    assert_eq!(safe_truncate("hello", 0), "...");
    assert_eq!(safe_truncate("", 0), "");
    assert_eq!(safe_truncate("", 10), "");
    assert_eq!(safe_truncate("hello world", 10), "hello w...");
    assert_eq!(safe_truncate("hello world", 11), "hello world");
}

#[test]
fn safe_truncate_never_splits_a_character() {
    // Each character takes three bytes: 12 bytes in all.
    let text = "数据账户";
    assert_eq!(text.len(), 12);
    assert_eq!(safe_truncate(text, 12), "数据账户");
    // 11 - 3 = 8 bytes may stay: two characters and two bytes of a third.
    assert_eq!(safe_truncate(text, 11), "数据...");
    // 9 - 3 = 6 bytes: exactly two characters.
    assert_eq!(safe_truncate(text, 9), "数据...");
    // 5 - 3 = 2 bytes: not even one character.
    assert_eq!(safe_truncate(text, 5), "...");
    assert_eq!(safe_truncate("aé", 2), "...");
    assert_eq!(safe_truncate("aéz", 3), "...");
    assert_eq!(safe_truncate("aéz!", 5), "aéz!");
    assert_eq!(safe_truncate("aéz!?", 5), "a...");
}

#[test]
fn calculate_data_stats_counts_bytes_words_and_lines() {
    let stats = calculate_data_stats("hello world\nthis is test");
    assert_eq!(stats.length, 24);
    assert_eq!(stats.word_count, 5);
    assert_eq!(stats.line_count, 2);
}

#[test]
fn calculate_data_stats_agrees_with_the_standard_library() {
    let texts = [
        "",
        " ",
        "\n",
        "a",
        "a\n",
        "a\nb",
        "a\n\n",
        "\n\na",
        "a\r\nb\r\n",
        "a\r",
        "  leading and trailing  ",
        "tabs\tand\u{a0}no-break\u{3000}wide space",
        "one\ntwo\nthree\n",
        "数据 账户\n不存在",
        "x\u{2028}y",
    ];
    for text in texts {
        let stats = calculate_data_stats(text);
        assert_eq!(stats.length, text.len(), "length of {:?}", text);
        assert_eq!(stats.word_count, text.split_whitespace().count(), "words of {:?}", text);
        assert_eq!(stats.line_count, text.lines().count(), "lines of {:?}", text);
    }
}

#[test]
fn calculate_data_stats_of_nothing() {
    let stats = calculate_data_stats("");
    assert_eq!(stats.length, 0);
    assert_eq!(stats.word_count, 0);
    assert_eq!(stats.line_count, 0);
}
