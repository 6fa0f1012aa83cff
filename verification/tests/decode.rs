use std::string::ToString;
use transaction_pool::block::{create_block, decode_transactions, get_transactions};
use transaction_pool::field::{list_field, narrow, object_field, text_field, u8_field};
use transaction_pool::instruction::{
    compiled_instruction_of, decode_instructions, get_account_indices, get_compiled_instruction,
    get_compiled_instructions, narrow_each,
};
use transaction_pool::message::{
    decode_account_keys, get_account_key, get_account_keys, get_message, get_message_header,
    message_of,
};
use transaction_pool::transaction::{
    decode_signatures, get_signature, get_signatures, get_transaction, transaction_of,
};
use transaction_pool::error::LoadError;
use transaction_pool::identifier::{Pubkey, Signature};
use transaction_pool::ledger::{CompiledInstruction, Message, MessageHeader, Transaction};
use transaction_pool::record::Record;

fn object(entries: Vec<(&str, Record)>) -> Record {
    Record::Object(entries.into_iter().map(|(key, value)| (key.to_string(), value)).collect())
}

fn text(s: &str) -> Record {
    Record::Text(s.to_string())
}

fn integers(values: &[u64]) -> Record {
    Record::List(values.iter().map(|n| Record::Integer(*n)).collect())
}

fn without(record: &Record, name: &str) -> Record {
    match record {
        Record::Object(entries) => {
            Record::Object(entries.iter().filter(|(key, _)| key != name).cloned().collect())
        }
        _ => panic!("no object"),
    }
}

fn with(record: &Record, name: &str, replacement: Record) -> Record {
    match record {
        Record::Object(entries) => Record::Object(
            entries
                .iter()
                .map(|(key, value)| {
                    (key.clone(), if key == name { replacement.clone() } else { value.clone() })
                })
                .collect(),
        ),
        _ => panic!("no object"),
    }
}

fn key_text(seed: u8) -> String {
    solana_sdk::pubkey::Pubkey::new_from_array([seed; 32]).to_string()
}

fn hash_text(seed: u8) -> String {
    solana_sdk::hash::Hash::new_from_array([seed; 32]).to_string()
}

fn signature_text(seed: u8) -> String {
    solana_sdk::signature::Signature::from([seed; 64]).to_string()
}

fn header_record(a: u64, b: u64, c: u64) -> Record {
    object(vec![
        ("numRequiredSignatures", Record::Integer(a)),
        ("numReadonlySignedAccounts", Record::Integer(b)),
        ("numReadonlyUnsignedAccounts", Record::Integer(c)),
    ])
}

fn instruction_record(program: u64, accounts: &[u64], data: &str) -> Record {
    object(vec![
        ("programIdIndex", Record::Integer(program)),
        ("accounts", integers(accounts)),
        ("data", text(data)),
    ])
}

fn message_record(seed: u8) -> Record {
    object(vec![
        ("header", header_record(1, 0, 1)),
        (
            "accountKeys",
            Record::List(vec![text(&key_text(seed)), text(&key_text(seed.wrapping_add(1)))]),
        ),
        ("recentBlockhashes", text(&hash_text(seed))),
        ("instructions", Record::List(vec![instruction_record(1, &[0, 1], "AQID")])),
    ])
}

fn message_value(seed: u8) -> Message {
    Message {
        header: MessageHeader {
            num_required_signatures: 1,
            num_readonly_signed_accounts: 0,
            num_readonly_unsigned_accounts: 1,
        },
        account_keys: vec![Pubkey([seed; 32]), Pubkey([seed.wrapping_add(1); 32])],
        recent_blockhash: transaction_pool::identifier::Hash([seed; 32]),
        instructions: vec![CompiledInstruction {
            program_id_index: 1,
            accounts: vec![0, 1],
            data: vec![1, 2, 3],
        }],
    }
}

fn transaction_record(seed: u8) -> Record {
    object(vec![
        ("meta", Record::Null),
        (
            "transaction",
            object(vec![
                ("signatures", Record::List(vec![text(&signature_text(seed))])),
                ("message", message_record(seed)),
            ]),
        ),
    ])
}

fn transaction_value(seed: u8) -> Transaction {
    Transaction { signatures: vec![Signature([seed; 64])], message: message_value(seed) }
}

fn block_record(entries: Vec<Record>) -> Record {
    object(vec![
        ("id", Record::Integer(1)),
        (
            "result",
            object(vec![
                ("blockHeight", Record::Integer(7)),
                ("transactions", Record::List(entries)),
            ]),
        ),
    ])
}

#[test]
fn narrow_takes_integers_up_to_255() {
    assert_eq!(narrow(&Record::Integer(0)), Ok(0));
    assert_eq!(narrow(&Record::Integer(7)), Ok(7));
    assert_eq!(narrow(&Record::Integer(255)), Ok(255));
    assert_eq!(narrow(&Record::Integer(256)), Err(LoadError::Encoding));
    assert_eq!(narrow(&Record::Integer(u64::MAX)), Err(LoadError::Encoding));
    assert_eq!(narrow(&Record::OtherNumber), Err(LoadError::Encoding));
    assert_eq!(narrow(&text("7")), Err(LoadError::Encoding));
    assert_eq!(narrow(&Record::Null), Err(LoadError::Encoding));
    assert_eq!(narrow(&Record::Bool(true)), Err(LoadError::Encoding));
    assert_eq!(narrow(&integers(&[7])), Err(LoadError::Encoding));
}

#[test]
fn field_readers_tell_absent_from_wrong_kind_from_found() {
    let record = object(vec![
        ("n", Record::Integer(300)),
        ("s", text("x")),
        ("l", integers(&[1])),
        ("o", object(vec![])),
    ]);
    assert_eq!(u8_field(&record, "n"), Err(LoadError::Encoding));
    assert_eq!(u8_field(&record, "s"), Err(LoadError::Encoding));
    assert_eq!(u8_field(&record, "missing"), Err(LoadError::Schema));
    assert_eq!(text_field(&record, "s"), Ok("x"));
    assert_eq!(text_field(&record, "n"), Err(LoadError::Encoding));
    assert_eq!(text_field(&record, "l"), Err(LoadError::Encoding));
    assert_eq!(text_field(&record, "missing"), Err(LoadError::Schema));
    assert_eq!(list_field(&record, "l"), Ok(&vec![Record::Integer(1)]));
    assert_eq!(list_field(&record, "o"), Err(LoadError::Schema));
    assert_eq!(list_field(&record, "missing"), Err(LoadError::Schema));
    assert_eq!(object_field(&record, "o"), Ok(&object(vec![])));
    assert_eq!(object_field(&record, "l"), Err(LoadError::Schema));
    assert_eq!(object_field(&record, "missing"), Err(LoadError::Schema));
    assert_eq!(object_field(&Record::Null, "o"), Err(LoadError::Schema));
}

#[test]
fn header_reads_its_three_counts() {
    assert_eq!(
        get_message_header(&header_record(2, 0, 255)),
        Ok(MessageHeader {
            num_required_signatures: 2,
            num_readonly_signed_accounts: 0,
            num_readonly_unsigned_accounts: 255,
        })
    );
    let shuffled = object(vec![
        ("numReadonlyUnsignedAccounts", Record::Integer(3)),
        ("other", text("x")),
        ("numRequiredSignatures", Record::Integer(1)),
        ("numReadonlySignedAccounts", Record::Integer(2)),
    ]);
    assert_eq!(
        get_message_header(&shuffled),
        Ok(MessageHeader {
            num_required_signatures: 1,
            num_readonly_signed_accounts: 2,
            num_readonly_unsigned_accounts: 3,
        })
    );
}

#[test]
fn header_without_a_count_is_a_schema_error() {
    let header = header_record(1, 2, 3);
    for name in
        ["numRequiredSignatures", "numReadonlySignedAccounts", "numReadonlyUnsignedAccounts"]
    {
        assert_eq!(get_message_header(&without(&header, name)), Err(LoadError::Schema));
    }
    assert_eq!(get_message_header(&object(vec![])), Err(LoadError::Schema));
    assert_eq!(get_message_header(&Record::Null), Err(LoadError::Schema));
    assert_eq!(get_message_header(&integers(&[1, 2, 3])), Err(LoadError::Schema));
}

#[test]
fn header_count_out_of_range_is_an_encoding_error() {
    let header = header_record(1, 2, 3);
    for name in
        ["numRequiredSignatures", "numReadonlySignedAccounts", "numReadonlyUnsignedAccounts"]
    {
        for bad in [Record::Integer(256), Record::Integer(u64::MAX), Record::OtherNumber] {
            assert_eq!(get_message_header(&with(&header, name, bad)), Err(LoadError::Encoding));
        }
    }
}

#[test]
fn header_count_that_is_no_number_is_an_encoding_error() {
    let header = header_record(1, 2, 3);
    for name in
        ["numRequiredSignatures", "numReadonlySignedAccounts", "numReadonlyUnsignedAccounts"]
    {
        for bad in [text("1"), Record::Null, Record::Bool(false), integers(&[1])] {
            assert_eq!(get_message_header(&with(&header, name, bad)), Err(LoadError::Encoding));
        }
    }
}

#[test]
fn header_fails_with_its_first_failure() {
    let first_out_of_range = object(vec![
        ("numRequiredSignatures", Record::Integer(256)),
        ("numReadonlyUnsignedAccounts", Record::Integer(1)),
    ]);
    assert_eq!(get_message_header(&first_out_of_range), Err(LoadError::Encoding));
    let first_absent = object(vec![
        ("numReadonlySignedAccounts", Record::Integer(256)),
        ("numReadonlyUnsignedAccounts", Record::Integer(256)),
    ]);
    assert_eq!(get_message_header(&first_absent), Err(LoadError::Schema));
    let second_out_of_range = object(vec![
        ("numRequiredSignatures", Record::Integer(1)),
        ("numReadonlySignedAccounts", Record::OtherNumber),
    ]);
    assert_eq!(get_message_header(&second_out_of_range), Err(LoadError::Encoding));
}

#[test]
fn account_indices_leave_out_what_does_not_narrow() {
    let entries = vec![
        Record::Integer(1),
        Record::Integer(300),
        text("2"),
        Record::Integer(0),
        Record::OtherNumber,
        Record::Null,
        Record::Integer(255),
        Record::Integer(256),
        Record::Integer(1),
    ];
    assert_eq!(get_account_indices(&entries), vec![1, 0, 255, 1]);
    assert_eq!(get_account_indices(&vec![]), Vec::<u8>::new());
    assert_eq!(get_account_indices(&vec![text("a"), Record::Integer(999)]), Vec::<u8>::new());
}

#[test]
fn instruction_reads_index_accounts_and_payload() {
    assert_eq!(
        get_compiled_instruction(&instruction_record(3, &[0, 2, 1], "aGVsbG8=")),
        Ok(CompiledInstruction {
            program_id_index: 3,
            accounts: vec![0, 2, 1],
            data: b"hello".to_vec(),
        })
    );
    assert_eq!(
        get_compiled_instruction(&instruction_record(0, &[], "")),
        Ok(CompiledInstruction { program_id_index: 0, accounts: vec![], data: vec![] })
    );
}

#[test]
fn instruction_leaves_out_account_entries_that_do_not_narrow() {
    let record = object(vec![
        ("programIdIndex", Record::Integer(2)),
        (
            "accounts",
            Record::List(vec![
                Record::Integer(5),
                Record::Integer(256),
                text("x"),
                Record::Integer(6),
            ]),
        ),
        ("data", text("AQ==")),
    ]);
    assert_eq!(
        get_compiled_instruction(&record),
        Ok(CompiledInstruction { program_id_index: 2, accounts: vec![5, 6], data: vec![1] })
    );
}

#[test]
fn instruction_without_a_field_is_a_schema_error() {
    let record = instruction_record(1, &[0], "AQID");
    for name in ["programIdIndex", "accounts", "data"] {
        assert_eq!(get_compiled_instruction(&without(&record, name)), Err(LoadError::Schema));
    }
    assert_eq!(get_compiled_instruction(&Record::Null), Err(LoadError::Schema));
    assert_eq!(get_compiled_instruction(&integers(&[1])), Err(LoadError::Schema));
}

#[test]
fn instruction_accounts_that_are_no_list_are_a_schema_error() {
    let record = instruction_record(1, &[0], "AQID");
    for bad in [Record::Integer(0), Record::Null, text("[0]"), object(vec![])] {
        assert_eq!(
            get_compiled_instruction(&with(&record, "accounts", bad)),
            Err(LoadError::Schema)
        );
    }
}

#[test]
fn instruction_value_that_does_not_decode_is_an_encoding_error() {
    let record = instruction_record(1, &[0], "AQID");
    assert_eq!(
        get_compiled_instruction(&with(&record, "programIdIndex", Record::Integer(256))),
        Err(LoadError::Encoding)
    );
    assert_eq!(
        get_compiled_instruction(&with(&record, "programIdIndex", Record::OtherNumber)),
        Err(LoadError::Encoding)
    );
    assert_eq!(
        get_compiled_instruction(&with(&record, "programIdIndex", text("1"))),
        Err(LoadError::Encoding)
    );
    assert_eq!(
        get_compiled_instruction(&with(&record, "data", Record::Integer(0))),
        Err(LoadError::Encoding)
    );
    assert_eq!(
        get_compiled_instruction(&with(&record, "data", integers(&[1, 2, 3]))),
        Err(LoadError::Encoding)
    );
    assert_eq!(
        get_compiled_instruction(&with(&record, "data", text("AQI"))),
        Err(LoadError::Encoding)
    );
    assert_eq!(
        get_compiled_instruction(&with(&record, "data", text("A?ID"))),
        Err(LoadError::Encoding)
    );
}

#[test]
fn instruction_fails_with_its_first_failure() {
    let record = object(vec![
        ("programIdIndex", Record::Integer(256)),
        ("data", text("AQI")),
    ]);
    assert_eq!(get_compiled_instruction(&record), Err(LoadError::Encoding));
    let record = object(vec![
        ("programIdIndex", Record::Integer(1)),
        ("data", text("AQI")),
    ]);
    assert_eq!(get_compiled_instruction(&record), Err(LoadError::Schema));
    let record = object(vec![
        ("programIdIndex", Record::Integer(1)),
        ("accounts", integers(&[])),
        ("data", text("AQI")),
    ]);
    assert_eq!(get_compiled_instruction(&record), Err(LoadError::Encoding));
}

#[test]
fn instructions_leave_out_entries_that_do_not_decode() {
    let entries = vec![
        instruction_record(1, &[0], "AQ=="),
        instruction_record(300, &[0], "AQ=="),
        Record::Null,
        instruction_record(2, &[1], "Ag=="),
        instruction_record(3, &[1], "Ag="),
        instruction_record(4, &[], ""),
    ];
    assert_eq!(
        get_compiled_instructions(&entries),
        vec![
            CompiledInstruction { program_id_index: 1, accounts: vec![0], data: vec![1] },
            CompiledInstruction { program_id_index: 2, accounts: vec![1], data: vec![2] },
            CompiledInstruction { program_id_index: 4, accounts: vec![], data: vec![] },
        ]
    );
    assert_eq!(get_compiled_instructions(&vec![]), vec![]);
}

#[test]
fn account_key_is_a_string_that_decodes() {
    assert_eq!(get_account_key(&text(&key_text(9))), Ok(Pubkey([9; 32])));
    assert_eq!(get_account_key(&text("not a key")), Err(LoadError::Encoding));
    assert_eq!(get_account_key(&Record::Integer(9)), Err(LoadError::Encoding));
}

#[test]
fn account_keys_leave_out_the_invalid_entry() {
    let entries = vec![
        text(&key_text(1)),
        text(&key_text(2)),
        text("not a key"),
        text(&key_text(3)),
    ];
    assert_eq!(
        get_account_keys(&entries),
        vec![Pubkey([1; 32]), Pubkey([2; 32]), Pubkey([3; 32])]
    );
}

#[test]
fn account_keys_leave_out_every_entry_that_does_not_decode() {
    let entries = vec![
        Record::Integer(5),
        text(&key_text(4)),
        Record::Null,
        text(""),
        text(&signature_text(4)),
        text(&key_text(4)),
        text(&key_text(0)),
    ];
    assert_eq!(
        get_account_keys(&entries),
        vec![Pubkey([4; 32]), Pubkey([4; 32]), Pubkey([0; 32])]
    );
    assert_eq!(get_account_keys(&vec![]), vec![]);
    assert_eq!(get_account_keys(&vec![text("0")]), vec![]);
}

#[test]
fn message_reads_all_its_parts() {
    assert_eq!(get_message(&message_record(5)), Ok(message_value(5)));
}

#[test]
fn message_with_one_invalid_account_key_keeps_the_others_in_order() {
    let keys = Record::List(vec![
        text(&key_text(8)),
        text("O0Il"),
        text(&key_text(6)),
        text(&key_text(7)),
    ]);
    let message = get_message(&with(&message_record(5), "accountKeys", keys)).unwrap();
    assert_eq!(message.account_keys, vec![Pubkey([8; 32]), Pubkey([6; 32]), Pubkey([7; 32])]);
    assert_eq!(message.header, message_value(5).header);
    assert_eq!(message.recent_blockhash, message_value(5).recent_blockhash);
    assert_eq!(message.instructions, message_value(5).instructions);
}

#[test]
fn message_leaves_out_instructions_that_do_not_decode() {
    let instructions = Record::List(vec![
        instruction_record(1, &[0], "AQ=="),
        instruction_record(1, &[0], "AQ"),
        text("x"),
        instruction_record(2, &[0, 700], "Ag=="),
    ]);
    let message = get_message(&with(&message_record(5), "instructions", instructions)).unwrap();
    assert_eq!(
        message.instructions,
        vec![
            CompiledInstruction { program_id_index: 1, accounts: vec![0], data: vec![1] },
            CompiledInstruction { program_id_index: 2, accounts: vec![0], data: vec![2] },
        ]
    );
    assert_eq!(message.account_keys, message_value(5).account_keys);
}

#[test]
fn message_without_a_field_is_a_schema_error() {
    let record = message_record(5);
    for name in ["header", "accountKeys", "recentBlockhashes", "instructions"] {
        assert_eq!(get_message(&without(&record, name)), Err(LoadError::Schema));
    }
    assert_eq!(get_message(&Record::Null), Err(LoadError::Schema));
}

#[test]
fn message_part_of_the_wrong_shape_is_a_schema_error() {
    let record = message_record(5);
    for (name, bad) in [
        ("header", integers(&[1, 0, 1])),
        ("header", Record::Null),
        ("accountKeys", text(&key_text(1))),
        ("accountKeys", object(vec![])),
        ("instructions", object(vec![])),
        ("instructions", Record::Null),
    ] {
        assert_eq!(get_message(&with(&record, name, bad)), Err(LoadError::Schema));
    }
}

#[test]
fn message_with_a_bad_header_or_hash_is_an_encoding_error() {
    let record = message_record(5);
    assert_eq!(
        get_message(&with(&record, "header", header_record(1, 256, 1))),
        Err(LoadError::Encoding)
    );
    assert_eq!(
        get_message(&with(&record, "recentBlockhashes", text("not a hash"))),
        Err(LoadError::Encoding)
    );
    assert_eq!(
        get_message(&with(&record, "recentBlockhashes", text(&signature_text(5)))),
        Err(LoadError::Encoding)
    );
    assert_eq!(
        get_message(&with(&record, "recentBlockhashes", Record::Integer(5))),
        Err(LoadError::Encoding)
    );
    assert_eq!(
        get_message(&with(&record, "recentBlockhashes", Record::List(vec![text(&hash_text(5))]))),
        Err(LoadError::Encoding)
    );
}

#[test]
fn message_fails_with_its_first_failure() {
    let record = with(&message_record(5), "header", header_record(1, 256, 1));
    assert_eq!(get_message(&without(&record, "accountKeys")), Err(LoadError::Encoding));
    let record = with(&message_record(5), "recentBlockhashes", text("not a hash"));
    assert_eq!(get_message(&without(&record, "accountKeys")), Err(LoadError::Schema));
    assert_eq!(get_message(&without(&record, "instructions")), Err(LoadError::Encoding));
}

#[test]
fn signature_is_a_string_that_decodes() {
    assert_eq!(get_signature(&text(&signature_text(9))), Ok(Signature([9; 64])));
    assert_eq!(get_signature(&text(&key_text(9))), Err(LoadError::Encoding));
    assert_eq!(get_signature(&Record::Null), Err(LoadError::Encoding));
}

#[test]
fn signatures_come_all_or_none() {
    let all = vec![text(&signature_text(1)), text(&signature_text(2)), text(&signature_text(3))];
    assert_eq!(
        get_signatures(&all),
        Ok(vec![Signature([1; 64]), Signature([2; 64]), Signature([3; 64])])
    );
    assert_eq!(get_signatures(&vec![]), Ok(vec![]));
    let one_bad = vec![text(&signature_text(1)), text("bad"), text(&signature_text(3))];
    assert_eq!(get_signatures(&one_bad), Err(LoadError::Encoding));
    let last_bad = vec![text(&signature_text(1)), text(&signature_text(2)), text("")];
    assert_eq!(get_signatures(&last_bad), Err(LoadError::Encoding));
}

#[test]
fn signatures_fail_on_an_entry_that_is_no_string() {
    let entries = vec![text(&signature_text(1)), Record::Integer(7), text(&signature_text(2))];
    assert_eq!(get_signatures(&entries), Err(LoadError::Encoding));
    let entries = vec![Record::Null];
    assert_eq!(get_signatures(&entries), Err(LoadError::Encoding));
}

#[test]
fn transaction_reads_signatures_and_message() {
    assert_eq!(get_transaction(&transaction_record(4)), Ok(transaction_value(4)));
}

#[test]
fn transaction_with_one_unparseable_signature_fails() {
    let signatures = Record::List(vec![
        text(&signature_text(4)),
        text("unparseable"),
        text(&signature_text(5)),
    ]);
    let body = object(vec![("signatures", signatures), ("message", message_record(4))]);
    let record = object(vec![("transaction", body)]);
    assert_eq!(get_transaction(&record), Err(LoadError::Encoding));
}

#[test]
fn transaction_without_a_field_is_a_schema_error() {
    let record = transaction_record(4);
    assert_eq!(get_transaction(&without(&record, "transaction")), Err(LoadError::Schema));
    assert_eq!(get_transaction(&with(&record, "transaction", Record::Null)), Err(LoadError::Schema));
    assert_eq!(get_transaction(&Record::Null), Err(LoadError::Schema));
    let body = object(vec![("message", message_record(4))]);
    assert_eq!(get_transaction(&object(vec![("transaction", body)])), Err(LoadError::Schema));
    let body = object(vec![("signatures", Record::List(vec![text(&signature_text(4))]))]);
    assert_eq!(get_transaction(&object(vec![("transaction", body)])), Err(LoadError::Schema));
    let body = object(vec![
        ("signatures", text(&signature_text(4))),
        ("message", message_record(4)),
    ]);
    assert_eq!(get_transaction(&object(vec![("transaction", body)])), Err(LoadError::Schema));
}

#[test]
fn transaction_finds_both_fields_before_it_decodes() {
    let body = object(vec![
        ("signatures", Record::List(vec![text("unparseable")])),
        ("message", Record::List(vec![])),
    ]);
    assert_eq!(get_transaction(&object(vec![("transaction", body)])), Err(LoadError::Schema));
    let body = object(vec![
        ("signatures", Record::List(vec![text("unparseable")])),
        ("message", object(vec![])),
    ]);
    assert_eq!(get_transaction(&object(vec![("transaction", body)])), Err(LoadError::Encoding));
}

#[test]
fn transaction_fails_with_its_message() {
    let body = object(vec![
        ("signatures", Record::List(vec![text(&signature_text(4))])),
        ("message", without(&message_record(4), "header")),
    ]);
    assert_eq!(get_transaction(&object(vec![("transaction", body)])), Err(LoadError::Schema));
    let body = object(vec![
        ("signatures", Record::List(vec![text(&signature_text(4))])),
        ("message", with(&message_record(4), "recentBlockhashes", text("?"))),
    ]);
    assert_eq!(get_transaction(&object(vec![("transaction", body)])), Err(LoadError::Encoding));
}

#[test]
fn transactions_leave_out_entries_that_do_not_decode() {
    let entries = vec![
        Record::Null,
        transaction_record(1),
        without(&transaction_record(2), "transaction"),
        transaction_record(3),
    ];
    assert_eq!(get_transactions(&entries), vec![transaction_value(1), transaction_value(3)]);
}

#[test]
fn block_of_three_with_one_failing_gives_the_other_two_in_order() {
    for failing in 0..3 {
        let mut entries = vec![transaction_record(1), transaction_record(2), transaction_record(3)];
        let body = object(vec![
            ("signatures", Record::List(vec![text("unparseable")])),
            ("message", message_record(9)),
        ]);
        entries[failing] = object(vec![("transaction", body)]);
        let mut expected = vec![transaction_value(1), transaction_value(2), transaction_value(3)];
        expected.remove(failing);
        assert_eq!(create_block(&block_record(entries)), Ok(expected));
    }
}

#[test]
fn block_gives_all_transactions_that_decode() {
    let entries = vec![transaction_record(1), transaction_record(2), transaction_record(3)];
    assert_eq!(
        create_block(&block_record(entries)),
        Ok(vec![transaction_value(1), transaction_value(2), transaction_value(3)])
    );
    assert_eq!(create_block(&block_record(vec![])), Ok(vec![]));
    assert_eq!(create_block(&block_record(vec![Record::Null, text("x")])), Ok(vec![]));
}

#[test]
fn block_without_its_list_is_a_schema_error() {
    let block = block_record(vec![transaction_record(1)]);
    assert_eq!(create_block(&without(&block, "result")), Err(LoadError::Schema));
    assert_eq!(create_block(&with(&block, "result", Record::Null)), Err(LoadError::Schema));
    assert_eq!(create_block(&with(&block, "result", object(vec![]))), Err(LoadError::Schema));
    let no_list = object(vec![("transactions", object(vec![]))]);
    assert_eq!(create_block(&with(&block, "result", no_list)), Err(LoadError::Schema));
    assert_eq!(create_block(&Record::List(vec![])), Err(LoadError::Schema));
}

#[test]
fn narrow_each_gives_one_result_for_each_entry() {
    let entries = vec![Record::Integer(1), Record::Integer(300), text("2"), Record::Integer(255)];
    assert_eq!(
        narrow_each(&entries),
        vec![Ok(1), Err(LoadError::Encoding), Err(LoadError::Encoding), Ok(255)]
    );
    assert_eq!(narrow_each(&vec![]), vec![]);
}

#[test]
fn compiled_instruction_of_takes_the_parts_or_the_first_failure() {
    assert_eq!(
        compiled_instruction_of(Ok(7), Ok(vec![1, 2]), Ok(vec![9])),
        Ok(CompiledInstruction { program_id_index: 7, accounts: vec![1, 2], data: vec![9] })
    );
    assert_eq!(
        compiled_instruction_of(Err(LoadError::Schema), Ok(vec![]), Err(LoadError::Encoding)),
        Err(LoadError::Schema)
    );
    assert_eq!(
        compiled_instruction_of(Err(LoadError::Encoding), Err(LoadError::Schema), Ok(vec![])),
        Err(LoadError::Encoding)
    );
    assert_eq!(
        compiled_instruction_of(Ok(7), Err(LoadError::Schema), Err(LoadError::Encoding)),
        Err(LoadError::Schema)
    );
    assert_eq!(
        compiled_instruction_of(Ok(7), Ok(vec![]), Err(LoadError::Encoding)),
        Err(LoadError::Encoding)
    );
}

#[test]
fn decode_instructions_gives_one_result_for_each_entry() {
    let entries = vec![
        instruction_record(1, &[0], "AQ=="),
        Record::Null,
        instruction_record(300, &[0], "AQ=="),
        instruction_record(2, &[1], "Ag"),
    ];
    assert_eq!(
        decode_instructions(&entries),
        vec![
            Ok(CompiledInstruction { program_id_index: 1, accounts: vec![0], data: vec![1] }),
            Err(LoadError::Schema),
            Err(LoadError::Encoding),
            Err(LoadError::Encoding),
        ]
    );
}

#[test]
fn decode_account_keys_gives_one_result_for_each_entry() {
    let entries = vec![text(&key_text(1)), Record::Integer(5), text("O0Il"), text(&key_text(2))];
    assert_eq!(
        decode_account_keys(&entries),
        vec![
            Ok(Pubkey([1; 32])),
            Err(LoadError::Encoding),
            Err(LoadError::Encoding),
            Ok(Pubkey([2; 32])),
        ]
    );
}

#[test]
fn message_of_takes_the_parts_or_the_first_failure() {
    let whole = message_value(5);
    assert_eq!(
        message_of(
            Ok(whole.header),
            Ok(whole.account_keys.clone()),
            Ok(whole.recent_blockhash),
            Ok(whole.instructions.clone()),
        ),
        Ok(message_value(5))
    );
    assert_eq!(
        message_of(
            Err(LoadError::Encoding),
            Err(LoadError::Schema),
            Err(LoadError::Schema),
            Err(LoadError::Schema),
        ),
        Err(LoadError::Encoding)
    );
    assert_eq!(
        message_of(
            Ok(whole.header),
            Err(LoadError::Schema),
            Err(LoadError::Encoding),
            Ok(vec![]),
        ),
        Err(LoadError::Schema)
    );
    assert_eq!(
        message_of(Ok(whole.header), Ok(vec![]), Err(LoadError::Encoding), Err(LoadError::Schema)),
        Err(LoadError::Encoding)
    );
    assert_eq!(
        message_of(Ok(whole.header), Ok(vec![]), Ok(whole.recent_blockhash), Err(LoadError::Schema)),
        Err(LoadError::Schema)
    );
}

#[test]
fn decode_signatures_gives_one_result_for_each_entry() {
    let entries = vec![text(&signature_text(1)), text("bad"), Record::Null, text(&signature_text(2))];
    assert_eq!(
        decode_signatures(&entries),
        vec![
            Ok(Signature([1; 64])),
            Err(LoadError::Encoding),
            Err(LoadError::Encoding),
            Ok(Signature([2; 64])),
        ]
    );
}

#[test]
fn transaction_of_takes_the_parts_or_the_first_failure() {
    assert_eq!(
        transaction_of(Ok(vec![Signature([4; 64])]), Ok(message_value(4))),
        Ok(transaction_value(4))
    );
    assert_eq!(
        transaction_of(Err(LoadError::Encoding), Err(LoadError::Schema)),
        Err(LoadError::Encoding)
    );
    assert_eq!(
        transaction_of(Err(LoadError::Encoding), Ok(message_value(4))),
        Err(LoadError::Encoding)
    );
    assert_eq!(transaction_of(Ok(vec![]), Err(LoadError::Schema)), Err(LoadError::Schema));
}

#[test]
fn decode_transactions_gives_one_result_for_each_entry() {
    let body = object(vec![
        ("signatures", Record::List(vec![text("unparseable")])),
        ("message", message_record(9)),
    ]);
    let entries = vec![
        transaction_record(1),
        Record::Null,
        object(vec![("transaction", body)]),
        transaction_record(2),
    ];
    assert_eq!(
        decode_transactions(&entries),
        vec![
            Ok(transaction_value(1)),
            Err(LoadError::Schema),
            Err(LoadError::Encoding),
            Ok(transaction_value(2)),
        ]
    );
}
