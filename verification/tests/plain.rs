use fhe_hamming::classify::{record, verdict, Accuracy, ConfusionCounts};
use fhe_hamming::corpus::{
    check_length, load_all, load_descriptor, Corpus, LoadError, LoadErrorKind, DESCRIPTOR_LEN,
};
use fhe_hamming::header::{
    brackets_bounded, find_header, is_readable, numbers_bounded, MAX_BRACKETS,
};
use fhe_hamming::names::{find_last_dot, identifier_of, is_descriptor_file};
use fhe_hamming::subject::{same_subject, subject_len, subject_of};

// An `npy` file, version 1.0, with the given element type and shape text.
fn npy_file(descr: &str, shape: &str, data: &[u8]) -> Vec<u8> {
    let mut header = format!("{{'descr': '{}', 'fortran_order': False, 'shape': {}, }}", descr, shape);
    while (10 + header.len() + 1) % 64 != 0 {
        header.push(' ');
    }
    header.push('\n');
    let mut file = b"\x93NUMPY\x01\x00".to_vec();
    file.extend_from_slice(&(header.len() as u16).to_le_bytes());
    file.extend_from_slice(header.as_bytes());
    file.extend_from_slice(data);
    file
}

// An `npy` file with the header text as given, of version 1.0, 2.0 or 3.0.
fn npy_with_header(major: u8, text: &str, data: &[u8]) -> Vec<u8> {
    let mut file = b"\x93NUMPY".to_vec();
    file.push(major);
    file.push(0);
    if major == 1 {
        file.extend_from_slice(&(text.len() as u16).to_le_bytes());
    } else {
        file.extend_from_slice(&(text.len() as u32).to_le_bytes());
    }
    file.extend_from_slice(text.as_bytes());
    file.extend_from_slice(data);
    file
}

fn header_with_shape(shape: &str) -> String {
    format!("{{'descr': '|u1', 'fortran_order': False, 'shape': {}, }}\n", shape)
}

fn byte_array(data: &[u8]) -> Vec<u8> {
    npy_file("|u1", &format!("({},)", data.len()), data)
}

fn ramp(n: usize) -> Vec<u8> {
    (0..n).map(|i| (i * 7 + 3) as u8).collect()
}

#[test]
fn verdict_is_at_most_threshold() {
    assert!(verdict(0, 0));
    assert!(verdict(57, 57));
    assert!(!verdict(58, 57));
    assert!(verdict(256, 256));
    assert!(!verdict(256, 255));
    assert!(!verdict(1, 0));
}

#[test]
fn verdict_stays_same_when_threshold_grows() {
    for distance in [0u32, 1, 56, 57, 58, 255, 256] {
        let mut was_same = false;
        for tau in 0..300u32 {
            let same = verdict(distance, tau);
            assert!(same || !was_same);
            was_same = same;
        }
    }
}

#[test]
fn record_counts_each_kind_of_pair() {
    let mut counts = ConfusionCounts::new();
    assert_eq!(counts.total(), 0);
    record(true, true, &mut counts);
    assert_eq!(
        (counts.true_positive(), counts.true_negative(), counts.false_positive(), counts.false_negative()),
        (1, 0, 0, 0)
    );
    record(false, false, &mut counts);
    assert_eq!(
        (counts.true_positive(), counts.true_negative(), counts.false_positive(), counts.false_negative()),
        (1, 1, 0, 0)
    );
    record(true, false, &mut counts);
    assert_eq!(
        (counts.true_positive(), counts.true_negative(), counts.false_positive(), counts.false_negative()),
        (1, 1, 1, 0)
    );
    record(false, true, &mut counts);
    assert_eq!(
        (counts.true_positive(), counts.true_negative(), counts.false_positive(), counts.false_negative()),
        (1, 1, 1, 1)
    );
    assert_eq!(counts.total(), 4);
}

#[test]
fn accuracy_is_undefined_without_pairs() {
    assert_eq!(ConfusionCounts::new().accuracy(), None);
}

#[test]
fn accuracy_is_correct_over_total() {
    let mut counts = ConfusionCounts::new();
    record(true, true, &mut counts);
    record(true, true, &mut counts);
    record(false, false, &mut counts);
    record(true, false, &mut counts);
    record(false, true, &mut counts);
    record(false, true, &mut counts);
    record(false, true, &mut counts);
    record(false, false, &mut counts);
    assert_eq!(counts.accuracy(), Some(Accuracy { correct: 4, total: 8 }));
    let share = counts.accuracy().unwrap();
    assert_eq!(format!("{:.3}", share.correct as f64 / share.total as f64), "0.500");
}

#[test]
fn accuracy_of_only_wrong_predictions_is_zero_of_total() {
    let mut counts = ConfusionCounts::new();
    record(true, false, &mut counts);
    assert_eq!(counts.accuracy(), Some(Accuracy { correct: 0, total: 1 }));
}

#[test]
fn subject_is_text_before_first_delimiter() {
    assert_eq!(subject_of("A_1"), "A");
    assert_eq!(subject_of("s4_7"), "s4");
    assert_eq!(subject_of("s4_7_extra"), "s4");
    assert_eq!(subject_of("plain"), "plain");
    assert_eq!(subject_of(""), "");
    assert_eq!(subject_of("_7"), "");
    assert_eq!(subject_of("é_1"), "é");
    assert_eq!(subject_len("s4_7"), 2);
    assert_eq!(subject_len("plain"), 5);
    assert_eq!(subject_len("é_1"), 1);
}

#[test]
fn same_subject_compares_prefixes() {
    assert!(same_subject("A_1", "A_2"));
    assert!(!same_subject("A_1", "B_1"));
    assert!(same_subject("s4_7", "s4_9"));
    assert!(!same_subject("s4_7", "s2_9"));
    assert!(!same_subject("s4_7", "s40_7"));
    assert!(same_subject("A", "A_2"));
    assert!(same_subject("_1", "_2"));
    assert!(same_subject("", "_x"));
}

#[test]
fn descriptor_files_end_in_npy() {
    assert!(is_descriptor_file("s4_7.npy"));
    assert!(is_descriptor_file("a.b.npy"));
    assert!(!is_descriptor_file("s4_7.txt"));
    assert!(!is_descriptor_file("s4_7"));
    assert!(!is_descriptor_file("npy"));
    assert!(!is_descriptor_file(".npy"));
    assert!(!is_descriptor_file("s4_7.npy."));
    assert!(!is_descriptor_file("s4_7.npyz"));
    assert!(!is_descriptor_file("s4_7.NPY"));
    assert!(!is_descriptor_file("s4_7.np"));
    assert!(!is_descriptor_file(""));
}

#[test]
fn identifier_is_name_without_extension() {
    assert_eq!(identifier_of("s4_7.npy"), "s4_7");
    assert_eq!(identifier_of("a.b.npy"), "a.b");
    assert_eq!(identifier_of("noext"), "noext");
    assert_eq!(identifier_of(".hidden"), ".hidden");
    assert_eq!(identifier_of("trailing."), "trailing");
    assert_eq!(identifier_of(""), "");
    assert_eq!(find_last_dot("a.b.npy"), Some(3));
    assert_eq!(find_last_dot(".hidden"), Some(0));
    assert_eq!(find_last_dot("noext"), None);
}

#[test]
fn check_length_accepts_only_descriptor_length() {
    assert_eq!(DESCRIPTOR_LEN, 32);
    assert_eq!(check_length(ramp(32)), Ok(ramp(32)));
    assert_eq!(check_length(ramp(31)), Err(LoadErrorKind::WrongLength { found: 31 }));
    assert_eq!(check_length(ramp(33)), Err(LoadErrorKind::WrongLength { found: 33 }));
    assert_eq!(check_length(Vec::new()), Err(LoadErrorKind::WrongLength { found: 0 }));
}

#[test]
fn load_descriptor_reads_an_array_of_bytes() {
    let data = ramp(32);
    assert_eq!(load_descriptor(&byte_array(&data)), Ok(data));
}

#[test]
fn load_descriptor_reads_a_two_dimensional_array_flat() {
    let data = ramp(32);
    assert_eq!(load_descriptor(&npy_file("|u1", "(4, 8)", &data)), Ok(data));
}

#[test]
fn load_descriptor_rejects_wrong_length() {
    assert_eq!(
        load_descriptor(&byte_array(&ramp(31))),
        Err(LoadErrorKind::WrongLength { found: 31 })
    );
    assert_eq!(
        load_descriptor(&byte_array(&ramp(64))),
        Err(LoadErrorKind::WrongLength { found: 64 })
    );
    assert_eq!(load_descriptor(&byte_array(&[])), Err(LoadErrorKind::WrongLength { found: 0 }));
}

#[test]
fn load_descriptor_rejects_what_is_no_byte_array() {
    assert_eq!(load_descriptor(&[]), Err(LoadErrorKind::Malformed));
    assert_eq!(load_descriptor(b"not an array at all"), Err(LoadErrorKind::Malformed));
    assert_eq!(load_descriptor(&ramp(32)), Err(LoadErrorKind::Malformed));
    let floats = npy_file("<f8", "(4,)", &[0u8; 32]);
    assert_eq!(load_descriptor(&floats), Err(LoadErrorKind::Malformed));
    let mut cut = byte_array(&ramp(32));
    cut.truncate(cut.len() - 5);
    assert_eq!(load_descriptor(&cut), Err(LoadErrorKind::Malformed));
}

#[test]
fn corpus_keeps_insertion_order() {
    let mut corpus = Corpus::new();
    assert_eq!(corpus.len(), 0);
    assert_eq!(corpus.insert("B_1".to_string(), ramp(32)), Ok(()));
    assert_eq!(corpus.insert("A_1".to_string(), vec![9; 32]), Ok(()));
    assert_eq!(corpus.insert("A_1".to_string(), vec![8; 32]), Ok(()));
    assert_eq!(corpus.len(), 3);
    assert_eq!(corpus.id(0), "B_1");
    assert_eq!(corpus.descriptor(0), ramp(32).as_slice());
    assert_eq!(corpus.id(1), "A_1");
    assert_eq!(corpus.descriptor(1), [9u8; 32].as_slice());
    assert_eq!(corpus.id(2), "A_1");
    assert_eq!(corpus.descriptor(2), [8u8; 32].as_slice());
}

#[test]
fn corpus_rejects_descriptor_of_wrong_length() {
    let mut corpus = Corpus::new();
    assert_eq!(
        corpus.insert("A_1".to_string(), ramp(16)),
        Err(LoadErrorKind::WrongLength { found: 16 })
    );
    assert_eq!(corpus.len(), 0);
}

#[test]
fn load_all_takes_descriptor_files_in_order() {
    let files = vec![
        ("s2_9.npy".to_string(), byte_array(&ramp(32))),
        ("notes.txt".to_string(), b"no array".to_vec()),
        ("s4_7.npy".to_string(), byte_array(&[5; 32])),
        (".npy".to_string(), Vec::new()),
    ];
    let corpus = load_all(&files).unwrap();
    assert_eq!(corpus.len(), 2);
    assert_eq!(corpus.id(0), "s2_9");
    assert_eq!(corpus.descriptor(0), ramp(32).as_slice());
    assert_eq!(corpus.id(1), "s4_7");
    assert_eq!(corpus.descriptor(1), [5u8; 32].as_slice());
}

#[test]
fn load_all_of_nothing_is_empty() {
    let corpus = load_all(&Vec::new()).unwrap();
    assert_eq!(corpus.len(), 0);
}

#[test]
fn load_all_names_the_file_of_wrong_length() {
    let files = vec![
        ("s2_9.npy".to_string(), byte_array(&ramp(32))),
        ("s3_1.npy".to_string(), byte_array(&ramp(30))),
        ("s4_7.npy".to_string(), b"broken".to_vec()),
    ];
    match load_all(&files) {
        Ok(_) => panic!("a file of 30 bytes was accepted"),
        Err(e) => assert_eq!(
            e,
            LoadError { file: "s3_1.npy".to_string(), kind: LoadErrorKind::WrongLength { found: 30 } }
        ),
    }
}

#[test]
fn load_all_names_the_malformed_file() {
    let files = vec![
        ("readme.md".to_string(), b"broken too, but no descriptor file".to_vec()),
        ("s4_7.npy".to_string(), b"broken".to_vec()),
        ("s3_1.npy".to_string(), byte_array(&ramp(30))),
    ];
    match load_all(&files) {
        Ok(_) => panic!("a malformed file was accepted"),
        Err(e) => assert_eq!(
            e,
            LoadError { file: "s4_7.npy".to_string(), kind: LoadErrorKind::Malformed }
        ),
    }
}

#[test]
fn header_is_found_by_version() {
    assert_eq!(find_header(&npy_with_header(1, "{}\n", &ramp(4))), Some((10, 13)));
    assert_eq!(find_header(&npy_with_header(2, "{}\n", &ramp(4))), Some((12, 15)));
    assert_eq!(find_header(&npy_with_header(3, "{}\n", &[])), Some((12, 15)));
    assert_eq!(find_header(&npy_with_header(1, "", &[])), Some((10, 10)));
    assert_eq!(find_header(&npy_with_header(4, "{}\n", &ramp(4))), None);
    assert_eq!(find_header(&npy_with_header(0, "{}\n", &ramp(4))), None);
    assert_eq!(find_header(b"\x93NUMPY\x01\x01\x00\x00"), None);
    assert_eq!(find_header(b"\x93NUMPX\x01\x00\x00\x00"), None);
    assert_eq!(find_header(b"\x93NUMPY\x01\x00\x00"), None);
    assert_eq!(find_header(b"\x93NUMPY\x02\x00\x00\x00\x00"), None);
    assert_eq!(find_header(&[]), None);
}

#[test]
fn header_that_ends_beyond_the_content_is_not_found() {
    assert_eq!(find_header(b"\x93NUMPY\x01\x00\x03\x00{}"), None);
    assert_eq!(find_header(b"\x93NUMPY\x01\x00\x02\x00{}"), Some((10, 12)));
    assert_eq!(find_header(b"\x93NUMPY\x01\x00\x00\x01{}"), None);
    assert_eq!(find_header(b"\x93NUMPY\x02\x00\xFF\xFF\xFF\xFF{}"), None);
    assert_eq!(find_header(b"\x93NUMPY\x02\x00\x02\x00\x00\x00{}"), Some((12, 14)));
    assert_eq!(find_header(b"\x93NUMPY\x03\x00\x02\x00\x00\x01{}"), None);
}

#[test]
fn numbers_of_a_plain_header_are_bounded() {
    assert!(numbers_bounded(b""));
    assert!(numbers_bounded(b"{'descr': '|u1', 'fortran_order': False, 'shape': (32,), }\n"));
    assert!(numbers_bounded(b"(255, 2)"));
    assert!(numbers_bounded(b"(1000000, 1000000)"));
    // Words without a decimal digit are no numbers.
    assert!(numbers_bounded(b"ffffffffffffffffffffffffffffffff"));
}

#[test]
fn numbers_are_read_in_base_sixteen() {
    // 16 characters reach at most 2^64 - 1, 17 characters at least 2^64.
    assert!(numbers_bounded(b"9999999999999999"));
    assert!(numbers_bounded(b"0xffffffffffffff"));
    assert!(!numbers_bounded(b"10000000000000000"));
    assert!(!numbers_bounded(b"18446744073709551615"));
    assert!(!numbers_bounded(b"0x_ffff_ffff_ffff_f"));
    assert!(!numbers_bounded(b"f0000000000000000"));
}

#[test]
fn numbers_of_separate_values_multiply() {
    // 0x4294967296 is above 2^38, so two of them are above 2^64.
    assert!(numbers_bounded(b"(4294967296,)"));
    assert!(!numbers_bounded(b"(4294967296, 4294967296)"));
    assert!(!numbers_bounded(b"[4294967296,4294967296]"));
    assert!(!numbers_bounded(b"4294967296:4294967296"));
    assert!(!numbers_bounded(b"4294967296.4294967296"));
    // 0x100000000 is 2^32: two of them reach 2^64, and one less does not.
    assert!(!numbers_bounded(b"(100000000, 100000000)"));
    assert!(!numbers_bounded(b"(100000000, ffffffff1)"));
    assert!(numbers_bounded(b"(100000000, 0ffffffff)"));
    assert!(numbers_bounded(&b"1,".repeat(1000)));
    assert!(numbers_bounded(&b"0,".repeat(1000)));
    assert!(numbers_bounded(&b"2,".repeat(63)));
    assert!(!numbers_bounded(&b"2,".repeat(64)));
}

#[test]
fn numbers_joined_by_signs_add_up() {
    assert!(numbers_bounded(b"4294967296 + 4294967296"));
    assert!(numbers_bounded(b"4294967296-4294967296"));
    assert!(numbers_bounded(b"4294967296\t+\x0C-4294967296"));
    assert!(numbers_bounded(&b"(1+1),".repeat(63)));
    assert!(!numbers_bounded(&b"(1+1),".repeat(64)));
    assert!(!numbers_bounded(&b"1 - -1,".repeat(64)));
    // 15 characters reach less than 2^60, so sixteen such numbers add up
    // below 2^64.
    assert!(numbers_bounded(&b"+ 999999999999999 ".repeat(16)));
    assert!(!numbers_bounded(b"9999999999999999 + 9999999999999999"));
}

#[test]
fn readable_needs_a_whole_header_with_bounded_numbers() {
    assert!(is_readable(&byte_array(&ramp(32))));
    assert!(is_readable(&byte_array(&ramp(5))));
    assert!(is_readable(&npy_with_header(1, "not a dictionary", &[])));
    assert!(!is_readable(&[]));
    assert!(!is_readable(b"not an array at all"));
    assert!(!is_readable(&npy_with_header(1, &header_with_shape("(4294967296, 4294967296)"), &[])));
    assert!(!is_readable(b"\x93NUMPY\x02\x00\xFF\xFF\xFF\xFF{'descr': '|u1'}"));
    // Digits of the data do not count.
    assert!(is_readable(&byte_array(&[b'9'; 32])));
}

#[test]
fn load_descriptor_reads_every_version() {
    let data = ramp(32);
    for major in [1u8, 2, 3] {
        let file = npy_with_header(major, &header_with_shape("(32,)"), &data);
        assert_eq!(load_descriptor(&file), Ok(data.clone()));
    }
}

#[test]
fn load_descriptor_reads_shapes_however_written() {
    let data = ramp(32);
    let ones = format!("({}32)", "1, ".repeat(63));
    for shape in ["(32,)", "[32]", "(30 + 2,)", "(0x_2_0,)", "(0b100000,)", "(2, 16)", ones.as_str()] {
        let file = npy_with_header(1, &header_with_shape(shape), &data);
        assert_eq!(load_descriptor(&file), Ok(data.clone()));
    }
}

#[test]
fn load_descriptor_rejects_a_shape_that_overflows() {
    let data = ramp(32);
    for shape in [
        "(4294967296, 4294967296)",
        "(4294967296, 4294967296, 0)",
        "(0, 4294967296, 4294967296)",
        "(0x100000000, 0x100000000)",
        "(18446744073709551615, 2)",
        "(9223372036854775807 + 1, 2)",
    ] {
        let file = npy_with_header(1, &header_with_shape(shape), &data);
        assert_eq!(load_descriptor(&file), Err(LoadErrorKind::Malformed));
    }
}

#[test]
fn load_descriptor_rejects_a_header_longer_than_the_file() {
    let mut file = b"\x93NUMPY\x02\x00\xFF\xFF\xFF\xFF".to_vec();
    file.extend_from_slice(header_with_shape("(32,)").as_bytes());
    file.extend_from_slice(&ramp(32));
    assert_eq!(load_descriptor(&file), Err(LoadErrorKind::Malformed));
    let mut short = byte_array(&ramp(32));
    short.truncate(40);
    assert_eq!(load_descriptor(&short), Err(LoadErrorKind::Malformed));
}

#[test]
fn load_descriptor_rejects_a_header_with_further_large_numbers() {
    let text = format!(
        "{{'descr': '|u1', 'fortran_order': False, 'shape': (32,), 'more': {} }}\n",
        "9".repeat(40)
    );
    let file = npy_with_header(1, &text, &ramp(32));
    assert_eq!(load_descriptor(&file), Err(LoadErrorKind::Malformed));
}

#[test]
fn load_all_names_the_file_whose_shape_overflows() {
    let files = vec![
        ("s2_9.npy".to_string(), byte_array(&ramp(32))),
        (
            "s3_1.npy".to_string(),
            npy_with_header(1, &header_with_shape("(4294967296, 4294967296)"), &ramp(32)),
        ),
    ];
    match load_all(&files) {
        Ok(_) => panic!("a shape beyond 64 bits was accepted"),
        Err(e) => assert_eq!(
            e,
            LoadError { file: "s3_1.npy".to_string(), kind: LoadErrorKind::Malformed }
        ),
    }
}

#[test]
fn brackets_are_counted_whatever_their_kind() {
    assert_eq!(MAX_BRACKETS, 16);
    assert!(brackets_bounded(b""));
    assert!(brackets_bounded(b"{'descr': '|u1', 'fortran_order': False, 'shape': (32,), }\n"));
    assert!(brackets_bounded(&b"(".repeat(16)));
    assert!(!brackets_bounded(&b"(".repeat(17)));
    assert!(brackets_bounded(&b"[]".repeat(16)));
    assert!(!brackets_bounded(&b"[]".repeat(17)));
    assert!(brackets_bounded(&b"{x".repeat(16)));
    assert!(!brackets_bounded(&b"{x".repeat(17)));
    assert!(brackets_bounded(b"((((([[[[[{{{{{("));
    assert!(!brackets_bounded(b"((((([[[[[{{{{{(["));
    // Closing brackets do not count.
    assert!(brackets_bounded(&b")]}".repeat(1000)));
}

#[test]
fn readable_needs_a_header_of_few_brackets() {
    let nested = |levels: usize| {
        format!(
            "{{'descr': '|u1', 'fortran_order': False, 'shape': (32,), 'more': {}{} }}\n",
            "[".repeat(levels),
            "]".repeat(levels)
        )
    };
    assert!(is_readable(&npy_with_header(1, &nested(14), &ramp(32))));
    assert!(!is_readable(&npy_with_header(1, &nested(15), &ramp(32))));
    // Brackets of the data do not count.
    assert!(is_readable(&byte_array(&[b'['; 32])));
}

#[test]
fn load_descriptor_reads_a_header_nested_within_the_bound() {
    let data = ramp(32);
    let text = format!(
        "{{'descr': '|u1', 'fortran_order': False, 'shape': (32,), 'more': {}{} }}\n",
        "[".repeat(14),
        "]".repeat(14)
    );
    assert_eq!(load_descriptor(&npy_with_header(1, &text, &data)), Ok(data));
}

#[test]
fn load_descriptor_rejects_a_deeply_nested_header() {
    let data = ramp(32);
    for levels in [15usize, 1000, 30000] {
        let text = format!(
            "{{'descr': '|u1', 'fortran_order': False, 'shape': (32,), 'more': {}{} }}\n",
            "[".repeat(levels),
            "]".repeat(levels)
        );
        let file = npy_with_header(2, &text, &data);
        assert_eq!(load_descriptor(&file), Err(LoadErrorKind::Malformed));
    }
}
