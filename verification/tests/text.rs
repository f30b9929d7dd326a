use exile_rs::text::{contains, find, join_path, parse_u64};

#[test]
fn find_agrees_with_std_on_character_positions() {
    let hays = ["", "a", "abcabc", "wrapper/POE1 POB/x", "통합/POE1 POB/한글", "aaa"];
    let needles = ["", "a", "bc", "POE1 POB/", "한글", "aa", "zzz", "abcabcabc"];
    for hay in hays {
        for needle in needles {
            let expected = hay.find(needle).map(|at| hay[..at].chars().count());
            assert_eq!(find(hay, needle), expected, "{:?} in {:?}", needle, hay);
            assert_eq!(contains(hay, needle), hay.contains(needle));
        }
    }
}

#[test]
fn parse_u64_agrees_with_std() {
    let cases = [
        "0",
        "7",
        "007",
        "+5",
        "+",
        "",
        "-5",
        "12a",
        " 12",
        "18446744073709551615",
        "18446744073709551616",
        "99999999999999999999999999",
        "1_000",
        "٣",
    ];
    for case in cases {
        assert_eq!(parse_u64(case), case.parse::<u64>().ok(), "{:?}", case);
    }
}

#[test]
fn join_path_puts_one_separator_between() {
    assert_eq!(join_path("/data", "PoeCharm"), "/data/PoeCharm");
    assert_eq!(join_path("/data/", "PoeCharm"), "/data/PoeCharm");
    assert_eq!(join_path("", "PoeCharm"), "PoeCharm");
    assert_eq!(join_path("/data", ""), "/data");
    assert_eq!(join_path("C:\\data", "a/b"), "C:\\data/a/b");
}
