use ta_ting::punctuation::RuleBasedPunctuationRestorer;

fn is_mark(c: char) -> bool {
    matches!(c, '。' | '？' | '！' | '，')
}

fn strip(s: &str) -> String {
    s.chars().filter(|c| !is_mark(*c)).collect()
}

#[test]
fn test_question() {
    let restorer = RuleBasedPunctuationRestorer::new();
    let result = restorer.restore("你好吗").unwrap();
    assert!(result.contains('？') || result.contains('。'));
}

#[test]
fn test_statement() {
    let restorer = RuleBasedPunctuationRestorer::new();
    let result = restorer.restore("今天天气真好").unwrap();
    assert!(result.ends_with('。'));
}

#[test]
fn test_exclamation() {
    let restorer = RuleBasedPunctuationRestorer::new();
    let result = restorer.restore("哇好漂亮啊").unwrap();
    println!("Result: {}", result);
}

#[test]
fn test_long_text() {
    let restorer = RuleBasedPunctuationRestorer::new();
    let result = restorer
        .restore("今天天气真好我们去公园玩吧你觉得怎么样")
        .unwrap();
    println!("Result: {}", result);
    let punct_count = result.chars().filter(|c| matches!(c, '，' | '。' | '？')).count();
    assert!(punct_count > 0);
}

#[test]
fn restore_exact_outputs() {
    let r = RuleBasedPunctuationRestorer::new();
    assert_eq!(r.restore("你好吗").unwrap(), "你好？吗。");
    assert_eq!(r.restore("今天天气真好").unwrap(), "今天天气真好。");
    assert_eq!(r.restore("哇好漂亮啊").unwrap(), "哇好！漂！亮！啊。");
    assert_eq!(
        r.restore("今天天气真好我们去公园玩吧你觉得怎么样").unwrap(),
        "今天天气真好我们去公园玩吧你？觉？得？怎？么？样。"
    );
}

#[test]
fn restore_empty_and_short_texts() {
    let r = RuleBasedPunctuationRestorer::new();
    assert_eq!(r.restore("").unwrap(), "");
    assert_eq!(r.restore("好").unwrap(), "好。");
    assert_eq!(r.restore("好的").unwrap(), "好的。");
    assert_eq!(r.restore("abc").unwrap(), "abc。");
}

#[test]
fn restore_comma_after_conjunction() {
    let r = RuleBasedPunctuationRestorer::new();
    assert_eq!(r.restore("我很好但是他不好").unwrap(), "我很好但是，他不好。");
}

#[test]
fn restore_conjunction_at_start_gets_no_comma() {
    let r = RuleBasedPunctuationRestorer::new();
    assert_eq!(r.restore("但是我很好").unwrap(), "但是我很好。");
}

#[test]
fn restore_period_after_twenty_characters() {
    let r = RuleBasedPunctuationRestorer::new();
    assert_eq!(
        r.restore("一二三四五六七八九十一二三四五六七八九十一二三四五").unwrap(),
        "一二三四五六七八九十一二三四五六七八九十一。二三四五。"
    );
}

#[test]
fn restore_keeps_existing_ending() {
    let r = RuleBasedPunctuationRestorer::new();
    assert_eq!(r.restore("你好。").unwrap(), "你好。");
    assert_eq!(r.restore("你好，").unwrap(), "你好，。");
}

#[test]
fn restore_only_inserts_marks() {
    let r = RuleBasedPunctuationRestorer::new();
    for text in ["你好吗", "哇好漂亮啊", "我很好但是他不好", "你好，世界", "", "abc"] {
        let out = r.restore(text).unwrap();
        assert_eq!(strip(&out), strip(text));
        let n = text.chars().count();
        let m = out.chars().count();
        assert!(n <= m && m <= 2 * n + 1);
    }
}

#[test]
fn restore_ends_sentences() {
    let r = RuleBasedPunctuationRestorer::new();
    for text in ["你好吗", "今天天气真好", "哇", "好，", "为什么"] {
        let out = r.restore(text).unwrap();
        let last = out.chars().last().unwrap();
        assert!(matches!(last, '。' | '？' | '！'));
    }
}

#[test]
fn default_restorer_behaves_like_new() {
    let a = RuleBasedPunctuationRestorer::default();
    let b = RuleBasedPunctuationRestorer::new();
    assert_eq!(a.restore("你好吗").unwrap(), b.restore("你好吗").unwrap());
}


fn longest_unmarked(s: &str) -> usize {
    let mut best = 0;
    let mut cur = 0;
    for c in s.chars() {
        if is_mark(c) {
            cur = 0;
        } else {
            cur += 1;
            best = best.max(cur);
        }
    }
    best
}

#[test]
fn restore_bounds_unpunctuated_stretches() {
    let r = RuleBasedPunctuationRestorer::new();
    let long: String = std::iter::repeat("今天天气真好我们去公园玩").take(8).collect();
    for text in [long.as_str(), "一二三四五六七八九十一二三四五六七八九十一二三四五"] {
        let out = r.restore(text).unwrap();
        assert!(longest_unmarked(&out) <= 21);
    }
    let out = r.restore("一二三四五六七八九十一二三四五六七八九十一二三四五").unwrap();
    assert_eq!(longest_unmarked(&out), 21);
}

#[test]
fn comma_rule_examples() {
    let r = RuleBasedPunctuationRestorer::new();
    let a: Vec<char> = "但是我".chars().collect();
    let b: Vec<char> = "我但是".chars().collect();
    assert!(!r.should_add_comma(&vec![], &a, 1));
    assert!(r.should_add_comma(&vec![], &b, 2));
    assert!(!r.should_add_comma(&b, &b, 1));
}

#[test]
fn ending_punctuation_examples() {
    let r = RuleBasedPunctuationRestorer::new();
    let chars = |s: &str| s.chars().collect::<Vec<char>>();
    assert!(!r.has_ending_punctuation(&chars("好，")));
    assert!(r.has_ending_punctuation(&chars("好！")));
    assert!(r.has_ending_punctuation(&chars("好？")));
    assert!(r.has_ending_punctuation(&chars("好。")));
    assert!(!r.has_ending_punctuation(&chars("")));
    assert!(!r.has_ending_punctuation(&chars("ok.")));
}

#[test]
fn output_at_most_twice_input() {
    let r = RuleBasedPunctuationRestorer::new();
    for text in ["好", "吗吗", "吗吗吗", "哇哇哇哇", "你好，"] {
        let out = r.restore(text).unwrap();
        assert!(out.chars().count() <= 2 * text.chars().count());
    }
}
