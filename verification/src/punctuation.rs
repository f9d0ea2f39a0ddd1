//! Rule-based punctuation restoration for Chinese dictation.
//!
//! A lightweight fallback for when no punctuation model is installed. The
//! restorer walks the text one character at a time and, after every
//! character that is neither the first nor the last, may insert one mark:
//!
//! 1. `？` when a question word occurs in the window of up to five characters
//!    before and four after the position;
//! 2. otherwise `！` when an exclamation word occurs in that window;
//! 3. otherwise `，` when a conjunction ends at the position;
//! 4. otherwise `。` when more than twenty characters have been written since
//!    the last mark.
//!
//! Finally `。` is appended when the result does not already end with
//! `。`, `？` or `！`.

use vstd::prelude::*;
use crate::text::{chars_of, string_from_chars};

verus! {

/// The word lists a restorer works with, each word as its characters.
pub struct PunctuationRules {
    /// Words that usually end a sentence (kept for reference; no rule reads them).
    pub sentence_end: Seq<Seq<char>>,
    /// Question words: their presence near a position inserts `？`.
    pub question: Seq<Seq<char>>,
    /// Exclamation words: their presence near a position inserts `！`.
    pub exclamation: Seq<Seq<char>>,
    /// Conjunctions: a conjunction ending at a position inserts `，`.
    pub comma: Seq<Seq<char>>,
}

/// The word lists of `RuleBasedPunctuationRestorer::new`.
pub open spec fn default_rules() -> PunctuationRules {
    PunctuationRules {
        sentence_end: seq!["了"@, "吧"@, "呢"@, "啊"@, "呀"@, "的"@, "吗"@],
        question: seq!["吗"@, "呢"@, "什么"@, "哪里"@, "为什么"@, "怎么"@, "如何"@, "谁"@, "哪"@],
        exclamation: seq!["哇"@, "哦"@, "啊"@, "嗯"@, "呀"@, "嘿"@],
        comma: seq!["但是"@, "然后"@, "而且"@, "或者"@, "因为"@, "所以"@, "如果"@, "虽然"@, "不过"@, "而"@],
    }
}

/// The marks the restorer inserts.
pub open spec fn is_mark(c: char) -> bool {
    c == '。' || c == '？' || c == '！' || c == '，'
}

/// The marks that end a sentence.
pub open spec fn is_terminal(c: char) -> bool {
    c == '。' || c == '？' || c == '！'
}

/// `needle` occurs in `hay` starting at index `k`.
pub open spec fn occurs_at(hay: Seq<char>, needle: Seq<char>, k: int) -> bool {
    0 <= k && k + needle.len() <= hay.len() && hay.subrange(k, k + needle.len()) == needle
}

/// `needle` occurs somewhere in `hay`.
pub open spec fn occurs_in(hay: Seq<char>, needle: Seq<char>) -> bool {
    exists|k: int| occurs_at(hay, needle, k)
}

/// Some word of `words` occurs in `hay`.
pub open spec fn any_word_in(words: Seq<Seq<char>>, hay: Seq<char>) -> bool {
    exists|j: int| 0 <= j < words.len() && occurs_in(hay, #[trigger] words[j])
}

/// The window around position `i`: up to five characters before it, the
/// character itself and up to four after it.
pub open spec fn context_window(chars: Seq<char>, i: int) -> Seq<char> {
    let start = if i >= 5 { i - 5 } else { 0 };
    let end = if i + 5 <= chars.len() { i + 5 } else { chars.len() as int };
    chars.subrange(start, end)
}

/// `word` ends at position `i` of `chars`, and starts after position 0
/// (a word that would have to start at the very beginning is not counted).
pub open spec fn word_ends_at(chars: Seq<char>, i: int, word: Seq<char>) -> bool {
    word.len() <= i && chars.subrange(i - word.len() + 1, i + 1) == word
}

/// Some word of `words` ends at position `i` of `chars`.
pub open spec fn any_word_ends_at(words: Seq<Seq<char>>, chars: Seq<char>, i: int) -> bool {
    exists|j: int| 0 <= j < words.len() && word_ends_at(chars, i, #[trigger] words[j])
}

/// The number of characters from the last mark of `s` (counted) to its end,
/// or the length of `s` when it holds no mark.
pub open spec fn run_length(s: Seq<char>) -> nat
    decreases s.len(),
{
    if s.len() == 0 {
        0
    } else if is_mark(s.last()) {
        1
    } else {
        run_length(s.drop_last()) + 1
    }
}

/// The mark inserted after position `i` of `chars`, where `out` is the
/// output written so far (ending with `chars[i]`).
pub open spec fn mark_after(
    rules: PunctuationRules,
    chars: Seq<char>,
    i: int,
    out: Seq<char>,
) -> Option<char> {
    if 0 < i && i + 1 < chars.len() {
        let window = context_window(chars, i);
        if any_word_in(rules.question, window) {
            Some('？')
        } else if any_word_in(rules.exclamation, window) {
            Some('！')
        } else if any_word_ends_at(rules.comma, chars, i) {
            Some('，')
        } else if run_length(out) > 20 {
            Some('。')
        } else {
            None
        }
    } else {
        None
    }
}

/// The output after the first `k` characters of `chars` have been processed.
pub open spec fn restore_prefix(rules: PunctuationRules, chars: Seq<char>, k: nat) -> Seq<char>
    decreases k,
{
    if k == 0 {
        Seq::empty()
    } else {
        let out = restore_prefix(rules, chars, (k - 1) as nat).push(chars[k - 1]);
        match mark_after(rules, chars, k - 1, out) {
            Some(m) => out.push(m),
            None => out,
        }
    }
}

/// The punctuated form of `text`.
pub open spec fn restore_text(rules: PunctuationRules, text: Seq<char>) -> Seq<char> {
    let out = restore_prefix(rules, text, text.len());
    if out.len() > 0 && !is_terminal(out.last()) {
        out.push('。')
    } else {
        out
    }
}

/// Each word as its characters.
pub open spec fn words_view(words: Seq<String>) -> Seq<Seq<char>> {
    words.map_values(|w: String| w@)
}

/// The error type of `RuleBasedPunctuationRestorer::restore`. Rule-based
/// restoration cannot fail (its contract says `restore` always returns
/// `Ok`), so no value of this type is ever produced.
#[derive(Debug, Clone, Copy, PartialEq, Eq, Structural)]
pub struct PunctuationError;

/// Restores punctuation with fixed word lists and simple rules.
pub struct RuleBasedPunctuationRestorer {
    /// Words that usually end a sentence.
    sentence_end_words: Vec<String>,
    /// Words that usually start or end a question.
    question_words: Vec<String>,
    /// Interjections.
    exclamation_words: Vec<String>,
    /// Conjunctions followed by a comma.
    comma_trigger_words: Vec<String>,
}

impl View for RuleBasedPunctuationRestorer {
    type V = PunctuationRules;

    closed spec fn view(&self) -> PunctuationRules {
        PunctuationRules {
            sentence_end: words_view(self.sentence_end_words@),
            question: words_view(self.question_words@),
            exclamation: words_view(self.exclamation_words@),
            comma: words_view(self.comma_trigger_words@),
        }
    }
}

/// Whether `needle` occurs in `hay` at index `k`.
fn occurs_at_exec(hay: &Vec<char>, needle: &Vec<char>, k: usize) -> (b: bool)
    requires
        k + needle@.len() <= hay@.len(),
    ensures
        b == occurs_at(hay@, needle@, k as int),
{
    let n = needle.len();
    let hn = hay.len();
    for j in 0..n
        invariant
            n == needle@.len(),
            hn == hay@.len(),
            k + n <= hn,
            forall|t: int| 0 <= t < j ==> hay@[k + t] == needle@[t],
    {
        if hay[k + j] != needle[j] {
            assert(hay@.subrange(k as int, k + n)[j as int] != needle@[j as int]);
            return false;
        }
    }
    assert(hay@.subrange(k as int, k + n) =~= needle@);
    true
}

/// Whether `needle` occurs anywhere in `hay`.
fn occurs_in_exec(hay: &Vec<char>, needle: &Vec<char>) -> (b: bool)
    ensures
        b == occurs_in(hay@, needle@),
{
    if needle.len() > hay.len() {
        assert(forall|k: int| !#[trigger] occurs_at(hay@, needle@, k));
        return false;
    }
    let last = hay.len() - needle.len();
    let mut k: usize = 0;
    loop
        invariant
            k <= last,
            last + needle@.len() == hay@.len(),
            forall|t: int| 0 <= t < k ==> !#[trigger] occurs_at(hay@, needle@, t),
        decreases last - k,
    {
        if occurs_at_exec(hay, needle, k) {
            return true;
        }
        if k == last {
            assert(forall|t: int| !#[trigger] occurs_at(hay@, needle@, t));
            return false;
        }
        k = k + 1;
    }
}

/// Whether some word of `words` occurs in `hay`.
fn any_word_occurs(words: &Vec<String>, hay: &Vec<char>) -> (b: bool)
    ensures
        b == any_word_in(words_view(words@), hay@),
{
    let ghost ws = words_view(words@);
    for j in 0..words.len()
        invariant
            ws == words_view(words@),
            forall|t: int| 0 <= t < j ==> !occurs_in(hay@, #[trigger] ws[t]),
    {
        let w = chars_of(words[j].as_str());
        if occurs_in_exec(hay, &w) {
            assert(ws[j as int] == w@);
            return true;
        }
    }
    false
}

/// Whether `text` is non-empty and ends with a character in `is_terminal`.
fn ends_with_terminal(text: &Vec<char>) -> (b: bool)
    ensures
        b == (text@.len() > 0 && is_terminal(text@.last())),
{
    if text.len() == 0 {
        return false;
    }
    let c = text[text.len() - 1];
    c == '。' || c == '？' || c == '！'
}

impl RuleBasedPunctuationRestorer {
    /// A restorer with the built-in word lists.
    pub fn new() -> (r: Self)
        ensures
            r@ == default_rules(),
    {
        let r = RuleBasedPunctuationRestorer {
            sentence_end_words: vec![
                "了".to_owned(),
                "吧".to_owned(),
                "呢".to_owned(),
                "啊".to_owned(),
                "呀".to_owned(),
                "的".to_owned(),
                "吗".to_owned(),
            ],
            question_words: vec![
                "吗".to_owned(),
                "呢".to_owned(),
                "什么".to_owned(),
                "哪里".to_owned(),
                "为什么".to_owned(),
                "怎么".to_owned(),
                "如何".to_owned(),
                "谁".to_owned(),
                "哪".to_owned(),
            ],
            exclamation_words: vec![
                "哇".to_owned(),
                "哦".to_owned(),
                "啊".to_owned(),
                "嗯".to_owned(),
                "呀".to_owned(),
                "嘿".to_owned(),
            ],
            comma_trigger_words: vec![
                "但是".to_owned(),
                "然后".to_owned(),
                "而且".to_owned(),
                "或者".to_owned(),
                "因为".to_owned(),
                "所以".to_owned(),
                "如果".to_owned(),
                "虽然".to_owned(),
                "不过".to_owned(),
                "而".to_owned(),
            ],
        };
        assert(r@.sentence_end =~= default_rules().sentence_end);
        assert(r@.question =~= default_rules().question);
        assert(r@.exclamation =~= default_rules().exclamation);
        assert(r@.comma =~= default_rules().comma);
        r
    }

    /// Restores punctuation in `text` by the rules described at the top of
    /// this module. It always succeeds.
    pub fn restore(&self, text: &str) -> (r: Result<String, PunctuationError>)
        ensures
            r is Ok,
            r matches Ok(s) ==> s@ == restore_text(self@, text@),
    {
        let chars = chars_of(text);
        let n = chars.len();
        let mut result: Vec<char> = Vec::new();
        let mut i: usize = 0;
        while i < n
            invariant
                n == chars@.len(),
                i <= n,
                result@ == restore_prefix(self@, chars@, i as nat),
            decreases n - i,
        {
            let ch = chars[i];
            result.push(ch);
            let ghost out = result@;
            if i > 0 && i < n - 1 {
                let context = self.get_context(&chars, i);
                if self.is_question_context(&context) {
                    result.push('？');
                } else if self.is_exclamation_context(&context) {
                    result.push('！');
                } else if self.should_add_comma(&context, &chars, i) {
                    result.push('，');
                } else if self.should_add_period_by_length(&result) {
                    result.push('。');
                }
            }
            assert(out == restore_prefix(self@, chars@, i as nat).push(chars@[i as int]));
            i = i + 1;
        }
        if result.len() > 0 && !self.has_ending_punctuation(&result) {
            result.push('。');
        }
        Ok(string_from_chars(&result))
    }

    /// The window of characters around `pos`.
    fn get_context(&self, chars: &Vec<char>, pos: usize) -> (ctx: Vec<char>)
        requires
            pos < chars@.len(),
        ensures
            ctx@ == context_window(chars@, pos as int),
    {
        let start = if pos >= 5 { pos - 5 } else { 0 };
        let end = if chars.len() - pos >= 5 { pos + 5 } else { chars.len() };
        let mut ctx: Vec<char> = Vec::new();
        for k in start..end
            invariant
                start <= end <= chars@.len(),
                ctx@ == chars@.subrange(start as int, k as int),
        {
            ctx.push(chars[k]);
            assert(chars@.subrange(start as int, k + 1) =~= chars@.subrange(
                start as int,
                k as int,
            ).push(chars@[k as int]));
        }
        ctx
    }

    /// Whether a question word occurs in `context`.
    fn is_question_context(&self, context: &Vec<char>) -> (b: bool)
        ensures
            b == any_word_in(self@.question, context@),
    {
        any_word_occurs(&self.question_words, context)
    }

    /// Whether an exclamation word occurs in `context`.
    fn is_exclamation_context(&self, context: &Vec<char>) -> (b: bool)
        ensures
            b == any_word_in(self@.exclamation, context@),
    {
        any_word_occurs(&self.exclamation_words, context)
    }

    /// Whether a conjunction of the comma list ends at position `pos` of
    /// `chars`. Only conjunctions that start after position 0 count, and the
    /// context window is not consulted.
    pub fn should_add_comma(&self, _context: &Vec<char>, chars: &Vec<char>, pos: usize) -> (b: bool)
        requires
            pos < chars@.len(),
        ensures
            b == any_word_ends_at(self@.comma, chars@, pos as int),
    {
        let ghost ws = self@.comma;
        let cn = chars.len();
        for j in 0..self.comma_trigger_words.len()
            invariant
                ws == words_view(self.comma_trigger_words@),
                ws == self@.comma,
                cn == chars@.len(),
                pos < cn,
                forall|t: int| 0 <= t < j ==> !word_ends_at(chars@, pos as int, #[trigger] ws[t]),
        {
            let w = chars_of(self.comma_trigger_words[j].as_str());
            assert(ws[j as int] == w@);
            if pos >= w.len() {
                let start = pos - w.len() + 1;
                if occurs_at_exec(chars, &w, start) {
                    return true;
                }
            }
        }
        false
    }

    /// Whether more than twenty characters have been written since the last
    /// mark of `current_text`.
    fn should_add_period_by_length(&self, current_text: &Vec<char>) -> (b: bool)
        ensures
            b == (run_length(current_text@) > 20),
    {
        let len = current_text.len();
        let mut k = len;
        let mut count: usize = 0;
        assert(current_text@.take(len as int) =~= current_text@);
        while k > 0
            invariant
                len == current_text@.len(),
                k <= len,
                count == len - k,
                run_length(current_text@) == count + run_length(current_text@.take(k as int)),
            decreases k,
        {
            let c = current_text[k - 1];
            assert(current_text@.take(k as int).drop_last() =~= current_text@.take(k - 1));
            assert(current_text@.take(k as int).last() == c);
            if c == '。' || c == '？' || c == '！' || c == '，' {
                assert(is_mark(current_text@.take(k as int).last()));
                assert(run_length(current_text@.take(k as int)) == 1);
                return count + 1 > 20;
            }
            count = count + 1;
            k = k - 1;
        }
        count > 20
    }

    /// Whether `text` already ends with `。`, `？` or `！` (a trailing `，`
    /// does not count, nor does an empty text).
    pub fn has_ending_punctuation(&self, text: &Vec<char>) -> (b: bool)
        ensures
            b == (text@.len() > 0 && is_terminal(text@.last())),
    {
        ends_with_terminal(text)
    }
}

impl Default for RuleBasedPunctuationRestorer {
    fn default() -> (r: Self)
        ensures
            r@ == default_rules(),
    {
        RuleBasedPunctuationRestorer::new()
    }
}

/// `s` with every mark removed.
pub open spec fn strip_marks(s: Seq<char>) -> Seq<char>
    decreases s.len(),
{
    if s.len() == 0 {
        s
    } else if is_mark(s.last()) {
        strip_marks(s.drop_last())
    } else {
        strip_marks(s.drop_last()).push(s.last())
    }
}

proof fn lemma_strip_push(s: Seq<char>, c: char)
    ensures
        strip_marks(s.push(c)) == if is_mark(c) {
            strip_marks(s)
        } else {
            strip_marks(s).push(c)
        },
{
    assert(s.push(c).drop_last() =~= s);
}

proof fn lemma_prefix_shape(rules: PunctuationRules, chars: Seq<char>, k: nat)
    requires
        k <= chars.len(),
    ensures
        strip_marks(restore_prefix(rules, chars, k)) == strip_marks(chars.take(k as int)),
        k <= restore_prefix(rules, chars, k).len() <= 2 * k,
        k > 0 ==> restore_prefix(rules, chars, k).len() <= 2 * k - 1,
    decreases k,
{
    if k == 0 {
        assert(chars.take(0) =~= Seq::<char>::empty());
    } else {
        let k1 = (k - 1) as nat;
        lemma_prefix_shape(rules, chars, k1);
        let c = chars[k - 1];
        let out = restore_prefix(rules, chars, k1).push(c);
        lemma_strip_push(restore_prefix(rules, chars, k1), c);
        assert(chars.take(k as int) =~= chars.take(k1 as int).push(c));
        lemma_strip_push(chars.take(k1 as int), c);
        match mark_after(rules, chars, k - 1, out) {
            Some(m) => {
                lemma_strip_push(out, m);
            },
            None => {},
        }
    }
}

/// Restoration only inserts marks: removing every `。`, `？`, `！` and `，`
/// from the output gives the input with the same marks removed, and the
/// output is at least as long as the input and at most twice as long.
pub proof fn lemma_restore_keeps_text(rules: PunctuationRules, text: Seq<char>)
    ensures
        strip_marks(restore_text(rules, text)) == strip_marks(text),
        text.len() <= restore_text(rules, text).len() <= 2 * text.len(),
{
    lemma_prefix_shape(rules, text, text.len());
    if text.len() > 0 {
        let k1 = (text.len() - 1) as nat;
        lemma_prefix_shape(rules, text, k1);
        let last_out = restore_prefix(rules, text, k1).push(text[k1 as int]);
        assert(mark_after(rules, text, k1 as int, last_out) is None);
        assert(restore_prefix(rules, text, text.len()) == last_out);
    }
    assert(text.take(text.len() as int) =~= text);
    let out = restore_prefix(rules, text, text.len());
    lemma_strip_push(out, '。');
}

/// The output of a non-empty text ends a sentence (`。`, `？` or `！`), and
/// an empty text stays empty.
pub proof fn lemma_restore_terminated(rules: PunctuationRules, text: Seq<char>)
    ensures
        text.len() > 0 ==> restore_text(rules, text).len() > 0 && is_terminal(
            restore_text(rules, text).last(),
        ),
        text.len() == 0 ==> restore_text(rules, text) == Seq::<char>::empty(),
{
    lemma_prefix_shape(rules, text, text.len());
}

/// The number of characters after the last mark of `s` (all of `s` when it
/// holds no mark).
pub open spec fn trailing_unmarked(s: Seq<char>) -> nat
    decreases s.len(),
{
    if s.len() == 0 {
        0
    } else if is_mark(s.last()) {
        0
    } else {
        trailing_unmarked(s.drop_last()) + 1
    }
}

/// The length of the longest stretch of consecutive characters of `s` that
/// are not marks.
pub open spec fn longest_unmarked(s: Seq<char>) -> nat
    decreases s.len(),
{
    if s.len() == 0 {
        0
    } else {
        let rest = longest_unmarked(s.drop_last());
        let t = trailing_unmarked(s);
        if rest >= t {
            rest
        } else {
            t
        }
    }
}

proof fn lemma_trailing_within_run(s: Seq<char>)
    ensures
        trailing_unmarked(s) <= run_length(s),
    decreases s.len(),
{
    if s.len() > 0 {
        lemma_trailing_within_run(s.drop_last());
    }
}

proof fn lemma_push_stretch(s: Seq<char>, c: char)
    ensures
        trailing_unmarked(s.push(c)) == if is_mark(c) {
            0
        } else {
            trailing_unmarked(s) + 1
        },
        longest_unmarked(s.push(c)) == if longest_unmarked(s) >= trailing_unmarked(s.push(c)) {
            longest_unmarked(s)
        } else {
            trailing_unmarked(s.push(c))
        },
{
    assert(s.push(c).drop_last() =~= s);
}

proof fn lemma_prefix_stretches(rules: PunctuationRules, chars: Seq<char>, k: nat)
    requires
        k < chars.len(),
    ensures
        trailing_unmarked(restore_prefix(rules, chars, k)) <= 20,
        longest_unmarked(restore_prefix(rules, chars, k)) <= 21,
    decreases k,
{
    if k > 0 {
        let k1 = (k - 1) as nat;
        lemma_prefix_stretches(rules, chars, k1);
        let prev = restore_prefix(rules, chars, k1);
        let c = chars[k1 as int];
        let out = prev.push(c);
        lemma_push_stretch(prev, c);
        lemma_trailing_within_run(out);
        match mark_after(rules, chars, k1 as int, out) {
            Some(m) => {
                lemma_push_stretch(out, m);
            },
            None => {
                if k1 == 0 {
                    assert(prev == Seq::<char>::empty());
                }
            },
        }
    }
}

/// The length rule bounds every sentence fragment: the output never holds
/// more than twenty-one consecutive characters without a mark.
pub proof fn lemma_restore_bounds_stretches(rules: PunctuationRules, text: Seq<char>)
    ensures
        longest_unmarked(restore_text(rules, text)) <= 21,
{
    if text.len() > 0 {
        let k1 = (text.len() - 1) as nat;
        lemma_prefix_stretches(rules, text, k1);
        let prev = restore_prefix(rules, text, k1);
        let out = prev.push(text[k1 as int]);
        lemma_push_stretch(prev, text[k1 as int]);
        assert(mark_after(rules, text, k1 as int, out) is None);
        assert(restore_prefix(rules, text, text.len()) == out);
        lemma_push_stretch(out, '。');
    }
}

proof fn lemma_run_length_from_mark(s: Seq<char>, j: int)
    requires
        0 <= j < s.len(),
        is_mark(s[j]),
        forall|t: int| j < t < s.len() ==> !is_mark(#[trigger] s[t]),
    ensures
        run_length(s) == s.len() - j,
    decreases s.len(),
{
    if j < s.len() - 1 {
        let d = s.drop_last();
        assert forall|t: int| j < t < d.len() implies !is_mark(#[trigger] d[t]) by {
            assert(d[t] == s[t]);
        }
        lemma_run_length_from_mark(d, j);
    }
}

proof fn lemma_run_length_unmarked(s: Seq<char>)
    requires
        forall|t: int| 0 <= t < s.len() ==> !is_mark(#[trigger] s[t]),
    ensures
        run_length(s) == s.len(),
    decreases s.len(),
{
    if s.len() > 0 {
        let d = s.drop_last();
        assert forall|t: int| 0 <= t < d.len() implies !is_mark(#[trigger] d[t]) by {
            assert(d[t] == s[t]);
        }
        lemma_run_length_unmarked(d);
    }
}

proof fn lemma_last_mark_exists(s: Seq<char>, k: int) -> (j: int)
    requires
        0 <= k < s.len(),
        is_mark(s[k]),
    ensures
        k <= j < s.len(),
        is_mark(s[j]),
        forall|t: int| j < t < s.len() ==> !is_mark(#[trigger] s[t]),
    decreases s.len() - k,
{
    if exists|t: int| k < t < s.len() && is_mark(#[trigger] s[t]) {
        let t = choose|t: int| k < t < s.len() && is_mark(#[trigger] s[t]);
        lemma_last_mark_exists(s, t)
    } else {
        k
    }
}

/// More than twenty characters since the last mark of `s` (the mark itself
/// counted), or more than twenty characters in all when `s` holds no mark.
proof fn lemma_run_length_exceeds(s: Seq<char>)
    ensures
        run_length(s) > 20 <==> {
            ||| exists|j: int|
                0 <= j < s.len() && is_mark(#[trigger] s[j]) && (forall|t: int|
                    j < t < s.len() ==> !is_mark(#[trigger] s[t])) && s.len() - j > 20
            ||| (forall|t: int| 0 <= t < s.len() ==> !is_mark(#[trigger] s[t])) && s.len() > 20
        },
{
    if exists|k: int| 0 <= k < s.len() && is_mark(#[trigger] s[k]) {
        let k = choose|k: int| 0 <= k < s.len() && is_mark(#[trigger] s[k]);
        let j = lemma_last_mark_exists(s, k);
        lemma_run_length_from_mark(s, j);
        assert forall|j2: int|
            0 <= j2 < s.len() && is_mark(#[trigger] s[j2]) && (forall|t: int|
                j2 < t < s.len() ==> !is_mark(#[trigger] s[t])) implies j2 == j by {
            if j2 < j {
                assert(!is_mark(s[j]));
            } else if j < j2 {
                assert(!is_mark(s[j2]));
            }
        }
    } else {
        lemma_run_length_unmarked(s);
    }
}

proof fn lemma_prefix_grows(rules: PunctuationRules, chars: Seq<char>, k: nat, m: nat)
    requires
        k <= m,
    ensures
        restore_prefix(rules, chars, k).len() <= restore_prefix(rules, chars, m).len(),
        restore_prefix(rules, chars, m).take(restore_prefix(rules, chars, k).len() as int)
            == restore_prefix(rules, chars, k),
    decreases m,
{
    if k < m {
        let m1 = (m - 1) as nat;
        lemma_prefix_grows(rules, chars, k, m1);
        let a = restore_prefix(rules, chars, m1);
        let b = restore_prefix(rules, chars, m);
        let pk = restore_prefix(rules, chars, k);
        assert(b.take(a.len() as int) =~= a);
        assert(b.take(pk.len() as int) =~= a.take(pk.len() as int));
    } else {
        assert(restore_prefix(rules, chars, m).take(restore_prefix(rules, chars, m).len() as int)
            =~= restore_prefix(rules, chars, m));
    }
}

/// What follows character `i` (neither the first nor the last) in the
/// output, where `p` is the position at which the output holds it:
/// `？` when a question word occurs in its window, whatever else occurs
/// there; otherwise `！` when an exclamation word occurs there; otherwise
/// `，` when a conjunction ends at `i`; otherwise `。` exactly when more than
/// twenty characters have been written since the last mark of any kind
/// (`，` included) or since the start; and otherwise the next character of
/// the text, with no mark between.
pub proof fn lemma_mark_after_character(rules: PunctuationRules, text: Seq<char>, i: int)
    requires
        0 < i < text.len() - 1,
    ensures
        ({
            let out = restore_text(rules, text);
            let p = restore_prefix(rules, text, i as nat).len() as int;
            let window = context_window(text, i);
            let q = any_word_in(rules.question, window);
            let e = any_word_in(rules.exclamation, window);
            let c = any_word_ends_at(rules.comma, text, i);
            let s = out.take(p + 1);
            let long = {
                ||| exists|j: int|
                    0 <= j < s.len() && is_mark(#[trigger] s[j]) && (forall|t: int|
                        j < t < s.len() ==> !is_mark(#[trigger] s[t])) && s.len() - j > 20
                ||| (forall|t: int| 0 <= t < s.len() ==> !is_mark(#[trigger] s[t])) && s.len()
                    > 20
            };
            &&& 0 <= p
            &&& p + 1 < out.len()
            &&& out[p] == text[i]
            &&& q ==> out[p + 1] == '？'
            &&& !q && e ==> out[p + 1] == '！'
            &&& !q && !e && c ==> out[p + 1] == '，'
            &&& !q && !e && !c && long ==> out[p + 1] == '。'
            &&& !q && !e && !c && !long ==> out[p + 1] == text[i + 1]
        }),
{
    let n = text.len();
    let k = i as nat;
    let pre = restore_prefix(rules, text, k);
    let p = pre.len() as int;
    let out1 = pre.push(text[i]);
    let p1 = restore_prefix(rules, text, k + 1);
    let p2 = restore_prefix(rules, text, k + 2);
    let pn = restore_prefix(rules, text, n);
    let out = restore_text(rules, text);
    lemma_prefix_grows(rules, text, k + 1, n);
    lemma_prefix_grows(rules, text, k + 2, n);
    assert(out.take(pn.len() as int) =~= pn);
    assert(p1.take(p + 1) =~= out1);
    assert(pn[p] == p1[p]);
    assert(out[p] == pn[p]);
    assert(out.take(p + 1) =~= out1) by {
        assert(pn.take(p + 1) =~= p1.take(p + 1));
    }
    lemma_run_length_exceeds(out1);
    match mark_after(rules, text, i, out1) {
        Some(m) => {
            assert(p1 == out1.push(m));
            assert(pn[p + 1] == p1[p + 1]);
        },
        None => {
            assert(p1 == out1);
            assert(p2.len() > p + 1);
            assert(p2.take(p + 2)[p + 1] == text[i + 1]);
            assert(pn[p + 1] == p2[p + 1]);
        },
    }
}

} // verus!
