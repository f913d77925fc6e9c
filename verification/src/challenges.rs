//! The questions that the coordinator itself asks the models of its nodes: of which
//! kind they are, how the public ones are made out of a seed, and how what is private
//! about them is wiped.

use vstd::prelude::*;

use crate::billing;
use crate::billing::sha256_hex;
use crate::crypto;
use crate::error::ApiError;
use crate::json::{zeroize_json_value, Json};
use crate::text;

verus! {

#[derive(Clone, Copy, Debug, PartialEq, Eq, Structural)]
pub enum PrivateEvaluationKind {
    HiddenBenchmark,
    Canary,
}

impl PrivateEvaluationKind {
    pub open spec fn name(self) -> Seq<char> {
        match self {
            PrivateEvaluationKind::HiddenBenchmark => "hidden_benchmark"@,
            PrivateEvaluationKind::Canary => "canary"@,
        }
    }
}

pub fn kind_name(kind: PrivateEvaluationKind) -> (name: &'static str)
    ensures
        name@ == kind.name(),
{
    match kind {
        PrivateEvaluationKind::HiddenBenchmark => "hidden_benchmark",
        PrivateEvaluationKind::Canary => "canary",
    }
}

pub fn parse_kind(value: &str) -> (kind: Result<PrivateEvaluationKind, ApiError>)
    ensures
        match kind {
            Ok(kind) => kind.name() == value@,
            Err(refused) => refused == ApiError::internal() && forall|kind: PrivateEvaluationKind|
                #[trigger] kind.name() != value@,
        },
{
    if text::same_text(value, "hidden_benchmark") {
        Ok(PrivateEvaluationKind::HiddenBenchmark)
    } else if text::same_text(value, "canary") {
        Ok(PrivateEvaluationKind::Canary)
    } else {
        Err(ApiError::internal())
    }
}

/// A stored kind is read back as the kind that was stored.
pub proof fn kinds_are_told_apart(first: PrivateEvaluationKind, second: PrivateEvaluationKind)
    requires
        first.name() == second.name(),
    ensures
        first == second,
{
    reveal_strlit("hidden_benchmark");
    reveal_strlit("canary");
    assert("hidden_benchmark"@.len() == 16);
    assert("canary"@.len() == 6);
}

/// A question with what tells a right answer from a wrong one: the SHA-256 digest of
/// the answer, in hexadecimal digits.
pub struct GeneratedChallenge {
    pub prompt: String,
    pub expected_behavior_sha256: String,
    pub max_output_tokens: u32,
    pub temperature_tenths: u8,
    pub inference_seed: u32,
}

/// A question of a private catalogue.
pub struct PrivateEvaluationCatalogEntry {
    pub entry_id: String,
    pub case_family: String,
    pub model_weights_sha256: String,
    pub prompt: String,
    pub expected_behavior_sha256: String,
    pub inference_seed: u32,
    pub max_output_tokens: u32,
}

/// A chat request as a challenge makes it. The temperature and the nucleus are held
/// in tenths.
pub struct ChallengePayload {
    pub endpoint: String,
    pub model: String,
    pub content: String,
    pub stream: bool,
    pub temperature_tenths: u8,
    pub top_p_tenths: u8,
    pub seed: u32,
    pub max_tokens: u32,
}

impl GeneratedChallenge {
    /// Takes a question out of a private catalogue. It is asked without randomness.
    pub fn from_private_entry(entry: PrivateEvaluationCatalogEntry) -> (challenge: GeneratedChallenge)
        ensures
            challenge.prompt == entry.prompt,
            challenge.expected_behavior_sha256 == entry.expected_behavior_sha256,
            challenge.max_output_tokens == entry.max_output_tokens,
            challenge.temperature_tenths == 0,
            challenge.inference_seed == entry.inference_seed,
    {
        GeneratedChallenge {
            prompt: entry.prompt,
            expected_behavior_sha256: entry.expected_behavior_sha256,
            max_output_tokens: entry.max_output_tokens,
            temperature_tenths: 0,
            inference_seed: entry.inference_seed,
        }
    }

    /// The request that carries the question. It names no model, so that it looks like
    /// any other.
    pub fn standard_payload(&self, _served_model: &str) -> (payload: ChallengePayload)
        ensures
            payload.endpoint@ == "/v1/chat/completions"@,
            payload.model@ == "auto"@,
            payload.content@ == self.prompt@,
            !payload.stream,
            payload.temperature_tenths == self.temperature_tenths,
            payload.top_p_tenths == 10,
            payload.seed == self.inference_seed,
            payload.max_tokens == self.max_output_tokens,
    {
        ChallengePayload {
            endpoint: String::from_str("/v1/chat/completions"),
            model: String::from_str("auto"),
            content: self.prompt.clone(),
            stream: false,
            temperature_tenths: self.temperature_tenths,
            top_p_tenths: 10,
            seed: self.inference_seed,
            max_tokens: self.max_output_tokens,
        }
    }

    /// Overwrites all that the challenge holds.
    pub fn zeroize(&mut self)
        ensures
            final(self).prompt@.len() == 0,
            final(self).expected_behavior_sha256@.len() == 0,
            final(self).max_output_tokens == 0,
            final(self).temperature_tenths == 0,
            final(self).inference_seed == 0,
    {
        crypto::wipe_text(&mut self.prompt);
        crypto::wipe_text(&mut self.expected_behavior_sha256);
        self.max_output_tokens = 0;
        self.temperature_tenths = 0;
        self.inference_seed = 0;
    }
}

/// The payload of a job, whose request must not outlive its use.
pub struct SensitiveEvaluationPayload {
    pub endpoint: String,
    pub request: Json,
}

impl SensitiveEvaluationPayload {
    pub fn zeroize_owned(&mut self)
        ensures
            final(self).endpoint@.len() == 0,
            final(self).request == Json::Null,
    {
        crypto::wipe_text(&mut self.endpoint);
        zeroize_json_value(&mut self.request);
    }
}

/// The eight capital letters that a seed spells.
pub open spec fn code(seed: Seq<u8>) -> Seq<char> {
    Seq::new(8, |i: int| (65 + seed[i] % 26) as char)
}

/// The prompt of the canary that a seed makes, and the answer that it expects.
pub open spec fn canary(seed: Seq<u8>) -> (Seq<char>, Seq<char>) {
    let letters = code(seed);
    let form = seed[8] % 8;
    if form == 0 {
        ("请把字符串 "@ + letters + " 原样回复，不要添加其他文字。"@, letters)
    } else if form == 1 {
        ("只输出这八个大写字母："@ + letters + ""@, letters)
    } else if form == 2 {
        ("下面是我要核对的短码，回复短码本身即可："@ + letters + ""@, letters)
    } else if form == 3 {
        ("请在回答中仅保留括号内的内容（"@ + letters + "）。"@, letters)
    } else if form == 4 {
        ("把 "@ + letters + " 按字符倒序输出，除此之外不要写内容。"@, letters.reverse())
    } else if form == 5 {
        ("将大写字符串 "@ + letters + " 转成小写后直接回复。"@, text::ascii_lowercase(letters))
    } else if form == 6 {
        ("字符串 "@ + letters + " 有几个字符？只回答整数。"@, text::decimal(letters.len() as int))
    } else {
        ("只回复 "@ + letters + " 的前三个字符。"@, letters.take(3))
    }
}

/// A number between 1000 and 9999 out of two bytes.
pub open spec fn four_digits(high: u8, low: u8) -> int {
    (high as int * 256 + low as int) % 9_000 + 1_000
}

pub open spec fn larger(left: int, right: int) -> int {
    if left >= right {
        left
    } else {
        right
    }
}

/// The prompt of the arithmetic question that a seed makes, and the answer that it
/// expects.
pub open spec fn benchmark(seed: Seq<u8>) -> (Seq<char>, Seq<char>) {
    let left = four_digits(seed[0], seed[1]);
    let right = four_digits(seed[2], seed[3]);
    let small_left = left % 97 + 3;
    let small_right = right % 29 + 2;
    let form = seed[5] % 8;
    if form == 0 {
        (
            "请直接给出 "@ + text::decimal(left) + " 与 "@ + text::decimal(right)
                + " 的和，只写一个整数。"@,
            text::decimal(left + right),
        )
    } else if form == 1 {
        (
            "不展示步骤："@ + text::decimal(left) + " 加上 "@ + text::decimal(right)
                + " 等于多少？仅回答数字。"@,
            text::decimal(left + right),
        )
    } else if form == 2 {
        (
            "算一下 "@ + text::decimal(left + right) + "-"@ + text::decimal(right)
                + "。回复中不要包含解释。"@,
            text::decimal(left),
        )
    } else if form == 3 {
        (
            "只写结果："@ + text::decimal(small_left) + " 乘以 "@ + text::decimal(small_right)
                + "。"@,
            text::decimal(small_left * small_right),
        )
    } else if form == 4 {
        (
            "三个数 "@ + text::decimal(left) + "、"@ + text::decimal(right) + "、"@
                + text::decimal(left / 2) + " 中最大的是哪个？"@,
            text::decimal(larger(left, right)),
        )
    } else if form == 5 {
        (
            "把 "@ + text::decimal(left) + " 除以 10 后的整数余数告诉我，只回复余数。"@,
            text::decimal(left % 10),
        )
    } else if form == 6 {
        (
            "从 "@ + text::decimal(right) + " 开始再向后数 "@ + text::decimal(small_right)
                + " 个整数，最后一个是多少？"@,
            text::decimal(right + small_right),
        )
    } else {
        (
            "我只需要最终整数：把 "@ + text::decimal(right) + " 增加 "@ + text::decimal(left)
                + " 后是多少？"@,
            text::decimal(left + right),
        )
    }
}

/// The prompt that a seed makes, and the answer that it expects.
pub open spec fn question(kind: PrivateEvaluationKind, seed: Seq<u8>) -> (Seq<char>, Seq<char>) {
    match kind {
        PrivateEvaluationKind::HiddenBenchmark => benchmark(seed),
        PrivateEvaluationKind::Canary => canary(seed),
    }
}

/// How long an answer may be.
pub open spec fn answer_limit(seed: Seq<u8>) -> int {
    seq![16int, 24, 32, 48, 64, 96][(seed[10] % 6) as int]
}

/// The seed of the inference: bytes 12 to 15 of the seed, the most significant first.
pub open spec fn inference_seed(seed: Seq<u8>) -> int {
    seed[12] * 0x100_0000 + seed[13] * 0x1_0000 + seed[14] * 0x100 + seed[15]
}

/// The challenge is the one that the seed makes.
pub open spec fn made_from(
    challenge: GeneratedChallenge,
    kind: PrivateEvaluationKind,
    seed: Seq<u8>,
) -> bool {
    &&& challenge.prompt@ == question(kind, seed).0
    &&& challenge.expected_behavior_sha256@ == billing::sha256_text(question(kind, seed).1)
    &&& challenge.max_output_tokens == answer_limit(seed)
    &&& challenge.temperature_tenths == seed[11] % 4
    &&& challenge.inference_seed == inference_seed(seed)
}

fn letters_of(seed: &[u8; 32]) -> (letters: String)
    ensures
        letters@ == code(seed@),
{
    let mut letters = String::new();
    let mut i: usize = 0;
    while i < 8
        invariant
            i <= 8,
            letters@ == code(seed@).take(i as int),
        decreases 8 - i,
    {
        letters.push((65 + seed[i] % 26) as char);
        i += 1;
        assert(code(seed@).take(i as int) =~= code(seed@).take(i - 1).push(code(seed@)[i - 1]));
    }
    assert(code(seed@).take(8) =~= code(seed@));
    letters
}

fn reversed(letters: &str) -> (backwards: String)
    ensures
        backwards@ == letters@.reverse(),
{
    let all = text::characters(letters);
    let mut backwards = String::new();
    let mut i: usize = all.len();
    while i > 0
        invariant
            all@ == letters@,
            i <= all@.len(),
            backwards@ == letters@.reverse().take(all@.len() - i),
        decreases i,
    {
        i -= 1;
        backwards.push(all[i]);
        assert(letters@.reverse().take(all@.len() - i) =~= letters@.reverse().take(
            all@.len() - i - 1,
        ).push(letters@[i as int]));
    }
    assert(letters@.reverse().take(letters@.len() as int) =~= letters@.reverse());
    backwards
}

fn framed(before: &str, middle: &str, after: &str) -> (whole: String)
    ensures
        whole@ == before@ + middle@ + after@,
{
    let mut whole = String::new();
    text::push_text(&mut whole, before);
    text::push_text(&mut whole, middle);
    text::push_text(&mut whole, after);
    assert(whole@ =~= before@ + middle@ + after@);
    whole
}

fn number(value: i64) -> (written: String)
    ensures
        written@ == text::decimal(value as int),
{
    let mut written = String::new();
    text::push_decimal(&mut written, value);
    assert(written@ =~= text::decimal(value as int));
    written
}

/// Two numbers within a sentence.
fn sentence(first: &str, left: i64, second: &str, right: i64, third: &str) -> (whole: String)
    ensures
        whole@ == first@ + text::decimal(left as int) + second@ + text::decimal(right as int)
            + third@,
{
    let mut whole = String::new();
    text::push_text(&mut whole, first);
    text::push_decimal(&mut whole, left);
    text::push_text(&mut whole, second);
    text::push_decimal(&mut whole, right);
    text::push_text(&mut whole, third);
    assert(whole@ =~= first@ + text::decimal(left as int) + second@ + text::decimal(right as int)
        + third@);
    whole
}

fn canary_question(seed: &[u8; 32]) -> (asked: (String, String))
    ensures
        asked.0@ == canary(seed@).0,
        asked.1@ == canary(seed@).1,
{
    let letters = letters_of(seed);
    let form = seed[8] % 8;
    if form == 0 {
        (framed("请把字符串 ", letters.as_str(), " 原样回复，不要添加其他文字。"), letters)
    } else if form == 1 {
        (framed("只输出这八个大写字母：", letters.as_str(), ""), letters)
    } else if form == 2 {
        (framed("下面是我要核对的短码，回复短码本身即可：", letters.as_str(), ""), letters)
    } else if form == 3 {
        (framed("请在回答中仅保留括号内的内容（", letters.as_str(), "）。"), letters)
    } else if form == 4 {
        (
            framed("把 ", letters.as_str(), " 按字符倒序输出，除此之外不要写内容。"),
            reversed(letters.as_str()),
        )
    } else if form == 5 {
        (
            framed("将大写字符串 ", letters.as_str(), " 转成小写后直接回复。"),
            text::to_ascii_lowercase(letters.as_str()),
        )
    } else if form == 6 {
        (framed("字符串 ", letters.as_str(), " 有几个字符？只回答整数。"), number(8))
    } else {
        let start = String::from_str(letters.as_str().substring_char(0, 3));
        assert(letters@.subrange(0, 3) =~= letters@.take(3));
        (framed("只回复 ", letters.as_str(), " 的前三个字符。"), start)
    }
}

fn benchmark_question(seed: &[u8; 32]) -> (asked: (String, String))
    ensures
        asked.0@ == benchmark(seed@).0,
        asked.1@ == benchmark(seed@).1,
{
    let left: i64 = (seed[0] as i64 * 256 + seed[1] as i64) % 9_000 + 1_000;
    let right: i64 = (seed[2] as i64 * 256 + seed[3] as i64) % 9_000 + 1_000;
    let small_left: i64 = left % 97 + 3;
    let small_right: i64 = right % 29 + 2;
    let form = seed[5] % 8;
    if form == 0 {
        (
            sentence("请直接给出 ", left, " 与 ", right, " 的和，只写一个整数。"),
            number(left + right),
        )
    } else if form == 1 {
        (
            sentence("不展示步骤：", left, " 加上 ", right, " 等于多少？仅回答数字。"),
            number(left + right),
        )
    } else if form == 2 {
        (
            sentence("算一下 ", left + right, "-", right, "。回复中不要包含解释。"),
            number(left),
        )
    } else if form == 3 {
        assert(0 <= small_left * small_right <= 10_000) by (nonlinear_arith)
            requires
                0 <= small_left <= 100,
                0 <= small_right <= 100,
        ;
        (
            sentence("只写结果：", small_left, " 乘以 ", small_right, "。"),
            number(small_left * small_right),
        )
    } else if form == 4 {
        let mut prompt = sentence("三个数 ", left, "、", right, "、");
        text::push_decimal(&mut prompt, left / 2);
        text::push_text(&mut prompt, " 中最大的是哪个？");
        (prompt, number(if left >= right { left } else { right }))
    } else if form == 5 {
        let mut prompt = String::new();
        text::push_text(&mut prompt, "把 ");
        text::push_decimal(&mut prompt, left);
        text::push_text(&mut prompt, " 除以 10 后的整数余数告诉我，只回复余数。");
        assert(prompt@ =~= benchmark(seed@).0);
        (prompt, number(left % 10))
    } else if form == 6 {
        (
            sentence("从 ", right, " 开始再向后数 ", small_right, " 个整数，最后一个是多少？"),
            number(right + small_right),
        )
    } else {
        (
            sentence("我只需要最终整数：把 ", right, " 增加 ", left, " 后是多少？"),
            number(left + right),
        )
    }
}

/// Makes the public canary of a seed.
pub fn generate_public_canary(seed: &[u8; 32]) -> (challenge: GeneratedChallenge)
    ensures
        made_from(challenge, PrivateEvaluationKind::Canary, seed@),
{
    generate_legacy_challenge(PrivateEvaluationKind::Canary, seed)
}

/// Makes the question of a seed out of the public templates. They serve for canaries,
/// and to finish benchmarks that were issued before there was a private catalogue; no
/// new benchmark comes from them.
pub fn generate_legacy_challenge(kind: PrivateEvaluationKind, seed: &[u8; 32]) -> (challenge:
    GeneratedChallenge)
    ensures
        made_from(challenge, kind, seed@),
{
    let choice = seed[10] % 6;
    let max_output_tokens: u32 = if choice == 0 {
        16
    } else if choice == 1 {
        24
    } else if choice == 2 {
        32
    } else if choice == 3 {
        48
    } else if choice == 4 {
        64
    } else {
        96
    };
    let inference_seed: u32 = seed[12] as u32 * 0x100_0000 + seed[13] as u32 * 0x1_0000
        + seed[14] as u32 * 0x100 + seed[15] as u32;
    let (prompt, expected) = match kind {
        PrivateEvaluationKind::HiddenBenchmark => benchmark_question(seed),
        PrivateEvaluationKind::Canary => canary_question(seed),
    };
    GeneratedChallenge {
        prompt,
        expected_behavior_sha256: sha256_hex(expected.as_str()),
        max_output_tokens,
        temperature_tenths: seed[11] % 4,
        inference_seed,
    }
}

/// The words that would give a prompt away.
pub open spec fn private_markers() -> Seq<Seq<char>> {
    seq!["mindone"@, "evaluation"@, "benchmark"@, "canary"@, "评价"@, "评测"@]
}

/// No word that would give a prompt away stands in it, in capital letters or not.
pub open spec fn no_private_marker(prompt: Seq<char>) -> bool {
    forall|i: int|
        0 <= i < private_markers().len() ==> !text::contains(
            text::ascii_lowercase(prompt),
            #[trigger] private_markers()[i],
        )
}

pub fn prompt_has_no_private_marker(prompt: &str) -> (unmarked: bool)
    ensures
        unmarked == no_private_marker(prompt@),
{
    let lower = text::to_ascii_lowercase(prompt);
    let unmarked = !text::contains_text(lower.as_str(), "mindone") && !text::contains_text(
        lower.as_str(),
        "evaluation",
    ) && !text::contains_text(lower.as_str(), "benchmark") && !text::contains_text(
        lower.as_str(),
        "canary",
    ) && !text::contains_text(lower.as_str(), "评价") && !text::contains_text(
        lower.as_str(),
        "评测",
    );
    proof {
        let markers = private_markers();
        assert(markers[0] == "mindone"@ && markers[1] == "evaluation"@ && markers[2]
            == "benchmark"@ && markers[3] == "canary"@ && markers[4] == "评价"@ && markers[5]
            == "评测"@);
    }
    unmarked
}

/// A character that no marker holds.
spec fn plain(c: char) -> bool {
    !text::is_ascii_lowercase(c) && !text::is_ascii_uppercase(c) && c != '评' && c != '价' && c
        != '测'
}

spec fn plain_up_to(part: Seq<char>, length: nat) -> bool
    decreases length,
{
    length == 0 || (plain(part[length - 1]) && plain_up_to(part, (length - 1) as nat))
}

proof fn lemma_plain(part: Seq<char>, length: nat)
    requires
        plain_up_to(part, length),
    ensures
        forall|i: int| 0 <= i < length ==> plain(#[trigger] part[i]),
    decreases length,
{
    if length > 0 {
        lemma_plain(part, (length - 1) as nat);
    }
}

/// A marker that stands in a text between plain texts stands in that text alone.
proof fn lemma_marker_inside(before: Seq<char>, middle: Seq<char>, after: Seq<char>, marker: Seq<char>)
    requires
        plain_up_to(before, before.len()),
        plain_up_to(after, after.len()),
        marker.len() > 0,
        forall|i: int| 0 <= i < marker.len() ==> !plain(#[trigger] marker[i]),
        text::contains(text::ascii_lowercase(before + middle + after), marker),
    ensures
        text::contains(text::ascii_lowercase(middle), marker),
{
    lemma_plain(before, before.len());
    lemma_plain(after, after.len());
    let whole = before + middle + after;
    let lower = text::ascii_lowercase(whole);
    let at = choose|at: int| text::stands_at(lower, marker, at);
    let found = lower.subrange(at, at + marker.len());
    assert(found == marker);
    let b = before.len() as int;
    let m = middle.len() as int;
    let last = marker.len() - 1;
    assert(found[0] == lower[at]);
    assert(found[last] == lower[at + last]);
    assert(!plain(marker[0]) && !plain(marker[last]));
    assert(at >= b) by {
        if at < b {
            assert(whole[at] == before[at]);
        }
    }
    assert(at < b + m) by {
        if at >= b + m {
            assert(whole[at] == after[at - b - m]);
        }
    }
    assert(at + last < b + m) by {
        if at + last >= b + m {
            assert(whole[at + last] == after[at + last - b - m]);
        }
    }
    let inner = text::ascii_lowercase(middle);
    assert(inner.subrange(at - b, at - b + marker.len()) =~= marker) by {
        assert forall|i: int| 0 <= i < marker.len() implies inner[at - b + i] == marker[i] by {
            assert(found[i] == lower[at + i]);
            assert(whole[at + i] == middle[at - b + i]);
        }
    }
    assert(text::stands_at(inner, marker, at - b));
}

proof fn lemma_markers_are_not_plain(i: int)
    requires
        0 <= i < private_markers().len(),
    ensures
        private_markers()[i].len() > 0,
        forall|j: int|
            0 <= j < private_markers()[i].len() ==> !plain(#[trigger] private_markers()[i][j]),
{
    reveal_strlit("mindone");
    reveal_strlit("evaluation");
    reveal_strlit("benchmark");
    reveal_strlit("canary");
    reveal_strlit("评价");
    reveal_strlit("评测");
    let marker = private_markers()[i];
    assert(marker == "mindone"@ || marker == "evaluation"@ || marker == "benchmark"@ || marker
        == "canary"@ || marker == "评价"@ || marker == "评测"@);
    assert(marker.len() <= 10);
    assert forall|j: int| 0 <= j < marker.len() implies !plain(#[trigger] marker[j]) by {
        assert(j == 0 || j == 1 || j == 2 || j == 3 || j == 4 || j == 5 || j == 6 || j == 7 || j
            == 8 || j == 9);
    }
}

proof fn lemma_frame_is_unmarked(before: Seq<char>, middle: Seq<char>, after: Seq<char>)
    requires
        plain_up_to(before, before.len()),
        plain_up_to(after, after.len()),
        no_private_marker(middle),
    ensures
        no_private_marker(before + middle + after),
{
    assert forall|i: int| 0 <= i < private_markers().len() implies !text::contains(
        text::ascii_lowercase(before + middle + after),
        #[trigger] private_markers()[i],
    ) by {
        let marker = private_markers()[i];
        lemma_markers_are_not_plain(i);
        if text::contains(text::ascii_lowercase(before + middle + after), marker) {
            lemma_marker_inside(before, middle, after, marker);
        }
    }
}

/// No public canary gives itself away: its prompt holds none of the private words,
/// unless the random letters themselves happen to spell one.
pub proof fn canary_prompts_are_unmarked(seed: Seq<u8>)
    requires
        no_private_marker(code(seed)),
    ensures
        no_private_marker(canary(seed).0),
{
    reveal_with_fuel(plain_up_to, 30);
    reveal_strlit("");
    let letters = code(seed);
    let form = seed[8] % 8;
    if form == 0 {
        reveal_strlit("请把字符串 ");
        reveal_strlit(" 原样回复，不要添加其他文字。");
        lemma_frame_is_unmarked("请把字符串 "@, letters, " 原样回复，不要添加其他文字。"@);
    } else if form == 1 {
        reveal_strlit("只输出这八个大写字母：");
        lemma_frame_is_unmarked("只输出这八个大写字母："@, letters, ""@);
    } else if form == 2 {
        reveal_strlit("下面是我要核对的短码，回复短码本身即可：");
        lemma_frame_is_unmarked("下面是我要核对的短码，回复短码本身即可："@, letters, ""@);
    } else if form == 3 {
        reveal_strlit("请在回答中仅保留括号内的内容（");
        reveal_strlit("）。");
        lemma_frame_is_unmarked("请在回答中仅保留括号内的内容（"@, letters, "）。"@);
    } else if form == 4 {
        reveal_strlit("把 ");
        reveal_strlit(" 按字符倒序输出，除此之外不要写内容。");
        lemma_frame_is_unmarked("把 "@, letters, " 按字符倒序输出，除此之外不要写内容。"@);
    } else if form == 5 {
        reveal_strlit("将大写字符串 ");
        reveal_strlit(" 转成小写后直接回复。");
        lemma_frame_is_unmarked("将大写字符串 "@, letters, " 转成小写后直接回复。"@);
    } else if form == 6 {
        reveal_strlit("字符串 ");
        reveal_strlit(" 有几个字符？只回答整数。");
        lemma_frame_is_unmarked("字符串 "@, letters, " 有几个字符？只回答整数。"@);
    } else {
        reveal_strlit("只回复 ");
        reveal_strlit(" 的前三个字符。");
        lemma_frame_is_unmarked("只回复 "@, letters, " 的前三个字符。"@);
    }
}

/// The seed that 32 random bytes are. Where the system gave no such bytes there is none.
pub fn seed_of(random: &Option<Vec<u8>>) -> (seed: Result<[u8; 32], ApiError>)
    ensures
        match seed {
            Ok(seed) => random matches Some(bytes) && bytes@ == seed@,
            Err(refused) => {
                &&& refused == ApiError::internal()
                &&& !(random matches Some(bytes) && bytes@.len() == 32)
            },
        },
{
    match random {
        Some(bytes) => match text::array_32(bytes.as_slice()) {
            Some(seed) => Ok(seed),
            None => Err(ApiError::internal()),
        },
        None => Err(ApiError::internal()),
    }
}

/// 32 random bytes. Only a system that gives none makes this fail.
pub fn new_seed() -> (seed: Result<[u8; 32], ApiError>)
    ensures
        seed matches Err(refused) ==> refused == ApiError::internal(),
{
    seed_of(&crypto::random_bytes(32))
}

/// Makes a public canary out of a random seed. Only a system that gives no random bytes
/// makes this fail.
pub fn new_public_canary() -> (canary: Result<([u8; 32], GeneratedChallenge), ApiError>)
    ensures
        match canary {
            Ok((seed, challenge)) => made_from(challenge, PrivateEvaluationKind::Canary, seed@),
            Err(refused) => refused == ApiError::internal(),
        },
{
    let seed = new_seed()?;
    let challenge = generate_public_canary(&seed);
    Ok((seed, challenge))
}

/// The names of the two kinds of challenge.
pub proof fn kinds_have_their_names()
    ensures
        PrivateEvaluationKind::HiddenBenchmark.name() == "hidden_benchmark"@,
        PrivateEvaluationKind::Canary.name() == "canary"@,
{
}

/// A canary shows eight capital letters in its prompt and is answered by something that can be
/// told from them alone: the letters themselves, their reverse, their small forms, their number,
/// or the first three.
pub proof fn canaries_are_answered_from_their_letters(seed: Seq<u8>)
    ensures
        code(seed).len() == 8,
        forall|i: int|
            0 <= i < 8 ==> 'A' <= #[trigger] code(seed)[i] <= 'Z' && code(seed)[i] as int == 65
                + seed[i] as int % 26,
        text::contains(canary(seed).0, code(seed)),
        seed[8] % 8 <= 3 ==> canary(seed).1 == code(seed),
        seed[8] % 8 == 4 ==> canary(seed).1.len() == 8 && forall|i: int|
            0 <= i < 8 ==> #[trigger] canary(seed).1[i] == code(seed)[7 - i],
        seed[8] % 8 == 5 ==> canary(seed).1.len() == 8 && forall|i: int|
            0 <= i < 8 ==> #[trigger] canary(seed).1[i] as int == code(seed)[i] as int + 32,
        seed[8] % 8 == 6 ==> canary(seed).1 == seq!['8'],
        seed[8] % 8 == 7 ==> canary(seed).1.len() == 3 && forall|i: int|
            0 <= i < 3 ==> #[trigger] canary(seed).1[i] == code(seed)[i],
{
    let letters = code(seed);
    let form = seed[8] % 8;
    assert forall|i: int| 0 <= i < 8 implies 'A' <= #[trigger] letters[i] <= 'Z' && letters[i] as int
        == 65 + seed[i] as int % 26 by {
        let value = 65 + seed[i] % 26;
        assert(65 <= value <= 90);
        assert((value as char) as int == value);
    }
    lemma_framed_is_contained("请把字符串 "@, letters, " 原样回复，不要添加其他文字。"@);
    lemma_framed_is_contained("只输出这八个大写字母："@, letters, ""@);
    lemma_framed_is_contained("下面是我要核对的短码，回复短码本身即可："@, letters, ""@);
    lemma_framed_is_contained("请在回答中仅保留括号内的内容（"@, letters, "）。"@);
    lemma_framed_is_contained("把 "@, letters, " 按字符倒序输出，除此之外不要写内容。"@);
    lemma_framed_is_contained("将大写字符串 "@, letters, " 转成小写后直接回复。"@);
    lemma_framed_is_contained("字符串 "@, letters, " 有几个字符？只回答整数。"@);
    lemma_framed_is_contained("只回复 "@, letters, " 的前三个字符。"@);
    if form == 5 {
        assert forall|i: int| 0 <= i < 8 implies #[trigger] canary(seed).1[i] as int
            == letters[i] as int + 32 by {
            text::characters_are_told_by_code_point(letters[i]);
        }
    }
    if form == 6 {
        assert(text::decimal_nat(8) =~= seq!['8']);
    }
}

proof fn lemma_framed_is_contained(before: Seq<char>, middle: Seq<char>, after: Seq<char>)
    ensures
        text::contains(before + middle + after, middle),
{
    text::parts_stand_between_others(before + middle + after, middle, before, after);
}

/// A benchmark is a sum in one step on two numbers of four digits, or on small numbers made of
/// them, and it is answered by the number that it asks for.
pub proof fn benchmarks_are_answered_by_their_result(seed: Seq<u8>, left: int, right: int)
    requires
        left == (seed[0] * 256 + seed[1]) % 9_000 + 1_000,
        right == (seed[2] * 256 + seed[3]) % 9_000 + 1_000,
    ensures
        1_000 <= left <= 9_999,
        seed[5] % 8 == 0 || seed[5] % 8 == 1 || seed[5] % 8 == 7 ==> text::number_read(
            benchmark(seed).1,
        ) == left + right,
        seed[5] % 8 == 2 ==> text::number_read(benchmark(seed).1) == left,
        seed[5] % 8 == 3 ==> text::number_read(benchmark(seed).1) == (left % 97 + 3) * (right % 29
            + 2),
        seed[5] % 8 == 4 ==> {
            &&& text::number_read(benchmark(seed).1) >= left
            &&& text::number_read(benchmark(seed).1) >= right
            &&& text::number_read(benchmark(seed).1) == left || text::number_read(benchmark(seed).1)
                == right
        },
        seed[5] % 8 == 5 ==> text::number_read(benchmark(seed).1) == left % 10,
        seed[5] % 8 == 6 ==> text::number_read(benchmark(seed).1) == right + right % 29 + 2,
{
    let small_left = left % 97 + 3;
    let small_right = right % 29 + 2;
    text::decimals_are_read_back(left + right);
    text::decimals_are_read_back(left);
    text::decimals_are_read_back(right);
    text::decimals_are_read_back(left % 10);
    text::decimals_are_read_back(right + small_right);
    assert(small_left * small_right >= 0) by (nonlinear_arith)
        requires
            small_left >= 0,
            small_right >= 0,
    ;
    text::decimals_are_read_back(small_left * small_right);
}

/// A challenge is made of its seed alone: the question of its kind, the hash of the answer, one
/// of six limits, one of four temperatures, and the number that the model starts from.
pub proof fn challenges_come_from_their_seed(
    challenge: GeneratedChallenge,
    kind: PrivateEvaluationKind,
    seed: Seq<u8>,
)
    requires
        seed.len() == 32,
        made_from(challenge, kind, seed),
    ensures
        kind == PrivateEvaluationKind::Canary ==> challenge.prompt@ == canary(seed).0
            && challenge.expected_behavior_sha256@ == billing::sha256_text(canary(seed).1),
        kind == PrivateEvaluationKind::HiddenBenchmark ==> challenge.prompt@ == benchmark(seed).0
            && challenge.expected_behavior_sha256@ == billing::sha256_text(benchmark(seed).1),
        seed[10] % 6 == 0 ==> challenge.max_output_tokens == 16,
        seed[10] % 6 == 1 ==> challenge.max_output_tokens == 24,
        seed[10] % 6 == 2 ==> challenge.max_output_tokens == 32,
        seed[10] % 6 == 3 ==> challenge.max_output_tokens == 48,
        seed[10] % 6 == 4 ==> challenge.max_output_tokens == 64,
        seed[10] % 6 == 5 ==> challenge.max_output_tokens == 96,
        challenge.temperature_tenths == seed[11] % 4,
        challenge.inference_seed == text::bytes_read(seed.subrange(12, 16)),
{
    reveal_with_fuel(text::bytes_read, 5);
    let bytes = seed.subrange(12, 16);
    assert(bytes.drop_last().drop_last().drop_last().drop_last() =~= Seq::<u8>::empty());
    assert(bytes.drop_last().drop_last().drop_last() =~= seq![seed[12]]);
    assert(bytes.drop_last().drop_last() =~= seq![seed[12], seed[13]]);
    assert(bytes.drop_last() =~= seq![seed[12], seed[13], seed[14]]);
}

/// A prompt with one of the words that give a private question away, in capitals or not, is
/// never taken.
pub proof fn telling_words_are_found(
    prompt: Seq<char>,
    before: Seq<char>,
    word: Seq<char>,
    after: Seq<char>,
)
    requires
        text::ascii_lowercase(prompt) == before + word + after,
        word == "mindone"@ || word == "evaluation"@ || word == "benchmark"@ || word == "canary"@
            || word == "评价"@ || word == "评测"@,
    ensures
        !no_private_marker(prompt),
{
    text::parts_stand_between_others(text::ascii_lowercase(prompt), word, before, after);
    let markers = private_markers();
    assert(markers[0] == "mindone"@ && markers[1] == "evaluation"@ && markers[2] == "benchmark"@);
    assert(markers[3] == "canary"@ && markers[4] == "评价"@ && markers[5] == "评测"@);
}

} // verus!
